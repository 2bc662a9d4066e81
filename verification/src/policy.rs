//! New-window policy: classifies an outgoing navigation target either as
//! part of an identity-provider sign-in flow, which must keep its native
//! pop-up (and with it the `window.opener` back-channel), or as an ordinary
//! link, which is intercepted and opened in a window group of our own.

use vstd::prelude::*;
use crate::text::{contains_spec, str_contains};

verus! {

#[derive(Clone, Copy, PartialEq, Eq, Structural, Debug)]
pub enum NavigationDecision {
    PassThrough,
    Intercept,
}

/// True when the navigation target looks like part of a third-party
/// sign-in flow. The substring list is intentionally over-inclusive:
/// a false positive only makes an ordinary link open as a native pop-up.
pub open spec fn is_identity_provider_url(url: Seq<char>) -> bool {
    ||| contains_spec(url, "accounts.google.com"@)
    ||| contains_spec(url, "login.microsoftonline.com"@)
    ||| contains_spec(url, "facebook.com/login"@)
    ||| contains_spec(url, "facebook.com/v"@)
    ||| contains_spec(url, "appleid.apple.com"@)
    ||| contains_spec(url, "github.com/login/oauth"@)
    ||| contains_spec(url, "twitter.com/oauth"@)
    ||| contains_spec(url, "api.twitter.com"@)
    ||| contains_spec(url, "oauth"@)
    ||| contains_spec(url, "authorize"@)
    ||| contains_spec(url, "signin"@)
    ||| contains_spec(url, "auth/"@)
}

pub open spec fn decide_spec(url: Seq<char>) -> NavigationDecision {
    if is_identity_provider_url(url) {
        NavigationDecision::PassThrough
    } else {
        NavigationDecision::Intercept
    }
}

/// Decides what to do with a pop-up request for `url`: identity-provider
/// targets pass through to the native pop-up, everything else is
/// intercepted.
pub fn decide_new_window(url: &str) -> (d: NavigationDecision)
    ensures
        d == decide_spec(url@),
{
    let identity_provider = str_contains(url, "accounts.google.com") || str_contains(
        url,
        "login.microsoftonline.com",
    ) || str_contains(url, "facebook.com/login") || str_contains(url, "facebook.com/v")
        || str_contains(url, "appleid.apple.com") || str_contains(url, "github.com/login/oauth")
        || str_contains(url, "twitter.com/oauth") || str_contains(url, "api.twitter.com")
        || str_contains(url, "oauth") || str_contains(url, "authorize") || str_contains(
        url,
        "signin",
    ) || str_contains(url, "auth/");
    if identity_provider {
        NavigationDecision::PassThrough
    } else {
        NavigationDecision::Intercept
    }
}

/// The policy is deterministic: equal navigation targets always get the
/// same decision.
pub proof fn lemma_policy_deterministic(u1: Seq<char>, u2: Seq<char>)
    requires
        u1 == u2,
    ensures
        decide_spec(u1) == decide_spec(u2),
{
}

} // verus!
