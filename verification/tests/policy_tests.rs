use browser_shell::policy::{decide_new_window, NavigationDecision};

#[test]
fn google_sign_in_passes_through() {
    assert_eq!(
        decide_new_window("https://accounts.google.com/o/oauth2/v2/auth"),
        NavigationDecision::PassThrough
    );
}

#[test]
fn ordinary_link_is_intercepted() {
    assert_eq!(
        decide_new_window("https://example.com/foo"),
        NavigationDecision::Intercept
    );
}

#[test]
fn decision_is_deterministic() {
    let first = decide_new_window("https://example.com/foo");
    let second = decide_new_window("https://example.com/foo");
    assert_eq!(first, second);
}

#[test]
fn known_identity_providers_pass_through() {
    let urls = [
        "https://login.microsoftonline.com/common",
        "https://appleid.apple.com/auth",
        "https://github.com/login/oauth/authorize",
        "https://www.facebook.com/login.php",
        "https://api.twitter.com/request_token",
        "https://idp.example.org/oauth/start",
        "https://sso.example.org/signin",
        "https://portal.example.org/auth/callback",
    ];
    for url in urls {
        assert_eq!(decide_new_window(url), NavigationDecision::PassThrough);
    }
}

#[test]
fn auth_fragment_needs_its_slash() {
    assert_eq!(
        decide_new_window("https://example.com/author"),
        NavigationDecision::Intercept
    );
}
