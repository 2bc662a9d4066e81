//! Navigation commands: navigate, back, forward and reload are injected
//! into the content surface as scripts. The exact script text for each
//! command is fixed here; the host only evaluates it.

use vstd::prelude::*;
use vstd::string::StringExecFns;
use crate::text::concat_strs;

verus! {

/// A navigation command aimed at a content surface.
#[derive(Debug)]
pub enum NavigationAction {
    Navigate(String),
    Back,
    Forward,
    Reload,
}

/// The script that performs a navigation command inside the content
/// surface.
pub fn navigation_script(action: &NavigationAction) -> (r: String)
    ensures
        action matches NavigationAction::Navigate(u) ==> r@ == "window.location.href = '"@ + u@
            + "'"@,
        action is Back ==> r@ == "window.history.back()"@,
        action is Forward ==> r@ == "window.history.forward()"@,
        action is Reload ==> r@ == "window.location.reload()"@,
{
    match action {
        NavigationAction::Navigate(u) => {
            let mut s = concat_strs("window.location.href = '", u.as_str());
            s.append("'");
            s
        },
        NavigationAction::Back => String::from_str("window.history.back()"),
        NavigationAction::Forward => String::from_str("window.history.forward()"),
        NavigationAction::Reload => String::from_str("window.location.reload()"),
    }
}

} // verus!
