use browser_shell::navigation::{navigation_script, NavigationAction};

#[test]
fn navigate_script_sets_the_location() {
    let s = navigation_script(&NavigationAction::Navigate("https://example.com".to_string()));
    assert_eq!(s, "window.location.href = 'https://example.com'");
}

#[test]
fn history_scripts_are_fixed() {
    assert_eq!(navigation_script(&NavigationAction::Back), "window.history.back()");
    assert_eq!(navigation_script(&NavigationAction::Forward), "window.history.forward()");
    assert_eq!(navigation_script(&NavigationAction::Reload), "window.location.reload()");
}
