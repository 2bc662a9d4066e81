use browser_shell::monitor::{
    current_url_reply, replay_monitor, MonitorAction, MonitorState, UrlSample,
};

#[test]
fn current_url_query_answers_or_reports_the_missing_surface() {
    assert_eq!(
        current_url_reply(Some("https://a.example".to_string())),
        Ok("https://a.example".to_string())
    );
    assert_eq!(current_url_reply(None), Err("Webview not found".to_string()));
}

#[test]
fn repeated_addresses_notify_once_per_change() {
    let a = String::new();
    let samples = vec![
        UrlSample::Read(a.clone()),
        UrlSample::Read(a.clone()),
        UrlSample::Read("https://b.example".to_string()),
        UrlSample::Read("https://b.example".to_string()),
        UrlSample::Read("https://c.example".to_string()),
    ];
    let published = replay_monitor(&samples);
    assert_eq!(published, vec!["https://b.example", "https://c.example"]);
}

#[test]
fn no_notifications_after_surface_removed() {
    let samples = vec![
        UrlSample::Read("https://a.example".to_string()),
        UrlSample::Absent,
        UrlSample::Read("https://b.example".to_string()),
        UrlSample::Read("https://c.example".to_string()),
    ];
    let published = replay_monitor(&samples);
    assert_eq!(published, vec!["https://a.example"]);
}

#[test]
fn initial_address_is_published() {
    let samples = vec![UrlSample::Read("https://a.example".to_string())];
    let published = replay_monitor(&samples);
    assert_eq!(published, vec!["https://a.example"]);
}

#[test]
fn failed_read_changes_nothing() {
    let mut st = MonitorState::new();
    match st.observe(&UrlSample::Read("https://a.example".to_string())) {
        MonitorAction::Publish(u) => assert_eq!(u, "https://a.example"),
        _ => panic!("expected a publication"),
    }
    match st.observe(&UrlSample::ReadFailed) {
        MonitorAction::Silent => {}
        _ => panic!("expected silence"),
    }
    match st.observe(&UrlSample::Read("https://a.example".to_string())) {
        MonitorAction::Silent => {}
        _ => panic!("expected silence for the unchanged address"),
    }
}

#[test]
fn absent_surface_stops_the_monitor() {
    let mut st = MonitorState::new();
    match st.observe(&UrlSample::Absent) {
        MonitorAction::Stop => {}
        _ => panic!("expected the monitor to stop"),
    }
}
