use browser_shell::relay::{relay_window_event, HostWindowEvent, RelayAction};

#[test]
fn destroyed_window_emits_closed_for_its_content_surface() {
    match relay_window_event("window-xyz", HostWindowEvent::Destroyed, 20) {
        RelayAction::EmitClosed { content_label } => assert_eq!(content_label, "content-xyz"),
        _ => panic!("expected a closed notification"),
    }
}

#[test]
fn resize_repositions_both_surfaces() {
    match relay_window_event("window-xyz", HostWindowEvent::Resized(800, 600), 40) {
        RelayAction::Reposition { titlebar_label, titlebar_rect, content_label, content_rect } => {
            assert_eq!(titlebar_label, "titlebar-xyz");
            assert_eq!(content_label, "content-xyz");
            assert_eq!(
                (titlebar_rect.x, titlebar_rect.y, titlebar_rect.width, titlebar_rect.height),
                (0, 0, 800, 40)
            );
            assert_eq!(
                (content_rect.x, content_rect.y, content_rect.width, content_rect.height),
                (0, 40, 800, 560)
            );
        }
        _ => panic!("expected a reposition"),
    }
}

#[test]
fn events_for_other_windows_are_ignored() {
    match relay_window_event("main", HostWindowEvent::Destroyed, 20) {
        RelayAction::Ignore => {}
        _ => panic!("expected the event to be ignored"),
    }
    match relay_window_event("content-xyz", HostWindowEvent::Resized(10, 10), 20) {
        RelayAction::Ignore => {}
        _ => panic!("expected the event to be ignored"),
    }
}
