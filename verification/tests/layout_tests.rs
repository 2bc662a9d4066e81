use browser_shell::layout::layout;

#[test]
fn resized_window_tiles_into_titlebar_and_content() {
    let l = layout(800, 600, 40);
    assert_eq!(l.titlebar.x, 0);
    assert_eq!(l.titlebar.y, 0);
    assert_eq!(l.titlebar.width, 800);
    assert_eq!(l.titlebar.height, 40);
    assert_eq!(l.content.x, 0);
    assert_eq!(l.content.y, 40);
    assert_eq!(l.content.width, 800);
    assert_eq!(l.content.height, 560);
}

#[test]
fn layout_rects_cover_the_window_exactly() {
    let l = layout(1402, 801, 20);
    assert_eq!(l.titlebar.height + l.content.height, 801);
    assert_eq!(l.titlebar.y + l.titlebar.height, l.content.y);
    assert_eq!(l.titlebar.width, l.content.width);
}

#[test]
fn window_shorter_than_titlebar_gets_empty_content() {
    let l = layout(800, 10, 40);
    assert_eq!(l.titlebar.height, 40);
    assert_eq!(l.content.y, 40);
    assert_eq!(l.content.height, 0);
}
