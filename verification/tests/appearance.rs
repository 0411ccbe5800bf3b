use sidebar::appearance::{
    favicon_src, group_label, next_shown_label, page_cursor, part_shown, search_background,
    stack_slot, stack_z_index, text_or_empty, unloaded_prefix, url_bar_visible, StackSlot, UrlBar,
};

fn bar() -> UrlBar {
    UrlBar { protocol: None, domain: None, path: None, file: None, query: None, hash: None }
}

#[test]
fn texts_default_to_empty() {
    assert_eq!(text_or_empty(&None), "");
    assert_eq!(text_or_empty(&Some("Foo".to_string())), "Foo");
    assert_eq!(favicon_src(&None, "data/images/favicon.png"), "data/images/favicon.png");
    assert_eq!(
        favicon_src(&Some("http://www.saltybet.com/favicon.ico".to_string()), "x"),
        "http://www.saltybet.com/favicon.ico"
    );
}

#[test]
fn unloaded_tabs_get_an_arrow() {
    assert_eq!(unloaded_prefix(true, true), "➔ ");
    assert_eq!(unloaded_prefix(true, false), "➔");
    assert_eq!(unloaded_prefix(false, true), "");
    assert_eq!(unloaded_prefix(false, false), "");
}

#[test]
fn styles_follow_failure_and_dragging() {
    assert_eq!(search_background(true), Some("hsl(5, 100%, 90%)"));
    assert_eq!(search_background(false), None);
    assert_eq!(page_cursor(true), Some("grabbing"));
    assert_eq!(page_cursor(false), None);
}

#[test]
fn url_bar_shows_non_empty_parts_when_not_dragging() {
    assert!(!part_shown(&None));
    assert!(!part_shown(&Some(String::new())));
    assert!(part_shown(&Some("https:".to_string())));
    let mut b = bar();
    assert!(!url_bar_visible(false, &Some(b.clone())));
    b.query = Some(String::new());
    assert!(!url_bar_visible(false, &Some(b.clone())));
    b.hash = Some("#qux".to_string());
    assert!(url_bar_visible(false, &Some(b.clone())));
    assert!(!url_bar_visible(true, &Some(b)));
    assert!(!url_bar_visible(false, &None));
}

#[test]
fn group_label_falls_back_to_position() {
    assert_eq!(group_label(Some("Work".to_string()), Some(3)), Some("Work".to_string()));
    assert_eq!(group_label(None, Some(0)), Some("1".to_string()));
    assert_eq!(group_label(None, Some(9)), Some("10".to_string()));
    assert_eq!(group_label(None, Some(1233)), Some("1234".to_string()));
    assert_eq!(group_label(None, None), None);
}

#[test]
fn group_header_keeps_its_last_label() {
    let shown = next_shown_label(None, None, None);
    assert_eq!(shown, None);
    let shown = next_shown_label(shown, None, Some(4));
    assert_eq!(shown, Some("5".to_string()));
    let shown = next_shown_label(shown, None, None);
    assert_eq!(shown, Some("5".to_string()));
    let shown = next_shown_label(shown, Some("Tag".to_string()), None);
    assert_eq!(shown, Some("Tag".to_string()));
}

#[test]
fn dragged_tabs_stack_under_the_first() {
    assert_eq!(stack_slot(0), StackSlot::Top);
    assert_eq!(stack_slot(1), StackSlot::Stacked);
    assert_eq!(stack_slot(4), StackSlot::Stacked);
    assert_eq!(stack_slot(5), StackSlot::Hidden);
    assert_eq!(stack_slot(100), StackSlot::Hidden);
    assert_eq!(stack_z_index(0), "-0");
    assert_eq!(stack_z_index(7), "-7");
    assert_eq!(stack_z_index(12), "-12");
}
