use sidebar::loading::{LoadEvent, Loading};
use sidebar::press::Press;

#[test]
fn press_shows_hold_only_while_hovered_and_held() {
    let mut p = Press::new();
    assert!(!p.is_hovered() && !p.is_holding() && !p.shows_hold());
    p.enter();
    assert!(!p.shows_hold());
    p.press();
    assert!(p.shows_hold());
    p.leave();
    assert!(p.is_holding());
    assert!(!p.shows_hold());
    p.enter();
    assert!(p.shows_hold());
    p.release();
    assert!(!p.shows_hold());
    assert!(p.is_hovered());
}

#[test]
fn overlay_appears_when_the_threshold_passes_first() {
    let mut l = Loading::new();
    assert!(!l.is_loaded() && !l.shows_overlay());
    l.handle(LoadEvent::ThresholdElapsed);
    assert!(l.shows_overlay());
    assert!(!l.is_loaded());
    l.handle(LoadEvent::Rendered);
    assert!(l.is_loaded());
    assert!(!l.shows_overlay());
}

#[test]
fn overlay_never_appears_after_rendering() {
    let mut l = Loading::new();
    l.handle(LoadEvent::Rendered);
    l.handle(LoadEvent::ThresholdElapsed);
    assert!(l.is_loaded());
    assert!(!l.shows_overlay());
}
