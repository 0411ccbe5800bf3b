use sidebar::pointer::{tab_commands, Modifiers, PointerButton, TabCommands, TabPointerEvent};

const NONE: Modifiers = Modifiers { shift: false, ctrl: false, alt: false };
const CTRL: Modifiers = Modifiers { shift: false, ctrl: true, alt: false };
const SHIFT: Modifiers = Modifiers { shift: true, ctrl: false, alt: false };

fn nothing() -> TabCommands {
    TabCommands {
        hover: false,
        unhover: false,
        drag_over: false,
        ctrl_select: false,
        shift_select: false,
        click_and_drag: false,
        close: false,
    }
}

fn down(button: PointerButton, modifiers: Modifiers) -> TabPointerEvent {
    TabPointerEvent::Down { button, modifiers }
}

fn up(button: PointerButton, modifiers: Modifiers) -> TabPointerEvent {
    TabPointerEvent::Up { button, modifiers }
}

#[test]
fn plain_left_press_clicks_and_starts_drag() {
    let c = tab_commands(down(PointerButton::Left, NONE), true, false);
    assert_eq!(c, TabCommands { click_and_drag: true, ..nothing() });
}

#[test]
fn ctrl_left_press_toggles_selection() {
    let c = tab_commands(down(PointerButton::Left, CTRL), true, false);
    assert_eq!(c, TabCommands { ctrl_select: true, ..nothing() });
}

#[test]
fn shift_left_press_extends_selection() {
    let c = tab_commands(down(PointerButton::Left, SHIFT), true, false);
    assert_eq!(c, TabCommands { shift_select: true, ..nothing() });
}

#[test]
fn press_with_alt_or_two_modifiers_does_nothing() {
    let alt = Modifiers { shift: false, ctrl: false, alt: true };
    let both = Modifiers { shift: true, ctrl: true, alt: false };
    assert_eq!(tab_commands(down(PointerButton::Left, alt), true, false), nothing());
    assert_eq!(tab_commands(down(PointerButton::Left, both), true, false), nothing());
}

#[test]
fn press_over_close_button_or_without_position_does_nothing() {
    assert_eq!(tab_commands(down(PointerButton::Left, NONE), true, true), nothing());
    assert_eq!(tab_commands(down(PointerButton::Left, NONE), false, false), nothing());
    assert_eq!(tab_commands(down(PointerButton::Right, NONE), true, false), nothing());
    assert_eq!(tab_commands(down(PointerButton::Middle, NONE), true, false), nothing());
}

#[test]
fn middle_release_closes_the_tab() {
    let c = tab_commands(up(PointerButton::Middle, NONE), true, false);
    assert_eq!(c, TabCommands { close: true, ..nothing() });
    // The close button being hovered does not matter on release.
    let c = tab_commands(up(PointerButton::Middle, NONE), true, true);
    assert_eq!(c, TabCommands { close: true, ..nothing() });
}

#[test]
fn other_releases_do_nothing() {
    assert_eq!(tab_commands(up(PointerButton::Middle, SHIFT), true, false), nothing());
    assert_eq!(tab_commands(up(PointerButton::Middle, NONE), false, false), nothing());
    assert_eq!(tab_commands(up(PointerButton::Left, NONE), true, false), nothing());
    assert_eq!(tab_commands(up(PointerButton::Right, NONE), true, false), nothing());
    assert_eq!(tab_commands(up(PointerButton::Other, NONE), true, false), nothing());
}

#[test]
fn enter_hovers_and_drags_over_known_positions() {
    assert_eq!(
        tab_commands(TabPointerEvent::Enter, true, false),
        TabCommands { hover: true, drag_over: true, ..nothing() }
    );
    assert_eq!(
        tab_commands(TabPointerEvent::Enter, false, false),
        TabCommands { hover: true, ..nothing() }
    );
}

#[test]
fn leave_unhovers_and_close_click_closes() {
    assert_eq!(
        tab_commands(TabPointerEvent::Leave, true, true),
        TabCommands { unhover: true, ..nothing() }
    );
    assert_eq!(
        tab_commands(TabPointerEvent::CloseClick, false, false),
        TabCommands { close: true, ..nothing() }
    );
}

#[test]
fn no_event_acts_on_the_tab_twice() {
    let buttons = [PointerButton::Left, PointerButton::Middle, PointerButton::Right, PointerButton::Other];
    for b in buttons {
        for bits in 0..8u8 {
            let m = Modifiers { shift: bits & 1 != 0, ctrl: bits & 2 != 0, alt: bits & 4 != 0 };
            for known in [false, true] {
                for hovered in [false, true] {
                    for e in [down(b, m), up(b, m)] {
                        let c = tab_commands(e, known, hovered);
                        let n = [c.ctrl_select, c.shift_select, c.click_and_drag, c.close]
                            .iter()
                            .filter(|x| **x)
                            .count();
                        assert!(n <= 1);
                        if m.alt {
                            assert_eq!(n, 0);
                        }
                    }
                }
            }
        }
    }
}
