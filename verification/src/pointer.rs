//! What the pointer does on a tab row of the sidebar.

use vstd::prelude::*;

verus! {

/// The mouse button of an event.
#[derive(Clone, Copy, Debug, PartialEq, Eq, Structural)]
pub enum PointerButton {
    Left,
    Middle,
    Right,
    /// The fourth, fifth or any further button.
    Other,
}

/// The modifier keys held during an event.
#[derive(Clone, Copy, Debug, PartialEq, Eq, Structural)]
pub struct Modifiers {
    pub shift: bool,
    pub ctrl: bool,
    pub alt: bool,
}

/// A pointer event on a tab row or on its close button.
#[derive(Clone, Copy, Debug, PartialEq, Eq, Structural)]
pub enum TabPointerEvent {
    /// A button went down over the row.
    Down { button: PointerButton, modifiers: Modifiers },
    /// A button went up over the row.
    Up { button: PointerButton, modifiers: Modifiers },
    /// The pointer entered the row.
    Enter,
    /// The pointer left the row.
    Leave,
    /// The close button of the row was clicked.
    CloseClick,
}

/// What the sidebar does in answer to a pointer event on a tab.
#[derive(Clone, Copy, Debug, PartialEq, Eq, Structural)]
pub struct TabCommands {
    /// Mark the tab as hovered.
    pub hover: bool,
    /// Clear the hovered mark of the tab.
    pub unhover: bool,
    /// Move the drag gap of a running drag to this tab's position.
    pub drag_over: bool,
    /// Toggle the tab in the selection.
    pub ctrl_select: bool,
    /// Extend the selection to the tab.
    pub shift_select: bool,
    /// Click the tab (focus it) and start dragging it.
    pub click_and_drag: bool,
    /// Close the tab.
    pub close: bool,
}

pub open spec fn no_commands() -> TabCommands {
    TabCommands {
        hover: false,
        unhover: false,
        drag_over: false,
        ctrl_select: false,
        shift_select: false,
        click_and_drag: false,
        close: false,
    }
}

/// The commands for `event`, where `index_known` says whether the tab still
/// has a position in its group (a tab that is being removed has none) and
/// `close_hovered` whether the pointer is over the tab's close button.
pub open spec fn spec_tab_commands(
    event: TabPointerEvent,
    index_known: bool,
    close_hovered: bool,
) -> TabCommands {
    match event {
        TabPointerEvent::Down { button, modifiers } => {
            let pressed = !close_hovered && index_known && button == PointerButton::Left;
            let m = modifiers;
            TabCommands {
                ctrl_select: pressed && m.ctrl && !m.shift && !m.alt,
                shift_select: pressed && !m.ctrl && m.shift && !m.alt,
                click_and_drag: pressed && !m.ctrl && !m.shift && !m.alt,
                ..no_commands()
            }
        },
        TabPointerEvent::Up { button, modifiers } => TabCommands {
            close: index_known && button == PointerButton::Middle && !modifiers.shift
                && !modifiers.ctrl && !modifiers.alt,
            ..no_commands()
        },
        TabPointerEvent::Enter => TabCommands { hover: true, drag_over: index_known, ..no_commands() },
        TabPointerEvent::Leave => TabCommands { unhover: true, ..no_commands() },
        TabPointerEvent::CloseClick => TabCommands { close: true, ..no_commands() },
    }
}

/// How many of the commands that act on the tab itself (select, click,
/// close) are set.
pub open spec fn tab_actions(c: TabCommands) -> int {
    (if c.ctrl_select { 1int } else { 0 }) + (if c.shift_select { 1int } else { 0 }) + (if c.click_and_drag {
        1int
    } else {
        0
    }) + (if c.close { 1int } else { 0 })
}

/// Answers a pointer event on a tab.
pub fn tab_commands(event: TabPointerEvent, index_known: bool, close_hovered: bool) -> (c:
    TabCommands)
    ensures
        c == spec_tab_commands(event, index_known, close_hovered),
        event is CloseClick ==> c == (TabCommands {
            hover: false,
            unhover: false,
            drag_over: false,
            ctrl_select: false,
            shift_select: false,
            click_and_drag: false,
            close: true,
        }),
{
    let none = TabCommands {
        hover: false,
        unhover: false,
        drag_over: false,
        ctrl_select: false,
        shift_select: false,
        click_and_drag: false,
        close: false,
    };
    match event {
        TabPointerEvent::Down { button, modifiers } => {
            let mut c = none;
            if !close_hovered && index_known {
                if let PointerButton::Left = button {
                    let shift = modifiers.shift;
                    let ctrl = modifiers.ctrl;
                    let alt = modifiers.alt;
                    if ctrl && !shift && !alt {
                        c.ctrl_select = true;
                    } else if !ctrl && shift && !alt {
                        c.shift_select = true;
                    } else if !ctrl && !shift && !alt {
                        c.click_and_drag = true;
                    }
                }
            }
            c
        },
        TabPointerEvent::Up { button, modifiers } => {
            let mut c = none;
            if index_known {
                match button {
                    PointerButton::Middle => {
                        if !modifiers.shift && !modifiers.ctrl && !modifiers.alt {
                            c.close = true;
                        }
                    },
                    _ => {},
                }
            }
            c
        },
        TabPointerEvent::Enter => TabCommands { hover: true, drag_over: index_known, ..none },
        TabPointerEvent::Leave => TabCommands { unhover: true, ..none },
        TabPointerEvent::CloseClick => TabCommands { close: true, ..none },
    }
}

/// A single pointer event acts on the tab in at most one way: it never both
/// selects and closes, nor selects in two ways at once; with alt held a
/// button does nothing to the tab; and a button that goes down over the
/// close button leaves the tab's selection alone.
pub proof fn one_action_per_event(event: TabPointerEvent, index_known: bool, close_hovered: bool)
    ensures
        tab_actions(spec_tab_commands(event, index_known, close_hovered)) <= 1,
        (event matches TabPointerEvent::Down { modifiers, .. } && modifiers.alt) ==> tab_actions(
            spec_tab_commands(event, index_known, close_hovered),
        ) == 0,
        (event matches TabPointerEvent::Up { modifiers, .. } && modifiers.alt) ==> tab_actions(
            spec_tab_commands(event, index_known, close_hovered),
        ) == 0,
        (event is Down && close_hovered) ==> tab_actions(
            spec_tab_commands(event, index_known, close_hovered),
        ) == 0,
{
}

/// What each pointer event does to a tab, for every position state and
/// close-button hover:
/// - a click on the close button closes the tab, and does nothing else;
/// - the pointer entering the row hovers it, and moves a running drag's gap
///   there exactly when the tab has a position; leaving the row unhovers it;
/// - a left press on a positioned tab, away from its close button, with no
///   modifier clicks it and starts a drag; with ctrl alone it toggles the
///   tab's selection; with shift alone it extends the selection; with any
///   other button, over the close button, or without a position it does
///   nothing;
/// - a middle release with no modifier on a positioned tab closes it; every
///   other release does nothing.
pub proof fn pointer_event_meaning(index_known: bool, close_hovered: bool, m: Modifiers)
    ensures
        spec_tab_commands(TabPointerEvent::CloseClick, index_known, close_hovered)
            == (TabCommands {
            hover: false,
            unhover: false,
            drag_over: false,
            ctrl_select: false,
            shift_select: false,
            click_and_drag: false,
            close: true,
        }),
        spec_tab_commands(TabPointerEvent::Enter, index_known, close_hovered) == (TabCommands {
            hover: true,
            unhover: false,
            drag_over: index_known,
            ctrl_select: false,
            shift_select: false,
            click_and_drag: false,
            close: false,
        }),
        spec_tab_commands(TabPointerEvent::Leave, index_known, close_hovered) == (TabCommands {
            hover: false,
            unhover: true,
            drag_over: false,
            ctrl_select: false,
            shift_select: false,
            click_and_drag: false,
            close: false,
        }),
        ({
            let c = spec_tab_commands(
                TabPointerEvent::Down { button: PointerButton::Left, modifiers: m },
                index_known,
                close_hovered,
            );
            let live = index_known && !close_hovered;
            &&& c.click_and_drag == (live && !m.shift && !m.ctrl && !m.alt)
            &&& c.ctrl_select == (live && !m.shift && m.ctrl && !m.alt)
            &&& c.shift_select == (live && m.shift && !m.ctrl && !m.alt)
            &&& !c.close && !c.hover && !c.unhover && !c.drag_over
        }),
        forall|b: PointerButton|
            b != PointerButton::Left ==> {
                let c = #[trigger] spec_tab_commands(
                    TabPointerEvent::Down { button: b, modifiers: m },
                    index_known,
                    close_hovered,
                );
                !c.click_and_drag && !c.ctrl_select && !c.shift_select && !c.close && !c.hover
                    && !c.unhover && !c.drag_over
            },
        forall|b: PointerButton|
            {
                let c = #[trigger] spec_tab_commands(
                    TabPointerEvent::Up { button: b, modifiers: m },
                    index_known,
                    close_hovered,
                );
                &&& c.close == (b == PointerButton::Middle && index_known && !m.shift && !m.ctrl
                    && !m.alt)
                &&& !c.click_and_drag && !c.ctrl_select && !c.shift_select && !c.hover
                    && !c.unhover && !c.drag_over
            },
{
}

} // verus!
