//! Texts and styles that the sidebar derives from plain values.

use vstd::prelude::*;
use vstd::string::*;
use crate::decimal::{decimal, decimal_chars};

verus! {

/// The text shown for an optional text: the text, or nothing.
pub open spec fn shown_text(value: Option<String>) -> Seq<char> {
    match value {
        Some(s) => s@,
        None => Seq::empty(),
    }
}

/// The text shown for an optional text (a tab's title, a group's name, the
/// message of a failure): the text itself, or the empty text.
pub fn text_or_empty(value: &Option<String>) -> (t: &str)
    ensures
        t@ == shown_text(*value),
        value is Some ==> t@ == value->0@,
        value is None ==> t@.len() == 0,
{
    match value {
        Some(s) => s.as_str(),
        None => {
            proof {
                reveal_strlit("");
            }
            ""
        },
    }
}

/// The image of a tab: its favicon, or `fallback` where it has none.
pub fn favicon_src<'a>(favicon_url: &'a Option<String>, fallback: &'a str) -> (src: &'a str)
    ensures
        src@ == (match *favicon_url {
            Some(u) => u@,
            None => fallback@,
        }),
{
    match favicon_url {
        Some(u) => u.as_str(),
        None => fallback,
    }
}

/// The mark in front of the title of an unloaded tab: an arrow, followed by
/// a space where a title follows. A loaded tab has no mark.
pub fn unloaded_prefix(unloaded: bool, has_title: bool) -> (p: &'static str)
    ensures
        p@ == (if !unloaded {
            ""@
        } else if has_title {
            "➔ "@
        } else {
            "➔"@
        }),
{
    proof {
        reveal_strlit("");
    }
    if unloaded {
        if has_title {
            "➔ "
        } else {
            "➔"
        }
    } else {
        ""
    }
}

/// The background of the search box: a light red while a failure is
/// reported, the default otherwise.
pub fn search_background(failed: bool) -> (color: Option<&'static str>)
    ensures
        failed ==> color is Some && color->0@ == "hsl(5, 100%, 90%)"@,
        !failed ==> color is None,
{
    if failed {
        Some("hsl(5, 100%, 90%)")
    } else {
        None
    }
}

/// The cursor of the whole page: a grabbing hand while a tab is dragged,
/// the default otherwise.
pub fn page_cursor(dragging: bool) -> (cursor: Option<&'static str>)
    ensures
        dragging ==> cursor is Some && cursor->0@ == "grabbing"@,
        !dragging ==> cursor is None,
{
    if dragging {
        Some("grabbing")
    } else {
        None
    }
}

/// The parts of the URL of the hovered tab, as the URL bar shows them.
#[derive(Clone, Debug)]
pub struct UrlBar {
    pub protocol: Option<String>,
    pub domain: Option<String>,
    pub path: Option<String>,
    pub file: Option<String>,
    pub query: Option<String>,
    pub hash: Option<String>,
}

/// A part of the URL is shown when it is there and not empty.
pub open spec fn part_present(part: Option<String>) -> bool {
    part is Some && part->0@.len() > 0
}

/// The URL bar has something to show.
pub open spec fn bar_has_content(bar: UrlBar) -> bool {
    part_present(bar.protocol) || part_present(bar.domain) || part_present(bar.path)
        || part_present(bar.file) || part_present(bar.query) || part_present(bar.hash)
}

/// Whether a part of the URL is shown.
pub fn part_shown(part: &Option<String>) -> (b: bool)
    ensures
        b == part_present(*part),
        b == (part is Some && part->0@.len() > 0),
{
    match part {
        Some(s) => !s.as_str().is_empty(),
        None => false,
    }
}

/// Whether the URL bar is shown: never while a tab is dragged, and
/// otherwise when there is a hovered tab whose URL has a part to show.
pub fn url_bar_visible(dragging: bool, bar: &Option<UrlBar>) -> (b: bool)
    ensures
        b == (!dragging && match *bar {
            Some(u) => bar_has_content(u),
            None => false,
        }),
        b <==> (!dragging && bar is Some && {
            let u = bar->0;
            ||| u.protocol is Some && u.protocol->0@.len() > 0
            ||| u.domain is Some && u.domain->0@.len() > 0
            ||| u.path is Some && u.path->0@.len() > 0
            ||| u.file is Some && u.file->0@.len() > 0
            ||| u.query is Some && u.query->0@.len() > 0
            ||| u.hash is Some && u.hash->0@.len() > 0
        }),
{
    let has_content = match bar {
        Some(u) => part_shown(&u.protocol) || part_shown(&u.domain) || part_shown(&u.path)
            || part_shown(&u.file) || part_shown(&u.query) || part_shown(&u.hash),
        None => false,
    };
    !dragging && has_content
}

/// The label of a group: its name, or else its position counted from one.
pub open spec fn label_for(name: Option<String>, index: Option<usize>) -> Option<Seq<char>> {
    match name {
        Some(n) => Some(n@),
        None => match index {
            Some(i) => Some(decimal_chars((i + 1) as nat)),
            None => None,
        },
    }
}

/// The label of a group with `name` at position `index` of the group list
/// (a group that is being removed has no position): the name, or else the
/// position counted from one, or nothing when it has neither.
pub fn group_label(name: Option<String>, index: Option<usize>) -> (label: Option<String>)
    requires
        name is None && index is Some ==> index->0 < usize::MAX,
    ensures
        label is Some == label_for(name, index) is Some,
        label is Some ==> label->0@ == label_for(name, index)->0,
        name is Some ==> label == name,
        name is None && index is Some ==> label is Some && label->0@ == decimal_chars(
            (index->0 + 1) as nat,
        ),
        name is None && index is None ==> label is None,
{
    match name {
        Some(n) => Some(n),
        None => match index {
            Some(i) => Some(decimal(i + 1)),
            None => None,
        },
    }
}

/// The label a group header shows next: the new label where there is one,
/// else the label it already shows. A header that has shown a label never
/// turns blank.
pub fn next_shown_label(shown: Option<String>, name: Option<String>, index: Option<usize>) -> (next:
    Option<String>)
    requires
        name is None && index is Some ==> index->0 < usize::MAX,
    ensures
        label_for(name, index) is Some ==> next is Some && next->0@ == label_for(name, index)->0,
        label_for(name, index) is None ==> next == shown,
        shown is Some ==> next is Some,
{
    match group_label(name, index) {
        Some(l) => Some(l),
        None => shown,
    }
}

/// Where a tab of a dragged selection is drawn in the stack under the
/// pointer.
#[derive(Clone, Copy, Debug, PartialEq, Eq, Structural)]
pub enum StackSlot {
    /// The first tab: drawn in full, with its close button and hover look.
    Top,
    /// The next four tabs: slide up under the first one.
    Stacked,
    /// The rest: slide up and fade out.
    Hidden,
}

pub open spec fn slot_of(index: usize) -> StackSlot {
    if index == 0 {
        StackSlot::Top
    } else if index < 5 {
        StackSlot::Stacked
    } else {
        StackSlot::Hidden
    }
}

/// The slot of the tab at `index` in the dragged selection.
pub fn stack_slot(index: usize) -> (slot: StackSlot)
    ensures
        slot == slot_of(index),
        (slot == StackSlot::Top) == (index == 0),
        (slot == StackSlot::Stacked) == (1 <= index <= 4),
        (slot == StackSlot::Hidden) == (index >= 5),
{
    if index == 0 {
        StackSlot::Top
    } else if index < 5 {
        StackSlot::Stacked
    } else {
        StackSlot::Hidden
    }
}

/// The stacking order of the tab at `index` in the dragged selection: minus
/// its index, so that each tab is drawn under the ones before it.
pub fn stack_z_index(index: usize) -> (z: String)
    ensures
        z@ == seq!['-'] + decimal_chars(index as nat),
{
    let mut z = String::from_str("-");
    let digits = decimal(index);
    z.append(digits.as_str());
    proof {
        reveal_strlit("-");
    }
    z
}

/// A text is shown whole: a present text exactly as it is, whatever its
/// length, and an absent one as the empty text.
pub proof fn shown_text_is_the_text(value: Option<String>)
    ensures
        value is Some ==> shown_text(value) == value->0@,
        value is None ==> shown_text(value).len() == 0,
{
}

/// Each part of the URL, alone and non-empty, has the bar show; a bar whose
/// six parts are all missing or empty has nothing to show.
pub proof fn url_bar_content_law(u: UrlBar)
    ensures
        (u.protocol is Some && u.protocol->0@.len() > 0) ==> bar_has_content(u),
        (u.domain is Some && u.domain->0@.len() > 0) ==> bar_has_content(u),
        (u.path is Some && u.path->0@.len() > 0) ==> bar_has_content(u),
        (u.file is Some && u.file->0@.len() > 0) ==> bar_has_content(u),
        (u.query is Some && u.query->0@.len() > 0) ==> bar_has_content(u),
        (u.hash is Some && u.hash->0@.len() > 0) ==> bar_has_content(u),
        bar_has_content(u) ==> {
            ||| u.protocol is Some && u.protocol->0@.len() > 0
            ||| u.domain is Some && u.domain->0@.len() > 0
            ||| u.path is Some && u.path->0@.len() > 0
            ||| u.file is Some && u.file->0@.len() > 0
            ||| u.query is Some && u.query->0@.len() > 0
            ||| u.hash is Some && u.hash->0@.len() > 0
        },
{
}

/// A named group is labelled by its name. An unnamed group is labelled by
/// the decimal number of its position counted from one: the label reads as
/// `i + 1`, and two unnamed groups at different positions never share a
/// label.
pub proof fn group_label_law(name: String, i: usize, j: usize)
    ensures
        label_for(Some(name), Some(i)) == Some(name@),
        label_for(None, Some(i)) is Some,
        crate::decimal::decimal_value(label_for(None, Some(i))->0) == i + 1,
        i != j ==> label_for(None, Some(i)) != label_for(None, Some(j)),
        label_for(None, None) is None,
{
    crate::decimal::decimal_value_law((i + 1) as nat);
    crate::decimal::decimal_value_law((j + 1) as nat);
}

/// The rank of a slot, from the top of the stack down.
pub open spec fn slot_rank(slot: StackSlot) -> int {
    match slot {
        StackSlot::Top => 0,
        StackSlot::Stacked => 1,
        StackSlot::Hidden => 2,
    }
}

/// Only the first dragged tab is on top, the second to fifth slide under
/// it, and every later one fades out; further tabs never come higher in the
/// stack than earlier ones.
pub proof fn stack_slot_law(i: usize, j: usize)
    ensures
        (slot_of(i) == StackSlot::Top) == (i == 0),
        (slot_of(i) == StackSlot::Stacked) == (1 <= i <= 4),
        (slot_of(i) == StackSlot::Hidden) == (i >= 5),
        i <= j ==> slot_rank(slot_of(i)) <= slot_rank(slot_of(j)),
{
}

} // verus!
