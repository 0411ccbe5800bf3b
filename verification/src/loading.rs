//! The loading overlay of the sidebar page. A "LOADING..." overlay appears
//! when the sidebar has not been rendered within a threshold after start; it
//! goes away on the first animation frame after rendering.

use vstd::prelude::*;

verus! {

/// What happens to the page while it loads.
#[derive(Clone, Copy, Debug, PartialEq, Eq, Structural)]
pub enum LoadEvent {
    /// The loading threshold has elapsed.
    ThresholdElapsed,
    /// The first animation frame after the sidebar was rendered.
    Rendered,
}

/// The loading state as plain values.
#[derive(Clone, Copy, Debug, PartialEq, Eq, Structural)]
pub struct LoadView {
    pub loaded: bool,
    pub overlay_shown: bool,
}

/// The state before anything happened.
pub open spec fn start() -> LoadView {
    LoadView { loaded: false, overlay_shown: false }
}

/// The state after `event`.
pub open spec fn step(v: LoadView, event: LoadEvent) -> LoadView {
    match event {
        LoadEvent::ThresholdElapsed => if v.loaded {
            v
        } else {
            LoadView { overlay_shown: true, ..v }
        },
        LoadEvent::Rendered => LoadView { loaded: true, overlay_shown: false },
    }
}

/// The state after a sequence of events.
pub open spec fn run(v: LoadView, events: Seq<LoadEvent>) -> LoadView
    decreases events.len(),
{
    if events.len() == 0 {
        v
    } else {
        run(step(v, events[0]), events.drop_first())
    }
}

/// A loaded page never shows the overlay.
pub open spec fn consistent(v: LoadView) -> bool {
    v.loaded ==> !v.overlay_shown
}

/// The loading state of the page.
pub struct Loading {
    loaded: bool,
    overlay_shown: bool,
}

impl View for Loading {
    type V = LoadView;

    closed spec fn view(&self) -> LoadView {
        LoadView { loaded: self.loaded, overlay_shown: self.overlay_shown }
    }
}

impl Loading {
    /// Not loaded, no overlay.
    pub fn new() -> (l: Loading)
        ensures
            l@ == start(),
    {
        Loading { loaded: false, overlay_shown: false }
    }

    /// Applies one event.
    pub fn handle(&mut self, event: LoadEvent)
        ensures
            final(self)@ == step(old(self)@, event),
    {
        match event {
            LoadEvent::ThresholdElapsed => {
                if !self.loaded {
                    self.overlay_shown = true;
                }
            },
            LoadEvent::Rendered => {
                self.loaded = true;
                self.overlay_shown = false;
            },
        }
    }

    /// Whether the sidebar has been rendered. Only then is the scroll
    /// position of the group list saved and restored.
    pub fn is_loaded(&self) -> (b: bool)
        ensures
            b == self@.loaded,
    {
        self.loaded
    }

    /// Whether the overlay is shown.
    pub fn shows_overlay(&self) -> (b: bool)
        ensures
            b == self@.overlay_shown,
    {
        self.overlay_shown
    }
}

/// Every state reached from the start keeps the overlay hidden once the page
/// has loaded.
pub proof fn loaded_page_hides_overlay(v: LoadView, events: Seq<LoadEvent>)
    requires
        consistent(v),
    ensures
        consistent(run(v, events)),
    decreases events.len(),
{
    if events.len() > 0 {
        loaded_page_hides_overlay(step(v, events[0]), events.drop_first());
    }
}

/// Once the page has loaded it stays loaded, and no later threshold brings
/// the overlay back.
pub proof fn loaded_is_final(v: LoadView, events: Seq<LoadEvent>)
    requires
        v.loaded,
        consistent(v),
    ensures
        run(v, events) == (LoadView { loaded: true, overlay_shown: false }),
    decreases events.len(),
{
    if events.len() > 0 {
        loaded_is_final(step(v, events[0]), events.drop_first());
    }
}

/// The overlay shows exactly when the threshold has elapsed and the page has
/// not been rendered yet.
pub proof fn overlay_shows_while_waiting(events: Seq<LoadEvent>)
    ensures
        run(start(), events).loaded == events.contains(LoadEvent::Rendered),
        run(start(), events).overlay_shown == (events.contains(LoadEvent::ThresholdElapsed)
            && !events.contains(LoadEvent::Rendered)),
    decreases events.len(),
{
    if events.len() > 0 {
        let e = events[0];
        let rest = events.drop_first();
        contains_split(events);
        if e == LoadEvent::Rendered {
            loaded_is_final(step(start(), e), rest);
        } else {
            overlay_after_threshold(rest);
        }
    }
}

/// After the threshold, the overlay shows until the page is rendered, and
/// after that it stays hidden.
proof fn overlay_after_threshold(events: Seq<LoadEvent>)
    ensures
        run(LoadView { loaded: false, overlay_shown: true }, events).loaded == events.contains(
            LoadEvent::Rendered,
        ),
        run(LoadView { loaded: false, overlay_shown: true }, events).overlay_shown
            == !events.contains(LoadEvent::Rendered),
    decreases events.len(),
{
    if events.len() > 0 {
        let e = events[0];
        let rest = events.drop_first();
        contains_split(events);
        if e == LoadEvent::Rendered {
            loaded_is_final(step(LoadView { loaded: false, overlay_shown: true }, e), rest);
        } else {
            overlay_after_threshold(rest);
        }
    }
}

/// What a non-empty sequence contains: its first element and what the rest
/// contains.
proof fn contains_split(events: Seq<LoadEvent>)
    requires
        events.len() > 0,
    ensures
        forall|x: LoadEvent|
            events.contains(x) <==> (x == events[0] || events.drop_first().contains(x)),
{
    let rest = events.drop_first();
    assert forall|x: LoadEvent| events.contains(x) <==> (x == events[0] || rest.contains(x)) by {
        if events.contains(x) {
            let i = choose|i: int| 0 <= i < events.len() && events[i] == x;
            if i > 0 {
                assert(rest[i - 1] == x);
            }
        }
        if rest.contains(x) {
            let j = choose|j: int| 0 <= j < rest.len() && rest[j] == x;
            assert(events[j + 1] == x);
        }
    }
}

} // verus!
