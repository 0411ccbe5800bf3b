//! The hover-and-hold state of a pressable element of the sidebar (the
//! toolbar's menu button, the close button of a tab).

use vstd::prelude::*;

verus! {

/// Whether the pointer is over the element and whether a button that went
/// down on it is still held. Releasing is seen anywhere on the page, so a
/// hold outlives leaving the element.
pub struct Press {
    hovered: bool,
    holding: bool,
}

impl Press {
    pub closed spec fn spec_hovered(&self) -> bool {
        self.hovered
    }

    pub closed spec fn spec_holding(&self) -> bool {
        self.holding
    }

    /// Neither hovered nor held.
    pub fn new() -> (p: Press)
        ensures
            !p.spec_hovered(),
            !p.spec_holding(),
    {
        Press { hovered: false, holding: false }
    }

    /// The pointer entered the element.
    pub fn enter(&mut self)
        ensures
            final(self).spec_hovered(),
            final(self).spec_holding() == old(self).spec_holding(),
    {
        self.hovered = true;
    }

    /// The pointer left the element.
    pub fn leave(&mut self)
        ensures
            !final(self).spec_hovered(),
            final(self).spec_holding() == old(self).spec_holding(),
    {
        self.hovered = false;
    }

    /// A button went down on the element.
    pub fn press(&mut self)
        ensures
            final(self).spec_holding(),
            final(self).spec_hovered() == old(self).spec_hovered(),
    {
        self.holding = true;
    }

    /// A button went up anywhere on the page.
    pub fn release(&mut self)
        ensures
            !final(self).spec_holding(),
            final(self).spec_hovered() == old(self).spec_hovered(),
    {
        self.holding = false;
    }

    /// Whether the pointer is over the element.
    pub fn is_hovered(&self) -> (b: bool)
        ensures
            b == self.spec_hovered(),
    {
        self.hovered
    }

    /// Whether a button that went down on the element is still held.
    pub fn is_holding(&self) -> (b: bool)
        ensures
            b == self.spec_holding(),
    {
        self.holding
    }

    /// Whether the element is drawn pressed: hovered and held at once.
    pub fn shows_hold(&self) -> (b: bool)
        ensures
            b == (self.spec_hovered() && self.spec_holding()),
    {
        self.hovered && self.holding
    }
}

} // verus!
