//! The tender pages: the list of tenders, the page that creates one, and an
//! entry of the list. Each keeps a counter that a click raises.

use vstd::prelude::*;

verus! {

/// How many entries the list of tenders shows.
pub const ITEMS_SHOWN: usize = 3;

/// The list of tenders.
pub struct Tenders {
    pub value: i64,
}

/// The page that creates a tender.
pub struct CreateTender {
    pub value: i64,
}

/// An entry of the list of tenders.
pub struct Item {
    pub value: i64,
}

impl Tenders {
    /// The list as first shown.
    pub fn new() -> (s: Self)
        ensures
            s.value == 0,
    {
        Tenders { value: 0 }
    }

    /// Counts one more; the list is drawn again.
    pub fn add_one(&mut self) -> (redraw: bool)
        requires
            old(self).value < i64::MAX,
        ensures
            final(self).value == old(self).value + 1,
            redraw,
    {
        self.value = self.value + 1;
        true
    }

    /// The list takes no properties; it is never drawn again for them.
    pub fn change(&mut self) -> (redraw: bool)
        ensures
            !redraw,
            *final(self) == *old(self),
    {
        false
    }
}

impl CreateTender {
    /// The page as first shown.
    pub fn new() -> (s: Self)
        ensures
            s.value == 0,
    {
        CreateTender { value: 0 }
    }

    /// Counts one more; the page is drawn again.
    pub fn add_one(&mut self) -> (redraw: bool)
        requires
            old(self).value < i64::MAX,
        ensures
            final(self).value == old(self).value + 1,
            redraw,
    {
        self.value = self.value + 1;
        true
    }

    /// The page takes no properties; it is never drawn again for them.
    pub fn change(&mut self) -> (redraw: bool)
        ensures
            !redraw,
            *final(self) == *old(self),
    {
        false
    }
}

impl Item {
    /// The entry as first shown.
    pub fn new() -> (s: Self)
        ensures
            s.value == 0,
    {
        Item { value: 0 }
    }

    /// Counts one more; the entry is drawn again.
    pub fn add_one(&mut self) -> (redraw: bool)
        requires
            old(self).value < i64::MAX,
        ensures
            final(self).value == old(self).value + 1,
            redraw,
    {
        self.value = self.value + 1;
        true
    }

    /// The entry takes no properties; it is never drawn again for them.
    pub fn change(&mut self) -> (redraw: bool)
        ensures
            !redraw,
            *final(self) == *old(self),
    {
        false
    }
}

} // verus!
