//! The radio buttons that choose an access type.

use vstd::prelude::*;
use crate::common::NamedId;

verus! {

/// What the block reacts to.
pub enum Msg {
    UpdateTypeAccessId(usize),
    Ignore,
}

/// The state of the block: the access types, the one chosen (0: none yet)
/// and the one to show as chosen until then.
pub struct TypeAccessBlock {
    pub types: Vec<NamedId>,
    pub selected: usize,
    pub preset: Option<usize>,
}

/// Whether the button of `type_access_id` shows as chosen: the chosen
/// type, or the preset (0 where there is none) while none is chosen.
pub open spec fn checked(s: TypeAccessBlock, type_access_id: usize) -> bool {
    if s.selected == 0 {
        type_access_id == (match s.preset {
            Some(p) => p,
            None => 0,
        })
    } else {
        type_access_id == s.selected
    }
}

impl TypeAccessBlock {
    /// The block with the given types, choice and preset.
    pub fn new(types: Vec<NamedId>, selected: usize, preset: Option<usize>) -> (s: Self)
        ensures
            s.types == types && s.selected == selected && s.preset == preset,
    {
        TypeAccessBlock { types, selected, preset }
    }

    /// Handles one message: a choice is passed on to the page (the id to
    /// hand to its callback). The block is drawn again after each.
    pub fn update(&self, msg: Msg) -> (chosen: Option<usize>)
        ensures
            chosen == (match msg {
                Msg::UpdateTypeAccessId(v) => Some(v),
                Msg::Ignore => None::<usize>,
            }),
    {
        match msg {
            Msg::UpdateTypeAccessId(v) => Some(v),
            Msg::Ignore => None,
        }
    }

    /// Takes the choice and the types given; the block is drawn again only
    /// when the choice or the number of types changed.
    pub fn change(&mut self, types: Vec<NamedId>, selected: usize, preset: Option<usize>) -> (redraw: bool)
        ensures
            redraw == !(selected == old(self).selected && types@.len() == old(self).types@.len()),
            redraw ==> *final(self) == (TypeAccessBlock { types, selected, preset }),
            !redraw ==> *final(self) == *old(self),
    {
        if self.selected == selected && self.types.len() == types.len() {
            false
        } else {
            self.types = types;
            self.selected = selected;
            self.preset = preset;
            true
        }
    }

    /// Whether the button of `type_access_id` shows as chosen; see `checked`.
    pub fn is_checked(&self, type_access_id: usize) -> (r: bool)
        ensures
            r == checked(*self, type_access_id),
    {
        if self.selected == 0 {
            let p = match self.preset {
                Some(p) => p,
                None => 0,
            };
            type_access_id == p
        } else {
            type_access_id == self.selected
        }
    }
}

} // verus!
