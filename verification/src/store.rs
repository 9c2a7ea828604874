//! The keyed slot that carries a controller's state across redraw cycles.
//!
//! The UI is rebuilt every cycle, so the selection and scroll offset live in
//! an explicit key-value store that the surrounding application owns for the
//! lifetime of its UI session and passes into the controller each cycle.
//! The key is a stable token derived from the owning text field's identity.
//! An entry exists exactly while the popup it belongs to is logically open.

use std::collections::HashMap;

use vstd::prelude::*;

use crate::selection::Selection;

verus! {

broadcast use vstd::std_specs::hash::group_hash_axioms;

/// A stable token identifying one controller instance, and with it one
/// owning text field.
pub type ControllerId = u64;

/// The state persisted for one controller between two redraw cycles.
#[derive(Clone, Copy, Debug, PartialEq, Eq)]
pub struct ControllerState {
    /// The selection as of the end of the previous cycle.  Its index is only
    /// trusted after re-validation against the current candidate list.
    pub selection: Selection,
    /// The viewport's scroll offset as of the end of the previous cycle, in
    /// pixels.
    pub scroll_offset: u64,
}

impl ControllerState {
    /// The state a controller starts from: nothing selected, scrolled to the
    /// top.  A missing or malformed entry is treated the same way.
    pub open spec fn spec_default() -> ControllerState {
        ControllerState { selection: None, scroll_offset: 0 }
    }
}

impl Default for ControllerState {
    fn default() -> (r: Self)
        ensures
            r == ControllerState::spec_default(),
    {
        ControllerState { selection: None, scroll_offset: 0 }
    }
}

/// The session-scoped store of controller states, keyed by controller id.
#[derive(Debug)]
pub struct SelectionStore {
    slots: HashMap<u64, ControllerState>,
}

impl View for SelectionStore {
    type V = Map<u64, ControllerState>;

    closed spec fn view(&self) -> Map<u64, ControllerState> {
        self.slots@
    }
}

impl SelectionStore {
    /// An empty store: no popup is open.
    pub fn new() -> (r: Self)
        ensures
            r@ == Map::<u64, ControllerState>::empty(),
    {
        SelectionStore { slots: HashMap::new() }
    }

    /// Whether a state is persisted for `id`, i.e. whether the popup of `id`
    /// is logically open.
    pub fn contains(&self, id: ControllerId) -> (r: bool)
        ensures
            r == self@.contains_key(id),
    {
        self.slots.contains_key(&id)
    }

    /// The state persisted for `id`, or the default when there is none (or
    /// it was removed): a missing entry degrades to "no selection".
    pub fn get_state(&self, id: ControllerId) -> (r: ControllerState)
        ensures
            r == if self@.contains_key(id) {
                self@[id]
            } else {
                ControllerState::spec_default()
            },
    {
        match self.slots.get(&id) {
            Some(st) => *st,
            None => ControllerState::default(),
        }
    }

    /// Persist `state` for `id`, replacing any previous entry.
    pub fn put(&mut self, id: ControllerId, state: ControllerState)
        ensures
            final(self)@ == old(self)@.insert(id, state),
    {
        self.slots.insert(id, state);
    }

    /// Drop the entry for `id`, if any: the popup of `id` is closed.
    pub fn remove(&mut self, id: ControllerId)
        ensures
            final(self)@ == old(self)@.remove(id),
    {
        self.slots.remove(&id);
    }
}

} // verus!
