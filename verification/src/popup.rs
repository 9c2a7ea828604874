//! The popup controller: open/closed lifecycle and the per-cycle outcome.
//!
//! Once per redraw cycle the controller reads the persisted state of its id,
//! reconciles it with the cycle's inputs and the freshly rebuilt candidate
//! list, reconciles the result with the scroll position, and emits an
//! outcome together with the side effects the surrounding UI should perform.
//! A popup is logically open exactly while a state is persisted for its id.
//!
//! Lifecycle: a closed popup opens when its text field gains focus or its
//! text changes while the candidate list is non-empty; an open popup closes
//! when the list becomes empty or a selection is committed.  The cycle after
//! a commit starts from a fresh, absent selection.

use vstd::prelude::*;

use crate::reconcile::KeyEvents;
use crate::reconcile::PointerEvents;
use crate::reconcile::reconcile;
use crate::reconcile::spec_reconcile;
use crate::scroll::Viewport;
use crate::scroll::geometry_in_bounds;
use crate::scroll::reclamp_visible;
use crate::scroll::scroll_into_view;
use crate::scroll::spec_reclamp_visible;
use crate::scroll::spec_scroll_into_view;
use crate::selection::AutocompleteOutput;
use crate::selection::Selection;
use crate::selection::clamp_selection;
use crate::selection::sel_eq;
use crate::selection::sel_in_range;
use crate::selection::spec_clamp_sel;
use crate::store::ControllerId;
use crate::store::ControllerState;
use crate::store::SelectionStore;

verus! {

/// The side effects one cycle asks the surrounding UI to perform.
#[derive(Clone, Copy, Debug, PartialEq, Eq)]
pub struct CycleEffects {
    /// Open the popup below the owning text field.
    pub open_popup: bool,
    /// Close the popup.
    pub close_popup: bool,
    /// Return focus to the owning text field (after a commit).
    pub focus_parent: bool,
    /// Place the text cursor at this character offset: the end of the text
    /// that replaced the current query (after a commit).
    pub cursor_to: Option<usize>,
}

impl CycleEffects {
    /// A cycle that asks for nothing.
    pub open spec fn spec_none() -> CycleEffects {
        CycleEffects { open_popup: false, close_popup: false, focus_parent: false, cursor_to: None }
    }
}

/// What one cycle of the controller decided, at the row-index level.
#[derive(Clone, Copy, Debug, PartialEq, Eq)]
pub struct CycleResult {
    /// Whether the popup is open after this cycle.
    pub open_after: bool,
    /// The state to persist for the next cycle; meaningful only while the
    /// popup stays open.
    pub state_after: ControllerState,
    /// The selection surfaced this cycle: absent, marked row, or chosen row.
    pub outcome: Selection,
    /// The requested side effects (the cursor request is added once the
    /// chosen candidate's text is known).
    pub effects: CycleEffects,
}

/// A closed popup opens when its field gains focus or its text changes, and
/// only over a non-empty candidate list.
pub open spec fn spec_popup_opens(
    was_open: bool,
    gained_focus: bool,
    text_changed: bool,
    n: nat,
) -> bool {
    !was_open && (gained_focus || text_changed) && n > 0
}

/// The selection a cycle starts from: the persisted one re-validated against
/// the current list, or absent when nothing is persisted.
pub open spec fn spec_prev_selection(stored: Option<ControllerState>, n: nat) -> Selection
    recommends
        n <= usize::MAX,
{
    match stored {
        Some(st) => spec_clamp_sel(st.selection, n),
        None => None,
    }
}

/// The scroll reconciliation of one cycle.  Exactly one adjustment drives:
/// after a manual scroll (the live offset differs from the persisted one)
/// the selection is clamped into the visible rows; otherwise, if the input
/// changed the selection, the offset is moved minimally to keep the selected
/// row in view; otherwise nothing moves.
pub open spec fn spec_scroll_step(
    prev: Selection,
    tentative: Selection,
    stored_offset: u64,
    live_offset: u64,
    vp: Viewport,
    n: nat,
) -> (Selection, u64)
    recommends
        geometry_in_bounds(n, vp, live_offset as nat),
        sel_in_range(tentative, n),
{
    if live_offset != stored_offset {
        (spec_reclamp_visible(tentative, live_offset, vp, n), live_offset)
    } else if tentative != prev {
        match tentative {
            Some(o) => (tentative, spec_scroll_into_view(live_offset, o.spec_inner(), vp) as u64),
            None => (tentative, live_offset),
        }
    } else {
        (tentative, live_offset)
    }
}

/// One full cycle of the controller, as a pure function of the persisted
/// state (absent while the popup is closed) and the cycle's inputs.
///
/// On the opening cycle the persisted scroll offset does not exist yet, so
/// the live offset is taken as its baseline and no manual-scroll reclamp can
/// fire.
pub open spec fn spec_cycle(
    stored: Option<ControllerState>,
    gained_focus: bool,
    text_changed: bool,
    n: nat,
    keys: KeyEvents,
    pointer: PointerEvents,
    live_offset: u64,
    vp: Viewport,
) -> CycleResult
    recommends
        geometry_in_bounds(n, vp, live_offset as nat),
        n <= usize::MAX,
{
    let was_open = stored is Some;
    let opening = spec_popup_opens(was_open, gained_focus, text_changed, n);
    if !was_open && !opening {
        CycleResult {
            open_after: false,
            state_after: ControllerState::spec_default(),
            outcome: None,
            effects: CycleEffects::spec_none(),
        }
    } else if n == 0 {
        CycleResult {
            open_after: false,
            state_after: ControllerState::spec_default(),
            outcome: None,
            effects: CycleEffects { close_popup: true, ..CycleEffects::spec_none() },
        }
    } else {
        let st = match stored {
            Some(st) => st,
            None => ControllerState::spec_default(),
        };
        let baseline = if was_open {
            st.scroll_offset
        } else {
            live_offset
        };
        let prev = spec_prev_selection(stored, n);
        let tentative = spec_reconcile(prev, keys, pointer, n);
        let stepped = spec_scroll_step(prev, tentative, baseline, live_offset, vp, n);
        if stepped.0 matches Some(AutocompleteOutput::Chosen(_)) {
            CycleResult {
                open_after: false,
                state_after: ControllerState::spec_default(),
                outcome: stepped.0,
                effects: CycleEffects {
                    close_popup: true,
                    focus_parent: true,
                    ..CycleEffects::spec_none()
                },
            }
        } else {
            CycleResult {
                open_after: true,
                state_after: ControllerState { selection: stepped.0, scroll_offset: stepped.1 },
                outcome: stepped.0,
                effects: CycleEffects { open_popup: opening, ..CycleEffects::spec_none() },
            }
        }
    }
}

/// One cycle of the controller, computed.  Pure: the store is read and
/// written by the caller.
pub fn cycle_step(
    stored: Option<ControllerState>,
    gained_focus: bool,
    text_changed: bool,
    n: usize,
    keys: KeyEvents,
    pointer: PointerEvents,
    live_offset: u64,
    vp: Viewport,
) -> (r: CycleResult)
    requires
        geometry_in_bounds(n as nat, vp, live_offset as nat),
    ensures
        r == spec_cycle(stored, gained_focus, text_changed, n as nat, keys, pointer, live_offset, vp),
        sel_in_range(r.outcome, n as nat),
        sel_in_range(r.state_after.selection, n as nat),
        n == 0 ==> r.outcome is None,
        r.open_after ==> !(r.outcome matches Some(AutocompleteOutput::Chosen(_))),
{
    let was_open = stored.is_some();
    let opening = !was_open && (gained_focus || text_changed) && n > 0;
    if !was_open && !opening {
        CycleResult {
            open_after: false,
            state_after: ControllerState::default(),
            outcome: None,
            effects: CycleEffects {
                open_popup: false,
                close_popup: false,
                focus_parent: false,
                cursor_to: None,
            },
        }
    } else if n == 0 {
        CycleResult {
            open_after: false,
            state_after: ControllerState::default(),
            outcome: None,
            effects: CycleEffects {
                open_popup: false,
                close_popup: true,
                focus_parent: false,
                cursor_to: None,
            },
        }
    } else {
        let st = match stored {
            Some(st) => st,
            None => ControllerState::default(),
        };
        let baseline: u64 = if was_open {
            st.scroll_offset
        } else {
            live_offset
        };
        let prev = clamp_selection(st.selection, n);
        proof {
            assert(prev == spec_prev_selection(stored, n as nat));
        }
        let tentative = reconcile(prev, keys, pointer, n);
        let stepped: (Selection, u64) = if live_offset != baseline {
            (reclamp_visible(tentative, live_offset, vp, n), live_offset)
        } else if !sel_eq(tentative, prev) {
            match tentative {
                Some(o) => {
                    let off = scroll_into_view(live_offset, o.into_inner(), vp, n);
                    (tentative, off)
                },
                None => (tentative, live_offset),
            }
        } else {
            (tentative, live_offset)
        };
        let chosen = match stepped.0 {
            Some(AutocompleteOutput::Chosen(_)) => true,
            _ => false,
        };
        if chosen {
            CycleResult {
                open_after: false,
                state_after: ControllerState::default(),
                outcome: stepped.0,
                effects: CycleEffects {
                    open_popup: false,
                    close_popup: true,
                    focus_parent: true,
                    cursor_to: None,
                },
            }
        } else {
            CycleResult {
                open_after: true,
                state_after: ControllerState { selection: stepped.0, scroll_offset: stepped.1 },
                outcome: stepped.0,
                effects: CycleEffects {
                    open_popup: opening,
                    close_popup: false,
                    focus_parent: false,
                    cursor_to: None,
                },
            }
        }
    }
}

/// One full redraw cycle against the store: read the state of `id`, run the
/// controller, persist or drop the state, and surface the outcome with the
/// chosen or marked candidate filled in.
///
/// The candidate list `items` is this cycle's freshly rebuilt list; indices
/// from earlier cycles are re-validated against it before use.
pub fn run_cycle(
    store: &mut SelectionStore,
    id: ControllerId,
    items: &Vec<String>,
    gained_focus: bool,
    text_changed: bool,
    keys: KeyEvents,
    pointer: PointerEvents,
    live_offset: u64,
    vp: Viewport,
) -> (r: (Option<AutocompleteOutput<String>>, CycleEffects))
    requires
        geometry_in_bounds(items@.len(), vp, live_offset as nat),
    ensures
        ({
            let stored = if old(store)@.contains_key(id) {
                Some(old(store)@[id])
            } else {
                None
            };
            let step = spec_cycle(
                stored,
                gained_focus,
                text_changed,
                items@.len(),
                keys,
                pointer,
                live_offset,
                vp,
            );
            &&& step.open_after ==> final(store)@ == old(store)@.insert(id, step.state_after)
            &&& !step.open_after ==> final(store)@ == old(store)@.remove(id)
            &&& match step.outcome {
                None => r.0 is None,
                Some(AutocompleteOutput::Marked(i)) => r.0 matches Some(
                    AutocompleteOutput::Marked(t),
                ) && t@ == items@[i as int]@,
                Some(AutocompleteOutput::Chosen(i)) => r.0 matches Some(
                    AutocompleteOutput::Chosen(t),
                ) && t@ == items@[i as int]@,
            }
            &&& r.1.open_popup == step.effects.open_popup
            &&& r.1.close_popup == step.effects.close_popup
            &&& r.1.focus_parent == step.effects.focus_parent
            &&& match step.outcome {
                Some(AutocompleteOutput::Chosen(i)) => r.1.cursor_to matches Some(c) && c
                    == items@[i as int]@.len(),
                _ => r.1.cursor_to is None,
            }
        }),
        final(store)@.contains_key(id) ==> sel_in_range(
            final(store)@[id].selection,
            items@.len(),
        ),
{
    let n = items.len();
    let stored: Option<ControllerState> = if store.contains(id) {
        Some(store.get_state(id))
    } else {
        None
    };
    let step = cycle_step(stored, gained_focus, text_changed, n, keys, pointer, live_offset, vp);
    if step.open_after {
        store.put(id, step.state_after);
    } else {
        store.remove(id);
    }
    match step.outcome {
        None => (None, step.effects),
        Some(AutocompleteOutput::Marked(i)) => {
            let item = items[i].clone();
            (Some(AutocompleteOutput::Marked(item)), step.effects)
        },
        Some(AutocompleteOutput::Chosen(i)) => {
            let item = items[i].clone();
            let cursor = item.as_str().unicode_len();
            (
                Some(AutocompleteOutput::Chosen(item)),
                CycleEffects { cursor_to: Some(cursor), ..step.effects },
            )
        },
    }
}

/// The reset law: a cycle that commits a choice closes the popup and leaves
/// the default state behind, so the cycle immediately following a `Chosen`
/// outcome starts from an absent selection, whatever its inputs are.
pub proof fn lemma_reset_after_chosen(
    stored: Option<ControllerState>,
    gained_focus: bool,
    text_changed: bool,
    n: nat,
    keys: KeyEvents,
    pointer: PointerEvents,
    live_offset: u64,
    vp: Viewport,
    n_next: nat,
)
    requires
        n <= usize::MAX,
        spec_cycle(stored, gained_focus, text_changed, n, keys, pointer, live_offset, vp).outcome
            matches Some(AutocompleteOutput::Chosen(_)),
    ensures
        !spec_cycle(stored, gained_focus, text_changed, n, keys, pointer, live_offset, vp).open_after,
        spec_cycle(stored, gained_focus, text_changed, n, keys, pointer, live_offset, vp).state_after
            == ControllerState::spec_default(),
        spec_prev_selection(None, n_next) == None::<AutocompleteOutput<usize>>,
{
}

} // verus!
