//! Merging one cycle's keyboard and pointer input into a new selection.
//!
//! The keyboard step runs first: at most one edge event is consumed per
//! cycle, in the priority order arrow-up, arrow-down, enter.  The pointer
//! step runs second: a click always commits its row, overriding the keyboard
//! result; a hover marks its row only when the keyboard step produced no
//! change from the previous cycle's selection, so that keyboard navigation
//! wins while the user is actively navigating.  The result is clamped
//! against the candidate list of the current cycle; an empty list forces an
//! absent selection.

use vstd::prelude::*;

use crate::selection::AutocompleteOutput;
use crate::selection::Selection;
use crate::selection::clamp_selection;
use crate::selection::sel_eq;
use crate::selection::sel_in_range;
use crate::selection::spec_clamp_sel;

verus! {

/// The keyboard edge events available to one cycle.  Each is an edge, not a
/// level: once consumed by the controller it is spent for this cycle.
#[derive(Clone, Copy, Debug, PartialEq, Eq)]
pub struct KeyEvents {
    pub arrow_up: bool,
    pub arrow_down: bool,
    pub enter: bool,
}

impl KeyEvents {
    /// No keyboard edge arrived this cycle.
    pub open spec fn spec_is_empty(self) -> bool {
        !self.arrow_up && !self.arrow_down && !self.enter
    }

    /// A cycle without keyboard input.
    pub fn none() -> (r: Self)
        ensures
            r.spec_is_empty(),
    {
        KeyEvents { arrow_up: false, arrow_down: false, enter: false }
    }
}

/// The per-row pointer interaction results of one cycle, reported after the
/// rows were rendered.  At most one row can be clicked and at most one
/// hovered in a cycle.
#[derive(Clone, Copy, Debug, PartialEq, Eq)]
pub struct PointerEvents {
    pub clicked: Option<usize>,
    pub hovered: Option<usize>,
}

impl PointerEvents {
    /// No pointer interaction arrived this cycle.
    pub open spec fn spec_is_empty(self) -> bool {
        self.clicked is None && self.hovered is None
    }

    /// A cycle without pointer input.
    pub fn none() -> (r: Self)
        ensures
            r.spec_is_empty(),
    {
        PointerEvents { clicked: None, hovered: None }
    }
}

/// The keyboard step alone.  Arrow keys move the mark (an absent selection
/// becomes the first row), enter commits the mark (an absent selection
/// commits the first row); the stepped index saturates into `[0, n-1]`.
/// Without a keyboard event the selection passes through unchanged.
pub open spec fn spec_key_step(prev: Selection, keys: KeyEvents, n: nat) -> Selection
    recommends
        n <= usize::MAX,
{
    if keys.arrow_up {
        spec_clamp_sel(
            match prev {
                None => Some(AutocompleteOutput::Marked(0)),
                Some(o) => Some(o.spec_dec()),
            },
            n,
        )
    } else if keys.arrow_down {
        spec_clamp_sel(
            match prev {
                None => Some(AutocompleteOutput::Marked(0)),
                Some(o) => Some(o.spec_inc()),
            },
            n,
        )
    } else if keys.enter {
        spec_clamp_sel(
            match prev {
                None => Some(AutocompleteOutput::Chosen(0)),
                Some(o) => Some(o.spec_into_choice()),
            },
            n,
        )
    } else {
        prev
    }
}

/// Keyboard and pointer merged, then clamped: the full reconciliation of one
/// cycle's input against a candidate list of length `n`.
pub open spec fn spec_reconcile(
    prev: Selection,
    keys: KeyEvents,
    pointer: PointerEvents,
    n: nat,
) -> Selection
    recommends
        n <= usize::MAX,
{
    let keyboard = spec_key_step(prev, keys, n);
    let merged = match pointer.clicked {
        Some(i) => Some(AutocompleteOutput::Chosen(i)),
        None => match pointer.hovered {
            Some(i) => if keyboard == prev {
                Some(AutocompleteOutput::Marked(i))
            } else {
                keyboard
            },
            None => keyboard,
        },
    };
    spec_clamp_sel(merged, n)
}

/// One cycle of the input reconciler: merge the previous selection with this
/// cycle's keyboard and pointer events, against a list of `n` candidates.
///
/// A click always commits its row; a hover marks its row only when the
/// keyboard produced no change; the result always points into the current
/// list, and is absent when the list is empty.
pub fn reconcile(prev: Selection, keys: KeyEvents, pointer: PointerEvents, n: usize) -> (r:
    Selection)
    ensures
        r == spec_reconcile(prev, keys, pointer, n as nat),
        sel_in_range(r, n as nat),
        n == 0 ==> r is None,
        pointer.clicked matches Some(i) && n > 0 ==> r matches Some(
            AutocompleteOutput::Chosen(_),
        ),
{
    let keyboard = key_step(prev, keys, n);
    let merged: Selection = match pointer.clicked {
        Some(i) => Some(AutocompleteOutput::Chosen(i)),
        None => match pointer.hovered {
            Some(i) => if sel_eq(keyboard, prev) {
                Some(AutocompleteOutput::Marked(i))
            } else {
                keyboard
            },
            None => keyboard,
        },
    };
    clamp_selection(merged, n)
}

/// The keyboard step of [`reconcile`], on its own.
pub fn key_step(prev: Selection, keys: KeyEvents, n: usize) -> (r: Selection)
    ensures
        r == spec_key_step(prev, keys, n as nat),
{
    if keys.arrow_up {
        let stepped: Selection = match prev {
            None => Some(AutocompleteOutput::Marked(0)),
            Some(o) => Some(o.dec()),
        };
        clamp_selection(stepped, n)
    } else if keys.arrow_down {
        let stepped: Selection = match prev {
            None => Some(AutocompleteOutput::Marked(0)),
            Some(o) => Some(o.inc()),
        };
        clamp_selection(stepped, n)
    } else if keys.enter {
        let stepped: Selection = match prev {
            None => Some(AutocompleteOutput::Chosen(0)),
            Some(o) => Some(o.into_choice()),
        };
        clamp_selection(stepped, n)
    } else {
        prev
    }
}

/// Reconciling with an identical, empty event set twice in a row yields an
/// identical selection: a quiescent cycle is idempotent.
pub proof fn lemma_reconcile_idempotent(
    prev: Selection,
    keys: KeyEvents,
    pointer: PointerEvents,
    n: nat,
)
    requires
        n <= usize::MAX,
        keys.spec_is_empty(),
        pointer.spec_is_empty(),
    ensures
        spec_reconcile(spec_reconcile(prev, keys, pointer, n), keys, pointer, n)
            == spec_reconcile(prev, keys, pointer, n),
{
}

/// The smaller of two naturals.
pub open spec fn min_nat(a: nat, b: nat) -> nat {
    if a < b {
        a
    } else {
        b
    }
}

/// `k` cycles that each consume one arrow-down edge and nothing else,
/// starting from selection `s`.
pub open spec fn spec_arrow_down_times(s: Selection, k: nat, n: nat) -> Selection
    decreases k,
{
    if k == 0 {
        s
    } else {
        spec_reconcile(
            spec_arrow_down_times(s, (k - 1) as nat, n),
            KeyEvents { arrow_up: false, arrow_down: true, enter: false },
            PointerEvents { clicked: None, hovered: None },
            n,
        )
    }
}

/// Pressing arrow-down `k` times from an absent selection, over a list of
/// length `n`, marks row `min(k - 1, n - 1)`: navigation is monotone and
/// saturates at the end of the list.
pub proof fn lemma_arrow_down_bound(k: nat, n: nat)
    requires
        0 < n <= usize::MAX,
        k >= 1,
    ensures
        spec_arrow_down_times(None, k, n) == Some(
            AutocompleteOutput::Marked(min_nat((k - 1) as nat, (n - 1) as nat) as usize),
        ),
    decreases k,
{
    if k == 1 {
    } else {
        lemma_arrow_down_bound((k - 1) as nat, n);
    }
}

} // verus!
