//! The selection values the controller works with.
//!
//! A selection is either absent (no row highlighted), `Marked` (a row is
//! highlighted but not committed) or `Chosen` (a row is committed).  The two
//! active states carry the row index and are represented by
//! [`AutocompleteOutput`], which doubles as the per-cycle outcome type once
//! the index has been replaced by the candidate itself.

use vstd::prelude::*;

verus! {

/// A highlighted (`Marked`) or committed (`Chosen`) value.
///
/// With `C = usize` this is an active selection holding a row index; with a
/// candidate type it is the outcome surfaced to the caller each cycle.
#[derive(Clone, Copy, Debug, PartialEq, Eq)]
pub enum AutocompleteOutput<C> {
    Chosen(C),
    Marked(C),
}

/// The controller's selection for one cycle: no row, a marked row, or a
/// chosen row.  Row indices are only meaningful for the candidate list of the
/// cycle at hand and are re-validated (clamped) every cycle.
pub type Selection = Option<AutocompleteOutput<usize>>;

impl<C> AutocompleteOutput<C> {
    /// The payload, whether marked or chosen.
    pub open spec fn spec_inner(self) -> C {
        match self {
            AutocompleteOutput::Chosen(i) => i,
            AutocompleteOutput::Marked(i) => i,
        }
    }

    /// Whether this is a committed selection.
    pub open spec fn spec_is_chosen(self) -> bool {
        self matches AutocompleteOutput::Chosen(_)
    }

    /// Promoting a marked value commits it; a chosen value stays chosen.
    pub open spec fn spec_into_choice(self) -> Self {
        match self {
            AutocompleteOutput::Marked(i) => AutocompleteOutput::Chosen(i),
            AutocompleteOutput::Chosen(i) => AutocompleteOutput::Chosen(i),
        }
    }

    pub fn is_chosen(&self) -> (r: bool)
        ensures
            r == self.spec_is_chosen(),
    {
        match self {
            AutocompleteOutput::Chosen(_) => true,
            AutocompleteOutput::Marked(_) => false,
        }
    }

    pub fn into_choice(self) -> (r: Self)
        ensures
            r == self.spec_into_choice(),
    {
        match self {
            AutocompleteOutput::Marked(i) => AutocompleteOutput::Chosen(i),
            choice => choice,
        }
    }

    pub fn into_inner(self) -> (r: C)
        ensures
            r == self.spec_inner(),
    {
        match self {
            AutocompleteOutput::Chosen(i) => i,
            AutocompleteOutput::Marked(i) => i,
        }
    }

    /// Apply `f` to the payload, keeping the marked/chosen tag.
    pub fn map<D, F: FnOnce(C) -> D>(self, f: F) -> (r: AutocompleteOutput<D>)
        requires
            call_requires(f, (self.spec_inner(),)),
        ensures
            r.spec_is_chosen() == self.spec_is_chosen(),
            call_ensures(f, (self.spec_inner(),), r.spec_inner()),
    {
        match self {
            AutocompleteOutput::Chosen(i) => AutocompleteOutput::Chosen(f(i)),
            AutocompleteOutput::Marked(i) => AutocompleteOutput::Marked(f(i)),
        }
    }
}

impl AutocompleteOutput<usize> {
    /// Step one row up, saturating at the first row; the tag is kept.
    pub open spec fn spec_dec(self) -> Self {
        match self {
            AutocompleteOutput::Chosen(i) => AutocompleteOutput::Chosen(
                if i == 0 { 0 } else { (i - 1) as usize },
            ),
            AutocompleteOutput::Marked(i) => AutocompleteOutput::Marked(
                if i == 0 { 0 } else { (i - 1) as usize },
            ),
        }
    }

    /// Step one row down, saturating at `usize::MAX`; the tag is kept.  The
    /// saturation at the end of the candidate list happens when the result is
    /// clamped against the list of the current cycle.
    pub open spec fn spec_inc(self) -> Self {
        match self {
            AutocompleteOutput::Chosen(i) => AutocompleteOutput::Chosen(
                if i == usize::MAX { i } else { (i + 1) as usize },
            ),
            AutocompleteOutput::Marked(i) => AutocompleteOutput::Marked(
                if i == usize::MAX { i } else { (i + 1) as usize },
            ),
        }
    }

    pub fn dec(self) -> (r: Self)
        ensures
            r == self.spec_dec(),
    {
        match self {
            AutocompleteOutput::Chosen(i) => AutocompleteOutput::Chosen(
                if i == 0 { 0 } else { i - 1 },
            ),
            AutocompleteOutput::Marked(i) => AutocompleteOutput::Marked(
                if i == 0 { 0 } else { i - 1 },
            ),
        }
    }

    pub fn inc(self) -> (r: Self)
        ensures
            r == self.spec_inc(),
    {
        match self {
            AutocompleteOutput::Chosen(i) => AutocompleteOutput::Chosen(
                if i == usize::MAX { i } else { i + 1 },
            ),
            AutocompleteOutput::Marked(i) => AutocompleteOutput::Marked(
                if i == usize::MAX { i } else { i + 1 },
            ),
        }
    }
}

/// An active selection must point into the candidate list of the current
/// cycle; an absent selection always does.
pub open spec fn sel_in_range(s: Selection, n: nat) -> bool {
    match s {
        Some(o) => (o.spec_inner() as nat) < n,
        None => true,
    }
}

/// Clamp an index into `[0, n-1]`, for `n > 0`.
pub open spec fn spec_clamp_index(i: usize, n: nat) -> usize
    recommends
        0 < n <= usize::MAX,
{
    if (i as nat) < n {
        i
    } else {
        (n - 1) as usize
    }
}

/// Clamp a selection against a candidate list of length `n`: an out-of-range
/// index is pulled to the last row, and an empty list forces `None`.  The
/// marked/chosen tag is kept.
pub open spec fn spec_clamp_sel(s: Selection, n: nat) -> Selection
    recommends
        n <= usize::MAX,
{
    if n == 0 {
        None
    } else {
        match s {
            None => None,
            Some(AutocompleteOutput::Chosen(i)) => Some(
                AutocompleteOutput::Chosen(spec_clamp_index(i, n)),
            ),
            Some(AutocompleteOutput::Marked(i)) => Some(
                AutocompleteOutput::Marked(spec_clamp_index(i, n)),
            ),
        }
    }
}

/// Re-validate a selection against the candidate list of the current cycle.
pub fn clamp_selection(s: Selection, n: usize) -> (r: Selection)
    ensures
        r == spec_clamp_sel(s, n as nat),
        sel_in_range(r, n as nat),
        n == 0 ==> r is None,
{
    if n == 0 {
        None
    } else {
        match s {
            None => None,
            Some(AutocompleteOutput::Chosen(i)) => Some(
                AutocompleteOutput::Chosen(if i < n { i } else { n - 1 }),
            ),
            Some(AutocompleteOutput::Marked(i)) => Some(
                AutocompleteOutput::Marked(if i < n { i } else { n - 1 }),
            ),
        }
    }
}

/// Selection equality, decided without relying on derived trait code.
pub fn sel_eq(a: Selection, b: Selection) -> (r: bool)
    ensures
        r == (a == b),
{
    match (a, b) {
        (None, None) => true,
        (Some(AutocompleteOutput::Chosen(i)), Some(AutocompleteOutput::Chosen(j))) => i == j,
        (Some(AutocompleteOutput::Marked(i)), Some(AutocompleteOutput::Marked(j))) => i == j,
        _ => false,
    }
}

} // verus!
