//! Reconciling the selection with the scroll position of the viewport.
//!
//! Rows are laid out vertically: row `i` occupies the pixel band
//! `[i * (row_height + spacing), i * (row_height + spacing) + row_height)`.
//! Two adjustments exist, and exactly one of them drives a cycle:
//!
//! * after a manual scroll (the offset changed since the last cycle), the
//!   selection is clamped into the range of fully visible rows, so a manual
//!   scroll never leaves the selection invisible;
//! * after the selection changed through input, the offset is moved by the
//!   minimal delta that brings the selected row fully into view.
//!
//! The two are never composed within one cycle, to avoid oscillation.

use vstd::prelude::*;

use crate::selection::AutocompleteOutput;
use crate::selection::Selection;
use crate::selection::sel_in_range;

verus! {

/// The fixed geometry of the popup's viewport, in integral pixels.
#[derive(Clone, Copy, Debug, PartialEq, Eq)]
pub struct Viewport {
    /// Height of one row.
    pub row_height: u64,
    /// Vertical space between two rows.
    pub spacing: u64,
    /// Height of the visible window onto the list.
    pub height: u64,
}

impl Viewport {
    /// The vertical stride from one row's top to the next row's top.
    pub open spec fn spec_stride(self) -> int {
        self.row_height + self.spacing
    }

    /// A usable geometry: rows have positive height.
    pub open spec fn spec_wf(self) -> bool {
        self.row_height >= 1
    }
}

/// All scroll arithmetic on a list of `n` rows stays within `u64` bounds.
/// This is a machine limit, not a rule of the controller.
pub open spec fn geometry_in_bounds(n: nat, vp: Viewport, offset: nat) -> bool {
    &&& vp.spec_wf()
    &&& n * vp.spec_stride() + vp.spec_stride() + vp.height <= u64::MAX
    &&& offset + vp.spec_stride() + vp.height <= u64::MAX
}

/// The first row whose top edge is at or below `offset`, i.e. the first row
/// that starts inside the visible window.
pub open spec fn spec_first_visible_row(offset: u64, vp: Viewport) -> int
    recommends
        vp.spec_wf(),
{
    (offset + vp.spec_stride() - 1) / vp.spec_stride()
}

/// The last row that fits entirely inside the visible window: the largest
/// `i` with `i * stride + row_height <= offset + height`, or `-1` when no
/// row fits.
pub open spec fn spec_last_visible_row(offset: u64, vp: Viewport) -> int
    recommends
        vp.spec_wf(),
{
    if offset + vp.height < vp.row_height {
        -1
    } else {
        (offset + vp.height - vp.row_height) / vp.spec_stride()
    }
}

/// Clamp an active selection into the band of fully visible rows, kept
/// inside `[0, n-1]`.  When no row is fully visible, or the visible band
/// lies beyond the list, the selection is left unchanged; the marked/chosen
/// tag is always kept.
pub open spec fn spec_reclamp_visible(s: Selection, offset: u64, vp: Viewport, n: nat) -> Selection
    recommends
        vp.spec_wf(),
        n <= usize::MAX,
{
    let lo = spec_first_visible_row(offset, vp);
    let hi_raw = spec_last_visible_row(offset, vp);
    let hi = if hi_raw > n - 1 {
        n - 1
    } else {
        hi_raw
    };
    if lo > hi {
        s
    } else {
        match s {
            None => None,
            Some(o) => {
                let i = o.spec_inner() as int;
                let j = if i < lo {
                    lo
                } else if i > hi {
                    hi
                } else {
                    i
                };
                if o.spec_is_chosen() {
                    Some(AutocompleteOutput::Chosen(j as usize))
                } else {
                    Some(AutocompleteOutput::Marked(j as usize))
                }
            },
        }
    }
}

/// The offset after bringing row `i` fully into view with the minimal
/// movement: clamp the old offset between `bottom - height` and `top`.  When
/// both constraints cannot hold (the row is taller than the window), the
/// row's top edge wins.
pub open spec fn spec_scroll_into_view(offset: u64, i: usize, vp: Viewport) -> int
    recommends
        vp.spec_wf(),
{
    let top = i * vp.spec_stride();
    let bottom = top + vp.row_height;
    let lower = if bottom >= vp.height {
        bottom - vp.height
    } else {
        0
    };
    let raised = if offset < lower {
        lower
    } else {
        offset as int
    };
    if raised > top {
        top
    } else {
        raised
    }
}

/// Exact division helper: the first fully visible row, computed.
pub fn first_visible_row(offset: u64, vp: Viewport) -> (r: u64)
    requires
        vp.spec_wf(),
        offset + vp.spec_stride() <= u64::MAX,
    ensures
        r == spec_first_visible_row(offset, vp),
{
    let stride: u64 = vp.row_height + vp.spacing;
    (offset + stride - 1) / stride
}

/// The last fully visible row, or `None` when no row fits entirely in the
/// window.
pub fn last_visible_row(offset: u64, vp: Viewport) -> (r: Option<u64>)
    requires
        vp.spec_wf(),
        vp.spec_stride() <= u64::MAX,
        offset + vp.height <= u64::MAX,
    ensures
        match r {
            Some(i) => i == spec_last_visible_row(offset, vp),
            None => spec_last_visible_row(offset, vp) == -1,
        },
{
    let stride: u64 = vp.row_height + vp.spacing;
    if offset + vp.height < vp.row_height {
        None
    } else {
        Some((offset + vp.height - vp.row_height) / stride)
    }
}

/// Clamp the selection into the rows fully visible at `offset`, after a
/// manual scroll.  The result still points into the list.
pub fn reclamp_visible(s: Selection, offset: u64, vp: Viewport, n: usize) -> (r: Selection)
    requires
        geometry_in_bounds(n as nat, vp, offset as nat),
        sel_in_range(s, n as nat),
    ensures
        r == spec_reclamp_visible(s, offset, vp, n as nat),
        sel_in_range(r, n as nat),
{
    let lo = first_visible_row(offset, vp);
    let hi: u64 = match last_visible_row(offset, vp) {
        Some(h) => {
            if n == 0 {
                return s;
            }
            let cap: u64 = (n - 1) as u64;
            if h > cap {
                cap
            } else {
                h
            }
        },
        None => {
            return s;
        },
    };
    if lo > hi {
        return s;
    }
    match s {
        None => None,
        Some(o) => {
            let i: u64 = o.into_inner() as u64;
            let j: u64 = if i < lo {
                lo
            } else if i > hi {
                hi
            } else {
                i
            };
            proof {
                assert(hi <= n - 1);
            }
            if o.is_chosen() {
                Some(AutocompleteOutput::Chosen(j as usize))
            } else {
                Some(AutocompleteOutput::Marked(j as usize))
            }
        },
    }
}

/// Move the offset by the minimal delta that brings row `i` fully into
/// view.  When the row fits into the window, it is fully visible at the
/// returned offset.
pub fn scroll_into_view(offset: u64, i: usize, vp: Viewport, n: usize) -> (r: u64)
    requires
        geometry_in_bounds(n as nat, vp, offset as nat),
        (i as nat) < n as nat,
    ensures
        r == spec_scroll_into_view(offset, i, vp),
        vp.row_height <= vp.height ==> {
            let top = (i as int) * vp.spec_stride();
            r <= top && top + vp.row_height <= r + vp.height
        },
        offset <= i * vp.spec_stride() && i * vp.spec_stride() + vp.row_height <= offset
            + vp.height ==> r == offset,
{
    let stride: u64 = vp.row_height + vp.spacing;
    proof {
        assert((i as int) * (stride as int) + vp.row_height <= (n as int) * (stride as int))
            by (nonlinear_arith)
            requires
                (i as int) < (n as int),
                stride == vp.row_height + vp.spacing,
                vp.row_height >= 1,
        ;
        assert((i as int) * (stride as int) >= 0) by (nonlinear_arith)
            requires
                i >= 0,
                stride >= 1,
        ;
    }
    let top: u64 = (i as u64) * stride;
    let bottom: u64 = top + vp.row_height;
    let lower: u64 = if bottom >= vp.height {
        bottom - vp.height
    } else {
        0
    };
    let raised: u64 = if offset < lower {
        lower
    } else {
        offset
    };
    if raised > top {
        top
    } else {
        raised
    }
}

} // verus!
