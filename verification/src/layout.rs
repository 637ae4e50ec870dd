//! The adaptive grid-layout calculator: maps a reported display size to the
//! gaps and margins that centre the six-by-five guess board.

use vstd::prelude::*;

verus! {

/// Board geometry for a display size: per-cell padding and the margins
/// that centre the board.
#[derive(Clone, Copy, PartialEq, Eq, Structural, Debug)]
pub struct Layout {
    pub width_gap: usize,
    pub height_gap: usize,
    pub left_margin: usize,
    pub top_margin: usize,
}

/// The display width, raised to the board's minimum footprint of 6 columns.
pub open spec fn effective_width(w: int) -> int {
    if w < 6 {
        6
    } else {
        w
    }
}

/// The display height, raised to the board's minimum footprint of 7 rows.
pub open spec fn effective_height(h: int) -> int {
    if h < 7 {
        7
    } else {
        h
    }
}

/// Horizontal padding per cell edge: grows with the width, capped at 3.
pub open spec fn spec_width_gap(w: int) -> int {
    let g = (effective_width(w) - 6) / 10;
    if g < 3 {
        g
    } else {
        3
    }
}

/// Vertical padding per cell edge: zero or one row.
pub open spec fn spec_height_gap(h: int) -> int {
    let g = (effective_height(h) - 7) / 12;
    if g < 1 {
        g
    } else {
        1
    }
}

/// Columns left of the board; truncation favours the left on odd remainders.
pub open spec fn spec_left_margin(w: int) -> int {
    (effective_width(w) - (spec_width_gap(w) * 10 + 6)) / 2
}

/// Rows above the board; truncation favours the top on odd remainders.
pub open spec fn spec_top_margin(h: int) -> int {
    (effective_height(h) - (spec_height_gap(h) * 12 + 7)) / 2
}

/// The whole geometry for a display size.
pub open spec fn spec_layout(w: int, h: int) -> Layout {
    Layout {
        width_gap: spec_width_gap(w) as usize,
        height_gap: spec_height_gap(h) as usize,
        left_margin: spec_left_margin(w) as usize,
        top_margin: spec_top_margin(h) as usize,
    }
}

/// Computes the board geometry for a reported display size.
pub fn compute_layout(width: u16, height: u16) -> (r: Layout)
    ensures
        r == spec_layout(width as int, height as int),
        r.width_gap == spec_width_gap(width as int),
        r.height_gap == spec_height_gap(height as int),
        r.left_margin == spec_left_margin(width as int),
        r.top_margin == spec_top_margin(height as int),
        r.width_gap <= 3,
        r.height_gap <= 1,
        r.left_margin <= 65535,
        r.top_margin <= 65535,
{
    let ew: usize = if (width as usize) < 6 {
        6
    } else {
        width as usize
    };
    let eh: usize = if (height as usize) < 7 {
        7
    } else {
        height as usize
    };
    let wq: usize = (ew - 6) / 10;
    let wg: usize = if wq < 3 {
        wq
    } else {
        3
    };
    let hq: usize = (eh - 7) / 12;
    let hg: usize = if hq < 1 {
        hq
    } else {
        1
    };
    proof {
        assert(wq * 10 <= ew - 6) by (nonlinear_arith)
            requires
                wq == (ew - 6) / 10,
                ew >= 6,
        ;
        assert(wg * 10 <= wq * 10) by (nonlinear_arith)
            requires
                wg <= wq,
        ;
        assert(hq * 12 <= eh - 7) by (nonlinear_arith)
            requires
                hq == (eh - 7) / 12,
                eh >= 7,
        ;
        assert(hg * 12 <= hq * 12) by (nonlinear_arith)
            requires
                hg <= hq,
        ;
    }
    let lm: usize = (ew - (wg * 10 + 6)) / 2;
    let tm: usize = (eh - (hg * 12 + 7)) / 2;
    let r = Layout { width_gap: wg, height_gap: hg, left_margin: lm, top_margin: tm };
    proof {
        assert(r == spec_layout(width as int, height as int));
    }
    r
}

} // verus!
