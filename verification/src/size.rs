//! How a field is laid out in a window: the side of one block and the
//! rectangle that the field takes, centred in the window.

use crate::geometry::Size;
use vstd::prelude::*;

verus! {

/// A rectangle of the window, in pixels.
#[derive(Clone, Copy, Debug, PartialEq, Eq, Structural)]
pub struct Rect {
    pub x: i32,
    pub y: i32,
    pub w: u32,
    pub h: u32,
}

/// The smaller of two numbers.
pub open spec fn least(a: int, b: int) -> int {
    if a <= b {
        a
    } else {
        b
    }
}

/// The margin kept free round the field: a tenth of the shorter side of the
/// window.
pub open spec fn threshold(win_dim: (u32, u32)) -> int {
    least(win_dim.0 as int / 10, win_dim.1 as int / 10)
}

/// The side of a block: the largest at which the field fits the window less
/// the margin, in both directions.
pub open spec fn block_side(win_dim: (u32, u32), field_dim: Size) -> int {
    least(
        (win_dim.0 - threshold(win_dim)) / (field_dim.0 as int),
        (win_dim.1 - threshold(win_dim)) / (field_dim.1 as int),
    )
}

pub fn calc_threshold(win_dim: (u32, u32)) -> (t: u32)
    ensures
        t == threshold(win_dim),
{
    let a: u32 = win_dim.0 / 10;
    let b: u32 = win_dim.1 / 10;
    if a <= b {
        a
    } else {
        b
    }
}

pub struct ResizePattern {
    pub threshold: u32,
    pub block_size: u32,
    pub field_rect: Rect,
}

/// The layout of a field of `field_dim` cells in a window of `win_dim`
/// pixels.
pub fn new_resize(win_dim: (u32, u32), field_dim: Size) -> (out: ResizePattern)
    requires
        field_dim.0 > 0,
        field_dim.1 > 0,
    ensures
        out.threshold == threshold(win_dim),
        out.block_size == block_side(win_dim, field_dim),
        out.field_rect.w == out.block_size * field_dim.0,
        out.field_rect.h == out.block_size * field_dim.1,
        out.field_rect.x == (win_dim.0 - out.field_rect.w) / 2,
        out.field_rect.y == (win_dim.1 - out.field_rect.h) / 2,
{
    let threshold = calc_threshold(win_dim);
    let across: u32 = (win_dim.0 - threshold) / field_dim.0;
    let down: u32 = (win_dim.1 - threshold) / field_dim.1;
    let block_size: u32 = if across <= down {
        across
    } else {
        down
    };
    proof {
        let b = block_size as int;
        let fw = field_dim.0 as int;
        let fh = field_dim.1 as int;
        let rw = win_dim.0 - threshold;
        let rh = win_dim.1 - threshold;
        vstd::arithmetic::div_mod::lemma_fundamental_div_mod(rw, fw);
        vstd::arithmetic::div_mod::lemma_mod_bound(rw, fw);
        vstd::arithmetic::div_mod::lemma_fundamental_div_mod(rh, fh);
        vstd::arithmetic::div_mod::lemma_mod_bound(rh, fh);
        assert(0 <= b * fw <= fw * (rw / fw)) by (nonlinear_arith)
            requires
                0 <= b <= rw / fw,
                0 < fw,
        ;
        assert(0 <= b * fh <= fh * (rh / fh)) by (nonlinear_arith)
            requires
                0 <= b <= rh / fh,
                0 < fh,
        ;
    }
    let w: u32 = block_size * field_dim.0;
    let h: u32 = block_size * field_dim.1;
    let field_rect = Rect {
        x: ((win_dim.0 - w) / 2) as i32,
        y: ((win_dim.1 - h) / 2) as i32,
        w,
        h,
    };
    ResizePattern { threshold, block_size, field_rect }
}

} // verus!
