//! What holds of the engine as a whole, stated over the model that the
//! contracts of the other modules use.

use crate::field::{
    cleared_blocks, cleared_colors, count_upto, fallen, field_ok, full_below, full_rows,
    lemma_cleared_len, lemma_fall_bounds, lemma_fall_order, lemma_full_rows_bounds, row_count,
    row_full, valid_pos,
};
use crate::geometry::{Color, Point, Size};
use crate::pieces::{accepted, after, in_box, rotated, Command};
use vstd::prelude::*;

verus! {

/// The list of full rows under `n` names full rows only, in ascending
/// order, and leaves out no full row under `n`.
pub proof fn lemma_full_rows_listed(fd: Size, fb: Seq<Point>, n: int)
    requires
        0 <= n <= fd.1 <= i32::MAX,
    ensures
        forall|k: int|
            0 <= k < full_rows(fd, fb, n).len() ==> 0 <= (#[trigger] full_rows(fd, fb, n)[k]) < n
                && row_full(fd, fb, full_rows(fd, fb, n)[k] as int),
        forall|k: int, l: int|
            0 <= k < l < full_rows(fd, fb, n).len() ==> full_rows(fd, fb, n)[k] < full_rows(
                fd,
                fb,
                n,
            )[l],
        forall|r: int|
            0 <= r < n && row_full(fd, fb, r) ==> full_rows(fd, fb, n).contains(r as i32),
    decreases n,
{
    if n > 0 {
        lemma_full_rows_listed(fd, fb, n - 1);
        let before = full_rows(fd, fb, n - 1);
        let now = full_rows(fd, fb, n);
        assert forall|r: int| 0 <= r < n && row_full(fd, fb, r) implies now.contains(
            r as i32,
        ) by {
            if r == n - 1 {
                assert(now[now.len() - 1] == r as i32);
            } else {
                let k = choose|k: int| 0 <= k < before.len() && before[k] == r as i32;
                assert(now[k] == r as i32);
            }
        }
    }
}

/// The number of full rows of a field.
pub open spec fn full_total(fd: Size, fb: Seq<Point>) -> int {
    full_rows(fd, fb, fd.1 as int).len() as int
}

/// No row that a clear would bring into the field from above its top is
/// complete: of the rows above the top, as many as there are full rows, none
/// holds as many blocks as the field is wide.
pub open spec fn top_clear(fd: Size, fb: Seq<Point>) -> bool {
    forall|r: int| -full_total(fd, fb) <= r < 0 ==> #[trigger] row_count(fb, r) != fd.0
}

/// Counting the blocks of a row among the first `n` does not look past
/// them.
pub proof fn lemma_count_prefix(a: Seq<Point>, b: Seq<Point>, n: int, r: int)
    requires
        0 <= n <= a.len(),
        n <= b.len(),
        forall|i: int| 0 <= i < n ==> a[i] == b[i],
    ensures
        count_upto(a, n, r) == count_upto(b, n, r),
    decreases n,
{
    if n > 0 {
        lemma_count_prefix(a, b, n - 1, r);
    }
}

/// A row that is not full keeps its blocks through a clear: the row on
/// which it lands holds, of the first `m` blocks, those that it held.
pub proof fn lemma_row_carried(fd: Size, fb: Seq<Point>, m: int, r: int)
    requires
        field_ok(fd, fb),
        0 <= m <= fb.len(),
        !row_full(fd, fb, r),
    ensures
        row_count(cleared_blocks(fd, fb, m), r + full_below(fd, fb, r)) == count_upto(fb, m, r),
    decreases m,
{
    if m > 0 {
        lemma_row_carried(fd, fb, m - 1, r);
        let before = cleared_blocks(fd, fb, m - 1);
        let after = cleared_blocks(fd, fb, m);
        let p = fb[m - 1];
        let target = r + full_below(fd, fb, r);
        if !row_full(fd, fb, p.y as int) {
            lemma_fall_bounds(fd, fb, p.y as int);
            lemma_count_prefix(before, after, before.len() as int, target);
            if p.y < r {
                lemma_fall_order(fd, fb, p.y as int, r);
            } else if r < p.y {
                lemma_fall_order(fd, fb, r, p.y as int);
            }
        }
    }
}

/// The number of rows under `n` that are not full.
pub open spec fn kept_under(fd: Size, fb: Seq<Point>, n: int) -> int {
    n - full_rows(fd, fb, n).len()
}

/// Among the rows of the field that are not full, there is one with `j`
/// such rows above it, for each `j` under their number.
pub proof fn lemma_kept_row(fd: Size, fb: Seq<Point>, j: int, hi: int) -> (r: int)
    requires
        0 <= hi <= fd.1,
        0 <= j < kept_under(fd, fb, hi),
    ensures
        0 <= r < hi,
        !row_full(fd, fb, r),
        kept_under(fd, fb, r) == j,
    decreases hi,
{
    lemma_full_rows_bounds(fd, fb, hi);
    if kept_under(fd, fb, hi - 1) <= j {
        hi - 1
    } else {
        lemma_kept_row(fd, fb, j, hi - 1)
    }
}

/// After a clear no row of the field is full.
pub proof fn lemma_cleared_has_no_full_row(fd: Size, fb: Seq<Point>, row: int)
    requires
        field_ok(fd, fb),
        top_clear(fd, fb),
    ensures
        !row_full(fd, cleared_blocks(fd, fb, fb.len() as int), row),
{
    let n = fb.len() as int;
    let total = full_total(fd, fb);
    lemma_full_rows_bounds(fd, fb, fd.1 as int);
    if 0 <= row < fd.1 {
        if row < total {
            let r = row - total;
            lemma_fall_bounds(fd, fb, r);
            lemma_row_carried(fd, fb, n, r);
            assert(row_count(fb, r) != fd.0);
        } else {
            let r = lemma_kept_row(fd, fb, row - total, fd.1 as int);
            lemma_row_carried(fd, fb, n, r);
        }
    }
}

/// Where no row is full, there are no full rows to list and nothing falls.
pub proof fn lemma_no_full_rows(fd: Size, fb: Seq<Point>, n: int)
    requires
        forall|r: int| !row_full(fd, fb, r),
    ensures
        full_rows(fd, fb, n) == Seq::<i32>::empty(),
    decreases n,
{
    if n > 0 {
        lemma_no_full_rows(fd, fb, n - 1);
    }
}

/// Where no row is full, a clear leaves the first `m` blocks and colours as
/// they are.
pub proof fn lemma_clear_without_full_rows(fd: Size, fb: Seq<Point>, fc: Seq<Color>, m: int)
    requires
        forall|r: int| !row_full(fd, fb, r),
        0 <= m <= fb.len(),
        fb.len() == fc.len(),
    ensures
        cleared_blocks(fd, fb, m) == fb.take(m),
        cleared_colors(fd, fb, fc, m) == fc.take(m),
    decreases m,
{
    if m > 0 {
        lemma_clear_without_full_rows(fd, fb, fc, m - 1);
        let p = fb[m - 1];
        lemma_no_full_rows(fd, fb, fd.1 as int);
        lemma_no_full_rows(fd, fb, p.y + 1);
    }
}

/// A second clear right after a clear finds no full row and leaves the
/// field as it is.
///
/// This holds of every field without overlap and in bounds in which no
/// complete row waits above the top to fall into the field (see
/// `top_clear`); such a row would be full after the first clear.
pub proof fn lemma_clear_twice(fd: Size, fb: Seq<Point>, fc: Seq<Color>)
    requires
        field_ok(fd, fb),
        fb.len() == fc.len(),
        top_clear(fd, fb),
    ensures
        ({
            let blocks = cleared_blocks(fd, fb, fb.len() as int);
            let colors = cleared_colors(fd, fb, fc, fb.len() as int);
            &&& full_rows(fd, blocks, fd.1 as int) == Seq::<i32>::empty()
            &&& cleared_blocks(fd, blocks, blocks.len() as int) == blocks
            &&& cleared_colors(fd, blocks, colors, blocks.len() as int) == colors
        }),
{
    let blocks = cleared_blocks(fd, fb, fb.len() as int);
    let colors = cleared_colors(fd, fb, fc, fb.len() as int);
    lemma_cleared_len(fd, fb, fc, fb.len() as int);
    assert forall|r: int| !row_full(fd, blocks, r) by {
        lemma_cleared_has_no_full_row(fd, fb, r);
    }
    lemma_no_full_rows(fd, blocks, fd.1 as int);
    lemma_clear_without_full_rows(fd, blocks, colors, blocks.len() as int);
}

/// A clear leaves every block of a row that is not full, fallen by the
/// number of full rows that were below it.
pub proof fn lemma_clear_moves_rows(fd: Size, fb: Seq<Point>, k: int) -> (i: int)
    requires
        0 <= k < fb.len(),
        !row_full(fd, fb, fb[k].y as int),
    ensures
        0 <= i < cleared_blocks(fd, fb, fb.len() as int).len(),
        cleared_blocks(fd, fb, fb.len() as int)[i] == fallen(fd, fb, fb[k]),
{
    lemma_block_kept(fd, fb, fb.len() as int, k)
}

/// Of the first `n` blocks, a clear leaves each one that stands in a row
/// that is not full.
pub proof fn lemma_block_kept(fd: Size, fb: Seq<Point>, n: int, k: int) -> (i: int)
    requires
        0 <= k < n <= fb.len(),
        !row_full(fd, fb, fb[k].y as int),
    ensures
        0 <= i < cleared_blocks(fd, fb, n).len(),
        cleared_blocks(fd, fb, n)[i] == fallen(fd, fb, fb[k]),
    decreases n,
{
    if k == n - 1 {
        cleared_blocks(fd, fb, n - 1).len() as int
    } else {
        lemma_block_kept(fd, fb, n - 1, k)
    }
}

/// The position and the blocks of a piece after the commands `cmds`, one
/// after the other.
pub open spec fn after_all(
    fd: Size,
    fb: Seq<Point>,
    dim: u32,
    pos: Point,
    blocks: Seq<Point>,
    cmds: Seq<Command>,
) -> (Point, Seq<Point>)
    decreases cmds.len(),
{
    if cmds.len() == 0 {
        (pos, blocks)
    } else {
        let before = after_all(fd, fb, dim, pos, blocks, cmds.drop_last());
        after(fd, fb, dim, before.0, before.1, cmds.last())
    }
}

/// A command that the field takes leaves the piece on a position that the
/// field takes, wherever the piece stood before.
pub proof fn lemma_accepted_is_valid(
    fd: Size,
    fb: Seq<Point>,
    dim: u32,
    pos: Point,
    blocks: Seq<Point>,
    c: Command,
)
    requires
        accepted(fd, fb, dim, pos, blocks, c),
    ensures
        valid_pos(
            fd,
            fb,
            after(fd, fb, dim, pos, blocks, c).0,
            after(fd, fb, dim, pos, blocks, c).1,
        ),
{
}

/// Whatever commands a piece is given, it stays on a position that the
/// field takes.
pub proof fn lemma_commands_keep_valid(
    fd: Size,
    fb: Seq<Point>,
    dim: u32,
    pos: Point,
    blocks: Seq<Point>,
    cmds: Seq<Command>,
)
    requires
        valid_pos(fd, fb, pos, blocks),
    ensures
        valid_pos(
            fd,
            fb,
            after_all(fd, fb, dim, pos, blocks, cmds).0,
            after_all(fd, fb, dim, pos, blocks, cmds).1,
        ),
    decreases cmds.len(),
{
    if cmds.len() > 0 {
        lemma_commands_keep_valid(fd, fb, dim, pos, blocks, cmds.drop_last());
        let before = after_all(fd, fb, dim, pos, blocks, cmds.drop_last());
        if accepted(fd, fb, dim, before.0, before.1, cmds.last()) {
            lemma_accepted_is_valid(fd, fb, dim, before.0, before.1, cmds.last());
        }
    }
}

/// Four quarter turns bring every block of a piece back to where it was.
pub proof fn lemma_rotate_four(dim: u32, blocks: Seq<Point>)
    requires
        dim <= i32::MAX,
        in_box(dim, blocks),
    ensures
        rotated(dim, rotated(dim, rotated(dim, rotated(dim, blocks)))) == blocks,
{
    let a = rotated(dim, blocks);
    let b = rotated(dim, a);
    let c = rotated(dim, b);
    let d = rotated(dim, c);
    assert forall|i: int| 0 <= i < blocks.len() implies d[i] == blocks[i] by {
        assert(0 <= blocks[i].x < dim && 0 <= blocks[i].y < dim);
        assert(a[i].y == blocks[i].x && b[i].y == a[i].x && c[i].y == b[i].x);
    }
}

} // verus!
