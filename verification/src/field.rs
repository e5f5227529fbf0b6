//! The field of settled blocks: collision queries, row counts and line
//! clearing. A field is a size, a sequence of occupied cells and a parallel
//! sequence of their colours.

use crate::geometry::{Color, Point, Size};
use vstd::prelude::*;

verus! {

// -----------------------------------------------------------------------------
// Model
// -----------------------------------------------------------------------------

/// Some settled block lies at `(x, y)`.
pub open spec fn occupied(fb: Seq<Point>, x: int, y: int) -> bool {
    exists|j: int| 0 <= j < fb.len() && (#[trigger] fb[j]).x == x && fb[j].y == y
}

/// `(x, y)` can take a block: it lies between the side walls, above the
/// floor (the top is open) and on no settled block.
pub open spec fn cell_free(fd: Size, fb: Seq<Point>, x: int, y: int) -> bool {
    &&& 0 <= x < fd.0
    &&& y < fd.1
    &&& !occupied(fb, x, y)
}

/// Every block of `blocks`, moved by `(x, y)`, lands on a free cell.
pub open spec fn valid_at(fd: Size, fb: Seq<Point>, x: int, y: int, blocks: Seq<Point>) -> bool {
    forall|i: int|
        0 <= i < blocks.len() ==> cell_free(fd, fb, x + (#[trigger] blocks[i]).x, y + blocks[i].y)
}

/// The piece `blocks`, anchored at `pos`, fits the field.
pub open spec fn valid_pos(fd: Size, fb: Seq<Point>, pos: Point, blocks: Seq<Point>) -> bool {
    valid_at(fd, fb, pos.x as int, pos.y as int, blocks)
}

/// No cell occurs twice.
pub open spec fn distinct(fb: Seq<Point>) -> bool {
    forall|i: int, j: int| 0 <= i < j < fb.len() ==> fb[i] != fb[j]
}

/// Every cell lies between the side walls and above the floor.
pub open spec fn within(fd: Size, fb: Seq<Point>) -> bool {
    forall|i: int| 0 <= i < fb.len() ==> 0 <= (#[trigger] fb[i]).x < fd.0 && fb[i].y < fd.1
}

/// Both sides of the field fit the coordinate type.
pub open spec fn size_ok(fd: Size) -> bool {
    fd.0 <= i32::MAX && fd.1 <= i32::MAX
}

/// The field invariant: no overlap and nothing out of bounds.
pub open spec fn field_ok(fd: Size, fb: Seq<Point>) -> bool {
    size_ok(fd) && distinct(fb) && within(fd, fb)
}

/// The number of cells among the first `n` that lie in row `r`.
pub open spec fn count_upto(fb: Seq<Point>, n: int, r: int) -> nat
    decreases n,
{
    if n <= 0 {
        0
    } else {
        count_upto(fb, n - 1, r) + if fb[n - 1].y == r {
            1nat
        } else {
            0nat
        }
    }
}

/// The number of settled blocks in row `r`.
pub open spec fn row_count(fb: Seq<Point>, r: int) -> nat {
    count_upto(fb, fb.len() as int, r)
}

/// Row `r` is a row of the field and holds as many blocks as the field is
/// wide.
pub open spec fn row_full(fd: Size, fb: Seq<Point>, r: int) -> bool {
    0 <= r < fd.1 && row_count(fb, r) == fd.0
}

/// The full rows with an index under `n`, in ascending order.
pub open spec fn full_rows(fd: Size, fb: Seq<Point>, n: int) -> Seq<i32>
    decreases n,
{
    if n <= 0 {
        Seq::empty()
    } else if row_full(fd, fb, n - 1) {
        full_rows(fd, fb, n - 1).push((n - 1) as i32)
    } else {
        full_rows(fd, fb, n - 1)
    }
}

/// The number of full rows strictly below row `r` (with a greater index).
pub open spec fn full_below(fd: Size, fb: Seq<Point>, r: int) -> int {
    full_rows(fd, fb, fd.1 as int).len() - full_rows(fd, fb, r + 1).len()
}

/// Where a block of a row that stays comes to rest once the full rows are
/// gone: as many rows down as there were full rows below it.
pub open spec fn fallen(fd: Size, fb: Seq<Point>, p: Point) -> Point {
    Point { x: p.x, y: (p.y + full_below(fd, fb, p.y as int)) as i32 }
}

/// The blocks left of the first `n` after a clear, in their old order.
pub open spec fn cleared_blocks(fd: Size, fb: Seq<Point>, n: int) -> Seq<Point>
    decreases n,
{
    if n <= 0 {
        Seq::empty()
    } else if row_full(fd, fb, fb[n - 1].y as int) {
        cleared_blocks(fd, fb, n - 1)
    } else {
        cleared_blocks(fd, fb, n - 1).push(fallen(fd, fb, fb[n - 1]))
    }
}

/// The colours of `cleared_blocks`, in the same order.
pub open spec fn cleared_colors(fd: Size, fb: Seq<Point>, fc: Seq<Color>, n: int) -> Seq<Color>
    decreases n,
{
    if n <= 0 {
        Seq::empty()
    } else if row_full(fd, fb, fb[n - 1].y as int) {
        cleared_colors(fd, fb, fc, n - 1)
    } else {
        cleared_colors(fd, fb, fc, n - 1).push(fc[n - 1])
    }
}

// -----------------------------------------------------------------------------
// Facts about the model
// -----------------------------------------------------------------------------

pub proof fn lemma_count_bound(fb: Seq<Point>, n: int, r: int)
    requires
        0 <= n,
    ensures
        count_upto(fb, n, r) <= n,
    decreases n,
{
    if n > 0 {
        lemma_count_bound(fb, n - 1, r);
    }
}

/// There are at most `n` full rows under `n`, each one a row under `n`, and
/// past the floor no more come.
pub proof fn lemma_full_rows_bounds(fd: Size, fb: Seq<Point>, n: int)
    requires
        0 <= n,
    ensures
        full_rows(fd, fb, n).len() <= n,
        full_rows(fd, fb, n).len() <= fd.1,
        n >= fd.1 ==> full_rows(fd, fb, n) == full_rows(fd, fb, fd.1 as int),
    decreases n,
{
    if n > 0 {
        lemma_full_rows_bounds(fd, fb, n - 1);
    }
}

/// Between two rows there are no more full rows than rows.
pub proof fn lemma_full_rows_grow(fd: Size, fb: Seq<Point>, m: int, n: int)
    requires
        m <= n,
    ensures
        full_rows(fd, fb, m).len() <= full_rows(fd, fb, n).len(),
        full_rows(fd, fb, n).len() - full_rows(fd, fb, m).len() <= n - m,
    decreases n - m,
{
    if m < n {
        lemma_full_rows_grow(fd, fb, m, n - 1);
    }
}

/// A block above the floor stays above it when it falls, and one at or under
/// the floor does not fall.
pub proof fn lemma_fall_bounds(fd: Size, fb: Seq<Point>, y: int)
    ensures
        0 <= full_below(fd, fb, y) <= fd.1,
        y < fd.1 ==> y + full_below(fd, fb, y) < fd.1,
        y + 1 >= fd.1 ==> full_below(fd, fb, y) == 0,
        y < 0 ==> full_below(fd, fb, y) == full_rows(fd, fb, fd.1 as int).len(),
{
    lemma_full_rows_bounds(fd, fb, fd.1 as int);
    if y + 1 >= fd.1 {
        lemma_full_rows_bounds(fd, fb, y + 1);
    } else {
        lemma_full_rows_grow(fd, fb, y + 1, fd.1 as int);
    }
}

/// Falling keeps the order of the rows that stay: of two rows, the lower
/// one being not full, the upper one lands strictly above the lower one.
pub proof fn lemma_fall_order(fd: Size, fb: Seq<Point>, a: int, b: int)
    requires
        a < b,
        !row_full(fd, fb, b),
    ensures
        a + full_below(fd, fb, a) < b + full_below(fd, fb, b),
{
    lemma_full_rows_grow(fd, fb, a + 1, b);
}

// -----------------------------------------------------------------------------
// Queries
// -----------------------------------------------------------------------------

fn is_occupied(fb: &[Point], x: i64, y: i64) -> (hit: bool)
    ensures
        hit == occupied(fb@, x as int, y as int),
{
    let mut j: usize = 0;
    while j < fb.len()
        invariant
            j <= fb.len(),
            forall|k: int| 0 <= k < j ==> !((#[trigger] fb@[k]).x == x && fb@[k].y == y),
        decreases fb.len() - j,
    {
        if fb[j].x as i64 == x && fb[j].y as i64 == y {
            return true;
        }
        j += 1;
    }
    false
}

/// Whether the piece `blocks`, anchored at `pos`, fits the field: every
/// block between the side walls, above the floor and on no settled block.
pub fn check_valid_pos(field_dim: Size, field_blocks: &[Point], pos: Point, blocks: &[Point]) -> (ok:
    bool)
    ensures
        ok == valid_pos(field_dim, field_blocks@, pos, blocks@),
{
    let mut i: usize = 0;
    while i < blocks.len()
        invariant
            i <= blocks.len(),
            forall|k: int|
                0 <= k < i ==> cell_free(
                    field_dim,
                    field_blocks@,
                    pos.x + (#[trigger] blocks@[k]).x,
                    pos.y + blocks@[k].y,
                ),
        decreases blocks.len() - i,
    {
        let x: i64 = blocks[i].x as i64 + pos.x as i64;
        let y: i64 = blocks[i].y as i64 + pos.y as i64;
        if x < 0 || x >= field_dim.0 as i64 || y >= field_dim.1 as i64 || is_occupied(
            field_blocks,
            x,
            y,
        ) {
            return false;
        }
        i += 1;
    }
    true
}

/// Whether no cell occurs twice among `blocks`.
pub fn all_distinct(blocks: &[Point]) -> (ok: bool)
    ensures
        ok == distinct(blocks@),
{
    let mut j: usize = 0;
    while j < blocks.len()
        invariant
            j <= blocks.len(),
            forall|a: int, b: int| 0 <= a < b < j ==> blocks@[a] != blocks@[b],
        decreases blocks.len() - j,
    {
        let q: Point = blocks[j];
        let mut i: usize = 0;
        while i < j
            invariant
                i <= j < blocks.len(),
                q == blocks@[j as int],
                forall|a: int| 0 <= a < i ==> blocks@[a] != q,
            decreases j - i,
        {
            if blocks[i].x == q.x && blocks[i].y == q.y {
                return false;
            }
            i += 1;
        }
        j += 1;
    }
    true
}

/// Whether the field has no overlap and nothing out of bounds, and its
/// sides fit the coordinates.
pub fn check_field(fd: Size, fb: &[Point]) -> (ok: bool)
    ensures
        ok == field_ok(fd, fb@),
{
    if fd.0 > 0x7fff_ffff || fd.1 > 0x7fff_ffff {
        return false;
    }
    let mut i: usize = 0;
    while i < fb.len()
        invariant
            i <= fb.len(),
            size_ok(fd),
            forall|k: int| 0 <= k < i ==> 0 <= (#[trigger] fb@[k]).x < fd.0 && fb@[k].y < fd.1,
        decreases fb.len() - i,
    {
        let p: Point = fb[i];
        if p.x < 0 || p.x as i64 >= fd.0 as i64 || p.y as i64 >= fd.1 as i64 {
            return false;
        }
        i += 1;
    }
    all_distinct(fb)
}

fn row_counts(height: u32, blocks: &[Point]) -> (counts: Vec<usize>)
    ensures
        counts@.len() == height,
        forall|r: int| 0 <= r < height ==> counts@[r] == row_count(blocks@, r),
{
    let mut counts: Vec<usize> = Vec::new();
    let mut h: u32 = 0;
    while h < height
        invariant
            h <= height,
            counts@.len() == h,
            forall|r: int| 0 <= r < h ==> counts@[r] == 0,
        decreases height - h,
    {
        counts.push(0);
        h += 1;
    }
    let mut i: usize = 0;
    while i < blocks.len()
        invariant
            i <= blocks.len(),
            counts@.len() == height,
            forall|r: int| 0 <= r < height ==> counts@[r] == count_upto(blocks@, i as int, r),
        decreases blocks.len() - i,
    {
        let y: i32 = blocks[i].y;
        if 0 <= y && (y as i64) < height as i64 {
            proof {
                lemma_count_bound(blocks@, i as int, y as int);
            }
            let c: usize = counts[y as usize];
            counts.set(y as usize, c + 1);
        }
        i += 1;
    }
    counts
}

/// The number of settled blocks in each row of the field, by row. Blocks
/// above the top belong to no row.
pub fn count_lines(height: u32, blocks: &[Point]) -> (lines: Vec<i32>)
    requires
        blocks@.len() <= i32::MAX,
    ensures
        lines@.len() == height,
        forall|r: int| 0 <= r < height ==> lines@[r] == row_count(blocks@, r),
{
    let counts = row_counts(height, blocks);
    let mut lines: Vec<i32> = Vec::new();
    let mut r: usize = 0;
    while r < counts.len()
        invariant
            r <= counts@.len(),
            counts@.len() == height,
            lines@.len() == r,
            blocks@.len() <= i32::MAX,
            forall|k: int| 0 <= k < height ==> counts@[k] == row_count(blocks@, k),
            forall|k: int| 0 <= k < r ==> lines@[k] == row_count(blocks@, k),
        decreases counts@.len() - r,
    {
        proof {
            lemma_count_bound(blocks@, blocks@.len() as int, r as int);
        }
        lines.push(counts[r] as i32);
        r += 1;
    }
    lines
}

/// The full rows in ascending order, and for each `n` up to the height the
/// number of full rows under `n`.
fn scan_rows(fd: Size, fb: &[Point]) -> (out: (Vec<i32>, Vec<usize>))
    requires
        fd.1 <= i32::MAX,
    ensures
        out.0@ == full_rows(fd, fb@, fd.1 as int),
        out.1@.len() == fd.1 + 1,
        forall|n: int| 0 <= n <= fd.1 ==> out.1@[n] == full_rows(fd, fb@, n).len(),
{
    let counts = row_counts(fd.1, fb);
    let mut lines: Vec<i32> = Vec::new();
    let mut under: Vec<usize> = Vec::new();
    under.push(0);
    let mut r: u32 = 0;
    while r < fd.1
        invariant
            r <= fd.1,
            fd.1 <= i32::MAX,
            counts@.len() == fd.1,
            forall|k: int| 0 <= k < fd.1 ==> counts@[k] == row_count(fb@, k),
            lines@ == full_rows(fd, fb@, r as int),
            under@.len() == r + 1,
            forall|n: int| 0 <= n <= r ==> under@[n] == full_rows(fd, fb@, n).len(),
        decreases fd.1 - r,
    {
        if counts[r as usize] == fd.0 as usize {
            lines.push(r as i32);
        }
        under.push(lines.len());
        r += 1;
    }
    (lines, under)
}

/// The rows that hold as many blocks as the field is wide, in ascending
/// order.
pub fn lines_list(fd: Size, fb: &[Point]) -> (lines: Vec<i32>)
    requires
        fd.1 <= i32::MAX,
    ensures
        lines@ == full_rows(fd, fb@, fd.1 as int),
{
    let (lines, _under) = scan_rows(fd, fb);
    lines
}

// -----------------------------------------------------------------------------
// Mutation
// -----------------------------------------------------------------------------

/// An empty field of the given size.
pub fn init(field_dim: Size) -> (out: (Vec<Point>, Vec<Color>, Size))
    ensures
        out.0@.len() == 0,
        out.1@.len() == 0,
        out.2 == field_dim,
        size_ok(field_dim) ==> field_ok(out.2, out.0@),
{
    (Vec::new(), Vec::new(), field_dim)
}

/// Settles `blocks`, given in field coordinates, with their colours.
pub fn add_pieces(
    fd: Size,
    fb: &mut Vec<Point>,
    fc: &mut Vec<Color>,
    blocks: &[Point],
    colors: &[Color],
)
    requires
        blocks@.len() == colors@.len(),
        valid_pos(fd, old(fb)@, Point { x: 0, y: 0 }, blocks@),
    ensures
        final(fb)@ == old(fb)@ + blocks@,
        final(fc)@ == old(fc)@ + colors@,
        field_ok(fd, old(fb)@) && distinct(blocks@) ==> field_ok(fd, final(fb)@),
{
    let mut i: usize = 0;
    while i < blocks.len()
        invariant
            i <= blocks.len(),
            blocks@.len() == colors@.len(),
            fb@ == old(fb)@ + blocks@.take(i as int),
            fc@ == old(fc)@ + colors@.take(i as int),
        decreases blocks.len() - i,
    {
        fb.push(blocks[i]);
        fc.push(colors[i]);
        i += 1;
    }
    proof {
        if field_ok(fd, old(fb)@) && distinct(blocks@) {
            lemma_add_keeps_ok(fd, old(fb)@, blocks@);
        }
    }
}

/// Settling blocks that fit keeps the field without overlap and in bounds.
pub proof fn lemma_add_keeps_ok(fd: Size, fb: Seq<Point>, blocks: Seq<Point>)
    requires
        field_ok(fd, fb),
        distinct(blocks),
        valid_pos(fd, fb, Point { x: 0, y: 0 }, blocks),
    ensures
        field_ok(fd, fb + blocks),
{
    let all = fb + blocks;
    assert forall|i: int| 0 <= i < all.len() implies 0 <= (#[trigger] all[i]).x < fd.0 && all[i].y
        < fd.1 by {
        if i >= fb.len() {
            let b = blocks[i - fb.len()];
            assert(cell_free(fd, fb, 0 + b.x, 0 + b.y));
        }
    }
    assert forall|i: int, j: int| 0 <= i < j < all.len() implies all[i] != all[j] by {
        if j >= fb.len() && i < fb.len() {
            let b = blocks[j - fb.len()];
            assert(cell_free(fd, fb, 0 + b.x, 0 + b.y));
            if all[i] == all[j] {
                assert(occupied(fb, b.x as int, b.y as int));
            }
        } else if i >= fb.len() {
            assert(blocks[i - fb.len()] != blocks[j - fb.len()]);
        }
    }
}

/// Removes the blocks of every full row and lets each block that stays fall
/// by the number of full rows that were below it. Returns the rows cleared,
/// in ascending order. The blocks that stay keep their order and colours.
pub fn clear_lines(fd: Size, fb: &mut Vec<Point>, fc: &mut Vec<Color>) -> (lines: Vec<i32>)
    requires
        fd.1 <= i32::MAX,
        old(fb)@.len() == old(fc)@.len(),
    ensures
        lines@ == full_rows(fd, old(fb)@, fd.1 as int),
        final(fb)@ == cleared_blocks(fd, old(fb)@, old(fb)@.len() as int),
        final(fc)@ == cleared_colors(fd, old(fb)@, old(fc)@, old(fb)@.len() as int),
        final(fb)@.len() == final(fc)@.len(),
        field_ok(fd, old(fb)@) ==> field_ok(fd, final(fb)@),
{
    let (lines, under) = scan_rows(fd, fb.as_slice());
    let counts = row_counts(fd.1, fb.as_slice());
    let total: usize = lines.len();
    let mut kept: Vec<Point> = Vec::new();
    let mut tints: Vec<Color> = Vec::new();
    let mut i: usize = 0;
    while i < fb.len()
        invariant
            i <= fb@.len(),
            fb@ == old(fb)@,
            fc@ == old(fc)@,
            fb@.len() == fc@.len(),
            fd.1 <= i32::MAX,
            total == full_rows(fd, fb@, fd.1 as int).len(),
            counts@.len() == fd.1,
            forall|k: int| 0 <= k < fd.1 ==> counts@[k] == row_count(fb@, k),
            under@.len() == fd.1 + 1,
            forall|n: int| 0 <= n <= fd.1 ==> under@[n] == full_rows(fd, fb@, n).len(),
            kept@ == cleared_blocks(fd, fb@, i as int),
            tints@ == cleared_colors(fd, fb@, fc@, i as int),
        decreases fb@.len() - i,
    {
        let p: Point = fb[i];
        let y: i64 = p.y as i64;
        let h: i64 = fd.1 as i64;
        let full: bool = 0 <= y && y < h && counts[y as usize] == fd.0 as usize;
        if !full {
            proof {
                lemma_fall_bounds(fd, fb@, y as int);
            }
            let shift: i64 = if y + 1 >= h {
                0
            } else if y + 1 <= 0 {
                total as i64
            } else {
                (total - under[(y + 1) as usize]) as i64
            };
            kept.push(Point { x: p.x, y: (y + shift) as i32 });
            tints.push(fc[i]);
        }
        i += 1;
    }
    proof {
        if field_ok(fd, fb@) {
            lemma_clear_keeps_ok(fd, fb@, fb@.len() as int);
        }
        lemma_cleared_len(fd, fb@, fc@, fb@.len() as int);
    }
    *fb = kept;
    *fc = tints;
    lines
}

/// Blocks and colours stay paired through a clear.
pub proof fn lemma_cleared_len(fd: Size, fb: Seq<Point>, fc: Seq<Color>, n: int)
    ensures
        cleared_blocks(fd, fb, n).len() == cleared_colors(fd, fb, fc, n).len(),
        n >= 0 ==> cleared_blocks(fd, fb, n).len() <= n,
    decreases n,
{
    if n > 0 {
        lemma_cleared_len(fd, fb, fc, n - 1);
    }
}

/// Every block left by a clear is the fallen image of a block that stood in
/// a row that was not full.
pub proof fn lemma_cleared_source(fd: Size, fb: Seq<Point>, n: int, i: int) -> (k: int)
    requires
        0 <= n <= fb.len(),
        0 <= i < cleared_blocks(fd, fb, n).len(),
    ensures
        0 <= k < n,
        !row_full(fd, fb, fb[k].y as int),
        cleared_blocks(fd, fb, n)[i] == fallen(fd, fb, fb[k]),
    decreases n,
{
    lemma_cleared_len(fd, fb, Seq::empty(), n - 1);
    if row_full(fd, fb, fb[n - 1].y as int) {
        let k = lemma_cleared_source(fd, fb, n - 1, i);
        k
    } else if i == cleared_blocks(fd, fb, n - 1).len() {
        n - 1
    } else {
        let k = lemma_cleared_source(fd, fb, n - 1, i);
        k
    }
}

/// A clear keeps the field without overlap and in bounds.
pub proof fn lemma_clear_keeps_ok(fd: Size, fb: Seq<Point>, n: int)
    requires
        field_ok(fd, fb),
        0 <= n <= fb.len(),
    ensures
        field_ok(fd, cleared_blocks(fd, fb, n)),
    decreases n,
{
    if n > 0 {
        lemma_clear_keeps_ok(fd, fb, n - 1);
        let before = cleared_blocks(fd, fb, n - 1);
        let p = fb[n - 1];
        if !row_full(fd, fb, p.y as int) {
            let q = fallen(fd, fb, p);
            lemma_fall_bounds(fd, fb, p.y as int);
            assert forall|i: int| 0 <= i < before.len() implies before[i] != q by {
                let k = lemma_cleared_source(fd, fb, n - 1, i);
                let s = fb[k];
                lemma_fall_bounds(fd, fb, s.y as int);
                if s.x == p.x {
                    if s.y < p.y {
                        lemma_fall_order(fd, fb, s.y as int, p.y as int);
                    } else {
                        lemma_fall_order(fd, fb, p.y as int, s.y as int);
                    }
                }
            }
        }
    }
}

} // verus!
