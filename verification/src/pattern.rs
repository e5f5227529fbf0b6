//! Piece patterns as the embedding program describes them: a square box, a
//! template that marks the occupied cells of the box row by row, and a
//! colour. A pattern is checked here before anything of it reaches a field.

use crate::error::{Error, ErrorKind};
use crate::field::distinct;
use crate::geometry::{Color, Point};
use crate::mask::{mask_bits, mask_get, mask_len, mask_push, mask_with_capacity, max_bits, Mask};
use crate::pieces::{in_box, Piece};
use vstd::prelude::*;

verus! {

/// The shape of a piece: the side of its box, one bit for each cell of the
/// box, row by row, and one colour for each occupied cell.
pub struct Pattern {
    pub dim: u32,
    pub colors: Vec<Color>,
    pub template: Mask,
}

/// White space between the cells of a template.
pub open spec fn is_space(c: u8) -> bool {
    c == 10 || c == 32 || c == 13 || c == 9
}

/// A cell of a template: the digit `0` for a free cell, `1` for an occupied
/// one.
pub open spec fn is_cell(c: u8) -> bool {
    c == 48 || c == 49
}

/// The template holds cells and white space only.
pub open spec fn clean(data: Seq<u8>) -> bool {
    forall|i: int| 0 <= i < data.len() ==> is_cell(#[trigger] data[i]) || is_space(data[i])
}

/// The cells among the first `n` bytes of a template, in order: `true` for
/// an occupied cell.
pub open spec fn cells(data: Seq<u8>, n: int) -> Seq<bool>
    decreases n,
{
    if n <= 0 {
        Seq::empty()
    } else if is_cell(data[n - 1]) {
        cells(data, n - 1).push(data[n - 1] == 49)
    } else {
        cells(data, n - 1)
    }
}

/// The number of bits set among the first `n`.
pub open spec fn count_set(bits: Seq<bool>, n: int) -> nat
    decreases n,
{
    if n <= 0 {
        0
    } else {
        count_set(bits, n - 1) + if bits[n - 1] {
            1nat
        } else {
            0nat
        }
    }
}

/// The cell of a box of side `dim` that bit `k` stands for.
pub open spec fn cell_at(dim: int, k: int) -> Point {
    Point { x: (k % dim) as i32, y: (k / dim) as i32 }
}

/// The occupied cells among the first `n` of a mask, row by row.
pub open spec fn mask_cells(bits: Seq<bool>, dim: int, n: int) -> Seq<Point>
    decreases n,
{
    if n <= 0 {
        Seq::empty()
    } else if bits[n - 1] {
        mask_cells(bits, dim, n - 1).push(cell_at(dim, n - 1))
    } else {
        mask_cells(bits, dim, n - 1)
    }
}

pub proof fn lemma_cells_len(data: Seq<u8>, m: int, n: int)
    requires
        0 <= m <= n,
    ensures
        cells(data, m).len() <= cells(data, n).len(),
        cells(data, n).len() <= n,
        count_set(cells(data, n), cells(data, n).len() as int) <= cells(data, n).len(),
    decreases n,
{
    if n > 0 {
        if m < n {
            lemma_cells_len(data, m, n - 1);
        } else {
            lemma_cells_len(data, n - 1, n - 1);
        }
        lemma_count_set_bound(cells(data, n), cells(data, n).len() as int);
    }
}

pub proof fn lemma_count_set_bound(bits: Seq<bool>, n: int)
    requires
        0 <= n,
    ensures
        count_set(bits, n) <= n,
    decreases n,
{
    if n > 0 {
        lemma_count_set_bound(bits, n - 1);
    }
}

/// Counting the set bits of a sequence does not look past the bits counted.
pub proof fn lemma_count_set_prefix(a: Seq<bool>, b: Seq<bool>, n: int)
    requires
        0 <= n <= a.len(),
        n <= b.len(),
        forall|i: int| 0 <= i < n ==> a[i] == b[i],
    ensures
        count_set(a, n) == count_set(b, n),
    decreases n,
{
    if n > 0 {
        lemma_count_set_prefix(a, b, n - 1);
    }
}

/// The cells of a mask are as many as its set bits, and each is the cell of
/// a set bit that was scanned.
pub proof fn lemma_mask_cells_source(bits: Seq<bool>, dim: int, n: int, i: int) -> (k: int)
    requires
        0 <= n <= bits.len(),
        0 <= i < mask_cells(bits, dim, n).len(),
    ensures
        0 <= k < n,
        bits[k],
        mask_cells(bits, dim, n)[i] == cell_at(dim, k),
    decreases n,
{
    if bits[n - 1] && i == mask_cells(bits, dim, n - 1).len() {
        n - 1
    } else {
        lemma_mask_cells_source(bits, dim, n - 1, i)
    }
}

pub proof fn lemma_mask_cells_len(bits: Seq<bool>, dim: int, n: int)
    requires
        0 <= n <= bits.len(),
    ensures
        mask_cells(bits, dim, n).len() == count_set(bits, n),
    decreases n,
{
    if n > 0 {
        lemma_mask_cells_len(bits, dim, n - 1);
    }
}

/// Bit `k` of a box of `dim * dim` bits stands for a cell of the box, and
/// two bits stand for two cells.
pub proof fn lemma_cell_at(dim: int, k: int, l: int)
    requires
        0 < dim <= i32::MAX,
        0 <= k < dim * dim,
        0 <= l < dim * dim,
    ensures
        0 <= cell_at(dim, k).x < dim,
        0 <= cell_at(dim, k).y < dim,
        k != l ==> cell_at(dim, k) != cell_at(dim, l),
{
    vstd::arithmetic::div_mod::lemma_fundamental_div_mod(k, dim);
    vstd::arithmetic::div_mod::lemma_fundamental_div_mod(l, dim);
    vstd::arithmetic::div_mod::lemma_mod_bound(k, dim);
    vstd::arithmetic::div_mod::lemma_mod_bound(l, dim);
    assert(0 <= k / dim < dim) by (nonlinear_arith)
        requires
            0 < dim,
            0 <= k < dim * dim,
    ;
    assert(0 <= l / dim < dim) by (nonlinear_arith)
        requires
            0 < dim,
            0 <= l < dim * dim,
    ;
}

/// The cells of a mask of a box lie in the box, and none occurs twice.
pub proof fn lemma_mask_cells_wf(bits: Seq<bool>, dim: int, n: int)
    requires
        0 < dim <= i32::MAX,
        0 <= n <= bits.len(),
        n <= dim * dim,
    ensures
        in_box(dim as u32, mask_cells(bits, dim, n)),
        distinct(mask_cells(bits, dim, n)),
    decreases n,
{
    if n > 0 {
        lemma_mask_cells_wf(bits, dim, n - 1);
        let before = mask_cells(bits, dim, n - 1);
        if bits[n - 1] {
            lemma_cell_at(dim, n - 1, n - 1);
            assert forall|i: int| 0 <= i < before.len() implies before[i] != cell_at(
                dim,
                n - 1,
            ) by {
                let k = lemma_mask_cells_source(bits, dim, n - 1, i);
                lemma_cell_at(dim, k, n - 1);
            }
        }
    }
}

fn square(pd: u32) -> (s: u64)
    ensures
        s == pd * pd,
{
    assert(pd * pd <= 0xffff_ffff * 0xffff_ffff) by (nonlinear_arith)
        requires
            0 <= pd <= 0xffff_ffff,
    ;
    (pd as u64) * (pd as u64)
}

impl Pattern {
    pub fn new(dim: u32, colors: Vec<Color>, template: Mask) -> (p: Pattern)
        ensures
            p.dim == dim,
            p.colors == colors,
            p.template == template,
    {
        Pattern { dim, colors, template }
    }

    /// The template has one bit for each cell of the box, the box fits the
    /// coordinates, and there is one colour for each occupied cell.
    pub open spec fn ok(&self) -> bool {
        &&& self.dim <= i32::MAX
        &&& mask_bits(self.template).len() == self.dim * self.dim
        &&& self.colors@.len() == count_set(
            mask_bits(self.template),
            mask_bits(self.template).len() as int,
        )
    }

    /// What is wrong with the pattern, if anything.
    pub open spec fn fault(&self) -> Option<ErrorKind> {
        if self.dim > i32::MAX || mask_bits(self.template).len() != self.dim * self.dim {
            Some(ErrorKind::SizeMismatch)
        } else if !self.ok() {
            Some(ErrorKind::ColorMismatch)
        } else {
            None
        }
    }

    /// The piece of this pattern: a block for each occupied cell of the box,
    /// row by row, each with its colour.
    pub fn to_piece(self) -> (out: Result<Piece, Error>)
        ensures
            out is Ok <==> self.ok(),
            out is Ok ==> {
                let piece = out->Ok_0;
                &&& piece.dim == self.dim
                &&& piece.blocks@ == mask_cells(
                    mask_bits(self.template),
                    self.dim as int,
                    mask_bits(self.template).len() as int,
                )
                &&& piece.colors == self.colors
                &&& piece.wf()
            },
            out is Err ==> Some(out->Err_0.kind) == self.fault(),
    {
        let dim = self.dim;
        let n = mask_len(&self.template);
        if dim > 0x7fff_ffff || n as u64 != square(dim) {
            return Err(Error::new(ErrorKind::SizeMismatch));
        }
        let ghost bits = mask_bits(self.template);
        let mut blocks: Vec<Point> = Vec::new();
        let mut k: usize = 0;
        while k < n
            invariant
                k <= n,
                n == bits.len(),
                bits == mask_bits(self.template),
                dim == self.dim,
                dim <= i32::MAX,
                n == dim * dim,
                blocks@ == mask_cells(bits, dim as int, k as int),
            decreases n - k,
        {
            if mask_get(&self.template, k) {
                proof {
                    assert(dim > 0) by (nonlinear_arith)
                        requires
                            0 <= k < dim * dim,
                    ;
                    lemma_cell_at(dim as int, k as int, k as int);
                }
                let d: usize = dim as usize;
                let x: usize = k % d;
                let y: usize = k / d;
                blocks.push(Point { x: x as i32, y: y as i32 });
            }
            k += 1;
        }
        proof {
            lemma_mask_cells_len(bits, dim as int, n as int);
            if dim > 0 {
                lemma_mask_cells_wf(bits, dim as int, n as int);
            } else {
                assert(dim * dim == 0) by (nonlinear_arith)
                    requires
                        dim == 0,
                ;
            }
        }
        if self.colors.len() != blocks.len() {
            return Err(Error::new(ErrorKind::ColorMismatch));
        }
        Ok(Piece { dim, colors: self.colors, blocks })
    }
}

/// The mask and the number of occupied cells that a template describes for
/// a box of side `pd`.
///
/// It fails with `BadCharacter` where the template holds anything but
/// cells and white space, and else with `SizeMismatch` where it does not
/// hold `pd * pd` cells or where that many bits do not fit a mask.
pub fn parse_piece_body(data: &[u8], pd: u32) -> (out: Result<(Mask, usize), Error>)
    ensures
        out is Ok <==> clean(data@) && cells(data@, data@.len() as int).len() == pd * pd && pd
            * pd <= max_bits(),
        out is Ok ==> {
            let (mask, blocks) = out->Ok_0;
            &&& mask_bits(mask) == cells(data@, data@.len() as int)
            &&& blocks == count_set(mask_bits(mask), mask_bits(mask).len() as int)
        },
        out is Err ==> out->Err_0.kind == if !clean(data@) {
            ErrorKind::BadCharacter
        } else {
            ErrorKind::SizeMismatch
        },
{
    let mut total: usize = 0;
    let mut i: usize = 0;
    while i < data.len()
        invariant
            i <= data@.len(),
            total == cells(data@, i as int).len(),
            total <= i,
            forall|k: int| 0 <= k < i ==> is_cell(#[trigger] data@[k]) || is_space(data@[k]),
        decreases data@.len() - i,
    {
        let c: u8 = data[i];
        if c == 48 || c == 49 {
            total += 1;
        } else if c == 10 || c == 32 || c == 13 || c == 9 {
        } else {
            return Err(Error::new(ErrorKind::BadCharacter));
        }
        i += 1;
    }
    let ps: u64 = square(pd);
    if total as u64 != ps || total > usize::MAX / 8 {
        return Err(Error::new(ErrorKind::SizeMismatch));
    }
    let mut field = mask_with_capacity(total);
    let mut blocks: usize = 0;
    let mut j: usize = 0;
    while j < data.len()
        invariant
            j <= data@.len(),
            total == cells(data@, data@.len() as int).len(),
            total <= max_bits(),
            mask_bits(field) == cells(data@, j as int),
            blocks == count_set(mask_bits(field), mask_bits(field).len() as int),
            blocks <= mask_bits(field).len(),
        decreases data@.len() - j,
    {
        let c: u8 = data[j];
        if c == 48 || c == 49 {
            proof {
                lemma_cells_len(data@, j + 1, data@.len() as int);
                lemma_count_set_prefix(
                    mask_bits(field),
                    mask_bits(field).push(c == 49),
                    mask_bits(field).len() as int,
                );
            }
            mask_push(&mut field, c == 49);
            if c == 49 {
                blocks += 1;
            }
        }
        j += 1;
    }
    Ok((field, blocks))
}

/// All four channels are channel values.
pub open spec fn color_ok(r: i64, g: i64, b: i64, a: i64) -> bool {
    0 <= r <= 255 && 0 <= g <= 255 && 0 <= b <= 255 && 0 <= a <= 255
}

/// The colour with the four channels given. It fails with `BadColor` where
/// a channel lies outside `0..=255`.
pub fn parse_piece_color(r: i64, g: i64, b: i64, a: i64) -> (out: Result<Color, Error>)
    ensures
        out is Ok <==> color_ok(r, g, b, a),
        out is Ok ==> out->Ok_0 == (Color { r: r as u8, g: g as u8, b: b as u8, a: a as u8 }),
        out is Err ==> out->Err_0.kind == ErrorKind::BadColor,
{
    if 0 <= r && r <= 255 && 0 <= g && g <= 255 && 0 <= b && b <= 255 && 0 <= a && a <= 255 {
        Ok(Color { r: r as u8, g: g as u8, b: b as u8, a: a as u8 })
    } else {
        Err(Error::new(ErrorKind::BadColor))
    }
}

/// A pattern as the embedding program hands it over: the side of the box,
/// the template, and the four channels of the colour.
pub struct RawPattern {
    pub size: i64,
    pub template: Vec<u8>,
    pub color: (i64, i64, i64, i64),
}

/// What is wrong with a raw pattern, if anything: the first of a size that
/// is no side of a box, a fault of the template, a fault of the colour.
pub open spec fn raw_fault(raw: &RawPattern) -> Option<ErrorKind> {
    let data = raw.template@;
    if raw.size < 0 || raw.size > u32::MAX {
        Some(ErrorKind::BadNumber)
    } else if !clean(data) {
        Some(ErrorKind::BadCharacter)
    } else if cells(data, data.len() as int).len() != raw.size * raw.size || raw.size * raw.size
        > max_bits() {
        Some(ErrorKind::SizeMismatch)
    } else if !color_ok(raw.color.0, raw.color.1, raw.color.2, raw.color.3) {
        Some(ErrorKind::BadColor)
    } else {
        None
    }
}

/// The pattern that `raw` describes: its mask is the template's cells, and
/// every occupied cell has the one colour given.
pub fn parse_pattern(raw: &RawPattern) -> (out: Result<Pattern, Error>)
    ensures
        out is Ok <==> raw_fault(raw) is None,
        out is Err ==> Some(out->Err_0.kind) == raw_fault(raw),
        out is Ok ==> {
            let p = out->Ok_0;
            let bits = cells(raw.template@, raw.template@.len() as int);
            &&& p.ok()
            &&& p.dim == raw.size
            &&& mask_bits(p.template) == bits
            &&& p.colors@.len() == count_set(bits, bits.len() as int)
            &&& forall|i: int|
                0 <= i < p.colors@.len() ==> #[trigger] p.colors@[i] == (Color {
                    r: raw.color.0 as u8,
                    g: raw.color.1 as u8,
                    b: raw.color.2 as u8,
                    a: raw.color.3 as u8,
                })
        },
{
    if raw.size < 0 || raw.size > 0xffff_ffff {
        return Err(Error::new(ErrorKind::BadNumber));
    }
    let dim: u32 = raw.size as u32;
    proof {
        if dim * dim <= max_bits() {
            assert(dim <= i32::MAX) by (nonlinear_arith)
                requires
                    dim * dim <= 0x1fff_ffff_ffff_ffff,
            ;
        }
    }
    let (template, blocks) = match parse_piece_body(raw.template.as_slice(), dim) {
        Ok(v) => v,
        Err(e) => {
            return Err(e);
        },
    };
    let color = match parse_piece_color(raw.color.0, raw.color.1, raw.color.2, raw.color.3) {
        Ok(c) => c,
        Err(e) => {
            return Err(e);
        },
    };
    let mut colors: Vec<Color> = Vec::new();
    let mut i: usize = 0;
    while i < blocks
        invariant
            i <= blocks,
            colors@.len() == i,
            forall|k: int| 0 <= k < i ==> #[trigger] colors@[k] == color,
        decreases blocks - i,
    {
        colors.push(color);
        i += 1;
    }
    Ok(Pattern { dim, colors, template })
}

} // verus!
