//! Pieces and how one moves over a field: the spawn position, the single
//! steps, the quarter turn and the hard-drop projection.

use crate::field::{all_distinct, check_valid_pos, distinct, valid_at, valid_pos};
use crate::geometry::{Color, Point, Size};
use vstd::prelude::*;

verus! {

/// A piece: its blocks, given inside a square box of side `dim`, and one
/// colour for each block.
#[derive(Debug)]
pub struct Piece {
    pub dim: u32,
    pub colors: Vec<Color>,
    pub blocks: Vec<Point>,
}

/// Every block lies inside the box of side `dim`.
pub open spec fn in_box(dim: u32, blocks: Seq<Point>) -> bool {
    forall|i: int|
        0 <= i < blocks.len() ==> 0 <= (#[trigger] blocks[i]).x < dim && 0 <= blocks[i].y < dim
}

impl Piece {
    /// The blocks lie inside the box, no block occurs twice, and each has
    /// its colour.
    pub open spec fn wf(&self) -> bool {
        &&& self.dim <= i32::MAX
        &&& self.blocks@.len() == self.colors@.len()
        &&& in_box(self.dim, self.blocks@)
        &&& distinct(self.blocks@)
    }

    /// Whether the piece is well formed.
    pub fn check(&self) -> (ok: bool)
        ensures
            ok == self.wf(),
    {
        if self.dim > 0x7fff_ffff || self.blocks.len() != self.colors.len() {
            return false;
        }
        let mut i: usize = 0;
        while i < self.blocks.len()
            invariant
                i <= self.blocks@.len(),
                self.dim <= i32::MAX,
                forall|k: int|
                    0 <= k < i ==> 0 <= (#[trigger] self.blocks@[k]).x < self.dim && 0
                        <= self.blocks@[k].y < self.dim,
            decreases self.blocks@.len() - i,
        {
            let b: Point = self.blocks[i];
            if b.x < 0 || b.y < 0 || b.x as i64 >= self.dim as i64 || b.y as i64
                >= self.dim as i64 {
                return false;
            }
            i += 1;
        }
        all_distinct(self.blocks.as_slice())
    }
}

#[derive(Clone, Copy, Debug, PartialEq, Eq, Structural)]
pub enum Direction {
    DOWN,
    LEFT,
    RIGHT,
}

/// `p` is the row on which a piece at `pos` comes to rest when it falls
/// freely: every row from the one under `pos` down to `p` takes the piece,
/// and the row under `p` does not (or is no row any more).
pub open spec fn is_projection(
    fd: Size,
    fb: Seq<Point>,
    pos: Point,
    blocks: Seq<Point>,
    p: int,
) -> bool {
    &&& pos.y <= p <= i32::MAX
    &&& forall|k: int| pos.y < k <= p ==> #[trigger] valid_at(fd, fb, pos.x as int, k, blocks)
    &&& (p == i32::MAX || !valid_at(fd, fb, pos.x as int, p + 1, blocks))
}

/// A fall has one end only.
pub proof fn lemma_projection_unique(
    fd: Size,
    fb: Seq<Point>,
    pos: Point,
    blocks: Seq<Point>,
    p: int,
    q: int,
)
    requires
        is_projection(fd, fb, pos, blocks, p),
        is_projection(fd, fb, pos, blocks, q),
    ensures
        p == q,
{
    if p < q {
        assert(valid_at(fd, fb, pos.x as int, p + 1, blocks));
    } else if q < p {
        assert(valid_at(fd, fb, pos.x as int, q + 1, blocks));
    }
}

/// The row on which the piece `blocks` at `pos` comes to rest.
pub fn project(field_dim: Size, field_blocks: &[Point], pos: Point, blocks: &[Point]) -> (p: i32)
    ensures
        is_projection(field_dim, field_blocks@, pos, blocks@, p as int),
{
    let mut y: i32 = pos.y;
    while y < i32::MAX && check_valid_pos(field_dim, field_blocks, Point::new(pos.x, y + 1), blocks)
        invariant
            pos.y <= y,
            forall|k: int|
                pos.y < k <= y ==> #[trigger] valid_at(
                    field_dim,
                    field_blocks@,
                    pos.x as int,
                    k,
                    blocks@,
                ),
        decreases i32::MAX - y,
    {
        y += 1;
    }
    y
}

/// Where a piece with a box of side `dim` enters the field: in the top row,
/// centred between the walls.
pub open spec fn spawn_pos(fd: Size, dim: u32) -> Point {
    Point { x: ((fd.0 - dim) / 2) as i32, y: 0 }
}

/// A piece that has entered the field.
#[derive(Debug)]
pub struct SpawnedPiece {
    pub piece: Piece,
    pub pos: Point,
    pub proj: i32,
}

fn spawn_point(field_dim: Size, dim: u32) -> (pos: Point)
    ensures
        pos == spawn_pos(field_dim, dim),
{
    let w: u32 = field_dim.0;
    if w >= dim {
        Point { x: ((w - dim) / 2) as i32, y: 0 }
    } else {
        let short: i64 = (dim - w) as i64;
        Point { x: (-((short + 1) / 2)) as i32, y: 0 }
    }
}

/// Lets `piece` enter the field at its spawn position, if it fits there.
pub fn spawn_piece(field_blocks: &[Point], field_dim: Size, piece: Piece) -> (out: Option<
    SpawnedPiece,
>)
    ensures
        out is Some <==> valid_pos(
            field_dim,
            field_blocks@,
            spawn_pos(field_dim, piece.dim),
            piece.blocks@,
        ),
        out is Some ==> {
            let s = out->Some_0;
            &&& s.piece == piece
            &&& s.pos == spawn_pos(field_dim, piece.dim)
            &&& is_projection(field_dim, field_blocks@, s.pos, piece.blocks@, s.proj as int)
        },
{
    let pos = spawn_point(field_dim, piece.dim);
    if !check_valid_pos(field_dim, field_blocks, pos, piece.blocks.as_slice()) {
        return None;
    }
    let proj = project(field_dim, field_blocks, pos, piece.blocks.as_slice());
    Some(SpawnedPiece { piece, pos, proj })
}

/// The cell next to `pl` in direction `d`.
pub open spec fn stepped(pl: Point, d: Direction) -> (int, int) {
    match d {
        Direction::LEFT => (pl.x - 1, pl.y as int),
        Direction::RIGHT => (pl.x + 1, pl.y as int),
        Direction::DOWN => (pl.x as int, pl.y + 1),
    }
}

/// The position can be written down: both coordinates are coordinates.
pub open spec fn fits(at: (int, int)) -> bool {
    i32::MIN <= at.0 <= i32::MAX && i32::MIN <= at.1 <= i32::MAX
}

/// One step of the piece `pb` from `pl` in direction `d`: the new position
/// and its projection where the step leads to a position that fits, nothing
/// where it does not.
pub fn move_piece(fd: Size, fb: &[Point], pl: Point, pb: &[Point], d: Direction) -> (out: Option<
    (Point, i32),
>)
    ensures
        out is Some <==> fits(stepped(pl, d)) && valid_at(
            fd,
            fb@,
            stepped(pl, d).0,
            stepped(pl, d).1,
            pb@,
        ),
        out is Some ==> {
            let (np, proj) = out->Some_0;
            &&& (np.x as int, np.y as int) == stepped(pl, d)
            &&& valid_pos(fd, fb@, np, pb@)
            &&& is_projection(fd, fb@, np, pb@, proj as int)
        },
{
    let new_pl = match d {
        Direction::LEFT => {
            if pl.x == i32::MIN {
                return None;
            }
            Point { x: pl.x - 1, y: pl.y }
        },
        Direction::RIGHT => {
            if pl.x == i32::MAX {
                return None;
            }
            Point { x: pl.x + 1, y: pl.y }
        },
        Direction::DOWN => {
            if pl.y == i32::MAX {
                return None;
            }
            Point { x: pl.x, y: pl.y + 1 }
        },
    };
    if check_valid_pos(fd, fb, new_pl, pb) {
        let p = project(fd, fb, new_pl, pb);
        Some((new_pl, p))
    } else {
        None
    }
}

/// The blocks after a quarter turn inside the box of side `dim`: the block
/// at `(x, y)` goes to `(dim - 1 - y, x)`.
pub open spec fn rotated(dim: u32, blocks: Seq<Point>) -> Seq<Point> {
    Seq::new(blocks.len(), |i: int| Point { x: (dim - 1 - blocks[i].y) as i32, y: blocks[i].x })
}

/// A quarter turn keeps the blocks in the box and apart.
pub proof fn lemma_rotated_wf(dim: u32, blocks: Seq<Point>)
    requires
        dim <= i32::MAX,
        in_box(dim, blocks),
    ensures
        in_box(dim, rotated(dim, blocks)),
        distinct(blocks) ==> distinct(rotated(dim, blocks)),
{
    let r = rotated(dim, blocks);
    assert forall|i: int| 0 <= i < r.len() implies 0 <= (#[trigger] r[i]).x < dim && 0 <= r[i].y
        < dim by {
        assert(0 <= blocks[i].x < dim && 0 <= blocks[i].y < dim);
    }
    if distinct(blocks) {
        assert forall|i: int, j: int| 0 <= i < j < r.len() implies r[i] != r[j] by {
            assert(blocks[i] != blocks[j]);
        }
    }
}

/// A command to the piece under control.
#[derive(Clone, Copy, Debug, PartialEq, Eq, Structural)]
pub enum Command {
    Move(Direction),
    Rotate,
}

/// The field takes what command `c` asks for of the piece `blocks` at
/// `pos`.
pub open spec fn accepted(
    fd: Size,
    fb: Seq<Point>,
    dim: u32,
    pos: Point,
    blocks: Seq<Point>,
    c: Command,
) -> bool {
    match c {
        Command::Move(d) => fits(stepped(pos, d)) && valid_at(
            fd,
            fb,
            stepped(pos, d).0,
            stepped(pos, d).1,
            blocks,
        ),
        Command::Rotate => valid_pos(fd, fb, pos, rotated(dim, blocks)),
    }
}

/// The position and the blocks of a piece after command `c`: what the
/// command asks for where the field takes it, no change where not.
pub open spec fn after(
    fd: Size,
    fb: Seq<Point>,
    dim: u32,
    pos: Point,
    blocks: Seq<Point>,
    c: Command,
) -> (Point, Seq<Point>) {
    if !accepted(fd, fb, dim, pos, blocks, c) {
        (pos, blocks)
    } else {
        match c {
            Command::Move(d) => (
                Point { x: stepped(pos, d).0 as i32, y: stepped(pos, d).1 as i32 },
                blocks,
            ),
            Command::Rotate => (pos, rotated(dim, blocks)),
        }
    }
}

/// The blocks of a piece after a quarter turn.
pub fn rotate_blocks(dim: u32, blocks: &[Point]) -> (out: Vec<Point>)
    requires
        dim <= i32::MAX,
        in_box(dim, blocks@),
    ensures
        out@ == rotated(dim, blocks@),
{
    let mut out: Vec<Point> = Vec::new();
    let mut i: usize = 0;
    while i < blocks.len()
        invariant
            i <= blocks.len(),
            dim <= i32::MAX,
            in_box(dim, blocks@),
            out@.len() == i,
            forall|k: int| 0 <= k < i ==> out@[k] == rotated(dim, blocks@)[k],
        decreases blocks.len() - i,
    {
        let b: Point = blocks[i];
        out.push(Point { x: dim as i32 - 1 - b.y, y: b.x });
        i += 1;
    }
    out
}

} // verus!
