//! The state of one session and the moves of the piece under the player's
//! control. No operation here leaves the piece on a position that the
//! field does not take.

use crate::error::{Error, ErrorKind};
use crate::field;
use crate::field::{cleared_blocks, cleared_colors, field_ok, full_rows, size_ok, valid_pos};
use crate::flags;
use crate::flags::{flag_set, Flag, FlagStore};
use crate::geometry::{Color, Point, Size};
use crate::pieces;
use crate::pieces::{
    accepted, after, is_projection, rotated, spawn_pos, Command, Direction, Piece,
};
use vstd::prelude::*;

verus! {

/// Where the piece under control stands in its life.
#[derive(Clone, Copy, Debug, PartialEq, Eq, Structural)]
pub enum Phase {
    /// The piece moves under the player's control.
    Active,
    /// The piece has been settled and the next one has not entered yet.
    Locked,
    /// The next piece found no room. Nothing moves any more.
    GameOver,
}

pub struct TetrisState {
    // Field
    pub field_blocks: Vec<Point>,
    pub field_colors: Vec<Color>,
    pub field_size: Size,
    // Piece queue
    pub piece_queue: Vec<Piece>,
    pub piece_queue_idx: usize,
    // Piece swap
    pub piece_swap: Option<Piece>,
    // Piece
    pub player_proj: i32,
    pub player_pos: Point,
    pub player_piece: Piece,
    pub phase: Phase,
    // Gravity, in milliseconds
    pub player_tick_time: u64,
    pub player_tick_dur: u64,
    // Switches
    pub flags: FlagStore,
    // Stats
    pub lines_cleared: u64,
    pub pieces_placed: u64,
    // Set when the embedding program asks for the end of the session
    pub exit: bool,
}

/// The piece that enters play when `piece` is handed to a queue: the one at
/// the cursor, or `piece` itself where there is no queue.
pub open spec fn pulled(queue: Seq<Piece>, idx: usize, piece: Piece) -> Piece {
    if queue.len() > 0 {
        queue[idx as int]
    } else {
        piece
    }
}

/// The queue after `piece` has been handed to it.
pub open spec fn queue_after(queue: Seq<Piece>, idx: usize, piece: Piece) -> Seq<Piece> {
    if queue.len() > 0 {
        queue.update(idx as int, piece)
    } else {
        queue
    }
}

/// The cursor after a piece has been handed to the queue.
pub open spec fn idx_after(queue: Seq<Piece>, idx: usize) -> int {
    if queue.len() > 0 {
        (idx + 1) % (queue.len() as int)
    } else {
        idx as int
    }
}

impl TetrisState {
    /// The field has no overlap and nothing out of bounds, and each block
    /// has its colour.
    pub open spec fn field_wf(&self) -> bool {
        &&& field_ok(self.field_size, self.field_blocks@)
        &&& self.field_blocks@.len() == self.field_colors@.len()
    }

    /// The cursor points into the queue, and every piece in store is well
    /// formed.
    pub open spec fn store_wf(&self) -> bool {
        &&& self.piece_queue@.len() > 0 ==> self.piece_queue_idx < self.piece_queue@.len()
        &&& forall|i: int|
            0 <= i < self.piece_queue@.len() ==> (#[trigger] self.piece_queue@[i]).wf()
        &&& self.piece_swap is Some ==> self.piece_swap->Some_0.wf()
    }

    /// The piece under control stands on a position that the field takes,
    /// and the projection is where it would come to rest.
    pub open spec fn active_ok(&self) -> bool {
        &&& valid_pos(
            self.field_size,
            self.field_blocks@,
            self.player_pos,
            self.player_piece.blocks@,
        )
        &&& is_projection(
            self.field_size,
            self.field_blocks@,
            self.player_pos,
            self.player_piece.blocks@,
            self.player_proj as int,
        )
    }

    /// The invariant of a session.
    pub open spec fn wf(&self) -> bool {
        &&& self.field_wf()
        &&& self.store_wf()
        &&& self.player_piece.wf()
        &&& self.phase == Phase::Active ==> self.active_ok()
    }

    /// `other` has the same field.
    pub open spec fn same_field(&self, other: &TetrisState) -> bool {
        &&& self.field_blocks == other.field_blocks
        &&& self.field_colors == other.field_colors
        &&& self.field_size == other.field_size
    }

    /// `other` has the same queue and the same piece set aside.
    pub open spec fn same_store(&self, other: &TetrisState) -> bool {
        &&& self.piece_queue == other.piece_queue
        &&& self.piece_queue_idx == other.piece_queue_idx
        &&& self.piece_swap == other.piece_swap
    }

    /// `other` has the same piece under control, at the same place.
    pub open spec fn same_player(&self, other: &TetrisState) -> bool {
        &&& self.player_piece == other.player_piece
        &&& self.player_pos == other.player_pos
        &&& self.player_proj == other.player_proj
    }

    /// `other` has the same phase, timer, switches, counters and exit mark.
    pub open spec fn same_rest(&self, other: &TetrisState) -> bool {
        &&& self.phase == other.phase
        &&& self.player_tick_time == other.player_tick_time
        &&& self.player_tick_dur == other.player_tick_dur
        &&& self.flags == other.flags
        &&& self.lines_cleared == other.lines_cleared
        &&& self.pieces_placed == other.pieces_placed
        &&& self.exit == other.exit
    }

    /// Clears the full rows of the field and counts them.
    pub fn clear_lines(&mut self) -> (lines: Vec<i32>)
        requires
            old(self).field_size.1 <= i32::MAX,
            old(self).field_blocks@.len() == old(self).field_colors@.len(),
            old(self).lines_cleared + old(self).field_size.1 <= u64::MAX,
        ensures
            lines@ == full_rows(
                old(self).field_size,
                old(self).field_blocks@,
                old(self).field_size.1 as int,
            ),
            final(self).field_blocks@ == cleared_blocks(
                old(self).field_size,
                old(self).field_blocks@,
                old(self).field_blocks@.len() as int,
            ),
            final(self).field_colors@ == cleared_colors(
                old(self).field_size,
                old(self).field_blocks@,
                old(self).field_colors@,
                old(self).field_blocks@.len() as int,
            ),
            final(self).field_size == old(self).field_size,
            final(self).lines_cleared == old(self).lines_cleared + lines@.len(),
            final(self).same_store(old(self)),
            final(self).same_player(old(self)),
            final(self).phase == old(self).phase,
            final(self).player_tick_time == old(self).player_tick_time,
            final(self).player_tick_dur == old(self).player_tick_dur,
            final(self).flags == old(self).flags,
            final(self).pieces_placed == old(self).pieces_placed,
            final(self).exit == old(self).exit,
            old(self).field_wf() ==> final(self).field_wf(),
            old(self).wf() && old(self).phase != Phase::Active ==> final(self).wf(),
    {
        let fs = self.field_size;
        let lines = field::clear_lines(fs, &mut self.field_blocks, &mut self.field_colors);
        proof {
            field::lemma_full_rows_bounds(fs, old(self).field_blocks@, fs.1 as int);
        }
        self.lines_cleared = self.lines_cleared + lines.len() as u64;
        lines
    }

    /// Turns the piece under control by a quarter, if the field takes the
    /// turned piece where it stands.
    pub fn rotate(&mut self) -> (turned: bool)
        requires
            old(self).player_piece.wf(),
        ensures
            turned == valid_pos(
                old(self).field_size,
                old(self).field_blocks@,
                old(self).player_pos,
                rotated(old(self).player_piece.dim, old(self).player_piece.blocks@),
            ),
            (final(self).player_pos, final(self).player_piece.blocks@) == after(
                old(self).field_size,
                old(self).field_blocks@,
                old(self).player_piece.dim,
                old(self).player_pos,
                old(self).player_piece.blocks@,
                Command::Rotate,
            ),
            turned ==> {
                &&& final(self).player_piece.blocks@ == rotated(
                    old(self).player_piece.dim,
                    old(self).player_piece.blocks@,
                )
                &&& final(self).player_piece.dim == old(self).player_piece.dim
                &&& final(self).player_piece.colors == old(self).player_piece.colors
                &&& final(self).player_pos == old(self).player_pos
                &&& final(self).active_ok()
            },
            !turned ==> final(self).same_player(old(self)),
            final(self).player_piece.wf(),
            final(self).same_field(old(self)),
            final(self).same_store(old(self)),
            final(self).same_rest(old(self)),
            old(self).wf() ==> final(self).wf(),
    {
        let new_pblocks = pieces::rotate_blocks(
            self.player_piece.dim,
            self.player_piece.blocks.as_slice(),
        );
        proof {
            pieces::lemma_rotated_wf(self.player_piece.dim, self.player_piece.blocks@);
        }
        if !field::check_valid_pos(
            self.field_size,
            self.field_blocks.as_slice(),
            self.player_pos,
            new_pblocks.as_slice(),
        ) {
            return false;
        }
        let p = pieces::project(
            self.field_size,
            self.field_blocks.as_slice(),
            self.player_pos,
            new_pblocks.as_slice(),
        );
        self.player_piece.blocks = new_pblocks;
        self.player_proj = p;
        true
    }

    /// Moves the piece under control one step in direction `d`, if the field
    /// takes it there.
    pub fn move_piece(&mut self, d: Direction) -> (moved: bool)
        ensures
            moved == accepted(
                old(self).field_size,
                old(self).field_blocks@,
                old(self).player_piece.dim,
                old(self).player_pos,
                old(self).player_piece.blocks@,
                Command::Move(d),
            ),
            (final(self).player_pos, final(self).player_piece.blocks@) == after(
                old(self).field_size,
                old(self).field_blocks@,
                old(self).player_piece.dim,
                old(self).player_pos,
                old(self).player_piece.blocks@,
                Command::Move(d),
            ),
            moved ==> final(self).active_ok(),
            !moved ==> final(self).same_player(old(self)),
            final(self).player_piece == old(self).player_piece,
            final(self).same_field(old(self)),
            final(self).same_store(old(self)),
            final(self).same_rest(old(self)),
            old(self).wf() ==> final(self).wf(),
    {
        match pieces::move_piece(
            self.field_size,
            self.field_blocks.as_slice(),
            self.player_pos,
            self.player_piece.blocks.as_slice(),
            d,
        ) {
            Some((new_pl, p)) => {
                self.player_pos = new_pl;
                self.player_proj = p;
                true
            },
            None => false,
        }
    }

    /// Puts `piece` under the player's control at its spawn position, if the
    /// field takes it there.
    pub fn spawn_piece_direct(&mut self, piece: Piece) -> (spawned: bool)
        ensures
            spawned == valid_pos(
                old(self).field_size,
                old(self).field_blocks@,
                spawn_pos(old(self).field_size, piece.dim),
                piece.blocks@,
            ),
            spawned ==> {
                &&& final(self).player_piece == piece
                &&& final(self).player_pos == spawn_pos(old(self).field_size, piece.dim)
                &&& final(self).active_ok()
            },
            !spawned ==> final(self).same_player(old(self)),
            final(self).same_field(old(self)),
            final(self).same_store(old(self)),
            final(self).same_rest(old(self)),
    {
        match pieces::spawn_piece(self.field_blocks.as_slice(), self.field_size, piece) {
            Some(player) => {
                self.player_piece = player.piece;
                self.player_pos = player.pos;
                self.player_proj = player.proj;
                true
            },
            None => false,
        }
    }

    /// Hands `piece` to the queue and returns the piece that leaves it: the
    /// one at the cursor, whose place `piece` takes while the cursor moves
    /// on. Without a queue `piece` comes straight back.
    pub fn push_piece(&mut self, piece: Piece) -> (out: Piece)
        requires
            old(self).piece_queue@.len() > 0 ==> old(self).piece_queue_idx < old(self).piece_queue@.len(),
        ensures
            out == pulled(old(self).piece_queue@, old(self).piece_queue_idx, piece),
            final(self).piece_queue@ == queue_after(
                old(self).piece_queue@,
                old(self).piece_queue_idx,
                piece,
            ),
            final(self).piece_queue_idx == idx_after(
                old(self).piece_queue@,
                old(self).piece_queue_idx,
            ),
            final(self).piece_swap == old(self).piece_swap,
            final(self).same_field(old(self)),
            final(self).same_player(old(self)),
            final(self).same_rest(old(self)),
            old(self).store_wf() && piece.wf() ==> final(self).store_wf() && out.wf(),
    {
        let idx = self.piece_queue_idx;
        let len = self.piece_queue.len();
        if len > 0 {
            self.piece_queue.push(piece);
            let p = self.piece_queue.swap_remove(idx);
            self.piece_queue_idx = (idx + 1) % len;
            p
        } else {
            piece
        }
    }

    /// Hands `piece` to the queue and lets the piece that leaves the queue
    /// enter the field.
    pub fn spawn_piece(&mut self, piece: Piece) -> (spawned: bool)
        requires
            old(self).piece_queue@.len() > 0 ==> old(self).piece_queue_idx < old(self).piece_queue@.len(),
        ensures
            ({
                let next = pulled(old(self).piece_queue@, old(self).piece_queue_idx, piece);
                &&& spawned == valid_pos(
                    old(self).field_size,
                    old(self).field_blocks@,
                    spawn_pos(old(self).field_size, next.dim),
                    next.blocks@,
                )
                &&& spawned ==> {
                    &&& final(self).player_piece == next
                    &&& final(self).player_pos == spawn_pos(old(self).field_size, next.dim)
                    &&& final(self).active_ok()
                }
            }),
            !spawned ==> final(self).same_player(old(self)),
            final(self).piece_queue@ == queue_after(
                old(self).piece_queue@,
                old(self).piece_queue_idx,
                piece,
            ),
            final(self).piece_queue_idx == idx_after(
                old(self).piece_queue@,
                old(self).piece_queue_idx,
            ),
            final(self).piece_swap == old(self).piece_swap,
            final(self).same_field(old(self)),
            final(self).same_rest(old(self)),
            old(self).wf() && piece.wf() && spawned ==> final(self).wf(),
            old(self).wf() && piece.wf() && old(self).phase != Phase::Active ==> final(self).wf(),
    {
        let piece = self.push_piece(piece);
        self.spawn_piece_direct(piece)
    }

    /// Whether the session's invariant holds.
    pub fn check(&self) -> (ok: bool)
        ensures
            ok == self.wf(),
    {
        if !field::check_field(self.field_size, self.field_blocks.as_slice())
            || self.field_blocks.len() != self.field_colors.len() || !self.player_piece.check() {
            return false;
        }
        if self.piece_queue.len() > 0 && self.piece_queue_idx >= self.piece_queue.len() {
            return false;
        }
        let mut i: usize = 0;
        while i < self.piece_queue.len()
            invariant
                i <= self.piece_queue@.len(),
                forall|k: int| 0 <= k < i ==> (#[trigger] self.piece_queue@[k]).wf(),
            decreases self.piece_queue@.len() - i,
        {
            if !self.piece_queue[i].check() {
                return false;
            }
            i += 1;
        }
        match &self.piece_swap {
            Some(p) => {
                if !p.check() {
                    return false;
                }
            },
            None => {},
        }
        match self.phase {
            Phase::Active => {
                if !field::check_valid_pos(
                    self.field_size,
                    self.field_blocks.as_slice(),
                    self.player_pos,
                    self.player_piece.blocks.as_slice(),
                ) {
                    return false;
                }
                let p = pieces::project(
                    self.field_size,
                    self.field_blocks.as_slice(),
                    self.player_pos,
                    self.player_piece.blocks.as_slice(),
                );
                proof {
                    if is_projection(
                        self.field_size,
                        self.field_blocks@,
                        self.player_pos,
                        self.player_piece.blocks@,
                        self.player_proj as int,
                    ) {
                        pieces::lemma_projection_unique(
                            self.field_size,
                            self.field_blocks@,
                            self.player_pos,
                            self.player_piece.blocks@,
                            self.player_proj as int,
                            p as int,
                        );
                    }
                }
                p == self.player_proj
            },
            _ => true,
        }
    }

    /// Whether the player may set a piece aside.
    pub fn hold_enabled(&self) -> (on: bool)
        ensures
            on == flag_set(self.flags, Flag::PieceHoldEnabled),
    {
        flags::check(&self.flags, Flag::PieceHoldEnabled)
    }
}

/// The first tick of a session that starts at `now` with `piece_tick`
/// between ticks, where it can be written down.
pub open spec fn first_tick(now: u64, piece_tick: u64) -> Option<u64> {
    if now + piece_tick <= u64::MAX {
        Some((now + piece_tick) as u64)
    } else {
        None
    }
}

/// A session on an empty field of size `field_dim`, with `start_piece`
/// under control. Times are in milliseconds.
///
/// It fails with `BadNumber` where a side of the field is no coordinate or
/// the first tick cannot be written down, and else with `NoRoom` where the
/// start piece does not fit at its spawn position.
pub fn init_game(
    field_dim: Size,
    start_piece: Piece,
    piece_hold_enabled: bool,
    piece_tick: u64,
    now: u64,
) -> (out: Result<TetrisState, Error>)
    requires
        start_piece.wf(),
    ensures
        out is Ok <==> size_ok(field_dim) && first_tick(now, piece_tick) is Some && valid_pos(
            field_dim,
            Seq::<Point>::empty(),
            spawn_pos(field_dim, start_piece.dim),
            start_piece.blocks@,
        ),
        out is Ok ==> {
            let s = out->Ok_0;
            &&& s.wf()
            &&& s.field_size == field_dim
            &&& s.field_blocks@.len() == 0
            &&& s.field_colors@.len() == 0
            &&& s.piece_queue@.len() == 0
            &&& s.piece_queue_idx == 0
            &&& s.piece_swap is None
            &&& s.player_piece == start_piece
            &&& s.player_pos == spawn_pos(field_dim, start_piece.dim)
            &&& s.phase == Phase::Active
            &&& Some(s.player_tick_time) == first_tick(now, piece_tick)
            &&& s.player_tick_dur == piece_tick
            &&& s.flags == if piece_hold_enabled {
                1u8
            } else {
                0u8
            }
            &&& flag_set(s.flags, Flag::PieceHoldEnabled) == piece_hold_enabled
            &&& s.lines_cleared == 0
            &&& s.pieces_placed == 0
            &&& !s.exit
        },
        out is Err ==> out->Err_0.kind == if !size_ok(field_dim) || first_tick(now, piece_tick)
            is None {
            ErrorKind::BadNumber
        } else {
            ErrorKind::NoRoom
        },
{
    if field_dim.0 > 0x7fff_ffff || field_dim.1 > 0x7fff_ffff {
        return Err(Error::new(ErrorKind::BadNumber));
    }
    let player_tick_time = match now.checked_add(piece_tick) {
        Some(t) => t,
        None => {
            return Err(Error::new(ErrorKind::BadNumber));
        },
    };
    let (field_blocks, field_colors, field_size) = field::init(field_dim);
    let player = match pieces::spawn_piece(field_blocks.as_slice(), field_dim, start_piece) {
        Some(v) => v,
        None => {
            return Err(Error::new(ErrorKind::NoRoom));
        },
    };
    let mut flags: FlagStore = 0;
    assert(0u8 & 1u8 == 0 && 0u8 | 1u8 == 1u8) by (bit_vector);
    flags::switch(&mut flags, Flag::PieceHoldEnabled, piece_hold_enabled);
    Ok(
        TetrisState {
            field_blocks,
            field_colors,
            field_size,
            piece_queue: Vec::new(),
            piece_queue_idx: 0,
            piece_swap: None,
            player_proj: player.proj,
            player_pos: player.pos,
            player_piece: player.piece,
            phase: Phase::Active,
            player_tick_time,
            player_tick_dur: piece_tick,
            flags,
            lines_cleared: 0,
            pieces_placed: 0,
            exit: false,
        },
    )
}

} // verus!
