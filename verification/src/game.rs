//! A session as the embedding program drives it: one input event or one
//! timer check at a time. Where the session needs something from outside (a
//! notification that a piece was settled, a fresh piece), it says so in
//! what it returns and goes on when it is called with the answer.

use crate::error::Error;
use crate::field;
use crate::field::{cleared_blocks, cleared_colors, distinct, full_rows, valid_at, valid_pos};
use crate::geometry::{Color, Point, Size};
use crate::pattern::{cells, mask_cells, parse_pattern, raw_fault, RawPattern};
use crate::pieces;
use crate::pieces::{is_projection, spawn_pos, Direction, Piece};
use crate::state::{idx_after, pulled, queue_after, Phase, TetrisState};
use vstd::prelude::*;

verus! {

pub struct Game {
    pub state: TetrisState,
    pub win_dim: (u32, u32),
}

/// An event of the window or the keyboard, as far as a session reads it.
#[derive(Clone, Copy, Debug, PartialEq, Eq, Structural)]
pub enum Input {
    Left,
    Right,
    Down,
    Up,
    LShift,
    Space,
    Resized(u32, u32),
    Other,
}

/// What a session needs from outside before it goes on.
#[derive(Clone, Copy, Debug, PartialEq, Eq, Structural)]
pub enum Request {
    /// Nothing.
    Nothing,
    /// A piece was settled: the embedding program is to be told, and the
    /// next piece is to be handed to `Game::spawn_piece`.
    Place,
    /// The hold slot is empty: a fresh piece is to be handed to
    /// `Game::swap`.
    Hold,
}

/// The blocks of a piece at `pos`, in field coordinates.
pub open spec fn placed(pos: Point, blocks: Seq<Point>) -> Seq<Point> {
    Seq::new(
        blocks.len(),
        |i: int| Point { x: (pos.x + blocks[i].x) as i32, y: (pos.y + blocks[i].y) as i32 },
    )
}

/// The time of the next tick once the timer has fired at `now`: the first
/// tick after `now` on the grid that starts at `tick` with `dur` between
/// ticks.
pub open spec fn next_tick(tick: u64, dur: u64, now: u64) -> int {
    if dur == 0 {
        tick as int
    } else {
        tick + ((now - tick) / (dur as int) + 1) * dur
    }
}

/// The next tick lies after `now`, by no more than one interval, and on the
/// grid of the timer.
pub proof fn lemma_next_tick(tick: u64, dur: u64, now: u64)
    requires
        tick <= now,
        dur > 0,
    ensures
        now < next_tick(tick, dur, now) <= now + dur,
        (next_tick(tick, dur, now) - tick) % (dur as int) == 0,
{
    let gap = now - tick;
    let d = dur as int;
    let k = gap / d;
    assert(gap == d * k + gap % d && 0 <= gap % d < d) by {
        vstd::arithmetic::div_mod::lemma_fundamental_div_mod(gap, d);
        vstd::arithmetic::div_mod::lemma_mod_bound(gap, d);
    }
    assert((k + 1) * d == d * k + d) by (nonlinear_arith);
    assert(((k + 1) * d) % d == 0) by {
        vstd::arithmetic::div_mod::lemma_mod_multiples_basic(k + 1, d);
    }
}

fn place_blocks(pos: Point, blocks: &[Point], fd: Size, fb: &[Point]) -> (out: Vec<Point>)
    requires
        valid_pos(fd, fb@, pos, blocks@),
        fd.0 <= i32::MAX,
        fd.1 <= i32::MAX,
        forall|i: int| 0 <= i < blocks@.len() ==> (#[trigger] blocks@[i]).y >= 0,
    ensures
        out@ == placed(pos, blocks@),
        valid_pos(fd, fb@, Point { x: 0, y: 0 }, out@),
        distinct(blocks@) ==> distinct(out@),
{
    let mut out: Vec<Point> = Vec::new();
    let mut i: usize = 0;
    while i < blocks.len()
        invariant
            i <= blocks.len(),
            valid_pos(fd, fb@, pos, blocks@),
            fd.0 <= i32::MAX,
            fd.1 <= i32::MAX,
            forall|k: int| 0 <= k < blocks@.len() ==> (#[trigger] blocks@[k]).y >= 0,
            out@.len() == i,
            forall|k: int| 0 <= k < i ==> out@[k] == placed(pos, blocks@)[k],
        decreases blocks.len() - i,
    {
        let b: Point = blocks[i];
        out.push(Point { x: pos.x + b.x, y: pos.y + b.y });
        i += 1;
    }
    proof {
        assert forall|k: int| 0 <= k < out@.len() implies field::cell_free(
            fd,
            fb@,
            0 + (#[trigger] out@[k]).x,
            0 + out@[k].y,
        ) by {
            let b = blocks@[k];
            assert(field::cell_free(fd, fb@, pos.x + b.x, pos.y + b.y));
        }
        if distinct(blocks@) {
            assert forall|a: int, b: int| 0 <= a < b < out@.len() implies out@[a] != out@[b] by {
                assert(blocks@[a] != blocks@[b]);
            }
        }
    }
    out
}

/// `piece` is the piece that `raw` describes: a block for each occupied
/// cell of the template, row by row, each in the colour given.
pub open spec fn piece_of(raw: &RawPattern, piece: &Piece) -> bool {
    let bits = cells(raw.template@, raw.template@.len() as int);
    &&& piece.dim == raw.size
    &&& piece.blocks@ == mask_cells(bits, raw.size as int, bits.len() as int)
    &&& piece.colors@.len() == piece.blocks@.len()
    &&& forall|i: int|
        0 <= i < piece.colors@.len() ==> #[trigger] piece.colors@[i] == (Color {
            r: raw.color.0 as u8,
            g: raw.color.1 as u8,
            b: raw.color.2 as u8,
            a: raw.color.3 as u8,
        })
    &&& piece.wf()
}

impl Game {
    /// The piece that a raw pattern describes, once the pattern has passed
    /// its checks.
    pub fn request_piece(raw: &RawPattern) -> (out: Result<Piece, Error>)
        ensures
            out is Ok <==> raw_fault(raw) is None,
            out is Err ==> Some(out->Err_0.kind) == raw_fault(raw),
            out is Ok ==> piece_of(raw, &out->Ok_0),
    {
        match parse_pattern(raw) {
            Ok(pattern) => pattern.to_piece(),
            Err(e) => Err(e),
        }
    }

    /// A session around `state`, shown in a window of size `win_dim`.
    pub fn new(state: TetrisState, win_dim: (u32, u32)) -> (g: Game)
        ensures
            g.state == state,
            g.win_dim == win_dim,
    {
        Game { state, win_dim }
    }

    /// Whether the session goes on: no piece has failed to enter and no end
    /// was asked for.
    pub fn running(&self) -> (on: bool)
        ensures
            on == (self.state.phase != Phase::GameOver && !self.state.exit),
    {
        !self.state.exit && match self.state.phase {
            Phase::GameOver => false,
            _ => true,
        }
    }

    /// Marks the session as ended on the embedding program's wish.
    pub fn request_exit(&mut self)
        ensures
            final(self).state.exit,
            final(self).state.same_field(&old(self).state),
            final(self).state.same_store(&old(self).state),
            final(self).state.same_player(&old(self).state),
            final(self).state.phase == old(self).state.phase,
            final(self).state.player_tick_time == old(self).state.player_tick_time,
            final(self).state.player_tick_dur == old(self).state.player_tick_dur,
            final(self).state.flags == old(self).state.flags,
            final(self).state.lines_cleared == old(self).state.lines_cleared,
            final(self).state.pieces_placed == old(self).state.pieces_placed,
            final(self).win_dim == old(self).win_dim,
    {
        self.state.exit = true;
    }

    /// Fills the lookahead queue with `pieces` and sets the cursor to its
    /// start.
    pub fn refresh_piece_view(&mut self, pieces: Vec<Piece>)
        ensures
            final(self).state.piece_queue == pieces,
            final(self).state.piece_queue_idx == 0,
            final(self).state.piece_swap == old(self).state.piece_swap,
            final(self).state.same_field(&old(self).state),
            final(self).state.same_player(&old(self).state),
            final(self).state.same_rest(&old(self).state),
            final(self).win_dim == old(self).win_dim,
            old(self).state.wf() && (forall|i: int|
                0 <= i < pieces@.len() ==> (#[trigger] pieces@[i]).wf()) ==> final(self).state.wf(),
    {
        self.state.piece_queue = pieces;
        self.state.piece_queue_idx = 0;
    }

    /// Settles the piece under control where it stands: its blocks and
    /// colours join the field. The session then waits for the next piece.
    pub fn place_piece(&mut self)
        requires
            old(self).state.wf(),
            old(self).state.phase == Phase::Active,
        ensures
            final(self).state.field_blocks@ == old(self).state.field_blocks@ + placed(
                old(self).state.player_pos,
                old(self).state.player_piece.blocks@,
            ),
            final(self).state.field_colors@ == old(self).state.field_colors@ + old(self).state.player_piece.colors@,
            final(self).state.field_size == old(self).state.field_size,
            final(self).state.phase == Phase::Locked,
            final(self).state.same_store(&old(self).state),
            final(self).state.same_player(&old(self).state),
            final(self).state.player_tick_time == old(self).state.player_tick_time,
            final(self).state.player_tick_dur == old(self).state.player_tick_dur,
            final(self).state.flags == old(self).state.flags,
            final(self).state.lines_cleared == old(self).state.lines_cleared,
            final(self).state.pieces_placed == old(self).state.pieces_placed,
            final(self).state.exit == old(self).state.exit,
            final(self).win_dim == old(self).win_dim,
            final(self).state.wf(),
    {
        let fd = self.state.field_size;
        let abs = place_blocks(
            self.state.player_pos,
            self.state.player_piece.blocks.as_slice(),
            fd,
            self.state.field_blocks.as_slice(),
        );
        field::add_pieces(
            fd,
            &mut self.state.field_blocks,
            &mut self.state.field_colors,
            abs.as_slice(),
            self.state.player_piece.colors.as_slice(),
        );
        self.state.phase = Phase::Locked;
    }

    /// Ends the settling of a piece: clears the full rows, counts them and
    /// the piece, and lets the next piece enter, which is the one that
    /// leaves the queue when `p` is handed to it. Where that piece finds no
    /// room the session is over.
    pub fn spawn_piece(&mut self, p: Piece) -> (spawned: bool)
        requires
            old(self).state.wf(),
            old(self).state.phase == Phase::Locked,
            p.wf(),
            old(self).state.lines_cleared + old(self).state.field_size.1 <= u64::MAX,
            old(self).state.pieces_placed < u64::MAX,
        ensures
            ({
                let o = old(self).state;
                let n = final(self).state;
                let next = pulled(o.piece_queue@, o.piece_queue_idx, p);
                &&& n.field_blocks@ == cleared_blocks(
                    o.field_size,
                    o.field_blocks@,
                    o.field_blocks@.len() as int,
                )
                &&& n.field_colors@ == cleared_colors(
                    o.field_size,
                    o.field_blocks@,
                    o.field_colors@,
                    o.field_blocks@.len() as int,
                )
                &&& n.field_size == o.field_size
                &&& n.lines_cleared == o.lines_cleared + full_rows(
                    o.field_size,
                    o.field_blocks@,
                    o.field_size.1 as int,
                ).len()
                &&& n.pieces_placed == o.pieces_placed + 1
                &&& n.piece_queue@ == queue_after(o.piece_queue@, o.piece_queue_idx, p)
                &&& n.piece_queue_idx == idx_after(o.piece_queue@, o.piece_queue_idx)
                &&& n.piece_swap == o.piece_swap
                &&& spawned == valid_pos(
                    n.field_size,
                    n.field_blocks@,
                    spawn_pos(n.field_size, next.dim),
                    next.blocks@,
                )
                &&& spawned ==> n.player_piece == next && n.player_pos == spawn_pos(
                    n.field_size,
                    next.dim,
                ) && n.phase == Phase::Active
                &&& !spawned ==> n.same_player(&o) && n.phase == Phase::GameOver
                &&& n.player_tick_time == o.player_tick_time
                &&& n.player_tick_dur == o.player_tick_dur
                &&& n.flags == o.flags
                &&& n.exit == o.exit
            }),
            final(self).win_dim == old(self).win_dim,
            final(self).state.wf(),
    {
        let _lines = self.state.clear_lines();
        self.state.pieces_placed = self.state.pieces_placed + 1;
        let spawned = self.state.spawn_piece(p);
        if spawned {
            self.state.phase = Phase::Active;
        } else {
            self.state.phase = Phase::GameOver;
        }
        spawned
    }

    /// Whether `swap` needs a fresh piece: holding is enabled, a piece is
    /// under control and nothing is held yet.
    pub fn swap_needs_piece(&self) -> (need: bool)
        ensures
            need == (crate::flags::flag_set(self.state.flags, crate::flags::Flag::PieceHoldEnabled)
                && self.state.phase == Phase::Active && self.state.piece_swap is None),
    {
        self.state.hold_enabled() && self.state.piece_swap.is_none() && match self.state.phase {
            Phase::Active => true,
            _ => false,
        }
    }

    /// Sets the piece under control aside.
    ///
    /// With holding disabled, or while no piece is under control, nothing
    /// happens. With a piece in the hold slot
    /// the two pieces trade places, if the field takes the held piece where
    /// the other stands. With an empty slot and a fresh piece, the fresh
    /// piece is handed to the queue, and the piece that leaves the queue
    /// comes under control if the field takes it there, while the piece it
    /// replaces goes to the slot; if the field does not take it, it goes to
    /// the slot itself. With an empty slot and no fresh piece nothing
    /// happens.
    pub fn swap(&mut self, fresh: Option<Piece>)
        requires
            old(self).state.wf(),
            fresh is Some ==> fresh->Some_0.wf(),
        ensures
            final(self).state.wf(),
            final(self).win_dim == old(self).win_dim,
            final(self).state.same_field(&old(self).state),
            final(self).state.same_rest(&old(self).state),
            final(self).state.player_pos == old(self).state.player_pos,
            ({
                let o = old(self).state;
                let n = final(self).state;
                let on = crate::flags::flag_set(o.flags, crate::flags::Flag::PieceHoldEnabled)
                    && o.phase == Phase::Active;
                if !on || (o.piece_swap is None && fresh is None) {
                    n.same_store(&o) && n.same_player(&o)
                } else if o.piece_swap is Some {
                    let held = o.piece_swap->Some_0;
                    &&& n.piece_queue == o.piece_queue
                    &&& n.piece_queue_idx == o.piece_queue_idx
                    &&& if valid_pos(o.field_size, o.field_blocks@, o.player_pos, held.blocks@) {
                        &&& n.player_piece == held
                        &&& n.piece_swap == Some(o.player_piece)
                        &&& is_projection(
                            o.field_size,
                            o.field_blocks@,
                            o.player_pos,
                            held.blocks@,
                            n.player_proj as int,
                        )
                    } else {
                        n.piece_swap == o.piece_swap && n.same_player(&o)
                    }
                } else {
                    let next = pulled(o.piece_queue@, o.piece_queue_idx, fresh->Some_0);
                    &&& n.piece_queue@ == queue_after(
                        o.piece_queue@,
                        o.piece_queue_idx,
                        fresh->Some_0,
                    )
                    &&& n.piece_queue_idx == idx_after(o.piece_queue@, o.piece_queue_idx)
                    &&& if valid_pos(o.field_size, o.field_blocks@, o.player_pos, next.blocks@) {
                        n.player_piece == next && n.piece_swap == Some(o.player_piece)
                    } else {
                        n.player_piece == o.player_piece && n.piece_swap == Some(next)
                    }
                    &&& is_projection(
                        o.field_size,
                        o.field_blocks@,
                        o.player_pos,
                        n.player_piece.blocks@,
                        n.player_proj as int,
                    )
                }
            }),
    {
        if !self.state.hold_enabled() {
            return ;
        }
        match self.state.phase {
            Phase::Active => {},
            _ => {
                return ;
            },
        }
        let fd = self.state.field_size;
        let pl = self.state.player_pos;
        let held = self.state.piece_swap.take();
        match held {
            Some(piece) => {
                let mut piece = piece;
                if field::check_valid_pos(
                    fd,
                    self.state.field_blocks.as_slice(),
                    pl,
                    piece.blocks.as_slice(),
                ) {
                    core::mem::swap(&mut piece, &mut self.state.player_piece);
                    self.state.player_proj = pieces::project(
                        fd,
                        self.state.field_blocks.as_slice(),
                        pl,
                        self.state.player_piece.blocks.as_slice(),
                    );
                }
                self.state.piece_swap = Some(piece);
            },
            None => {
                match fresh {
                    Some(p) => {
                        let mut p = self.state.push_piece(p);
                        if field::check_valid_pos(
                            fd,
                            self.state.field_blocks.as_slice(),
                            pl,
                            p.blocks.as_slice(),
                        ) {
                            core::mem::swap(&mut p, &mut self.state.player_piece);
                        }
                        self.state.piece_swap = Some(p);
                        self.state.player_proj = pieces::project(
                            fd,
                            self.state.field_blocks.as_slice(),
                            pl,
                            self.state.player_piece.blocks.as_slice(),
                        );
                    },
                    None => {},
                }
            },
        }
    }

    /// Lets the piece under control fall to its projection and settles it
    /// there.
    pub fn drop(&mut self)
        requires
            old(self).state.wf(),
            old(self).state.phase == Phase::Active,
        ensures
            final(self).state.player_pos == (Point {
                x: old(self).state.player_pos.x,
                y: old(self).state.player_proj,
            }),
            final(self).state.player_piece == old(self).state.player_piece,
            final(self).state.player_proj == old(self).state.player_proj,
            valid_pos(
                old(self).state.field_size,
                old(self).state.field_blocks@,
                final(self).state.player_pos,
                old(self).state.player_piece.blocks@,
            ),
            final(self).state.field_blocks@ == old(self).state.field_blocks@ + placed(
                final(self).state.player_pos,
                old(self).state.player_piece.blocks@,
            ),
            final(self).state.field_colors@ == old(self).state.field_colors@ + old(self).state.player_piece.colors@,
            final(self).state.field_size == old(self).state.field_size,
            final(self).state.phase == Phase::Locked,
            final(self).state.same_store(&old(self).state),
            final(self).state.player_tick_time == old(self).state.player_tick_time,
            final(self).state.player_tick_dur == old(self).state.player_tick_dur,
            final(self).state.flags == old(self).state.flags,
            final(self).state.lines_cleared == old(self).state.lines_cleared,
            final(self).state.pieces_placed == old(self).state.pieces_placed,
            final(self).state.exit == old(self).state.exit,
            final(self).win_dim == old(self).win_dim,
            final(self).state.wf(),
    {
        proof {
            let s = self.state;
            if s.player_proj > s.player_pos.y {
                assert(valid_at(
                    s.field_size,
                    s.field_blocks@,
                    s.player_pos.x as int,
                    s.player_proj as int,
                    s.player_piece.blocks@,
                ));
            }
        }
        self.state.player_pos.y = self.state.player_proj;
        self.place_piece();
    }

    /// Checks the gravity timer at time `now`, in milliseconds. Where a tick
    /// is due the timer moves on to the first tick after `now`, and the
    /// caller is to move the piece down.
    pub fn tick_update(&mut self, now: u64) -> (due: bool)
        requires
            now + old(self).state.player_tick_dur <= u64::MAX,
        ensures
            due == (old(self).state.player_tick_time <= now),
            final(self).state.player_tick_time == if due {
                next_tick(old(self).state.player_tick_time, old(self).state.player_tick_dur, now)
            } else {
                old(self).state.player_tick_time as int
            },
            final(self).state.same_field(&old(self).state),
            final(self).state.same_store(&old(self).state),
            final(self).state.same_player(&old(self).state),
            final(self).state.phase == old(self).state.phase,
            final(self).state.player_tick_dur == old(self).state.player_tick_dur,
            final(self).state.flags == old(self).state.flags,
            final(self).state.lines_cleared == old(self).state.lines_cleared,
            final(self).state.pieces_placed == old(self).state.pieces_placed,
            final(self).state.exit == old(self).state.exit,
            final(self).win_dim == old(self).win_dim,
    {
        let tick = self.state.player_tick_time;
        let dur = self.state.player_tick_dur;
        if tick <= now {
            if dur > 0 {
                proof {
                    lemma_next_tick(tick, dur, now);
                }
                let steps: u64 = (now - tick) / dur + 1;
                self.state.player_tick_time = tick + steps * dur;
            }
            true
        } else {
            false
        }
    }

    /// Moves the piece under control one row down, or settles it where it
    /// cannot go down.
    pub fn move_piece_down(&mut self) -> (moved: bool)
        requires
            old(self).state.wf(),
            old(self).state.phase == Phase::Active,
        ensures
            moved == (old(self).state.player_pos.y < i32::MAX && valid_at(
                old(self).state.field_size,
                old(self).state.field_blocks@,
                old(self).state.player_pos.x as int,
                old(self).state.player_pos.y + 1,
                old(self).state.player_piece.blocks@,
            )),
            moved ==> {
                &&& final(self).state.player_pos == (Point {
                    x: old(self).state.player_pos.x,
                    y: (old(self).state.player_pos.y + 1) as i32,
                })
                &&& final(self).state.same_field(&old(self).state)
                &&& final(self).state.phase == Phase::Active
            },
            !moved ==> {
                &&& final(self).state.player_pos == old(self).state.player_pos
                &&& final(self).state.player_proj == old(self).state.player_proj
                &&& final(self).state.field_blocks@ == old(self).state.field_blocks@ + placed(
                    old(self).state.player_pos,
                    old(self).state.player_piece.blocks@,
                )
                &&& final(self).state.field_colors@ == old(self).state.field_colors@ + old(self).state.player_piece.colors@
                &&& final(self).state.field_size == old(self).state.field_size
                &&& final(self).state.phase == Phase::Locked
            },
            final(self).state.player_piece == old(self).state.player_piece,
            final(self).state.same_store(&old(self).state),
            final(self).state.player_tick_time == old(self).state.player_tick_time,
            final(self).state.player_tick_dur == old(self).state.player_tick_dur,
            final(self).state.flags == old(self).state.flags,
            final(self).state.lines_cleared == old(self).state.lines_cleared,
            final(self).state.pieces_placed == old(self).state.pieces_placed,
            final(self).state.exit == old(self).state.exit,
            final(self).win_dim == old(self).win_dim,
            final(self).state.wf(),
    {
        if self.state.move_piece(Direction::DOWN) {
            return true;
        }
        self.place_piece();
        false
    }
}

/// Applies one input event to the session and says what the session needs
/// next. A session whose piece is not under control takes no move; a
/// resize of the window is noted in any case.
pub fn handle_event(event: &Input, game: &mut Game) -> (request: Request)
    requires
        old(game).state.wf(),
    ensures
        final(game).state.wf(),
        final(game).state.piece_queue == old(game).state.piece_queue,
        final(game).state.piece_queue_idx == old(game).state.piece_queue_idx,
        *event != Input::LShift ==> final(game).state.piece_swap == old(game).state.piece_swap,
        final(game).state.player_tick_time == old(game).state.player_tick_time,
        final(game).state.player_tick_dur == old(game).state.player_tick_dur,
        final(game).state.flags == old(game).state.flags,
        final(game).state.lines_cleared == old(game).state.lines_cleared,
        final(game).state.pieces_placed == old(game).state.pieces_placed,
        final(game).state.exit == old(game).state.exit,
        final(game).win_dim == match *event {
            Input::Resized(w, h) => (w, h),
            _ => old(game).win_dim,
        },
        ({
            let o = old(game).state;
            let n = final(game).state;
            let pos = o.player_pos;
            let free = |x: int, y: int|
                valid_at(o.field_size, o.field_blocks@, x, y, o.player_piece.blocks@);
            if o.phase != Phase::Active {
                &&& request == Request::Nothing
                &&& n.same_field(&o)
                &&& n.same_player(&o)
                &&& n.phase == o.phase
            } else {
                match *event {
                    Input::Left => {
                        &&& request == Request::Nothing
                        &&& n.same_field(&o)
                        &&& n.phase == o.phase
                        &&& n.player_piece == o.player_piece
                        &&& if pos.x > i32::MIN && free(pos.x - 1, pos.y as int) {
                            n.player_pos == (Point { x: (pos.x - 1) as i32, y: pos.y })
                        } else {
                            n.same_player(&o)
                        }
                    },
                    Input::Right => {
                        &&& request == Request::Nothing
                        &&& n.same_field(&o)
                        &&& n.phase == o.phase
                        &&& n.player_piece == o.player_piece
                        &&& if pos.x < i32::MAX && free(pos.x + 1, pos.y as int) {
                            n.player_pos == (Point { x: (pos.x + 1) as i32, y: pos.y })
                        } else {
                            n.same_player(&o)
                        }
                    },
                    Input::Down => {
                        &&& n.player_piece == o.player_piece
                        &&& if pos.y < i32::MAX && free(pos.x as int, pos.y + 1) {
                            &&& request == Request::Nothing
                            &&& n.same_field(&o)
                            &&& n.phase == o.phase
                            &&& n.player_pos == (Point { x: pos.x, y: (pos.y + 1) as i32 })
                        } else {
                            &&& request == Request::Place
                            &&& n.phase == Phase::Locked
                            &&& n.player_pos == pos
                            &&& n.player_proj == o.player_proj
                            &&& n.field_blocks@ == o.field_blocks@ + placed(
                                pos,
                                o.player_piece.blocks@,
                            )
                            &&& n.field_colors@ == o.field_colors@ + o.player_piece.colors@
                            &&& n.field_size == o.field_size
                        }
                    },
                    Input::Up => {
                        &&& request == Request::Nothing
                        &&& n.same_field(&o)
                        &&& n.phase == o.phase
                        &&& n.player_pos == pos
                        &&& n.player_piece.dim == o.player_piece.dim
                        &&& n.player_piece.colors == o.player_piece.colors
                        &&& if valid_pos(
                            o.field_size,
                            o.field_blocks@,
                            pos,
                            pieces::rotated(o.player_piece.dim, o.player_piece.blocks@),
                        ) {
                            n.player_piece.blocks@ == pieces::rotated(
                                o.player_piece.dim,
                                o.player_piece.blocks@,
                            )
                        } else {
                            n.same_player(&o)
                        }
                    },
                    Input::LShift => {
                        &&& request == if crate::flags::flag_set(
                            o.flags,
                            crate::flags::Flag::PieceHoldEnabled,
                        ) && o.piece_swap is None {
                            Request::Hold
                        } else {
                            Request::Nothing
                        }
                        &&& n.same_field(&o)
                        &&& n.phase == o.phase
                        &&& n.player_pos == pos
                        &&& if crate::flags::flag_set(o.flags, crate::flags::Flag::PieceHoldEnabled)
                            && o.piece_swap is Some && valid_pos(
                            o.field_size,
                            o.field_blocks@,
                            pos,
                            o.piece_swap->Some_0.blocks@,
                        ) {
                            n.player_piece == o.piece_swap->Some_0 && n.piece_swap == Some(
                                o.player_piece,
                            )
                        } else {
                            n.same_player(&o) && n.piece_swap == o.piece_swap
                        }
                    },
                    Input::Space => {
                        &&& request == Request::Place
                        &&& n.phase == Phase::Locked
                        &&& n.player_piece == o.player_piece
                        &&& n.player_pos == (Point { x: pos.x, y: o.player_proj })
                        &&& n.player_proj == o.player_proj
                        &&& n.field_blocks@ == o.field_blocks@ + placed(
                            n.player_pos,
                            o.player_piece.blocks@,
                        )
                        &&& n.field_colors@ == o.field_colors@ + o.player_piece.colors@
                        &&& n.field_size == o.field_size
                    },
                    _ => {
                        &&& request == Request::Nothing
                        &&& n.same_field(&o)
                        &&& n.same_player(&o)
                        &&& n.phase == o.phase
                    },
                }
            }
        }),
{
    if let Input::Resized(w, h) = *event {
        game.win_dim = (w, h);
        return Request::Nothing;
    }
    match game.state.phase {
        Phase::Active => {},
        _ => {
            return Request::Nothing;
        },
    }
    match *event {
        Input::Left => {
            game.state.move_piece(Direction::LEFT);
            Request::Nothing
        },
        Input::Right => {
            game.state.move_piece(Direction::RIGHT);
            Request::Nothing
        },
        Input::Down => {
            if game.move_piece_down() {
                Request::Nothing
            } else {
                Request::Place
            }
        },
        Input::Up => {
            game.state.rotate();
            Request::Nothing
        },
        Input::LShift => {
            if game.swap_needs_piece() {
                Request::Hold
            } else {
                game.swap(None);
                Request::Nothing
            }
        },
        Input::Space => {
            game.drop();
            Request::Place
        },
        _ => Request::Nothing,
    }
}

/// Checks the gravity timer and, where a tick is due and the piece is under
/// control, moves the piece down or settles it.
pub fn update(game: &mut Game, now: u64) -> (request: Request)
    requires
        old(game).state.wf(),
        now + old(game).state.player_tick_dur <= u64::MAX,
    ensures
        final(game).state.wf(),
        final(game).win_dim == old(game).win_dim,
        final(game).state.same_store(&old(game).state),
        final(game).state.player_piece == old(game).state.player_piece,
        final(game).state.field_size == old(game).state.field_size,
        final(game).state.player_tick_dur == old(game).state.player_tick_dur,
        final(game).state.flags == old(game).state.flags,
        final(game).state.lines_cleared == old(game).state.lines_cleared,
        final(game).state.pieces_placed == old(game).state.pieces_placed,
        final(game).state.exit == old(game).state.exit,
        final(game).state.player_tick_time == if old(game).state.player_tick_time <= now {
            next_tick(old(game).state.player_tick_time, old(game).state.player_tick_dur, now)
        } else {
            old(game).state.player_tick_time as int
        },
        ({
            let o = old(game).state;
            let n = final(game).state;
            if o.player_tick_time <= now && o.phase == Phase::Active {
                if o.player_pos.y < i32::MAX && valid_at(
                    o.field_size,
                    o.field_blocks@,
                    o.player_pos.x as int,
                    o.player_pos.y + 1,
                    o.player_piece.blocks@,
                ) {
                    &&& request == Request::Nothing
                    &&& n.player_pos == (Point {
                        x: o.player_pos.x,
                        y: (o.player_pos.y + 1) as i32,
                    })
                    &&& n.same_field(&o)
                    &&& n.phase == Phase::Active
                } else {
                    &&& request == Request::Place
                    &&& n.player_pos == o.player_pos
                    &&& n.player_proj == o.player_proj
                    &&& n.field_blocks@ == o.field_blocks@ + placed(
                        o.player_pos,
                        o.player_piece.blocks@,
                    )
                    &&& n.field_colors@ == o.field_colors@ + o.player_piece.colors@
                    &&& n.phase == Phase::Locked
                }
            } else {
                &&& request == Request::Nothing
                &&& n.same_field(&o)
                &&& n.same_player(&o)
                &&& n.phase == o.phase
            }
        }),
{
    if !game.tick_update(now) {
        return Request::Nothing;
    }
    match game.state.phase {
        Phase::Active => {
            if game.move_piece_down() {
                Request::Nothing
            } else {
                Request::Place
            }
        },
        _ => Request::Nothing,
    }
}

} // verus!
