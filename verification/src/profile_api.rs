//! The settings of a session as the embedding program hands them over, and
//! their check.

use crate::error::{Error, ErrorKind};
use crate::geometry::Color;
use crate::pattern::{raw_fault, RawPattern};
use crate::pieces::Piece;
use vstd::prelude::*;

verus! {

/// The time between two ticks where a profile names none: a hundred years,
/// in milliseconds.
pub const NO_TICK: u64 = 3_155_760_000_000;

/// The settings of a session as they are read, before any check.
pub struct RawProfile {
    pub width: i64,
    pub height: i64,
    /// Milliseconds between two ticks, if given.
    pub piece_tick: Option<i64>,
    pub start_piece: RawPattern,
    /// The length of the lookahead queue, if given.
    pub piece_view_size: Option<i64>,
    /// Whether the player may set a piece aside, if given.
    pub piece_hold_enabled: Option<bool>,
}

/// The settings of a session.
#[derive(Debug)]
pub struct Profile {
    pub bg_color: Color,
    pub field_bg_color: Color,
    pub field_edge_color: Color,
    pub field_dim: (u32, u32),
    pub start_piece: Piece,
    pub piece_view_size: usize,
    pub piece_hold_enabled: bool,
    /// Milliseconds between two ticks.
    pub piece_tick: u64,
}

/// `v` is a side of a field.
pub open spec fn side_ok(v: i64) -> bool {
    0 <= v <= u32::MAX
}

/// What is wrong with the settings, if anything: the first of a width, a
/// height or a tick that is out of range, a fault of the start piece, a
/// queue length that is out of range.
pub open spec fn profile_fault(raw: &RawProfile) -> Option<ErrorKind> {
    if !side_ok(raw.width) || !side_ok(raw.height) {
        Some(ErrorKind::BadNumber)
    } else if raw.piece_tick is Some && raw.piece_tick->Some_0 < 0 {
        Some(ErrorKind::BadNumber)
    } else if raw_fault(&raw.start_piece) is Some {
        raw_fault(&raw.start_piece)
    } else if raw.piece_view_size is Some && !(0 <= raw.piece_view_size->Some_0 <= usize::MAX) {
        Some(ErrorKind::BadNumber)
    } else {
        None
    }
}

/// The time between two ticks that the settings ask for.
pub open spec fn tick_of(raw: &RawProfile) -> int {
    match raw.piece_tick {
        Some(t) => t as int,
        None => NO_TICK as int,
    }
}

/// The length of the lookahead queue that the settings ask for.
pub open spec fn view_size_of(raw: &RawProfile) -> int {
    match raw.piece_view_size {
        Some(s) => s as int,
        None => 0,
    }
}

/// Checks the settings of a session. What is not given takes its default:
/// no tick for a hundred years, no lookahead queue, no holding.
pub fn load(raw: &RawProfile) -> (out: Result<Profile, Error>)
    ensures
        out is Ok <==> profile_fault(raw) is None,
        out is Err ==> Some(out->Err_0.kind) == profile_fault(raw),
        out is Ok ==> {
            let p = out->Ok_0;
            &&& p.bg_color == (Color { r: 255, g: 255, b: 255, a: 255 })
            &&& p.field_bg_color == (Color { r: 0, g: 0, b: 0, a: 255 })
            &&& p.field_edge_color == (Color { r: 128, g: 128, b: 128, a: 255 })
            &&& p.field_dim == (raw.width as u32, raw.height as u32)
            &&& p.piece_tick == tick_of(raw)
            &&& p.piece_view_size == view_size_of(raw)
            &&& p.piece_hold_enabled == (raw.piece_hold_enabled == Some(true))
            &&& crate::game::piece_of(&raw.start_piece, &p.start_piece)
        },
{
    if raw.width < 0 || raw.width > 0xffff_ffff || raw.height < 0 || raw.height > 0xffff_ffff {
        return Err(Error::new(ErrorKind::BadNumber));
    }
    let piece_tick: u64 = match raw.piece_tick {
        Some(t) => {
            if t < 0 {
                return Err(Error::new(ErrorKind::BadNumber));
            }
            t as u64
        },
        None => NO_TICK,
    };
    let start_piece = match crate::game::Game::request_piece(&raw.start_piece) {
        Ok(p) => p,
        Err(e) => {
            return Err(e);
        },
    };
    let piece_view_size: usize = match raw.piece_view_size {
        Some(s) => {
            if s < 0 || s as u64 > usize::MAX as u64 {
                return Err(Error::new(ErrorKind::BadNumber));
            }
            s as usize
        },
        None => 0,
    };
    let piece_hold_enabled: bool = match raw.piece_hold_enabled {
        Some(b) => b,
        None => false,
    };
    Ok(
        Profile {
            bg_color: Color { r: 255, g: 255, b: 255, a: 255 },
            field_bg_color: Color { r: 0, g: 0, b: 0, a: 255 },
            field_edge_color: Color { r: 128, g: 128, b: 128, a: 255 },
            field_dim: (raw.width as u32, raw.height as u32),
            start_piece,
            piece_view_size,
            piece_hold_enabled,
            piece_tick,
        },
    )
}

} // verus!
