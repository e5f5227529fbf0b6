//! What can go wrong while a session is set up or a piece is decoded.

use vstd::prelude::*;

verus! {

/// The reason for an `Error`.
#[derive(Clone, Copy, Debug, PartialEq, Eq, Structural)]
pub enum ErrorKind {
    /// A template holds a byte that is neither a cell nor white space.
    BadCharacter,
    /// A template does not hold one cell for each cell of its bounding box,
    /// or the box is larger than a mask can be.
    SizeMismatch,
    /// A pattern does not carry one colour for each occupied cell.
    ColorMismatch,
    /// A colour channel lies outside `0..=255`.
    BadColor,
    /// A number of the configuration does not fit its type.
    BadNumber,
    /// The field leaves no room for the piece.
    NoRoom,
}

/// A failure that ends the set-up of a session or the decoding of a piece.
#[derive(Clone, Copy, Debug, PartialEq, Eq, Structural)]
pub struct Error {
    pub kind: ErrorKind,
}

impl Error {
    pub fn new(kind: ErrorKind) -> (e: Error)
        ensures
            e.kind == kind,
    {
        Error { kind }
    }
}

/// A failure to read a description file, with its message.
pub struct ParseError {
    pub err: String,
}

impl ParseError {
    /// An error that carries `s` as its message.
    pub fn from_str(s: &str) -> (e: ParseError)
        ensures
            e.err@ == s@,
    {
        ParseError { err: s.to_owned() }
    }

    /// The message.
    pub fn message(&self) -> (s: &str)
        ensures
            s@ == self.err@,
    {
        self.err.as_str()
    }
}

} // verus!
