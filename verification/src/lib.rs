//! A chess move-legality engine: an 8x8 board of optional pieces and a
//! pure predicate deciding whether a proposed move is geometrically legal
//! for the piece standing on its origin square.
//!
//! The engine answers one question only. Turn order, check detection,
//! castling, en passant and promotion are left to a game layer built on
//! top of it.

use vstd::prelude::*;

pub mod board;
pub mod piece;

verus! {

/// The letter that algebraic notation uses for a file (column) index.
pub open spec fn file_char(x: int) -> char {
    if x == 0 {
        'a'
    } else if x == 1 {
        'b'
    } else if x == 2 {
        'c'
    } else if x == 3 {
        'd'
    } else if x == 4 {
        'e'
    } else if x == 5 {
        'f'
    } else if x == 6 {
        'g'
    } else {
        'h'
    }
}

/// The digit that algebraic notation uses for a rank (row) index;
/// ranks are printed one-based.
pub open spec fn rank_char(y: int) -> char {
    if y == 0 {
        '1'
    } else if y == 1 {
        '2'
    } else if y == 2 {
        '3'
    } else if y == 3 {
        '4'
    } else if y == 4 {
        '5'
    } else if y == 5 {
        '6'
    } else if y == 6 {
        '7'
    } else {
        '8'
    }
}

/// One square of the board, as a zero-based (file, rank) pair.
#[derive(Clone, Copy, Debug, PartialEq, Eq, Structural)]
pub struct Square {
    pub x: u8,
    pub y: u8,
}

impl Square {
    /// Both components lie on the 8x8 grid.
    pub open spec fn wf(self) -> bool {
        self.x < 8 && self.y < 8
    }

    /// The square's slot in a 64-element array, `file + 8 * rank`.
    pub open spec fn spec_index(self) -> int {
        self.x + 8 * self.y
    }

    /// The square's two-character algebraic name, e.g. `a1` or `h8`.
    pub open spec fn spec_uci(self) -> Seq<char> {
        seq![file_char(self.x as int), rank_char(self.y as int)]
    }

    /// Builds a square from zero-based file and rank.
    ///
    /// Out-of-range components are rejected here, at construction, so the
    /// legality engine never sees a malformed coordinate.
    pub fn new(x: u8, y: u8) -> (s: Square)
        requires
            x < 8,
            y < 8,
        ensures
            s.wf(),
            s.x == x,
            s.y == y,
    {
        Square { x, y }
    }

    /// Renders the square in algebraic notation.
    pub fn to_uci(&self) -> (r: String)
        requires
            self.wf(),
        ensures
            r@ == self.spec_uci(),
            r@.len() == 2,
    {
        proof {
            reveal_strlit("a");
            reveal_strlit("b");
            reveal_strlit("c");
            reveal_strlit("d");
            reveal_strlit("e");
            reveal_strlit("f");
            reveal_strlit("g");
            reveal_strlit("h");
            reveal_strlit("1");
            reveal_strlit("2");
            reveal_strlit("3");
            reveal_strlit("4");
            reveal_strlit("5");
            reveal_strlit("6");
            reveal_strlit("7");
            reveal_strlit("8");
        }
        let file: &str = match self.x {
            0 => "a",
            1 => "b",
            2 => "c",
            3 => "d",
            4 => "e",
            5 => "f",
            6 => "g",
            _ => "h",
        };
        let rank: &str = match self.y {
            0 => "1",
            1 => "2",
            2 => "3",
            3 => "4",
            4 => "5",
            5 => "6",
            6 => "7",
            _ => "8",
        };
        let mut s = file.to_owned();
        s.append(rank);
        s
    }

    /// The flat storage index of the square.
    pub fn to_index(&self) -> (r: usize)
        requires
            self.wf(),
        ensures
            r == self.spec_index(),
            r < 64,
    {
        (self.x + 8 * self.y) as usize
    }
}

/// The magnitude of the difference of two coordinates.
pub open spec fn abs_diff(a: int, b: int) -> int {
    if a >= b {
        a - b
    } else {
        b - a
    }
}

/// A proposed move: an ordered pair of squares. Construction evaluates no
/// legality; whether the move can be played is a board-level decision.
#[derive(Clone, Copy, Debug, PartialEq, Eq, Structural)]
pub struct Move {
    pub start: Square,
    pub end: Square,
}

impl Move {
    pub open spec fn wf(self) -> bool {
        self.start.wf() && self.end.wf()
    }

    /// The unsigned magnitudes of the move's file and rank displacement.
    ///
    /// The sign is lost here on purpose: direction-sensitive rules (the
    /// pawn's forward direction, the sliding-path step) re-derive signed
    /// differences from the endpoints instead of reusing these magnitudes.
    pub open spec fn spec_deltas(self) -> (int, int) {
        (
            abs_diff(self.end.x as int, self.start.x as int),
            abs_diff(self.end.y as int, self.start.y as int),
        )
    }

    /// The move's four-character algebraic name: origin then destination.
    pub open spec fn spec_uci(self) -> Seq<char> {
        self.start.spec_uci() + self.end.spec_uci()
    }

    /// Pairs the two endpoints; stores them verbatim.
    pub fn new(start: Square, end: Square) -> (m: Move)
        ensures
            m.start == start,
            m.end == end,
    {
        Move { start, end }
    }

    /// Computes the magnitude deltas of the move.
    pub fn to_deltas(&self) -> (r: (u8, u8))
        ensures
            r.0 == self.spec_deltas().0,
            r.1 == self.spec_deltas().1,
    {
        let dx = if self.end.x >= self.start.x {
            self.end.x - self.start.x
        } else {
            self.start.x - self.end.x
        };
        let dy = if self.end.y >= self.start.y {
            self.end.y - self.start.y
        } else {
            self.start.y - self.end.y
        };
        (dx, dy)
    }

    /// Renders the move in algebraic notation, e.g. `a1h8`.
    pub fn to_uci(&self) -> (r: String)
        requires
            self.wf(),
        ensures
            r@ == self.spec_uci(),
            r@.len() == 4,
    {
        let mut result = self.start.to_uci();
        let tail = self.end.to_uci();
        result.append(tail.as_str());
        result
    }
}

/// A move's four-character name splits back into the names of its two
/// endpoints: the first half renders the origin, the second the
/// destination, so the rendering round-trips.
pub proof fn lemma_move_uci_halves(m: Move)
    requires
        m.wf(),
    ensures
        m.spec_uci().len() == 4,
        m.spec_uci().subrange(0, 2) == m.start.spec_uci(),
        m.spec_uci().subrange(2, 4) == m.end.spec_uci(),
{
    assert(m.spec_uci().subrange(0, 2) =~= m.start.spec_uci());
    assert(m.spec_uci().subrange(2, 4) =~= m.end.spec_uci());
}

/// Distinct squares have distinct algebraic names: the rendering is a
/// bijection between the 64 squares and their 64 two-character names.
pub proof fn lemma_uci_injective(a: Square, b: Square)
    requires
        a.wf(),
        b.wf(),
        a.spec_uci() == b.spec_uci(),
    ensures
        a == b,
{
    assert(a.spec_uci()[0] == b.spec_uci()[0]);
    assert(a.spec_uci()[1] == b.spec_uci()[1]);
}

} // verus!
