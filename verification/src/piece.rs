use vstd::prelude::*;

use crate::Move;
use crate::Square;
use crate::abs_diff;
use crate::board::Board;

verus! {

/// Which of the two players owns a piece.
#[derive(Clone, Copy, Debug, PartialEq, Eq, Structural)]
pub enum PieceColor {
    WHITE,
    BLACK,
}

impl PieceColor {
    /// The opposite side.
    pub open spec fn spec_flip(self) -> PieceColor {
        match self {
            PieceColor::WHITE => PieceColor::BLACK,
            PieceColor::BLACK => PieceColor::WHITE,
        }
    }

    /// Negation: white and black swap.
    pub fn flip(self) -> (r: PieceColor)
        ensures
            r == self.spec_flip(),
            r != self,
    {
        match self {
            PieceColor::WHITE => PieceColor::BLACK,
            PieceColor::BLACK => PieceColor::WHITE,
        }
    }
}

/// The piece's kind, determining its movement shape.
#[derive(Clone, Copy, Debug, PartialEq, Eq, Structural)]
pub enum PieceType {
    Pawn,
    Rook,
    Knight,
    Bishop,
    Queen,
    King,
}

/// A piece: its kind, its side, and whether it has already moved (the
/// flag matters only to the pawn's double-step rule; the surrounding game
/// layer is its sole writer).
#[derive(Clone, Copy, Debug, PartialEq, Eq, Structural)]
pub struct Piece {
    pub piece_type: PieceType,
    pub piece_color: PieceColor,
    pub moved: bool,
}

/// Whether a kind slides, so that every square strictly between origin
/// and destination must be empty for its move to be legal.
pub open spec fn spec_requires_clear_path(k: PieceType) -> bool {
    k is Rook || k is Bishop || k is Queen
}

/// The pawn's movement shape. Unlike the other kinds it is
/// direction-sensitive and consults the board itself: a pawn advances
/// only onto empty squares (one step always, two while unmoved with the
/// skipped square also empty) and steps diagonally only onto an occupied
/// square one rank ahead. En passant is a deliberate gap: such a capture
/// is always rejected.
pub open spec fn spec_pawn_shape_ok(p: Piece, b: Board, m: Move) -> bool {
    let sx = m.start.x as int;
    let sy = m.start.y as int;
    let ex = m.end.x as int;
    let ey = m.end.y as int;
    let dist = if p.piece_color is WHITE {
        ey - sy
    } else {
        sy - ey
    };
    let skipped = if p.piece_color is WHITE {
        sy + 1
    } else {
        sy - 1
    };
    let dest_occupied = b.piece_at(ex, ey) is Some;
    dist > 0 && if sx == ex && !dest_occupied {
        dist == 1 || (dist == 2 && !p.moved && b.piece_at(ex, skipped) is None)
    } else {
        dest_occupied && dist == 1 && abs_diff(sx, ex) == 1
    }
}

/// The movement shape of each kind, over the move's magnitude deltas
/// (pawns aside, which are direction-sensitive). Obstruction is not
/// considered here; for the sliding kinds it is the board's path walk
/// that rules it out.
pub open spec fn spec_shape_ok(p: Piece, b: Board, m: Move) -> bool {
    let dx = m.spec_deltas().0;
    let dy = m.spec_deltas().1;
    match p.piece_type {
        PieceType::Knight => (dx == 2 && dy == 1) || (dx == 1 && dy == 2),
        PieceType::Queen => dx == 0 || dy == 0 || dx == dy,
        PieceType::King => dx <= 1 && dy <= 1,
        PieceType::Rook => dx == 0 || dy == 0,
        PieceType::Bishop => dx == dy,
        PieceType::Pawn => spec_pawn_shape_ok(p, b, m),
    }
}

/// The eight L-shaped squares a knight reaches: two files and one rank
/// away, or one file and two ranks away, in any direction.
pub open spec fn knight_offset(m: Move) -> bool {
    let sx = m.start.x as int;
    let sy = m.start.y as int;
    let ex = m.end.x as int;
    let ey = m.end.y as int;
    ||| (ex == sx + 1 && ey == sy + 2)
    ||| (ex == sx + 2 && ey == sy + 1)
    ||| (ex == sx + 2 && ey == sy - 1)
    ||| (ex == sx + 1 && ey == sy - 2)
    ||| (ex == sx - 1 && ey == sy - 2)
    ||| (ex == sx - 2 && ey == sy - 1)
    ||| (ex == sx - 2 && ey == sy + 1)
    ||| (ex == sx - 1 && ey == sy + 2)
}

/// A knight's shape is exactly the eight-offset L-shape set.
pub proof fn lemma_knight_shape_is_l_set(p: Piece, b: Board, m: Move)
    requires
        p.piece_type is Knight,
    ensures
        spec_shape_ok(p, b, m) <==> knight_offset(m),
{
}

impl Piece {
    /// A freshly placed piece has not moved yet.
    pub fn new(piece_type: PieceType, piece_color: PieceColor) -> (p: Piece)
        ensures
            p.piece_type == piece_type,
            p.piece_color == piece_color,
            !p.moved,
    {
        Piece { piece_type, piece_color, moved: false }
    }

    /// Answers, for this piece standing on the move's origin, whether the
    /// move matches its movement shape, and whether the squares strictly
    /// between origin and destination must additionally be empty.
    pub fn can_move_to(&self, board: &Board, m: Move) -> (r: (bool, bool))
        requires
            board.wf(),
            m.wf(),
        ensures
            r.0 == spec_shape_ok(*self, *board, m),
            r.1 == spec_requires_clear_path(self.piece_type),
    {
        let (dx, dy) = m.to_deltas();
        match self.piece_type {
            PieceType::Knight => ((dx == 2 && dy == 1) || (dx == 1 && dy == 2), false),
            PieceType::Queen => (dx == 0 || dy == 0 || dx == dy, true),
            PieceType::King => (dx <= 1 && dy <= 1, false),
            PieceType::Rook => (dx == 0 || dy == 0, true),
            PieceType::Bishop => (dx == dy, true),
            PieceType::Pawn => (self.pawn_can_move(board, m), false),
        }
    }

    /// The pawn's self-contained occupancy-aware shape check.
    fn pawn_can_move(&self, board: &Board, m: Move) -> (r: bool)
        requires
            board.wf(),
            m.wf(),
        ensures
            r == spec_pawn_shape_ok(*self, *board, m),
    {
        let dest_occupied = board.get_piece(m.end).is_some();
        let sx = m.start.x;
        let sy = m.start.y;
        let ex = m.end.x;
        let ey = m.end.y;
        let (distance, skipped): (u8, u8) = match self.piece_color {
            PieceColor::WHITE => {
                if ey > sy {
                    (ey - sy, sy + 1)
                } else {
                    return false;
                }
            },
            PieceColor::BLACK => {
                if ey < sy {
                    (sy - ey, sy - 1)
                } else {
                    return false;
                }
            },
        };
        if sx == ex && !dest_occupied {
            match distance {
                1 => true,
                2 => !self.moved && board.get_piece(Square::new(ex, skipped)).is_none(),
                _ => false,
            }
        } else if dest_occupied && distance == 1 {
            if sx > ex {
                sx - ex == 1
            } else if sx < ex {
                ex - sx == 1
            } else {
                false
            }
        } else {
            false
        }
    }

    pub fn color(&self) -> (c: PieceColor)
        ensures
            c == self.piece_color,
    {
        self.piece_color
    }

    pub fn piece_type(&self) -> (t: PieceType)
        ensures
            t == self.piece_type,
    {
        self.piece_type
    }
}

} // verus!
