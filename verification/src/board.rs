use vstd::prelude::*;

use crate::Move;
use crate::Square;
use crate::abs_diff;
use crate::piece::Piece;
use crate::piece::spec_requires_clear_path;
use crate::piece::spec_shape_ok;

verus! {

/// Strictly between two endpoints, in either direction.
pub open spec fn strictly_between(s: int, e: int, v: int) -> bool {
    (s < v && v < e) || (e < v && v < s)
}

/// The move runs along a file, a rank, or a diagonal: the only shapes the
/// sliding kinds accept, and the only ones whose open interval of
/// intermediate squares is well defined.
pub open spec fn is_straight_or_diagonal(m: Move) -> bool {
    let dx = m.spec_deltas().0;
    let dy = m.spec_deltas().1;
    dx == 0 || dy == 0 || dx == dy
}

/// The square (x, y) lies strictly between the move's endpoints, on the
/// line the move runs along. For a straight or diagonal move these are
/// exactly the squares the unit step from origin to destination visits.
pub open spec fn on_open_path(m: Move, x: int, y: int) -> bool {
    let sx = m.start.x as int;
    let sy = m.start.y as int;
    let ex = m.end.x as int;
    let ey = m.end.y as int;
    if sx == ex {
        x == sx && strictly_between(sy, ey, y)
    } else if sy == ey {
        y == sy && strictly_between(sx, ex, x)
    } else {
        strictly_between(sx, ex, x) && strictly_between(sy, ey, y)
            && abs_diff(x, sx) == abs_diff(y, sy)
    }
}

/// How far along the move a square stands, counted in unit steps from
/// the origin (the longer axis decides).
pub open spec fn steps_from_origin(m: Move, x: int, y: int) -> int {
    let fx = abs_diff(x, m.start.x as int);
    let fy = abs_diff(y, m.start.y as int);
    if fx >= fy {
        fx
    } else {
        fy
    }
}

/// Every square strictly between the move's endpoints is empty.
pub open spec fn spec_path_clear(b: Board, m: Move) -> bool {
    forall|x: int, y: int| on_open_path(m, x, y) ==> #[trigger] b.piece_at(x, y) is None
}

/// The single legality decision, composing the origin piece's shape
/// answer with path obstruction and capture ownership:
/// an empty origin moves nowhere; the shape must match the piece's kind;
/// a sliding piece needs every intermediate square empty; and the
/// destination must be empty or hold the opposite side (no self-capture).
pub open spec fn spec_is_move_possible(b: Board, m: Move) -> bool {
    match b.piece_at(m.start.x as int, m.start.y as int) {
        None => false,
        Some(p) => {
            &&& spec_shape_ok(p, b, m)
            &&& spec_requires_clear_path(p.piece_type) ==> spec_path_clear(b, m)
            &&& match b.piece_at(m.end.x as int, m.end.y as int) {
                None => true,
                Some(q) => q.piece_color != p.piece_color,
            }
        },
    }
}

/// The board: 64 slots, each holding at most one piece, indexed by
/// `file + 8 * rank`. Legality queries are read-only; the board changes
/// only through explicit slot assignment.
pub struct Board {
    pub squares: Vec<Option<Piece>>,
}

impl Board {
    /// The storage really is an 8x8 grid.
    pub open spec fn wf(self) -> bool {
        self.squares@.len() == 64
    }

    /// The occupant of the square at zero-based (file, rank), if any.
    pub open spec fn piece_at(self, x: int, y: int) -> Option<Piece>
        recommends
            self.wf(),
            0 <= x < 8,
            0 <= y < 8,
    {
        self.squares@[x + 8 * y]
    }

    /// An empty board: every slot clear.
    pub fn new_clear() -> (b: Board)
        ensures
            b.wf(),
            forall|x: int, y: int|
                0 <= x < 8 && 0 <= y < 8 ==> b.piece_at(x, y) is None,
    {
        let mut squares: Vec<Option<Piece>> = Vec::new();
        let mut i: usize = 0;
        while i < 64
            invariant
                i <= 64,
                squares@.len() == i,
                forall|j: int| 0 <= j < i ==> squares@[j] is None,
            decreases 64 - i,
        {
            squares.push(None);
            i = i + 1;
        }
        Board { squares }
    }

    /// Reads the piece (if any) standing on a square.
    pub fn get_piece(&self, s: Square) -> (r: Option<Piece>)
        requires
            self.wf(),
            s.wf(),
        ensures
            r == self.piece_at(s.x as int, s.y as int),
    {
        self.squares[s.to_index()]
    }

    /// Puts a piece on a square, or clears it; every other slot is kept.
    pub fn set(&mut self, s: Square, p: Option<Piece>)
        requires
            old(self).wf(),
            s.wf(),
        ensures
            final(self).wf(),
            final(self).piece_at(s.x as int, s.y as int) == p,
            forall|x: int, y: int|
                0 <= x < 8 && 0 <= y < 8 && !(x == s.x as int && y == s.y as int)
                    ==> final(self).piece_at(x, y) == old(self).piece_at(x, y),
    {
        let idx = s.to_index();
        self.squares.set(idx, p);
    }

    /// Walks the open interval of squares strictly between the move's
    /// endpoints along the unit step toward the destination, reporting
    /// whether all of them are empty.
    fn path_clear(&self, m: Move) -> (r: bool)
        requires
            self.wf(),
            m.wf(),
            is_straight_or_diagonal(m),
        ensures
            r == spec_path_clear(*self, m),
    {
        let ex = m.end.x;
        let ey = m.end.y;
        let mut x = m.start.x;
        let mut y = m.start.y;
        if x < ex {
            x = x + 1;
        } else if x > ex {
            x = x - 1;
        }
        if y < ey {
            y = y + 1;
        } else if y > ey {
            y = y - 1;
        }
        while x != ex || y != ey
            invariant
                self.wf(),
                m.wf(),
                ex == m.end.x,
                ey == m.end.y,
                is_straight_or_diagonal(m),
                on_open_path(m, x as int, y as int) || (x == ex && y == ey),
                forall|x2: int, y2: int|
                    on_open_path(m, x2, y2)
                        && steps_from_origin(m, x2, y2) < steps_from_origin(m, x as int, y as int)
                        ==> #[trigger] self.piece_at(x2, y2) is None,
            decreases steps_from_origin(m, ex as int, ey as int) - steps_from_origin(m, x as int, y as int),
        {
            if self.get_piece(Square::new(x, y)).is_some() {
                return false;
            }
            if x < ex {
                x = x + 1;
            } else if x > ex {
                x = x - 1;
            }
            if y < ey {
                y = y + 1;
            } else if y > ey {
                y = y - 1;
            }
        }
        true
    }

    /// The externally meaningful legality query: is the proposed move
    /// geometrically legal for the piece standing on its origin square?
    pub fn is_move_possible(&self, m: Move) -> (r: bool)
        requires
            self.wf(),
            m.wf(),
        ensures
            r == spec_is_move_possible(*self, m),
    {
        let piece = match self.get_piece(m.start) {
            None => {
                return false;
            },
            Some(p) => p,
        };
        let (shape_ok, needs_clear_path) = piece.can_move_to(self, m);
        if !shape_ok {
            return false;
        }
        if needs_clear_path && !self.path_clear(m) {
            return false;
        }
        match self.get_piece(m.end) {
            None => true,
            Some(q) => q.color() != piece.color(),
        }
    }
}

/// A move from an empty origin square is never legal, whatever its
/// destination: there is nothing to move.
pub proof fn lemma_empty_origin_moves_nothing(b: Board, m: Move)
    requires
        b.piece_at(m.start.x as int, m.start.y as int) is None,
    ensures
        !spec_is_move_possible(b, m),
{
}

/// Knight legality never depends on intervening occupancy: two boards
/// that agree on a move's origin and destination squares, with a knight
/// on the origin, agree on the move's legality — knights jump.
pub proof fn lemma_knight_ignores_occupancy(b1: Board, b2: Board, m: Move)
    requires
        b1.piece_at(m.start.x as int, m.start.y as int)
            == b2.piece_at(m.start.x as int, m.start.y as int),
        b1.piece_at(m.end.x as int, m.end.y as int)
            == b2.piece_at(m.end.x as int, m.end.y as int),
        b1.piece_at(m.start.x as int, m.start.y as int) matches Some(p)
            && p.piece_type is Knight,
    ensures
        spec_is_move_possible(b1, m) == spec_is_move_possible(b2, m),
{
}

/// A sliding move (rook, bishop or queen on the origin) is legal only
/// with the matching straight or diagonal shape and a fully clear path.
pub proof fn lemma_slider_move_requires_clear_path(b: Board, m: Move, p: Piece)
    requires
        b.piece_at(m.start.x as int, m.start.y as int) == Some(p),
        spec_requires_clear_path(p.piece_type),
        spec_is_move_possible(b, m),
    ensures
        spec_shape_ok(p, b, m),
        is_straight_or_diagonal(m),
        spec_path_clear(b, m),
{
}

/// One occupied square strictly between origin and destination — friend
/// or foe — makes a sliding move illegal.
pub proof fn lemma_blocked_slider_move(b: Board, m: Move, p: Piece, x: int, y: int)
    requires
        b.piece_at(m.start.x as int, m.start.y as int) == Some(p),
        spec_requires_clear_path(p.piece_type),
        on_open_path(m, x, y),
        b.piece_at(x, y) is Some,
    ensures
        !spec_is_move_possible(b, m),
{
    assert(!spec_path_clear(b, m));
}

/// Capture ownership: no piece ever moves onto a square its own side
/// occupies; onto an empty square, or one the opposite side occupies,
/// shape and path clearance alone decide.
pub proof fn lemma_capture_ownership(b: Board, m: Move, p: Piece)
    requires
        b.piece_at(m.start.x as int, m.start.y as int) == Some(p),
    ensures
        b.piece_at(m.end.x as int, m.end.y as int) matches Some(q)
            && q.piece_color == p.piece_color ==> !spec_is_move_possible(b, m),
        (b.piece_at(m.end.x as int, m.end.y as int) matches Some(q)
            ==> q.piece_color != p.piece_color) ==> (spec_is_move_possible(b, m)
            <==> spec_shape_ok(p, b, m)
                && (spec_requires_clear_path(p.piece_type) ==> spec_path_clear(b, m))),
{
}

/// A null move (origin equal to destination) is never legal, for any
/// kind: an empty origin moves nothing, and an occupied origin is its
/// own destination, which the no-self-capture rule rejects.
pub proof fn lemma_null_move_never_possible(b: Board, m: Move)
    requires
        m.start == m.end,
    ensures
        !spec_is_move_possible(b, m),
{
}

/// What every legal pawn move looks like: strictly forward for its side;
/// a file change is exactly a diagonal, single-step capture of the
/// opposite side; a straight advance lands on an empty square and goes
/// two ranks only while the pawn is unmoved with the skipped square
/// empty as well.
pub proof fn lemma_pawn_move_properties(b: Board, m: Move, p: Piece)
    requires
        b.piece_at(m.start.x as int, m.start.y as int) == Some(p),
        p.piece_type is Pawn,
        spec_is_move_possible(b, m),
    ensures
        p.piece_color is WHITE ==> m.end.y > m.start.y,
        p.piece_color is BLACK ==> m.end.y < m.start.y,
        m.end.x != m.start.x ==> (b.piece_at(m.end.x as int, m.end.y as int) matches Some(q)
            && q.piece_color != p.piece_color
            && abs_diff(m.end.x as int, m.start.x as int) == 1
            && abs_diff(m.end.y as int, m.start.y as int) == 1),
        m.end.x == m.start.x ==> b.piece_at(m.end.x as int, m.end.y as int) is None,
        m.end.x == m.start.x ==> abs_diff(m.end.y as int, m.start.y as int) == 1
            || abs_diff(m.end.y as int, m.start.y as int) == 2,
        m.end.x == m.start.x && abs_diff(m.end.y as int, m.start.y as int) == 2 ==> !p.moved
            && b.piece_at(m.start.x as int, (m.start.y + m.end.y) / 2) is None,
{
}

} // verus!
