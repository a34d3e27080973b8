//! The position: which piece stands on which square.

use crate::coords::{
    board_squares, lemma_board_has_64_squares, lemma_steps_pass_the_squares_between, Coords,
};
use crate::figure::{Figure, IllegalMoveReason};
use std::collections::HashMap;
use vstd::prelude::*;
use vstd::set_lib::lemma_len_subset;

verus! {

broadcast use vstd::std_specs::hash::group_hash_axioms;

/// The pieces on the board, as a sparse map keyed by the number of each
/// occupied square. A square is a key at most once, so it holds at most one piece.
#[derive(Debug, PartialEq, Eq)]
pub struct Position {
    board: HashMap<u8, Figure>,
}

impl View for Position {
    type V = Map<Coords, Figure>;

    /// The occupied squares of the board, each with its piece.
    closed spec fn view(&self) -> Map<Coords, Figure> {
        Map::new(
            |c: Coords| c.on_board() && self.board@.contains_key(c.index() as u8),
            |c: Coords| self.board@[c.index() as u8],
        )
    }
}

/// The piece on a square, if any.
pub open spec fn piece_at(pos: Map<Coords, Figure>, c: Coords) -> Option<Figure> {
    if pos.contains_key(c) {
        Some(pos[c])
    } else {
        None
    }
}

/// Every square strictly between two squares is empty.
pub open spec fn path_clear(pos: Map<Coords, Figure>, from: Coords, to: Coords) -> bool {
    forall|c: Coords| #[trigger] from.strictly_between(to, c) ==> !pos.contains_key(c)
}

/// Whether a piece can slide from one square to another: the squares must be
/// colinear and the squares between them empty.
pub open spec fn path_verdict(pos: Map<Coords, Figure>, from: Coords, to: Coords) -> Result<
    (),
    IllegalMoveReason,
> {
    if !from.colinear(to) {
        Err(IllegalMoveReason::NotColinear)
    } else if !path_clear(pos, from, to) {
        Err(IllegalMoveReason::Blocked)
    } else {
        Ok(())
    }
}

/// The position after the piece on `from` has moved to `to`, taking what stood there.
pub open spec fn after_move(pos: Map<Coords, Figure>, from: Coords, to: Coords) -> Map<
    Coords,
    Figure,
> {
    pos.remove(from).insert(to, pos[from])
}

/// A move changes two squares and no other: the square it leaves is empty
/// afterwards, the square it reaches holds the piece that moved, and every
/// other square holds what it held.
pub proof fn lemma_move_changes_two_squares(
    pos: Map<Coords, Figure>,
    from: Coords,
    to: Coords,
    other: Coords,
)
    requires
        pos.contains_key(from),
        from != to,
        other != from,
        other != to,
    ensures
        piece_at(after_move(pos, from, to), from) is None,
        piece_at(after_move(pos, from, to), to) == Some(pos[from]),
        piece_at(after_move(pos, from, to), other) == piece_at(pos, other),
{
}

/// A move adds no piece to the board: afterwards there are as many pieces
/// as before, or one fewer where a piece was taken.
pub proof fn lemma_move_adds_no_piece(pos: Map<Coords, Figure>, from: Coords, to: Coords)
    requires
        pos.dom().finite(),
        pos.contains_key(from),
        from != to,
    ensures
        after_move(pos, from, to).dom().finite(),
        after_move(pos, from, to).dom().len() == if pos.contains_key(to) {
            pos.dom().len() - 1
        } else {
            pos.dom().len() as int
        },
        after_move(pos, from, to).dom().subset_of(pos.dom().insert(to)),
{
}

impl Position {
    /// The empty board.
    pub fn new() -> (res: Position)
        ensures
            res@ == Map::<Coords, Figure>::empty(),
    {
        Position { board: HashMap::new() }
    }

    /// Only squares of the board are ever occupied.
    pub proof fn lemma_on_board(&self)
        ensures
            forall|c: Coords| #[trigger] self@.contains_key(c) ==> c.on_board(),
    {
    }

    /// A position holds at most one piece on each square of the board and
    /// none elsewhere: its pieces are finitely many, and no more than the
    /// board has squares.
    pub proof fn lemma_one_piece_per_square(&self)
        ensures
            self@.dom().subset_of(board_squares()),
            self@.dom().finite(),
            self@.dom().len() <= 64,
    {
        lemma_board_has_64_squares();
        lemma_len_subset(self@.dom(), board_squares());
    }

    /// The piece on `coord`, or `None` where the square is empty or off the board.
    pub fn get(&self, coord: Coords) -> (res: Option<Figure>)
        ensures
            res == piece_at(self@, coord),
    {
        match coord.to_index() {
            Some(idx) => match self.board.get(&idx) {
                Some(figure) => Some(*figure),
                None => None,
            },
            None => None,
        }
    }

    /// Puts `piece` on `coord`, in place of what stood there. Off the board
    /// there is nothing to put it on, and the position stays as it is.
    pub fn place(&mut self, coord: Coords, piece: Figure)
        ensures
            coord.on_board() ==> final(self)@ == old(self)@.insert(coord, piece),
            !coord.on_board() ==> final(self)@ == old(self)@,
    {
        if let Some(idx) = coord.to_index() {
            self.board.insert(idx, piece);
        }
    }

    /// Empties `coord` and returns the piece that stood there.
    pub fn remove(&mut self, coord: Coords) -> (res: Option<Figure>)
        ensures
            final(self)@ == old(self)@.remove(coord),
            res == piece_at(old(self)@, coord),
    {
        match coord.to_index() {
            Some(idx) => self.board.remove(&idx),
            None => None,
        }
    }

    /// Moves the piece on `from` to `to` and returns the piece it captured
    /// there, if any. With `to` off the board nothing moves.
    pub fn move_piece(&mut self, from: Coords, to: Coords) -> (res: Option<Figure>)
        requires
            old(self)@.contains_key(from),
        ensures
            to.on_board() ==> final(self)@ == after_move(old(self)@, from, to),
            to.on_board() ==> res == piece_at(old(self)@.remove(from), to),
            !to.on_board() ==> final(self)@ == old(self)@ && res is None,
    {
        if !to.is_on_board() {
            return None;
        }
        let moved = self.remove(from);
        let captured = self.get(to);
        self.place(to, moved.unwrap());
        captured
    }

    /// A copy of the position.
    pub fn snapshot(&self) -> (res: Position)
        ensures
            res@ == self@,
    {
        Position { board: self.board.clone() }
    }

    /// Tells why a piece cannot slide from `from` to `to`, if it cannot: the
    /// squares are not colinear, or one of the squares between them is occupied.
    pub fn check_path(&self, from: Coords, to: Coords) -> (res: Result<(), IllegalMoveReason>)
        ensures
            res == path_verdict(self@, from, to),
    {
        if !from.is_colinear(&to) {
            return Err(IllegalMoveReason::NotColinear);
        }
        proof {
            lemma_steps_pass_the_squares_between(from, to);
        }
        let df = from.file_distance(&to);
        let dr = from.rank_distance(&to);
        let n: u8 = if df >= dr { df } else { dr };
        let mut k: u8 = 1;
        while k < n
            invariant
                1 <= k,
                n == from.span(to),
                from.colinear(to),
                forall|j: int|
                    0 < j < n ==> from.strictly_between(to, #[trigger] from.step_toward(to, j)),
                forall|j: int| 0 < j < k ==> !self@.contains_key(#[trigger] from.step_toward(to, j)),
            decreases n - k,
        {
            let square = from.stepped(&to, k);
            if self.get(square).is_some() {
                return Err(IllegalMoveReason::Blocked);
            }
            k = k + 1;
        }
        Ok(())
    }

    /// Whether the two squares are colinear and every square strictly between them is empty.
    pub fn is_path_clear(&self, from: Coords, to: Coords) -> (res: bool)
        ensures
            res == (from.colinear(to) && path_clear(self@, from, to)),
    {
        self.check_path(from, to).is_ok()
    }
}

} // verus!
