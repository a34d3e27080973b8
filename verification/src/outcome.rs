//! Where a game stands: who is in check, which moves a side may make, and
//! whether the side to move is checkmated or stalemated.

use crate::coords::Coords;
use crate::figure::{
    legality, reason_text, Figure, FigureColor, FigureVariant, IllegalMoveReason,
};
use crate::position::{after_move, Position};
use vstd::prelude::*;

verus! {

/// The state of a game. The side named is the one in check or checkmated.
#[derive(Clone, Copy, Debug, PartialEq, Eq, Structural, Hash)]
pub enum Outcome {
    InProgress,
    Check(FigureColor),
    Checkmate(FigureColor),
    Stalemate,
    Draw,
}

/// Why a move was turned down.
#[derive(Clone, Copy, Debug, PartialEq, Eq, Structural, Hash)]
pub enum MoveError {
    /// The game has ended.
    GameOver,
    /// No piece stands on the source square.
    EmptySquare,
    /// The piece on the source square belongs to the side that is not to move.
    WrongSide,
    /// The piece may not make the move.
    Illegal(IllegalMoveReason),
}

/// Whether the piece on `from` belongs to the opponent of `side` and may move to `target`.
pub open spec fn threatens(
    pos: Map<Coords, Figure>,
    side: FigureColor,
    from: Coords,
    target: Coords,
) -> bool {
    pos.contains_key(from) && pos[from].color != side && legality(pos[from], from, pos, target)
        is Ok
}

/// Whether some piece of the opponent of `side` may move to `target`.
pub open spec fn attacked(pos: Map<Coords, Figure>, side: FigureColor, target: Coords) -> bool {
    exists|from: Coords| threatens(pos, side, from, target)
}

/// Whether a king of `side` stands on `square`.
pub open spec fn king_at(pos: Map<Coords, Figure>, side: FigureColor, square: Coords) -> bool {
    pos.contains_key(square) && pos[square] == (Figure { color: side, variant: FigureVariant::King })
}

/// A side is in check when a piece of the other side may move onto its king's square.
pub open spec fn in_check(pos: Map<Coords, Figure>, side: FigureColor) -> bool {
    exists|square: Coords| king_at(pos, side, square) && attacked(pos, side, square)
}

/// Whether `side` may move the piece on `from` to `to`, and if not, why not:
/// there must be a piece, it must be the side's own, its kind must allow the
/// move, and the move must not leave the side's king in check.
pub open spec fn move_verdict(
    pos: Map<Coords, Figure>,
    side: FigureColor,
    from: Coords,
    to: Coords,
) -> Result<(), MoveError> {
    if !pos.contains_key(from) {
        Err(MoveError::EmptySquare)
    } else if pos[from].color != side {
        Err(MoveError::WrongSide)
    } else {
        match legality(pos[from], from, pos, to) {
            Err(reason) => Err(MoveError::Illegal(reason)),
            Ok(_) => if in_check(after_move(pos, from, to), side) {
                Err(MoveError::Illegal(IllegalMoveReason::LeavesKingInCheck))
            } else {
                Ok(())
            },
        }
    }
}

/// Whether `side` has any move it may make.
pub open spec fn has_legal_move(pos: Map<Coords, Figure>, side: FigureColor) -> bool {
    exists|from: Coords, to: Coords| move_verdict(pos, side, from, to) is Ok
}

/// The state of the game when `side` is to move in `pos`.
pub open spec fn outcome_of(pos: Map<Coords, Figure>, side: FigureColor) -> Outcome {
    if has_legal_move(pos, side) {
        if in_check(pos, side) {
            Outcome::Check(side)
        } else {
            Outcome::InProgress
        }
    } else {
        if in_check(pos, side) {
            Outcome::Checkmate(side)
        } else {
            Outcome::Stalemate
        }
    }
}

/// The words that tell a player why a move was turned down.
pub open spec fn error_text(error: MoveError) -> Seq<char> {
    match error {
        MoveError::GameOver => "the game is over"@,
        MoveError::EmptySquare => "theres no figure on that field"@,
        MoveError::WrongSide => "cannot move opponent's figure"@,
        MoveError::Illegal(reason) => reason_text(reason),
    }
}

impl MoveError {
    /// The words that tell a player why the move was turned down.
    pub fn message(&self) -> (res: &'static str)
        ensures
            res@ == error_text(*self),
    {
        match self {
            MoveError::GameOver => "the game is over",
            MoveError::EmptySquare => "theres no figure on that field",
            MoveError::WrongSide => "cannot move opponent's figure",
            MoveError::Illegal(reason) => reason.message(),
        }
    }
}

impl Outcome {
    /// The states in which no further move is taken.
    pub open spec fn terminal(self) -> bool {
        self is Checkmate || self is Stalemate || self is Draw
    }

    /// Whether the game has ended.
    pub fn is_terminal(&self) -> (res: bool)
        ensures
            res == self.terminal(),
    {
        match self {
            Outcome::Checkmate(_) | Outcome::Stalemate | Outcome::Draw => true,
            Outcome::InProgress | Outcome::Check(_) => false,
        }
    }
}

/// Whether some piece of the opponent of `side` may move to `target`.
pub fn is_attacked(position: &Position, side: FigureColor, target: Coords) -> (res: bool)
    ensures
        res == attacked(position@, side, target),
{
    let mut n: u8 = 0;
    while n < 64
        invariant
            n <= 64,
            forall|m: int| 0 <= m < n ==> !threatens(position@, side, #[trigger] Coords::at(m), target),
        decreases 64 - n,
    {
        let from = Coords::from_index(n);
        if let Some(piece) = position.get(from) {
            if piece.color != side && piece.can_go(&from, position, &target).is_ok() {
                assert(threatens(position@, side, from, target));
                return true;
            }
        }
        n = n + 1;
    }
    proof {
        position.lemma_on_board();
        assert forall|from: Coords| !threatens(position@, side, from, target) by {
            if position@.contains_key(from) {
                assert(Coords::at(from.index()) == from);
            }
        }
    }
    false
}

/// Whether `side` is in check.
pub fn is_in_check(position: &Position, side: FigureColor) -> (res: bool)
    ensures
        res == in_check(position@, side),
{
    let mut n: u8 = 0;
    while n < 64
        invariant
            n <= 64,
            forall|m: int|
                0 <= m < n ==> !(king_at(position@, side, #[trigger] Coords::at(m)) && attacked(
                    position@,
                    side,
                    Coords::at(m),
                )),
        decreases 64 - n,
    {
        let square = Coords::from_index(n);
        if let Some(piece) = position.get(square) {
            if piece.color == side && piece.variant == FigureVariant::King {
                if is_attacked(position, side, square) {
                    return true;
                }
            }
        }
        n = n + 1;
    }
    proof {
        position.lemma_on_board();
        assert forall|square: Coords|
            !(king_at(position@, side, square) && attacked(position@, side, square)) by {
            if position@.contains_key(square) {
                assert(Coords::at(square.index()) == square);
            }
        }
    }
    false
}

/// Decides whether `side` may move the piece on `from` to `to`. The move is
/// tried on a copy of the position; `position` itself is not changed.
pub fn judge_move(position: &Position, side: FigureColor, from: Coords, to: Coords) -> (res:
    Result<(), MoveError>)
    ensures
        res == move_verdict(position@, side, from, to),
{
    let piece = match position.get(from) {
        Some(piece) => piece,
        None => {
            return Err(MoveError::EmptySquare);
        },
    };
    if piece.color != side {
        return Err(MoveError::WrongSide);
    }
    match piece.can_go(&from, position, &to) {
        Err(reason) => Err(MoveError::Illegal(reason)),
        Ok(_) => {
            let mut scratch = position.snapshot();
            scratch.move_piece(from, to);
            if is_in_check(&scratch, side) {
                Err(MoveError::Illegal(IllegalMoveReason::LeavesKingInCheck))
            } else {
                Ok(())
            }
        },
    }
}

/// Whether `side` has any move it may make.
pub fn can_move(position: &Position, side: FigureColor) -> (res: bool)
    ensures
        res == has_legal_move(position@, side),
{
    let mut n: u8 = 0;
    while n < 64
        invariant
            n <= 64,
            forall|m: int, to: Coords|
                0 <= m < n ==> !(#[trigger] move_verdict(position@, side, Coords::at(m), to) is Ok),
        decreases 64 - n,
    {
        let from = Coords::from_index(n);
        let mut k: u8 = 0;
        while k < 64
            invariant
                k <= 64,
                n < 64,
                from == Coords::at(n as int),
                forall|j: int|
                    0 <= j < k ==> !(#[trigger] move_verdict(
                        position@,
                        side,
                        from,
                        Coords::at(j),
                    ) is Ok),
            decreases 64 - k,
        {
            let to = Coords::from_index(k);
            if judge_move(position, side, from, to).is_ok() {
                return true;
            }
            k = k + 1;
        }
        assert forall|to: Coords| !(#[trigger] move_verdict(position@, side, from, to) is Ok) by {
            if to.on_board() {
                assert(Coords::at(to.index()) == to);
            }
        }
        n = n + 1;
    }
    proof {
        position.lemma_on_board();
        assert forall|from: Coords, to: Coords|
            !(#[trigger] move_verdict(position@, side, from, to) is Ok) by {
            if position@.contains_key(from) {
                assert(Coords::at(from.index()) == from);
            }
        }
    }
    false
}

/// The state of the game when `side` is to move in `position`.
pub fn judge_position(position: &Position, side: FigureColor) -> (res: Outcome)
    ensures
        res == outcome_of(position@, side),
{
    let checked = is_in_check(position, side);
    if can_move(position, side) {
        if checked {
            Outcome::Check(side)
        } else {
            Outcome::InProgress
        }
    } else {
        if checked {
            Outcome::Checkmate(side)
        } else {
            Outcome::Stalemate
        }
    }
}

} // verus!
