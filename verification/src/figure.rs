//! Pieces: a side, a kind, and the two-letter codes and symbols that stand for them.

use crate::coords::Coords;
use crate::movable::{moves_like, reaches};
use crate::position::{path_clear, Position};
use vstd::prelude::*;
use vstd::string::StrSliceExecFns;

verus! {

/// A side: the owner of a piece, and the side whose turn it is.
#[derive(Clone, Copy, Debug, PartialEq, Eq, Structural, Hash)]
pub enum FigureColor {
    White,
    Black,
}

/// The kind of a piece.
#[derive(Clone, Copy, Debug, PartialEq, Eq, Structural, Hash)]
pub enum FigureVariant {
    Rook,
    Pawn,
    Knight,
    Queen,
    Bishop,
    King,
}

/// A piece. Moving it changes the square it stands on, never the piece.
#[derive(Clone, Copy, Debug, PartialEq, Eq, Structural, Hash)]
pub struct Figure {
    pub color: FigureColor,
    pub variant: FigureVariant,
}

/// Why a piece may not make a move.
#[derive(Clone, Copy, Debug, PartialEq, Eq, Structural, Hash)]
pub enum IllegalMoveReason {
    /// The move ends on the square it starts from.
    SameSquare,
    /// The destination holds a piece of the mover's own side.
    FriendlyCapture,
    /// The piece's kind does not move that way.
    NotAReachableSquare,
    /// A piece stands in the way.
    Blocked,
    /// The two squares share no file, rank or diagonal, so no path joins them.
    NotColinear,
    /// The move would leave the mover's own king attacked.
    LeavesKingInCheck,
}

impl FigureColor {
    /// The other side.
    pub open spec fn other(self) -> FigureColor {
        match self {
            FigureColor::White => FigureColor::Black,
            FigureColor::Black => FigureColor::White,
        }
    }

    /// The other side.
    pub fn opposite(&self) -> (res: FigureColor)
        ensures
            res == self.other(),
            res != *self,
    {
        match self {
            FigureColor::White => FigureColor::Black,
            FigureColor::Black => FigureColor::White,
        }
    }

    /// The step that this side's pawns take along the ranks: White up, Black down.
    pub open spec fn forward(self) -> int {
        match self {
            FigureColor::White => 1,
            FigureColor::Black => -1,
        }
    }

    /// The rank on which this side's pawns start, and from which they may advance two squares.
    pub open spec fn home_rank(self) -> int {
        match self {
            FigureColor::White => 2,
            FigureColor::Black => 7,
        }
    }
}

/// The side that the first letter of a piece code names: `w` or `b`.
pub open spec fn color_of_code(c: char) -> Option<FigureColor> {
    if c == 'b' {
        Some(FigureColor::Black)
    } else if c == 'w' {
        Some(FigureColor::White)
    } else {
        None
    }
}

/// The kind that the second letter of a piece code names. `k` is the knight
/// and `K` the king.
pub open spec fn variant_of_code(c: char) -> Option<FigureVariant> {
    if c == 'p' {
        Some(FigureVariant::Pawn)
    } else if c == 'r' {
        Some(FigureVariant::Rook)
    } else if c == 'k' {
        Some(FigureVariant::Knight)
    } else if c == 'b' {
        Some(FigureVariant::Bishop)
    } else if c == 'K' {
        Some(FigureVariant::King)
    } else if c == 'q' {
        Some(FigureVariant::Queen)
    } else {
        None
    }
}

/// Whether two letters form a piece code: each names a side or a kind, or is a blank.
pub open spec fn is_figure_code(color: char, variant: char) -> bool {
    (color == ' ' || color_of_code(color) is Some) && (variant == ' ' || variant_of_code(variant)
        is Some)
}

/// The piece that a code stands for. A code with a blank in it stands for an empty square.
pub open spec fn figure_of_code(color: char, variant: char) -> Option<Figure> {
    match (color_of_code(color), variant_of_code(variant)) {
        (Some(c), Some(v)) => Some(Figure { color: c, variant: v }),
        _ => None,
    }
}

/// The chess symbol of a piece: the outlined glyphs for White, the filled ones for Black.
pub open spec fn symbol_of(figure: Figure) -> char {
    match (figure.color, figure.variant) {
        (FigureColor::White, FigureVariant::Rook) => '\u{2656}',
        (FigureColor::Black, FigureVariant::Rook) => '\u{265C}',
        (FigureColor::White, FigureVariant::Pawn) => '\u{2659}',
        (FigureColor::Black, FigureVariant::Pawn) => '\u{265F}',
        (FigureColor::White, FigureVariant::Knight) => '\u{2658}',
        (FigureColor::Black, FigureVariant::Knight) => '\u{265E}',
        (FigureColor::White, FigureVariant::Queen) => '\u{2655}',
        (FigureColor::Black, FigureVariant::Queen) => '\u{265B}',
        (FigureColor::White, FigureVariant::Bishop) => '\u{2657}',
        (FigureColor::Black, FigureVariant::Bishop) => '\u{265D}',
        (FigureColor::White, FigureVariant::King) => '\u{2654}',
        (FigureColor::Black, FigureVariant::King) => '\u{265A}',
    }
}

/// Whether `piece`, standing on `from`, may move to `to` in the position `pos`,
/// and if not, why not. The move must go somewhere, may not take a piece of
/// the mover's own side, must end on the board and have the shape of the
/// kind's moves; then the squares on the way decide. A pawn advances only onto
/// an empty square, two squares only past an empty one, and moves aside only
/// to capture. Rook, bishop and queen need every square between the two ends
/// empty. Knight and king are never blocked.
pub open spec fn legality(piece: Figure, from: Coords, pos: Map<Coords, Figure>, to: Coords)
    -> Result<(), IllegalMoveReason> {
    if from == to {
        Err(IllegalMoveReason::SameSquare)
    } else if pos.contains_key(to) && pos[to].color == piece.color {
        Err(IllegalMoveReason::FriendlyCapture)
    } else if !to.on_board() || !reaches(piece, from, to) {
        Err(IllegalMoveReason::NotAReachableSquare)
    } else {
        match piece.variant {
            FigureVariant::Pawn => if from.file == to.file {
                if pos.contains_key(to) || !path_clear(pos, from, to) {
                    Err(IllegalMoveReason::Blocked)
                } else {
                    Ok(())
                }
            } else if pos.contains_key(to) {
                Ok(())
            } else {
                Err(IllegalMoveReason::NotAReachableSquare)
            },
            FigureVariant::Rook | FigureVariant::Bishop | FigureVariant::Queen => if path_clear(
                pos,
                from,
                to,
            ) {
                Ok(())
            } else {
                Err(IllegalMoveReason::Blocked)
            },
            FigureVariant::Knight | FigureVariant::King => Ok(()),
        }
    }
}

/// No piece takes a piece of its own side, however it moves: a move onto a
/// square that holds one is turned down for that reason, unless it goes nowhere.
pub proof fn lemma_no_friendly_capture(
    piece: Figure,
    from: Coords,
    pos: Map<Coords, Figure>,
    to: Coords,
)
    requires
        pos.contains_key(to),
        pos[to].color == piece.color,
    ensures
        legality(piece, from, pos, to) is Err,
        from != to ==> legality(piece, from, pos, to) == Err::<(), IllegalMoveReason>(
            IllegalMoveReason::FriendlyCapture,
        ),
{
}

/// A pawn advances two squares exactly when it stands on its home rank and
/// the square it passes and the square it reaches are both empty.
pub proof fn lemma_pawn_double_step(
    color: FigureColor,
    from: Coords,
    pos: Map<Coords, Figure>,
    to: Coords,
)
    requires
        from.file == to.file,
        to.rank - from.rank == 2 * color.forward(),
        to.on_board(),
    ensures
        legality(Figure { color, variant: FigureVariant::Pawn }, from, pos, to) is Ok <==> {
            &&& from.rank == color.home_rank()
            &&& !pos.contains_key(
                Coords { file: from.file, rank: (from.rank + color.forward()) as u8 },
            )
            &&& !pos.contains_key(to)
        },
{
    let passed = Coords { file: from.file, rank: (from.rank + color.forward()) as u8 };
    assert(from.strictly_between(to, passed));
}

/// Rook, bishop and queen do not pass over a piece: where one of them may
/// move, every square between the two ends is empty, and where a move of the
/// right shape is not a capture of a friend, an occupied square between the
/// ends is the reason it is turned down.
pub proof fn lemma_sliders_are_blocked(
    piece: Figure,
    from: Coords,
    pos: Map<Coords, Figure>,
    to: Coords,
    between: Coords,
)
    requires
        piece.variant is Rook || piece.variant is Bishop || piece.variant is Queen,
        from.strictly_between(to, between),
    ensures
        legality(piece, from, pos, to) is Ok ==> !pos.contains_key(between),
        pos.contains_key(between) && to.on_board() && reaches(piece, from, to) && !(
        pos.contains_key(to) && pos[to].color == piece.color) ==> legality(piece, from, pos, to)
            == Err::<(), IllegalMoveReason>(IllegalMoveReason::Blocked),
{
}

/// The words that tell a player why a move is not allowed.
pub open spec fn reason_text(reason: IllegalMoveReason) -> Seq<char> {
    match reason {
        IllegalMoveReason::SameSquare => "select different field than the current one"@,
        IllegalMoveReason::FriendlyCapture => "cant take your figure"@,
        IllegalMoveReason::NotAReachableSquare => "the figure cannot go there"@,
        IllegalMoveReason::Blocked => "something is in the way"@,
        IllegalMoveReason::NotColinear => "the fields are not on one line"@,
        IllegalMoveReason::LeavesKingInCheck => "the king would be in check"@,
    }
}

impl IllegalMoveReason {
    /// The words that tell a player why the move is not allowed.
    pub fn message(&self) -> (res: &'static str)
        ensures
            res@ == reason_text(*self),
    {
        match self {
            IllegalMoveReason::SameSquare => "select different field than the current one",
            IllegalMoveReason::FriendlyCapture => "cant take your figure",
            IllegalMoveReason::NotAReachableSquare => "the figure cannot go there",
            IllegalMoveReason::Blocked => "something is in the way",
            IllegalMoveReason::NotColinear => "the fields are not on one line",
            IllegalMoveReason::LeavesKingInCheck => "the king would be in check",
        }
    }
}

impl Figure {
    /// Decides whether this piece, standing on `field`, may move to `target`
    /// in `position`. Nothing is changed.
    pub fn can_go(&self, field: &Coords, position: &Position, target: &Coords) -> (res: Result<
        (),
        IllegalMoveReason,
    >)
        ensures
            res == legality(*self, *field, position@, *target),
    {
        if field.file == target.file && field.rank == target.rank {
            return Err(IllegalMoveReason::SameSquare);
        }
        let occupant = position.get(*target);
        if let Some(other) = occupant {
            if other.color == self.color {
                return Err(IllegalMoveReason::FriendlyCapture);
            }
        }
        if !target.is_on_board() || !moves_like(*self, *field, *target) {
            return Err(IllegalMoveReason::NotAReachableSquare);
        }
        match self.variant {
            FigureVariant::Pawn => {
                if field.file == target.file {
                    if occupant.is_some() || position.check_path(*field, *target).is_err() {
                        Err(IllegalMoveReason::Blocked)
                    } else {
                        Ok(())
                    }
                } else if occupant.is_some() {
                    Ok(())
                } else {
                    Err(IllegalMoveReason::NotAReachableSquare)
                }
            },
            FigureVariant::Rook | FigureVariant::Bishop | FigureVariant::Queen => {
                if position.check_path(*field, *target).is_err() {
                    Err(IllegalMoveReason::Blocked)
                } else {
                    Ok(())
                }
            },
            FigureVariant::Knight | FigureVariant::King => Ok(()),
        }
    }

    /// A piece of the given side and kind.
    pub fn new(color: FigureColor, variant: FigureVariant) -> (res: Figure)
        ensures
            res == (Figure { color, variant }),
    {
        Figure { color, variant }
    }

    /// The symbol that stands for the piece when a board is drawn.
    pub fn get_symbol(&self) -> (res: char)
        ensures
            res == symbol_of(*self),
    {
        match (self.color, self.variant) {
            (FigureColor::White, FigureVariant::Rook) => '\u{2656}',
            (FigureColor::Black, FigureVariant::Rook) => '\u{265C}',
            (FigureColor::White, FigureVariant::Pawn) => '\u{2659}',
            (FigureColor::Black, FigureVariant::Pawn) => '\u{265F}',
            (FigureColor::White, FigureVariant::Knight) => '\u{2658}',
            (FigureColor::Black, FigureVariant::Knight) => '\u{265E}',
            (FigureColor::White, FigureVariant::Queen) => '\u{2655}',
            (FigureColor::Black, FigureVariant::Queen) => '\u{265B}',
            (FigureColor::White, FigureVariant::Bishop) => '\u{2657}',
            (FigureColor::Black, FigureVariant::Bishop) => '\u{265D}',
            (FigureColor::White, FigureVariant::King) => '\u{2654}',
            (FigureColor::Black, FigureVariant::King) => '\u{265A}',
        }
    }

    /// Reads a piece from the first two letters of `code`: the side (`w`, `b`),
    /// then the kind (`p`, `r`, `k`, `b`, `K`, `q`). A blank in either place
    /// means an empty square. Other letters are not codes and are left out.
    pub fn from_str(code: &str) -> (res: Option<Figure>)
        requires
            code@.len() >= 2,
            is_figure_code(code@[0], code@[1]),
        ensures
            res == figure_of_code(code@[0], code@[1]),
    {
        let color_code = code.get_char(0);
        let variant_code = code.get_char(1);
        let color = if color_code == 'b' {
            Some(FigureColor::Black)
        } else if color_code == 'w' {
            Some(FigureColor::White)
        } else {
            None
        };
        let variant = if variant_code == 'p' {
            Some(FigureVariant::Pawn)
        } else if variant_code == 'r' {
            Some(FigureVariant::Rook)
        } else if variant_code == 'k' {
            Some(FigureVariant::Knight)
        } else if variant_code == 'b' {
            Some(FigureVariant::Bishop)
        } else if variant_code == 'K' {
            Some(FigureVariant::King)
        } else if variant_code == 'q' {
            Some(FigureVariant::Queen)
        } else {
            None
        };
        match (color, variant) {
            (Some(c), Some(v)) => Some(Figure { color: c, variant: v }),
            _ => None,
        }
    }
}

} // verus!
