//! One type for each kind of piece. A value of one of them is a piece of that
//! kind; the side it belongs to is all it holds.

use crate::figure::FigureColor;
use vstd::prelude::*;

verus! {

/// A pawn.
pub struct Pawn {
    pub color: FigureColor,
}

/// A knight.
pub struct Knight {
    pub color: FigureColor,
}

/// A rook, under its other name.
pub struct Tower {
    pub color: FigureColor,
}

/// A rook.
pub struct Rook {
    pub color: FigureColor,
}

/// A queen.
pub struct Queen {
    pub color: FigureColor,
}

/// A bishop.
pub struct Bishop {
    pub color: FigureColor,
}

/// A king.
pub struct King {
    pub color: FigureColor,
}

} // verus!
