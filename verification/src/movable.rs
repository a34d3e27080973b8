//! How each kind of piece moves over an empty board.

use crate::coords::Coords;
use crate::figure::{Figure, FigureColor, FigureVariant};
use crate::figures::{Bishop, King, Knight, Pawn, Queen, Rook, Tower};
use vstd::prelude::*;

verus! {

/// An L-shaped jump: one file and two ranks, or two files and one rank.
pub open spec fn knight_jump(from: Coords, to: Coords) -> bool {
    (from.file_dist(to) == 1 && from.rank_dist(to) == 2) || (from.file_dist(to) == 2
        && from.rank_dist(to) == 1)
}

/// A step to one of the eight neighbouring squares.
pub open spec fn king_step(from: Coords, to: Coords) -> bool {
    from.file_dist(to) <= 1 && from.rank_dist(to) <= 1 && from != to
}

/// A pawn's advance along its file: one square forward, or two from its home rank.
pub open spec fn pawn_advance(color: FigureColor, from: Coords, to: Coords) -> bool {
    from.file == to.file && (to.rank - from.rank == color.forward() || (to.rank - from.rank == 2
        * color.forward() && from.rank == color.home_rank()))
}

/// The shape of a pawn's capture: one square forward and one file aside.
pub open spec fn pawn_capture(color: FigureColor, from: Coords, to: Coords) -> bool {
    from.file_dist(to) == 1 && to.rank - from.rank == color.forward()
}

/// Whether the displacement from `from` to `to` is one that a piece of this
/// kind and side makes, whatever else stands on the board.
pub open spec fn reaches(figure: Figure, from: Coords, to: Coords) -> bool {
    match figure.variant {
        FigureVariant::Pawn => pawn_advance(figure.color, from, to) || pawn_capture(
            figure.color,
            from,
            to,
        ),
        FigureVariant::Rook => from.same_line(to),
        FigureVariant::Bishop => from.same_diagonal(to),
        FigureVariant::Queen => from.colinear(to),
        FigureVariant::Knight => knight_jump(from, to),
        FigureVariant::King => king_step(from, to),
    }
}

/// What a piece can do, told kind by kind.
pub trait Movable {
    /// The piece that this value is.
    spec fn figure(&self) -> Figure;

    /// The letter that stands for the kind.
    spec fn letter(&self) -> char;

    /// Whether the piece's kind moves from `from` to `to` on an empty board.
    fn can_go_to_coords(&self, from: Coords, to: Coords) -> (res: bool)
        ensures
            res == reaches(self.figure(), from, to),
    ;

    /// The squares of the board that the piece reaches from `from` on an empty
    /// board, each once, in the order of their numbers.
    fn get_available_coords(&self, from: Coords) -> (res: Vec<Coords>)
        ensures
            forall|c: Coords|
                #![trigger res@.contains(c)]
                res@.contains(c) <==> c.on_board() && reaches(self.figure(), from, c),
            forall|i: int, j: int|
                0 <= i < j < res@.len() ==> res@[i].index() < res@[j].index(),
    ;

    /// Whether the piece passes over occupied squares on its way. Only the knight does.
    fn can_go_through(&self) -> (res: bool)
        ensures
            res == (self.figure().variant == FigureVariant::Knight),
    ;

    /// The letter that stands for the kind.
    fn get_symbol(&self) -> (res: char)
        ensures
            res == self.letter(),
    ;

    /// The side that the piece belongs to.
    fn get_color(&self) -> (res: FigureColor)
        ensures
            res == self.figure().color,
    ;
}

/// Whether a piece of this kind and side moves from `from` to `to` on an empty board.
pub fn moves_like(figure: Figure, from: Coords, to: Coords) -> (res: bool)
    ensures
        res == reaches(figure, from, to),
{
    let df = from.file_distance(&to);
    let dr = from.rank_distance(&to);
    match figure.variant {
        FigureVariant::Pawn => {
            let forward = match figure.color {
                FigureColor::White => from.rank < to.rank,
                FigureColor::Black => from.rank > to.rank,
            };
            let home: u8 = match figure.color {
                FigureColor::White => 2,
                FigureColor::Black => 7,
            };
            forward && ((df == 0 && (dr == 1 || (dr == 2 && from.rank == home))) || (df == 1 && dr
                == 1))
        },
        FigureVariant::Rook => (df == 0) != (dr == 0),
        FigureVariant::Bishop => df == dr && df > 0,
        FigureVariant::Queen => ((df == 0) != (dr == 0)) || (df == dr && df > 0),
        FigureVariant::Knight => (df == 1 && dr == 2) || (df == 2 && dr == 1),
        FigureVariant::King => df <= 1 && dr <= 1 && (df != 0 || dr != 0),
    }
}

/// The squares of the board that a piece of this kind and side reaches from
/// `from` on an empty board, each once, in the order of their numbers.
pub fn reachable_squares(figure: Figure, from: Coords) -> (res: Vec<Coords>)
    ensures
        forall|c: Coords|
            #![trigger res@.contains(c)]
            res@.contains(c) <==> c.on_board() && reaches(figure, from, c),
        forall|i: int, j: int| 0 <= i < j < res@.len() ==> res@[i].index() < res@[j].index(),
{
    let mut res: Vec<Coords> = Vec::new();
    let mut n: u8 = 0;
    while n < 64
        invariant
            n <= 64,
            forall|i: int|
                0 <= i < res@.len() ==> (#[trigger] res@[i]).on_board() && res@[i].index() < n
                    && reaches(figure, from, res@[i]),
            forall|m: int|
                0 <= m < n && reaches(figure, from, Coords::at(m)) ==> res@.contains(
                    #[trigger] Coords::at(m),
                ),
            forall|i: int, j: int| 0 <= i < j < res@.len() ==> res@[i].index() < res@[j].index(),
        decreases 64 - n,
    {
        let square = Coords::from_index(n);
        if moves_like(figure, from, square) {
            let ghost before = res@;
            res.push(square);
            assert(res@[before.len() as int] == square);
            assert forall|m: int|
                0 <= m < n + 1 && reaches(figure, from, Coords::at(m)) implies res@.contains(
                #[trigger] Coords::at(m),
            ) by {
                if m < n {
                    let i = choose|i: int| 0 <= i < before.len() && before[i] == Coords::at(m);
                    assert(res@[i] == Coords::at(m));
                }
            }
        }
        n = n + 1;
    }
    assert forall|c: Coords| c.on_board() && reaches(figure, from, c) implies res@.contains(c) by {
        assert(Coords::at(c.index()) == c);
    }
    res
}

impl Movable for Tower {
    open spec fn figure(&self) -> Figure {
        Figure { color: self.color, variant: FigureVariant::Rook }
    }

    open spec fn letter(&self) -> char {
        't'
    }

    fn can_go_to_coords(&self, from: Coords, to: Coords) -> (res: bool) {
        moves_like(Figure { color: self.color, variant: FigureVariant::Rook }, from, to)
    }

    fn get_available_coords(&self, from: Coords) -> (res: Vec<Coords>) {
        reachable_squares(Figure { color: self.color, variant: FigureVariant::Rook }, from)
    }

    fn can_go_through(&self) -> (res: bool) {
        false
    }

    fn get_symbol(&self) -> (res: char) {
        't'
    }

    fn get_color(&self) -> (res: FigureColor) {
        self.color
    }
}

impl Movable for Rook {
    open spec fn figure(&self) -> Figure {
        Figure { color: self.color, variant: FigureVariant::Rook }
    }

    open spec fn letter(&self) -> char {
        'r'
    }

    fn can_go_to_coords(&self, from: Coords, to: Coords) -> (res: bool) {
        moves_like(Figure { color: self.color, variant: FigureVariant::Rook }, from, to)
    }

    fn get_available_coords(&self, from: Coords) -> (res: Vec<Coords>) {
        reachable_squares(Figure { color: self.color, variant: FigureVariant::Rook }, from)
    }

    fn can_go_through(&self) -> (res: bool) {
        false
    }

    fn get_symbol(&self) -> (res: char) {
        'r'
    }

    fn get_color(&self) -> (res: FigureColor) {
        self.color
    }
}

impl Movable for Pawn {
    open spec fn figure(&self) -> Figure {
        Figure { color: self.color, variant: FigureVariant::Pawn }
    }

    open spec fn letter(&self) -> char {
        'p'
    }

    fn can_go_to_coords(&self, from: Coords, to: Coords) -> (res: bool) {
        moves_like(Figure { color: self.color, variant: FigureVariant::Pawn }, from, to)
    }

    fn get_available_coords(&self, from: Coords) -> (res: Vec<Coords>) {
        reachable_squares(Figure { color: self.color, variant: FigureVariant::Pawn }, from)
    }

    fn can_go_through(&self) -> (res: bool) {
        false
    }

    fn get_symbol(&self) -> (res: char) {
        'p'
    }

    fn get_color(&self) -> (res: FigureColor) {
        self.color
    }
}

impl Movable for Bishop {
    open spec fn figure(&self) -> Figure {
        Figure { color: self.color, variant: FigureVariant::Bishop }
    }

    open spec fn letter(&self) -> char {
        'b'
    }

    fn can_go_to_coords(&self, from: Coords, to: Coords) -> (res: bool) {
        moves_like(Figure { color: self.color, variant: FigureVariant::Bishop }, from, to)
    }

    fn get_available_coords(&self, from: Coords) -> (res: Vec<Coords>) {
        reachable_squares(Figure { color: self.color, variant: FigureVariant::Bishop }, from)
    }

    fn can_go_through(&self) -> (res: bool) {
        false
    }

    fn get_symbol(&self) -> (res: char) {
        'b'
    }

    fn get_color(&self) -> (res: FigureColor) {
        self.color
    }
}

impl Movable for King {
    open spec fn figure(&self) -> Figure {
        Figure { color: self.color, variant: FigureVariant::King }
    }

    open spec fn letter(&self) -> char {
        'K'
    }

    fn can_go_to_coords(&self, from: Coords, to: Coords) -> (res: bool) {
        moves_like(Figure { color: self.color, variant: FigureVariant::King }, from, to)
    }

    fn get_available_coords(&self, from: Coords) -> (res: Vec<Coords>) {
        reachable_squares(Figure { color: self.color, variant: FigureVariant::King }, from)
    }

    fn can_go_through(&self) -> (res: bool) {
        false
    }

    fn get_symbol(&self) -> (res: char) {
        'K'
    }

    fn get_color(&self) -> (res: FigureColor) {
        self.color
    }
}

impl Movable for Queen {
    open spec fn figure(&self) -> Figure {
        Figure { color: self.color, variant: FigureVariant::Queen }
    }

    open spec fn letter(&self) -> char {
        'q'
    }

    fn can_go_to_coords(&self, from: Coords, to: Coords) -> (res: bool) {
        moves_like(Figure { color: self.color, variant: FigureVariant::Queen }, from, to)
    }

    fn get_available_coords(&self, from: Coords) -> (res: Vec<Coords>) {
        reachable_squares(Figure { color: self.color, variant: FigureVariant::Queen }, from)
    }

    fn can_go_through(&self) -> (res: bool) {
        false
    }

    fn get_symbol(&self) -> (res: char) {
        'q'
    }

    fn get_color(&self) -> (res: FigureColor) {
        self.color
    }
}

impl Movable for Knight {
    open spec fn figure(&self) -> Figure {
        Figure { color: self.color, variant: FigureVariant::Knight }
    }

    open spec fn letter(&self) -> char {
        'k'
    }

    fn can_go_to_coords(&self, from: Coords, to: Coords) -> (res: bool) {
        moves_like(Figure { color: self.color, variant: FigureVariant::Knight }, from, to)
    }

    fn get_available_coords(&self, from: Coords) -> (res: Vec<Coords>) {
        reachable_squares(Figure { color: self.color, variant: FigureVariant::Knight }, from)
    }

    fn can_go_through(&self) -> (res: bool) {
        true
    }

    fn get_symbol(&self) -> (res: char) {
        'k'
    }

    fn get_color(&self) -> (res: FigureColor) {
        self.color
    }
}

} // verus!
