//! Squares of the board.

use vstd::prelude::*;
use vstd::set_lib::{lemma_int_range, lemma_map_size, set_int_range};

verus! {

/// One square: a file, counted from 0 for `a` to 7 for `h`, and a rank from 1 to 8.
#[derive(Clone, Copy, Debug, PartialEq, Eq, Structural, Hash, PartialOrd, Ord)]
pub struct Coords {
    pub file: u8,
    pub rank: u8,
}

/// How far apart two numbers are.
pub open spec fn dist(a: int, b: int) -> int {
    if a <= b {
        b - a
    } else {
        a - b
    }
}

/// The number `k` steps from `a` in the direction of `b`; `a` itself where the two are equal.
pub open spec fn toward(a: int, b: int, k: int) -> int {
    if a < b {
        a + k
    } else if a > b {
        a - k
    } else {
        a
    }
}

/// The letter of a file: `a` for 0, up to `h` for 7.
pub open spec fn letter_of_file(file: u8) -> char {
    ('a' as int + file as int) as char
}

/// The file that a letter names, if it is one of `a` to `h`.
pub open spec fn file_of_letter(letter: char) -> Option<u8> {
    if 'a' <= letter <= 'h' {
        Some((letter as int - 'a' as int) as u8)
    } else {
        None
    }
}

impl Coords {
    /// Whether the square lies on the 8x8 board.
    pub open spec fn on_board(self) -> bool {
        self.file < 8 && 1 <= self.rank <= 8
    }

    /// The number of an on-board square, from 0 for `a1` to 63 for `h8`, file by file.
    pub open spec fn index(self) -> int {
        self.file * 8 + self.rank - 1
    }

    /// The square with a given number.
    pub open spec fn at(index: int) -> Coords {
        Coords { file: (index / 8) as u8, rank: (index % 8 + 1) as u8 }
    }

    /// How many files lie between the two squares' files, counting the last.
    pub open spec fn file_dist(self, to: Coords) -> int {
        dist(self.file as int, to.file as int)
    }

    /// How many ranks lie between the two squares' ranks, counting the last.
    pub open spec fn rank_dist(self, to: Coords) -> int {
        dist(self.rank as int, to.rank as int)
    }

    /// Two different squares on one file or on one rank.
    pub open spec fn same_line(self, to: Coords) -> bool {
        (self.file == to.file) != (self.rank == to.rank)
    }

    /// Two different squares on one diagonal.
    pub open spec fn same_diagonal(self, to: Coords) -> bool {
        self.file_dist(to) == self.rank_dist(to) && self.file_dist(to) > 0
    }

    /// Two different squares on one file, rank or diagonal.
    pub open spec fn colinear(self, to: Coords) -> bool {
        self.same_line(to) || self.same_diagonal(to)
    }

    /// Whether `c` lies strictly between this square and `to`, on the file,
    /// rank or diagonal that joins the two.
    pub open spec fn strictly_between(self, to: Coords, c: Coords) -> bool {
        &&& c != self
        &&& c != to
        &&& self.file_dist(c) + c.file_dist(to) == self.file_dist(to)
        &&& self.rank_dist(c) + c.rank_dist(to) == self.rank_dist(to)
        &&& self.same_diagonal(to) ==> self.file_dist(c) == self.rank_dist(c)
    }

    /// The number of steps from one square to the other, a diagonal step counting as one.
    pub open spec fn span(self, to: Coords) -> int {
        if self.file_dist(to) >= self.rank_dist(to) {
            self.file_dist(to)
        } else {
            self.rank_dist(to)
        }
    }

    /// The square `k` steps from this one on the way to `to`.
    pub open spec fn step_toward(self, to: Coords, k: int) -> Coords {
        Coords {
            file: toward(self.file as int, to.file as int, k) as u8,
            rank: toward(self.rank as int, to.rank as int, k) as u8,
        }
    }

    /// The squares drawn light: those whose file and rank add up to an odd
    /// number, `a1` among them.
    pub open spec fn is_light(self) -> bool {
        (self.file + self.rank) % 2 == 1
    }

    /// What `new` returns.
    pub open spec fn spec_new(file: char, rank: u8) -> Option<Coords> {
        match file_of_letter(file) {
            Some(f) => if 1 <= rank <= 8 {
                Some(Coords { file: f, rank })
            } else {
                None
            },
            None => None,
        }
    }

    /// The square on file `file` (a lower-case letter from `a` to `h`) and rank
    /// `rank` (1 to 8). Anything else names no square and gives `None`.
    pub fn new(file: char, rank: u8) -> (res: Option<Coords>)
        ensures
            res == Coords::spec_new(file, rank),
            res is Some ==> res.unwrap().on_board(),
    {
        if 'a' <= file && file <= 'h' && 1 <= rank && rank <= 8 {
            let f: u8 = (file as u8) - 97;
            Some(Coords { file: f, rank })
        } else {
            None
        }
    }

    /// Whether the square lies on the board.
    pub fn is_on_board(&self) -> (res: bool)
        ensures
            res == self.on_board(),
    {
        self.file < 8 && 1 <= self.rank && self.rank <= 8
    }

    /// The square numbered `index`. The numbers below 64 name the squares of the board.
    pub fn from_index(index: u8) -> (res: Coords)
        ensures
            res == Coords::at(index as int),
            index < 64 ==> res.on_board() && res.index() == index,
            index >= 64 ==> !res.on_board(),
    {
        Coords { file: index / 8, rank: index % 8 + 1 }
    }

    /// The number of the square, or `None` off the board.
    pub fn to_index(&self) -> (res: Option<u8>)
        ensures
            self.on_board() ==> res == Some(self.index() as u8) && self.index() < 64,
            !self.on_board() ==> res is None,
    {
        if self.is_on_board() {
            Some(self.file * 8 + (self.rank - 1))
        } else {
            None
        }
    }

    /// How many files apart the two squares are.
    pub fn file_distance(&self, to: &Coords) -> (res: u8)
        ensures
            res == self.file_dist(*to),
    {
        if self.file <= to.file {
            to.file - self.file
        } else {
            self.file - to.file
        }
    }

    /// How many ranks apart the two squares are.
    pub fn rank_distance(&self, to: &Coords) -> (res: u8)
        ensures
            res == self.rank_dist(*to),
    {
        if self.rank <= to.rank {
            to.rank - self.rank
        } else {
            self.rank - to.rank
        }
    }

    /// Whether the two squares differ and share a file, a rank or a diagonal.
    pub fn is_colinear(&self, to: &Coords) -> (res: bool)
        ensures
            res == self.colinear(*to),
    {
        let df = self.file_distance(to);
        let dr = self.rank_distance(to);
        ((df == 0) != (dr == 0)) || (df == dr && df > 0)
    }

    /// The square `k` steps along the way to `to`.
    pub fn stepped(&self, to: &Coords, k: u8) -> (res: Coords)
        requires
            k <= self.span(*to),
            self.colinear(*to),
        ensures
            res == self.step_toward(*to, k as int),
    {
        let file = if self.file < to.file {
            self.file + k
        } else if self.file > to.file {
            self.file - k
        } else {
            self.file
        };
        let rank = if self.rank < to.rank {
            self.rank + k
        } else if self.rank > to.rank {
            self.rank - k
        } else {
            self.rank
        };
        Coords { file, rank }
    }

    /// The letter of the square's file, `a` to `h`; `None` off the board.
    pub fn file_letter(&self) -> (res: Option<char>)
        ensures
            self.file < 8 ==> res == Some(letter_of_file(self.file)),
            self.file < 8 ==> file_of_letter(letter_of_file(self.file)) == Some(self.file),
            self.file >= 8 ==> res is None,
    {
        if self.file < 8 {
            Some((97u8 + self.file) as char)
        } else {
            None
        }
    }
}

/// Walking from one square to a colinear one, step by step, passes exactly
/// the squares strictly between the two: the square `k` steps on, for `k`
/// from 1 to one less than the number of steps, lies between them, and every
/// square between them is passed.
pub proof fn lemma_steps_pass_the_squares_between(from: Coords, to: Coords)
    requires
        from.colinear(to),
    ensures
        forall|k: int|
            0 < k < from.span(to) ==> from.strictly_between(to, #[trigger] from.step_toward(to, k)),
        forall|c: Coords|
            #![trigger from.strictly_between(to, c)]
            from.strictly_between(to, c) ==> 0 < from.span(c) < from.span(to) && from.step_toward(
                to,
                from.span(c),
            ) == c,
{
}

/// The squares of the board.
pub open spec fn board_squares() -> Set<Coords> {
    Set::new(|c: Coords| c.on_board())
}

/// The board has sixty-four squares.
pub proof fn lemma_board_has_64_squares()
    ensures
        board_squares().finite(),
        board_squares().len() == 64,
{
    let numbers = set_int_range(0, 64);
    let square = |i: int| Coords::at(i);
    lemma_int_range(0, 64);
    assert forall|c: Coords| board_squares().contains(c) implies numbers.map(square).contains(
        c,
    ) by {
        assert(numbers.contains(c.index()) && square(c.index()) == c);
    }
    assert(numbers.map(square) =~= board_squares());
    lemma_map_size(numbers, board_squares(), square);
}

/// A square of the board is the square that its own number names, so two
/// squares of the board with one number are one square.
pub proof fn lemma_index_names_square(c: Coords, d: Coords)
    requires
        c.on_board(),
        d.on_board(),
    ensures
        0 <= c.index() < 64,
        Coords::at(c.index()) == c,
        c.index() == d.index() ==> c == d,
{
}

} // verus!
