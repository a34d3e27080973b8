//! Moves as a player types them: the source square and the destination
//! square, each a file letter and a rank digit, as in `e2e4`.

use crate::coords::{file_of_letter, Coords};
use vstd::prelude::*;
use vstd::string::StrSliceExecFns;

verus! {

/// The part of a typed move that could not be read.
#[derive(Clone, Copy, Debug, PartialEq, Eq, Structural, Hash)]
pub enum ParseError {
    /// The first letter is missing or is no file from `a` to `h`.
    FromFile,
    /// The second letter is missing or is no rank from `1` to `8`.
    FromRank,
    /// The third letter is missing or is no file from `a` to `h`.
    ToFile,
    /// The fourth letter is missing or is no rank from `1` to `8`.
    ToRank,
}

/// The rank that a digit names, if it is one of `1` to `8`.
pub open spec fn rank_of_digit(digit: char) -> Option<u8> {
    if '1' <= digit <= '8' {
        Some((digit as int - '0' as int) as u8)
    } else {
        None
    }
}

/// The file that the letter at `at` names, if there is such a letter and it names one.
pub open spec fn file_at(input: Seq<char>, at: int) -> Option<u8> {
    if at < input.len() {
        file_of_letter(input[at])
    } else {
        None
    }
}

/// The rank that the digit at `at` names, if there is such a digit and it names one.
pub open spec fn rank_at(input: Seq<char>, at: int) -> Option<u8> {
    if at < input.len() {
        rank_of_digit(input[at])
    } else {
        None
    }
}

/// The move that a line stands for: its first four letters name the source
/// and the destination square. The first part that names nothing is the
/// error. What follows the fourth letter is not read.
pub open spec fn parsed_move(input: Seq<char>) -> Result<(Coords, Coords), ParseError> {
    if file_at(input, 0) is None {
        Err(ParseError::FromFile)
    } else if rank_at(input, 1) is None {
        Err(ParseError::FromRank)
    } else if file_at(input, 2) is None {
        Err(ParseError::ToFile)
    } else if rank_at(input, 3) is None {
        Err(ParseError::ToRank)
    } else {
        Ok(
            (
                Coords { file: file_at(input, 0).unwrap(), rank: rank_at(input, 1).unwrap() },
                Coords { file: file_at(input, 2).unwrap(), rank: rank_at(input, 3).unwrap() },
            ),
        )
    }
}

/// The words that tell a player which part of a typed move could not be read.
pub open spec fn parse_error_text(error: ParseError) -> Seq<char> {
    match error {
        ParseError::FromFile => "unable to parse 'from_x', it has to be a letter"@,
        ParseError::FromRank => "unable to parse 'from_y', it has to be a number"@,
        ParseError::ToFile => "unable to parse 'to_x', it has to be a letter"@,
        ParseError::ToRank => "unable to parse 'to_y', it has to be a number"@,
    }
}

impl ParseError {
    /// The words that tell a player which part could not be read.
    pub fn message(&self) -> (res: &'static str)
        ensures
            res@ == parse_error_text(*self),
    {
        match self {
            ParseError::FromFile => "unable to parse 'from_x', it has to be a letter",
            ParseError::FromRank => "unable to parse 'from_y', it has to be a number",
            ParseError::ToFile => "unable to parse 'to_x', it has to be a letter",
            ParseError::ToRank => "unable to parse 'to_y', it has to be a number",
        }
    }
}

/// Reads the file letter at `at`.
fn read_file(input: &str, len: usize, at: usize) -> (res: Option<u8>)
    requires
        len == input@.len(),
    ensures
        res == file_at(input@, at as int),
{
    if at < len {
        let letter = input.get_char(at);
        if 'a' <= letter && letter <= 'h' {
            Some((letter as u8) - 97)
        } else {
            None
        }
    } else {
        None
    }
}

/// Reads the rank digit at `at`.
fn read_rank(input: &str, len: usize, at: usize) -> (res: Option<u8>)
    requires
        len == input@.len(),
    ensures
        res == rank_at(input@, at as int),
{
    if at < len {
        let digit = input.get_char(at);
        if '1' <= digit && digit <= '8' {
            Some((digit as u8) - 48)
        } else {
            None
        }
    } else {
        None
    }
}

/// Reads a move such as `e2e4` from the first four letters of `input`. Both
/// squares of a move that is read lie on the board.
pub fn parse_algebraic(input: &str) -> (res: Result<(Coords, Coords), ParseError>)
    ensures
        res == parsed_move(input@),
        res is Ok ==> res.unwrap().0.on_board() && res.unwrap().1.on_board(),
{
    let len = input.unicode_len();
    let from_x = match read_file(input, len, 0) {
        Some(file) => file,
        None => {
            return Err(ParseError::FromFile);
        },
    };
    let from_y = match read_rank(input, len, 1) {
        Some(rank) => rank,
        None => {
            return Err(ParseError::FromRank);
        },
    };
    let to_x = match read_file(input, len, 2) {
        Some(file) => file,
        None => {
            return Err(ParseError::ToFile);
        },
    };
    let to_y = match read_rank(input, len, 3) {
        Some(rank) => rank,
        None => {
            return Err(ParseError::ToRank);
        },
    };
    Ok((Coords { file: from_x, rank: from_y }, Coords { file: to_x, rank: to_y }))
}

} // verus!
