//! The game: a position, the side to move, the number of moves made and the
//! state that the last move left the game in.

use crate::coords::{board_squares, Coords};
use crate::figure::{figure_of_code, is_figure_code, Figure, FigureColor, FigureVariant};
use crate::outcome::{
    has_legal_move, in_check, judge_move, judge_position, move_verdict, outcome_of, MoveError,
    Outcome,
};
use crate::notation::{parse_algebraic, parsed_move, ParseError};
use crate::position::{after_move, lemma_move_adds_no_piece, Position};
use vstd::prelude::*;
use vstd::set_lib::{lemma_int_range, lemma_map_size, set_int_range};
use vstd::string::StrSliceExecFns;

verus! {

/// A game of chess. It changes only through `attempt_move`.
pub struct Game {
    board: Position,
    at_turn: FigureColor,
    turns: u32,
    state: Outcome,
}

/// What a game holds, as plain values.
pub ghost struct GameView {
    pub position: Map<Coords, Figure>,
    pub side_to_move: FigureColor,
    pub turn_count: nat,
    pub outcome: Outcome,
}

impl View for Game {
    type V = GameView;

    closed spec fn view(&self) -> GameView {
        GameView {
            position: self.board@,
            side_to_move: self.at_turn,
            turn_count: self.turns as nat,
            outcome: self.state,
        }
    }
}

/// Why a turn did not take place.
#[derive(Clone, Copy, Debug, PartialEq, Eq, Structural, Hash)]
pub enum TurnError {
    /// What the player typed is no move.
    Unreadable(ParseError),
    /// The move that the player typed was turned down.
    Rejected(MoveError),
}

/// The answer to a typed move: it must be readable, and the move it stands
/// for must be one that `attempt_verdict` accepts.
pub open spec fn turn_verdict(game: GameView, input: Seq<char>) -> Result<(), TurnError> {
    match parsed_move(input) {
        Err(error) => Err(TurnError::Unreadable(error)),
        Ok((from, to)) => match attempt_verdict(game, from, to) {
            Err(error) => Err(TurnError::Rejected(error)),
            Ok(_) => Ok(()),
        },
    }
}

/// The answer to a proposed move: none is taken once the game has ended;
/// otherwise the side to move may make the moves that `move_verdict` allows.
pub open spec fn attempt_verdict(game: GameView, from: Coords, to: Coords) -> Result<
    (),
    MoveError,
> {
    if game.outcome.terminal() {
        Err(MoveError::GameOver)
    } else {
        move_verdict(game.position, game.side_to_move, from, to)
    }
}

/// The game after the side to move has moved its piece from `from` to `to`.
pub open spec fn committed(game: GameView, from: Coords, to: Coords) -> GameView {
    GameView {
        position: after_move(game.position, from, to),
        side_to_move: game.side_to_move.other(),
        turn_count: game.turn_count + 1,
        outcome: outcome_of(after_move(game.position, from, to), game.side_to_move.other()),
    }
}

/// The kind of piece that starts on a file of a side's first rank.
pub open spec fn back_rank(file: int) -> FigureVariant {
    if file == 0 || file == 7 {
        FigureVariant::Rook
    } else if file == 1 || file == 6 {
        FigureVariant::Knight
    } else if file == 2 || file == 5 {
        FigureVariant::Bishop
    } else if file == 3 {
        FigureVariant::Queen
    } else {
        FigureVariant::King
    }
}

/// The piece that starts a game on a square: White's pieces on rank 1 and its
/// pawns on rank 2, Black's pawns on rank 7 and its pieces on rank 8.
pub open spec fn standard_piece(c: Coords) -> Option<Figure> {
    if !c.on_board() {
        None
    } else if c.rank == 1 {
        Some(Figure { color: FigureColor::White, variant: back_rank(c.file as int) })
    } else if c.rank == 2 {
        Some(Figure { color: FigureColor::White, variant: FigureVariant::Pawn })
    } else if c.rank == 7 {
        Some(Figure { color: FigureColor::Black, variant: FigureVariant::Pawn })
    } else if c.rank == 8 {
        Some(Figure { color: FigureColor::Black, variant: back_rank(c.file as int) })
    } else {
        None
    }
}

/// The position from which a game starts.
pub open spec fn standard_position() -> Map<Coords, Figure> {
    Map::new(|c: Coords| standard_piece(c) is Some, |c: Coords| standard_piece(c).unwrap())
}

/// Whether eight rows describe a board: each is sixteen letters long and made of piece codes.
pub open spec fn is_setup(setup: [&str; 8]) -> bool {
    forall|r: int, f: int|
        0 <= r < 8 && 0 <= f < 8 ==> setup[r]@.len() == 16 && #[trigger] is_figure_code(
            setup[r]@[2 * f],
            setup[r]@[2 * f + 1],
        )
}

/// The piece that a board description puts on a square. The first row is
/// rank 8 and the last is rank 1; in a row, the files run from `a` to `h`,
/// two letters each.
pub open spec fn setup_piece(setup: [&str; 8], c: Coords) -> Option<Figure> {
    if c.on_board() {
        figure_of_code(setup[8 - c.rank]@[2 * c.file], setup[8 - c.rank]@[2 * c.file + 1])
    } else {
        None
    }
}

/// The position that a board description stands for.
pub open spec fn setup_position(setup: [&str; 8]) -> Map<Coords, Figure> {
    Map::new(|c: Coords| setup_piece(setup, c) is Some, |c: Coords| setup_piece(setup, c).unwrap())
}

/// The game after a move has been proposed: the move made where it is
/// accepted, the game as it was where it is rejected.
pub open spec fn attempted(game: GameView, from: Coords, to: Coords) -> GameView {
    if attempt_verdict(game, from, to) is Ok {
        committed(game, from, to)
    } else {
        game
    }
}

/// The game after a series of moves has been proposed, one after another.
pub open spec fn played(game: GameView, moves: Seq<(Coords, Coords)>) -> GameView
    decreases moves.len(),
{
    if moves.len() == 0 {
        game
    } else {
        attempted(played(game, moves.drop_last()), moves.last().0, moves.last().1)
    }
}

/// The game at its start.
pub open spec fn start() -> GameView {
    GameView {
        position: standard_position(),
        side_to_move: FigureColor::White,
        turn_count: 0,
        outcome: Outcome::InProgress,
    }
}

impl GameView {
    /// What holds of every game that play can reach: no piece stands off the
    /// board, the pieces are no more than the board has squares, and the
    /// recorded state is the one that the position gives the side to move.
    pub open spec fn consistent(self) -> bool {
        &&& self.position.dom().subset_of(board_squares())
        &&& self.position.dom().finite()
        &&& self.position.dom().len() <= 64
        &&& self.outcome == outcome_of(self.position, self.side_to_move)
    }
}

/// At the start of a game White is not in check and has a move.
pub proof fn lemma_start_in_progress()
    ensures
        outcome_of(standard_position(), FigureColor::White) == Outcome::InProgress,
{
    let pos = standard_position();
    let side = FigureColor::White;
    let from = Coords { file: 4, rank: 2 };
    let to = Coords { file: 4, rank: 3 };
    assert(move_verdict(pos, side, from, to) is Ok);
}

/// Whatever moves are proposed, and however many, a game stays as it should
/// be: every piece on a square of the board, no square with more than one
/// piece, the pieces never more than there were, and the recorded state the
/// one that the position gives the side to move.
pub proof fn lemma_play_keeps_consistent(game: GameView, moves: Seq<(Coords, Coords)>)
    requires
        game.consistent(),
    ensures
        played(game, moves).consistent(),
        played(game, moves).position.dom().len() <= game.position.dom().len(),
    decreases moves.len(),
{
    if moves.len() > 0 {
        let before = played(game, moves.drop_last());
        let from = moves.last().0;
        let to = moves.last().1;
        lemma_play_keeps_consistent(game, moves.drop_last());
        if attempt_verdict(before, from, to) is Ok {
            lemma_move_adds_no_piece(before.position, from, to);
        }
    }
}

/// Every game that play reaches from the start is as it should be, and holds
/// no more than the thirty-two pieces it started with.
pub proof fn lemma_reachable_games_are_consistent(moves: Seq<(Coords, Coords)>)
    ensures
        played(start(), moves).consistent(),
        played(start(), moves).position.dom().len() <= 32,
{
    lemma_start_in_progress();
    lemma_start_has_32_pieces();
    lemma_play_keeps_consistent(start(), moves);
}

/// A game starts with thirty-two pieces, all on the board.
pub proof fn lemma_start_has_32_pieces()
    ensures
        standard_position().dom().subset_of(board_squares()),
        standard_position().dom().finite(),
        standard_position().dom().len() == 32,
{
    let numbers = set_int_range(0, 32);
    let square = |i: int|
        Coords {
            file: (i / 4) as u8,
            rank: (if i % 4 < 2 {
                i % 4 + 1
            } else {
                i % 4 + 5
            }) as u8,
        };
    lemma_int_range(0, 32);
    assert forall|c: Coords| standard_position().dom().contains(c) implies numbers.map(
        square,
    ).contains(c) by {
        let i = c.file * 4 + if c.rank <= 2 { c.rank - 1 } else { c.rank - 5 };
        assert(numbers.contains(i) && square(i) == c);
    }
    assert(numbers.map(square) =~= standard_position().dom());
    lemma_map_size(numbers, standard_position().dom(), square);
}

impl Game {
    /// A game at its start: the thirty-two pieces on their squares, White to
    /// move, no move made.
    pub fn new() -> (res: Game)
        ensures
            res@ == start(),
            res@.consistent(),
    {
        let setup: [&str; 8] = [
            "brbkbbbqbKbbbkbr",
            "bpbpbpbpbpbpbpbp",
            "                ",
            "                ",
            "                ",
            "                ",
            "wpwpwpwpwpwpwpwp",
            "wrwkwbwqwKwbwkwr",
        ];
        proof {
            reveal_strlit("brbkbbbqbKbbbkbr");
            reveal_strlit("bpbpbpbpbpbpbpbp");
            reveal_strlit("                ");
            reveal_strlit("wpwpwpwpwpwpwpwp");
            reveal_strlit("wrwkwbwqwKwbwkwr");
            assert(setup_position(setup) =~= standard_position());
        }
        let res = Game::from_str_arr(&setup);
        proof {
            lemma_start_in_progress();
        }
        res
    }

    /// A game that starts from the board that `setup` describes, with White to
    /// move. Each row is a rank, from rank 8 down to rank 1, and holds a
    /// two-letter piece code for each file from `a` to `h`.
    pub fn from_str_arr(setup: &[&str; 8]) -> (res: Game)
        requires
            is_setup(*setup),
        ensures
            res@ == (GameView {
                position: setup_position(*setup),
                side_to_move: FigureColor::White,
                turn_count: 0,
                outcome: outcome_of(setup_position(*setup), FigureColor::White),
            }),
            res@.consistent(),
    {
        let mut board = Position::new();
        let mut rank_idx: u8 = 0;
        while rank_idx < 8
            invariant
                rank_idx <= 8,
                is_setup(*setup),
                forall|c: Coords|
                    board@.contains_key(c) <==> 8 - c.rank < rank_idx && #[trigger] setup_piece(
                        *setup,
                        c,
                    ) is Some,
                forall|c: Coords|
                    board@.contains_key(c) ==> board@[c] == #[trigger] setup_piece(
                        *setup,
                        c,
                    ).unwrap(),
            decreases 8 - rank_idx,
        {
            let row: &str = setup[rank_idx as usize];
            let number: u8 = 8 - rank_idx;
            let mut file_cnt: u8 = 0;
            while file_cnt < 8
                invariant
                    file_cnt <= 8,
                    rank_idx < 8,
                    number == 8 - rank_idx,
                    row == setup[rank_idx as int],
                    is_setup(*setup),
                    forall|c: Coords|
                        board@.contains_key(c) <==> (8 - c.rank < rank_idx || (c.rank == number
                            && c.file < file_cnt)) && #[trigger] setup_piece(*setup, c) is Some,
                    forall|c: Coords|
                        board@.contains_key(c) ==> board@[c] == #[trigger] setup_piece(
                            *setup,
                            c,
                        ).unwrap(),
                decreases 8 - file_cnt,
            {
                assert(is_figure_code(row@[2 * file_cnt], row@[2 * file_cnt + 1]));
                let start: usize = 2 * (file_cnt as usize);
                let code = row.substring_char(start, start + 2);
                let fig = Figure::from_str(code);
                if let Some(fig) = fig {
                    board.place(Coords { file: file_cnt, rank: number }, fig);
                }
                file_cnt = file_cnt + 1;
            }
            rank_idx = rank_idx + 1;
        }
        assert(board@ =~= setup_position(*setup));
        Game::from_position(board, FigureColor::White)
    }

    /// A game that starts from `position` with `side` to move.
    pub fn from_position(position: Position, side: FigureColor) -> (res: Game)
        ensures
            res@ == (GameView {
                position: position@,
                side_to_move: side,
                turn_count: 0,
                outcome: outcome_of(position@, side),
            }),
            res@.consistent(),
    {
        proof {
            position.lemma_one_piece_per_square();
        }
        let state = judge_position(&position, side);
        Game { board: position, at_turn: side, turns: 0, state }
    }

    /// Proposes that the side to move moves its piece from `from` to `to`. An
    /// accepted move is made: the piece is relocated, a piece on `to` is
    /// taken, the turn passes and the state of the game is worked out anew. A
    /// rejected move changes nothing at all.
    pub fn attempt_move(&mut self, from: Coords, to: Coords) -> (res: Result<(), MoveError>)
        requires
            old(self)@.turn_count < u32::MAX,
        ensures
            res == attempt_verdict(old(self)@, from, to),
            final(self)@ == attempted(old(self)@, from, to),
            res is Ok ==> final(self)@ == committed(old(self)@, from, to),
            res is Err ==> final(self)@ == old(self)@,
            res is Ok ==> final(self)@.side_to_move == old(self)@.side_to_move.other(),
            res is Ok ==> final(self)@.turn_count == old(self)@.turn_count + 1,
            final(self)@.position.dom().subset_of(board_squares()),
            final(self)@.position.dom().len() <= old(self)@.position.dom().len(),
            old(self)@.consistent() ==> final(self)@.consistent(),
    {
        proof {
            self.board.lemma_one_piece_per_square();
            if attempt_verdict(self@, from, to) is Ok {
                lemma_move_adds_no_piece(self@.position, from, to);
            }
        }
        if self.state.is_terminal() {
            return Err(MoveError::GameOver);
        }
        match judge_move(&self.board, self.at_turn, from, to) {
            Err(error) => Err(error),
            Ok(_) => {
                self.board.move_piece(from, to);
                self.switch_sides();
                self.turns = self.turns + 1;
                self.state = judge_position(&self.board, self.at_turn);
                proof {
                    self.board.lemma_one_piece_per_square();
                }
                Ok(())
            },
        }
    }

    /// Takes one turn from what the player typed, such as `e2e4`: reads the
    /// move and proposes it. A turn that does not take place changes nothing.
    pub fn turn(&mut self, input: &str) -> (res: Result<(), TurnError>)
        requires
            old(self)@.turn_count < u32::MAX,
        ensures
            res == turn_verdict(old(self)@, input@),
            res is Ok ==> final(self)@ == committed(
                old(self)@,
                parsed_move(input@).unwrap().0,
                parsed_move(input@).unwrap().1,
            ),
            res is Err ==> final(self)@ == old(self)@,
            old(self)@.consistent() ==> final(self)@.consistent(),
    {
        match parse_algebraic(input) {
            Err(error) => Err(TurnError::Unreadable(error)),
            Ok((from, to)) => match self.attempt_move(from, to) {
                Err(error) => Err(TurnError::Rejected(error)),
                Ok(_) => Ok(()),
            },
        }
    }

    /// Passes the turn to the other side.
    fn switch_sides(&mut self)
        ensures
            final(self).at_turn == old(self).at_turn.other(),
            final(self).board == old(self).board,
            final(self).turns == old(self).turns,
            final(self).state == old(self).state,
    {
        if self.at_turn == FigureColor::Black {
            self.at_turn = FigureColor::White
        } else {
            self.at_turn = FigureColor::Black
        }
    }

    /// The position as it stands.
    pub fn board(&self) -> (res: &Position)
        ensures
            res@ == self@.position,
    {
        &self.board
    }

    /// A copy of the position.
    pub fn position_snapshot(&self) -> (res: Position)
        ensures
            res@ == self@.position,
    {
        self.board.snapshot()
    }

    /// The side whose turn it is.
    pub fn side_to_move(&self) -> (res: FigureColor)
        ensures
            res == self@.side_to_move,
    {
        self.at_turn
    }

    /// The number of moves made so far.
    pub fn turn_count(&self) -> (res: u32)
        ensures
            res == self@.turn_count,
    {
        self.turns
    }

    /// The state that the last move left the game in.
    pub fn outcome(&self) -> (res: Outcome)
        ensures
            res == self@.outcome,
    {
        self.state
    }

    /// Whether the side to move is in check.
    pub fn check(&self) -> (res: bool)
        ensures
            res == in_check(self@.position, self@.side_to_move),
    {
        crate::outcome::is_in_check(&self.board, self.at_turn)
    }

    /// Whether the side to move is checkmated: in check, and without a move that ends it.
    pub fn checkmate(&self) -> (res: bool)
        ensures
            res == (in_check(self@.position, self@.side_to_move) && !has_legal_move(
                self@.position,
                self@.side_to_move,
            )),
    {
        crate::outcome::is_in_check(&self.board, self.at_turn) && !crate::outcome::can_move(
            &self.board,
            self.at_turn,
        )
    }
}

} // verus!
