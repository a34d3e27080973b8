use chess_rules::coords::Coords;
use chess_rules::figure::{Figure, FigureColor, FigureVariant, IllegalMoveReason};
use chess_rules::position::Position;

fn at(file: char, rank: u8) -> Coords {
    Coords::new(file, rank).unwrap()
}

fn white(variant: FigureVariant) -> Figure {
    Figure::new(FigureColor::White, variant)
}

fn black(variant: FigureVariant) -> Figure {
    Figure::new(FigureColor::Black, variant)
}

fn board(pieces: &[(char, u8, Figure)]) -> Position {
    let mut position = Position::new();
    for (file, rank, piece) in pieces {
        position.place(at(*file, *rank), *piece);
    }
    position
}

#[test]
fn same_square_comes_before_every_other_reason() {
    let rook = white(FigureVariant::Rook);
    let position = board(&[('d', 1, rook)]);
    assert_eq!(
        rook.can_go(&at('d', 1), &position, &at('d', 1)),
        Err(IllegalMoveReason::SameSquare)
    );
}

#[test]
fn rook_moves_along_files_and_ranks() {
    let rook = white(FigureVariant::Rook);
    let position = board(&[('d', 1, rook)]);
    assert_eq!(rook.can_go(&at('d', 1), &position, &at('d', 8)), Ok(()));
    assert_eq!(rook.can_go(&at('d', 1), &position, &at('a', 1)), Ok(()));
    assert_eq!(rook.can_go(&at('d', 1), &position, &at('h', 1)), Ok(()));
    assert_eq!(
        rook.can_go(&at('d', 1), &position, &at('e', 2)),
        Err(IllegalMoveReason::NotAReachableSquare)
    );
    assert_eq!(
        rook.can_go(&at('d', 1), &position, &at('f', 4)),
        Err(IllegalMoveReason::NotAReachableSquare)
    );
}

#[test]
fn rook_is_blocked_by_any_piece_on_its_way() {
    let rook = white(FigureVariant::Rook);
    let own = board(&[('d', 1, rook), ('d', 2, white(FigureVariant::Pawn))]);
    assert_eq!(
        rook.can_go(&at('d', 1), &own, &at('d', 4)),
        Err(IllegalMoveReason::Blocked)
    );
    let theirs = board(&[('d', 1, rook), ('d', 3, black(FigureVariant::Pawn))]);
    assert_eq!(
        rook.can_go(&at('d', 1), &theirs, &at('d', 4)),
        Err(IllegalMoveReason::Blocked)
    );
    assert_eq!(rook.can_go(&at('d', 1), &theirs, &at('d', 3)), Ok(()));
    assert_eq!(rook.can_go(&at('d', 1), &theirs, &at('d', 2)), Ok(()));
    let sideways = board(&[('a', 4, rook), ('c', 4, black(FigureVariant::Knight))]);
    assert_eq!(
        rook.can_go(&at('a', 4), &sideways, &at('h', 4)),
        Err(IllegalMoveReason::Blocked)
    );
    assert_eq!(rook.can_go(&at('a', 4), &sideways, &at('c', 4)), Ok(()));
    assert_eq!(rook.can_go(&at('a', 4), &sideways, &at('b', 4)), Ok(()));
}

#[test]
fn rook_moving_down_and_left_sees_what_is_between() {
    let rook = black(FigureVariant::Rook);
    let position = board(&[('h', 8, rook), ('h', 5, white(FigureVariant::Pawn)), ('e', 8, black(FigureVariant::King))]);
    assert_eq!(rook.can_go(&at('h', 8), &position, &at('h', 6)), Ok(()));
    assert_eq!(rook.can_go(&at('h', 8), &position, &at('h', 5)), Ok(()));
    assert_eq!(
        rook.can_go(&at('h', 8), &position, &at('h', 4)),
        Err(IllegalMoveReason::Blocked)
    );
    assert_eq!(rook.can_go(&at('h', 8), &position, &at('f', 8)), Ok(()));
    assert_eq!(
        rook.can_go(&at('h', 8), &position, &at('e', 8)),
        Err(IllegalMoveReason::FriendlyCapture)
    );
    assert_eq!(
        rook.can_go(&at('h', 8), &position, &at('d', 8)),
        Err(IllegalMoveReason::Blocked)
    );
}

#[test]
fn bishop_moves_along_diagonals() {
    let bishop = white(FigureVariant::Bishop);
    let position = board(&[('c', 1, bishop), ('f', 4, black(FigureVariant::Pawn))]);
    assert_eq!(bishop.can_go(&at('c', 1), &position, &at('d', 2)), Ok(()));
    assert_eq!(bishop.can_go(&at('c', 1), &position, &at('e', 3)), Ok(()));
    assert_eq!(bishop.can_go(&at('c', 1), &position, &at('f', 4)), Ok(()));
    assert_eq!(bishop.can_go(&at('c', 1), &position, &at('a', 3)), Ok(()));
    assert_eq!(
        bishop.can_go(&at('c', 1), &position, &at('g', 5)),
        Err(IllegalMoveReason::Blocked)
    );
    assert_eq!(
        bishop.can_go(&at('c', 1), &position, &at('c', 4)),
        Err(IllegalMoveReason::NotAReachableSquare)
    );
    assert_eq!(
        bishop.can_go(&at('c', 1), &position, &at('e', 2)),
        Err(IllegalMoveReason::NotAReachableSquare)
    );
}

#[test]
fn queen_moves_like_rook_and_bishop() {
    let queen = black(FigureVariant::Queen);
    let position = board(&[('d', 8, queen), ('d', 6, white(FigureVariant::Pawn)), ('f', 6, black(FigureVariant::Pawn))]);
    assert_eq!(queen.can_go(&at('d', 8), &position, &at('d', 7)), Ok(()));
    assert_eq!(queen.can_go(&at('d', 8), &position, &at('d', 6)), Ok(()));
    assert_eq!(
        queen.can_go(&at('d', 8), &position, &at('d', 5)),
        Err(IllegalMoveReason::Blocked)
    );
    assert_eq!(queen.can_go(&at('d', 8), &position, &at('a', 5)), Ok(()));
    assert_eq!(queen.can_go(&at('d', 8), &position, &at('e', 7)), Ok(()));
    assert_eq!(
        queen.can_go(&at('d', 8), &position, &at('f', 6)),
        Err(IllegalMoveReason::FriendlyCapture)
    );
    assert_eq!(
        queen.can_go(&at('d', 8), &position, &at('g', 5)),
        Err(IllegalMoveReason::Blocked)
    );
    assert_eq!(queen.can_go(&at('d', 8), &position, &at('h', 8)), Ok(()));
    assert_eq!(
        queen.can_go(&at('d', 8), &position, &at('e', 6)),
        Err(IllegalMoveReason::NotAReachableSquare)
    );
}

#[test]
fn knight_jumps_in_an_l_and_is_never_blocked() {
    let knight = white(FigureVariant::Knight);
    let position = board(&[
        ('b', 1, knight),
        ('a', 2, white(FigureVariant::Pawn)),
        ('b', 2, white(FigureVariant::Pawn)),
        ('c', 2, white(FigureVariant::Pawn)),
        ('a', 1, white(FigureVariant::Rook)),
        ('c', 1, white(FigureVariant::Bishop)),
    ]);
    assert_eq!(knight.can_go(&at('b', 1), &position, &at('a', 3)), Ok(()));
    assert_eq!(knight.can_go(&at('b', 1), &position, &at('c', 3)), Ok(()));
    assert_eq!(knight.can_go(&at('b', 1), &position, &at('d', 2)), Ok(()));
    assert_eq!(
        knight.can_go(&at('b', 1), &position, &at('b', 3)),
        Err(IllegalMoveReason::NotAReachableSquare)
    );
    assert_eq!(
        knight.can_go(&at('b', 1), &position, &at('d', 3)),
        Err(IllegalMoveReason::NotAReachableSquare)
    );
}

#[test]
fn knight_cannot_take_a_friend() {
    let knight = white(FigureVariant::Knight);
    let position = board(&[('b', 1, knight), ('d', 2, white(FigureVariant::Pawn))]);
    assert_eq!(
        knight.can_go(&at('b', 1), &position, &at('d', 2)),
        Err(IllegalMoveReason::FriendlyCapture)
    );
    let enemy = board(&[('b', 1, knight), ('d', 2, black(FigureVariant::Pawn))]);
    assert_eq!(knight.can_go(&at('b', 1), &enemy, &at('d', 2)), Ok(()));
}

#[test]
fn friendly_capture_comes_before_reachability() {
    let knight = white(FigureVariant::Knight);
    let position = board(&[('b', 1, knight), ('b', 2, white(FigureVariant::Pawn))]);
    assert_eq!(
        knight.can_go(&at('b', 1), &position, &at('b', 2)),
        Err(IllegalMoveReason::FriendlyCapture)
    );
}

#[test]
fn king_steps_one_square_in_any_direction() {
    let king = white(FigureVariant::King);
    let position = board(&[('e', 4, king)]);
    for (file, rank) in [('d', 3), ('d', 4), ('d', 5), ('e', 3), ('e', 5), ('f', 3), ('f', 4), ('f', 5)] {
        assert_eq!(king.can_go(&at('e', 4), &position, &at(file, rank)), Ok(()));
    }
    assert_eq!(
        king.can_go(&at('e', 4), &position, &at('e', 6)),
        Err(IllegalMoveReason::NotAReachableSquare)
    );
    assert_eq!(
        king.can_go(&at('e', 4), &position, &at('g', 4)),
        Err(IllegalMoveReason::NotAReachableSquare)
    );
    assert_eq!(
        king.can_go(&at('e', 4), &position, &at('g', 6)),
        Err(IllegalMoveReason::NotAReachableSquare)
    );
}

#[test]
fn white_pawn_advances_up_the_board() {
    let pawn = white(FigureVariant::Pawn);
    let position = board(&[('e', 2, pawn)]);
    assert_eq!(pawn.can_go(&at('e', 2), &position, &at('e', 3)), Ok(()));
    assert_eq!(pawn.can_go(&at('e', 2), &position, &at('e', 4)), Ok(()));
    assert_eq!(
        pawn.can_go(&at('e', 2), &position, &at('e', 5)),
        Err(IllegalMoveReason::NotAReachableSquare)
    );
    assert_eq!(
        pawn.can_go(&at('e', 2), &position, &at('e', 1)),
        Err(IllegalMoveReason::NotAReachableSquare)
    );
    assert_eq!(
        pawn.can_go(&at('e', 2), &position, &at('f', 2)),
        Err(IllegalMoveReason::NotAReachableSquare)
    );
}

#[test]
fn black_pawn_advances_down_the_board() {
    let pawn = black(FigureVariant::Pawn);
    let position = board(&[('e', 7, pawn)]);
    assert_eq!(pawn.can_go(&at('e', 7), &position, &at('e', 6)), Ok(()));
    assert_eq!(pawn.can_go(&at('e', 7), &position, &at('e', 5)), Ok(()));
    assert_eq!(
        pawn.can_go(&at('e', 7), &position, &at('e', 8)),
        Err(IllegalMoveReason::NotAReachableSquare)
    );
    assert_eq!(
        pawn.can_go(&at('e', 7), &position, &at('e', 4)),
        Err(IllegalMoveReason::NotAReachableSquare)
    );
}

#[test]
fn pawn_double_step_needs_both_squares_empty() {
    let pawn = white(FigureVariant::Pawn);
    let passed = board(&[('e', 2, pawn), ('e', 3, black(FigureVariant::Knight))]);
    assert_eq!(
        pawn.can_go(&at('e', 2), &passed, &at('e', 4)),
        Err(IllegalMoveReason::Blocked)
    );
    let reached = board(&[('e', 2, pawn), ('e', 4, black(FigureVariant::Knight))]);
    assert_eq!(
        pawn.can_go(&at('e', 2), &reached, &at('e', 4)),
        Err(IllegalMoveReason::Blocked)
    );
    let friend = board(&[('e', 2, pawn), ('e', 4, white(FigureVariant::Knight))]);
    assert_eq!(
        pawn.can_go(&at('e', 2), &friend, &at('e', 4)),
        Err(IllegalMoveReason::FriendlyCapture)
    );
    let free = board(&[('e', 2, pawn)]);
    assert_eq!(pawn.can_go(&at('e', 2), &free, &at('e', 4)), Ok(()));
}

#[test]
fn pawn_double_step_only_from_home_rank() {
    let pawn = white(FigureVariant::Pawn);
    let position = board(&[('e', 3, pawn)]);
    assert_eq!(
        pawn.can_go(&at('e', 3), &position, &at('e', 5)),
        Err(IllegalMoveReason::NotAReachableSquare)
    );
    assert_eq!(pawn.can_go(&at('e', 3), &position, &at('e', 4)), Ok(()));
    let dark = black(FigureVariant::Pawn);
    let other = board(&[('c', 6, dark)]);
    assert_eq!(
        dark.can_go(&at('c', 6), &other, &at('c', 4)),
        Err(IllegalMoveReason::NotAReachableSquare)
    );
    assert_eq!(dark.can_go(&at('c', 6), &other, &at('c', 5)), Ok(()));
}

#[test]
fn pawn_single_step_needs_an_empty_square() {
    let pawn = white(FigureVariant::Pawn);
    let position = board(&[('e', 4, pawn), ('e', 5, black(FigureVariant::Pawn))]);
    assert_eq!(
        pawn.can_go(&at('e', 4), &position, &at('e', 5)),
        Err(IllegalMoveReason::Blocked)
    );
}

#[test]
fn pawn_moves_aside_only_to_capture() {
    let pawn = white(FigureVariant::Pawn);
    let position = board(&[
        ('e', 4, pawn),
        ('d', 5, black(FigureVariant::Pawn)),
        ('d', 3, black(FigureVariant::Pawn)),
    ]);
    assert_eq!(pawn.can_go(&at('e', 4), &position, &at('d', 5)), Ok(()));
    assert_eq!(
        pawn.can_go(&at('e', 4), &position, &at('f', 5)),
        Err(IllegalMoveReason::NotAReachableSquare)
    );
    assert_eq!(
        pawn.can_go(&at('e', 4), &position, &at('d', 3)),
        Err(IllegalMoveReason::NotAReachableSquare)
    );
    let dark = black(FigureVariant::Pawn);
    assert_eq!(dark.can_go(&at('d', 5), &position, &at('e', 4)), Ok(()));
    assert_eq!(
        dark.can_go(&at('d', 5), &position, &at('c', 4)),
        Err(IllegalMoveReason::NotAReachableSquare)
    );
}

#[test]
fn no_piece_moves_off_the_board() {
    let rook = white(FigureVariant::Rook);
    let position = board(&[('a', 1, rook)]);
    let beyond = Coords { file: 0, rank: 9 };
    assert_eq!(
        rook.can_go(&at('a', 1), &position, &beyond),
        Err(IllegalMoveReason::NotAReachableSquare)
    );
    let aside = Coords { file: 8, rank: 1 };
    assert_eq!(
        rook.can_go(&at('a', 1), &position, &aside),
        Err(IllegalMoveReason::NotAReachableSquare)
    );
    let below = Coords { file: 0, rank: 0 };
    assert_eq!(
        rook.can_go(&at('a', 1), &position, &below),
        Err(IllegalMoveReason::NotAReachableSquare)
    );
}

#[test]
fn can_go_leaves_the_position_alone() {
    let rook = white(FigureVariant::Rook);
    let position = board(&[('d', 1, rook), ('d', 5, black(FigureVariant::Pawn))]);
    let before = position.snapshot();
    assert_eq!(rook.can_go(&at('d', 1), &position, &at('d', 5)), Ok(()));
    assert_eq!(position, before);
}

#[test]
fn symbols_of_all_pieces() {
    assert_eq!(white(FigureVariant::Rook).get_symbol(), '♖');
    assert_eq!(black(FigureVariant::Rook).get_symbol(), '♜');
    assert_eq!(white(FigureVariant::Pawn).get_symbol(), '♙');
    assert_eq!(black(FigureVariant::Pawn).get_symbol(), '♟');
    assert_eq!(white(FigureVariant::Knight).get_symbol(), '♘');
    assert_eq!(black(FigureVariant::Knight).get_symbol(), '♞');
    assert_eq!(white(FigureVariant::Queen).get_symbol(), '♕');
    assert_eq!(black(FigureVariant::Queen).get_symbol(), '♛');
    assert_eq!(white(FigureVariant::Bishop).get_symbol(), '♗');
    assert_eq!(black(FigureVariant::Bishop).get_symbol(), '♝');
    assert_eq!(white(FigureVariant::King).get_symbol(), '♔');
    assert_eq!(black(FigureVariant::King).get_symbol(), '♚');
}

#[test]
fn piece_codes_are_read() {
    assert_eq!(Figure::from_str("wp"), Some(white(FigureVariant::Pawn)));
    assert_eq!(Figure::from_str("wr"), Some(white(FigureVariant::Rook)));
    assert_eq!(Figure::from_str("wk"), Some(white(FigureVariant::Knight)));
    assert_eq!(Figure::from_str("wb"), Some(white(FigureVariant::Bishop)));
    assert_eq!(Figure::from_str("wK"), Some(white(FigureVariant::King)));
    assert_eq!(Figure::from_str("wq"), Some(white(FigureVariant::Queen)));
    assert_eq!(Figure::from_str("bp"), Some(black(FigureVariant::Pawn)));
    assert_eq!(Figure::from_str("bb"), Some(black(FigureVariant::Bishop)));
    assert_eq!(Figure::from_str("bK"), Some(black(FigureVariant::King)));
    assert_eq!(Figure::from_str("bqwp"), Some(black(FigureVariant::Queen)));
}

#[test]
fn blank_codes_are_empty_squares() {
    assert_eq!(Figure::from_str("  "), None);
    assert_eq!(Figure::from_str("w "), None);
    assert_eq!(Figure::from_str(" p"), None);
}

#[test]
fn sides_are_opposite() {
    assert_eq!(FigureColor::White.opposite(), FigureColor::Black);
    assert_eq!(FigureColor::Black.opposite(), FigureColor::White);
}

#[test]
fn reasons_have_their_words() {
    assert_eq!(
        IllegalMoveReason::SameSquare.message(),
        "select different field than the current one"
    );
    assert_eq!(IllegalMoveReason::FriendlyCapture.message(), "cant take your figure");
    assert_eq!(
        IllegalMoveReason::NotAReachableSquare.message(),
        "the figure cannot go there"
    );
    assert_eq!(IllegalMoveReason::Blocked.message(), "something is in the way");
    assert_eq!(
        IllegalMoveReason::NotColinear.message(),
        "the fields are not on one line"
    );
    assert_eq!(
        IllegalMoveReason::LeavesKingInCheck.message(),
        "the king would be in check"
    );
}
