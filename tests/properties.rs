use stelsalto::game::remaining_players;
use stelsalto::Piece::{Empty, Head, LeftHand, Tail};
use stelsalto::{Board, Config, Game, GameError, Piece, Point};

fn all_pieces() -> Vec<Piece> {
    vec![
        Piece::Head,
        Piece::Tail,
        Piece::LeftHand,
        Piece::RightHand,
        Piece::LeftFoot,
        Piece::RightFoot,
        Piece::Empty,
    ]
}

#[test]
fn new_board_has_star_shape_for_several_sizes() {
    for n in 1..=6 {
        let board = Board::new(Config::new(n));
        let rows = board.rows();
        let n = n as usize;
        assert_eq!(rows.len(), 4 * n + 1);
        for r in 0..rows.len() {
            assert_eq!(rows[r].len(), rows[4 * n - r].len());
        }
        assert_eq!(rows[0].len(), 1);
        assert_eq!(rows[n].len(), 3 * n + 1);
        assert_eq!(rows[2 * n].len(), 2 * n + 1);
        assert_eq!(rows[2 * n].iter().filter(|p| **p != Piece::Empty).count(), 0);
    }
}

#[test]
fn get_piece_is_some_exactly_on_valid_columns() {
    let board = Board::new(Config::new(2));
    let rows = board.rows().clone();
    for r in 0..rows.len() {
        let len = rows[r].len() as i32;
        let first = 3 * 2 + 2 - len;
        for column in -2..20 {
            let valid = column >= first && (column - first) % 2 == 0 && column < first + 2 * len;
            let found = board.get_piece(Point::new(r as i32 + 1, column));
            assert_eq!(found.is_some(), valid, "row {} column {}", r + 1, column);
            if valid {
                assert_eq!(found, Some(rows[r][((column - first) / 2) as usize]));
            }
        }
    }
    assert_eq!(board.get_piece(Point::new(0, 7)), None);
    assert_eq!(board.get_piece(Point::new(-3, 7)), None);
    assert_eq!(board.get_piece(Point::new(10, 7)), None);
}

#[test]
fn trial_moves_and_turns_leave_the_board_alone() {
    let board = Board::default();
    let before = board.rows().clone();
    assert_eq!(board.try_move_piece(Point::new(4, 10), Point::new(5, 11), Piece::Head), Ok(()));
    assert_eq!(
        board.try_move_piece(Point::new(4, 10), Point::new(5, 11), Piece::Tail),
        Err(GameError::WrongPlayer)
    );
    assert_eq!(board.try_turn(vec![Point::new(3, 11), Point::new(5, 13)], Piece::Head), Ok(()));
    assert_eq!(
        board.try_turn(vec![Point::new(4, 10), Point::new(5, 11), Point::new(6, 12)], Piece::Head),
        Err(GameError::Exhausted)
    );
    assert_eq!(board.rows(), &before);
}

#[test]
fn move_then_reverse_restores_board() {
    let mut board = Board::default();
    let before = board.rows().clone();
    board.move_piece(Point::new(4, 10), Point::new(5, 11), Piece::Head).unwrap();
    assert_ne!(board.rows(), &before);
    board.move_piece(Point::new(5, 11), Point::new(4, 10), Piece::Head).unwrap();
    assert_eq!(board.rows(), &before);

    board.move_piece(Point::new(3, 11), Point::new(5, 13), Piece::Head).unwrap();
    assert_eq!(board.get_piece(Point::new(5, 13)), Some(Piece::Head));
    assert_eq!(board.get_piece(Point::new(3, 11)), Some(Piece::Empty));
    board.move_piece(Point::new(5, 13), Point::new(3, 11), Piece::Head).unwrap();
    assert_eq!(board.rows(), &before);
}

#[test]
fn empty_never_wins_and_nobody_has_won_at_start() {
    let board = Board::default();
    for piece in all_pieces() {
        assert!(!board.has_player_won(piece));
    }
}

#[test]
fn head_wins_when_filling_the_bottom_triangle() {
    let e = Empty;
    let board = Board::from_rows(
        Config::new(1),
        vec![vec![e], vec![e, e, e, e], vec![e, e, e], vec![e, e, e, e], vec![Head]],
    )
    .unwrap();
    assert!(board.has_player_won(Head));
    assert!(!board.has_player_won(Tail));
    assert!(!board.has_player_won(Empty));
}

#[test]
fn from_rows_refuses_wrong_shape() {
    assert!(Board::from_rows(Config::new(1), vec![vec![Head]]).is_none());
    assert!(Board::from_rows(
        Config::new(1),
        vec![vec![Head], vec![Empty; 4], vec![Empty; 4], vec![Empty; 4], vec![Tail]],
    )
    .is_none());
}

#[test]
fn standard_board_scenario() {
    let mut board = Board::default();
    assert_eq!(board.move_piece(Point::new(4, 10), Point::new(5, 11), Piece::Head), Ok(()));
    assert_eq!(board.get_piece(Point::new(5, 11)), Some(Piece::Head));
    assert_eq!(board.get_piece(Point::new(4, 10)), Some(Piece::Empty));
    assert_eq!(
        board.move_piece(Point::new(1, 13), Point::new(7, 13), Piece::Head),
        Err(GameError::NoRoute)
    );
    assert_eq!(
        board.move_piece(Point::new(1, 13), Point::new(2, 12), Piece::Head),
        Err(GameError::OccupiedTarget)
    );
    assert_eq!(
        board.move_piece(Point::new(1, 13), Point::new(1, 12), Piece::Head),
        Err(GameError::OutOfBounds)
    );
}

#[test]
fn take_turn_applies_a_chain_of_jumps() {
    let mut board = Board::default();
    board.move_piece(Point::new(4, 10), Point::new(5, 11), Piece::Head).unwrap();
    assert_eq!(
        board.take_turn(vec![Point::new(3, 11), Point::new(5, 13), Point::new(5, 9)], Piece::Head),
        Ok(())
    );
    assert_eq!(board.get_piece(Point::new(3, 11)), Some(Piece::Empty));
    assert_eq!(board.get_piece(Point::new(5, 13)), Some(Piece::Empty));
    assert_eq!(board.get_piece(Point::new(5, 9)), Some(Piece::Head));
}

#[test]
fn take_turn_needs_two_points() {
    let mut board = Board::default();
    assert_eq!(board.take_turn(vec![], Piece::Head), Err(GameError::NoRoute));
    assert_eq!(board.take_turn(vec![Point::new(4, 10)], Piece::Head), Err(GameError::NoRoute));
}

#[test]
fn failed_turn_keeps_the_moves_before_it() {
    let mut board = Board::default();
    board.move_piece(Point::new(4, 10), Point::new(5, 11), Piece::Head).unwrap();
    // The first jump is legal, the second has nothing to jump over.
    assert_eq!(
        board.take_turn(vec![Point::new(3, 11), Point::new(5, 13), Point::new(7, 15)], Piece::Head),
        Err(GameError::NoRoute)
    );
    assert_eq!(board.get_piece(Point::new(5, 13)), Some(Piece::Head));
}

#[test]
fn same_point_is_no_route() {
    let board = Board::default();
    assert_eq!(
        board.try_move_piece(Point::new(4, 10), Point::new(4, 10), Piece::Head),
        Err(GameError::NoRoute)
    );
}

#[test]
fn out_of_bounds_source() {
    let board = Board::default();
    assert_eq!(
        board.try_move_piece(Point::new(0, 10), Point::new(1, 13), Piece::Head),
        Err(GameError::OutOfBounds)
    );
}

#[test]
fn horizontal_distance_is_half_the_column_difference() {
    let board = Board::new(Config::new(1));
    // Row 3 of a small board: columns 2, 4, 6, all empty; a jump along it
    // passes over row 2, column 5, which is empty.
    assert_eq!(
        board.try_move_piece(Point::new(3, 2), Point::new(3, 6), Piece::Empty),
        Err(GameError::NoRoute)
    );
    assert_eq!(board.try_move_piece(Point::new(3, 2), Point::new(3, 4), Piece::Empty), Ok(()));
}

#[test]
fn custom_symbols_are_drawn() {
    let config = Config::new(1).with_symbol(Piece::Empty, '_').with_symbol(Piece::Head, 'H');
    assert_eq!(config.symbol(Piece::Head), 'H');
    assert_eq!(
        Board::new(config).serialize(),
        vec!["    H", " 3 _ _ 5", "  _ _ _", " 6 _ _ 4", "    2"],
    );
}

#[test]
fn game_turn_reports_win_and_drops_player() {
    let e = Empty;
    let board = Board::from_rows(
        Config::new(1),
        vec![vec![e], vec![e, e, e, e], vec![e, e, e], vec![e, e, e, e], vec![Head]],
    )
    .unwrap();
    let mut game = Game::new(board, vec![Head, Tail]);
    // Head leaves its goal and comes back.
    assert_eq!(game.play_turn(vec![Point::new(5, 4), Point::new(4, 3)], Head), Ok(false));
    assert_eq!(game.pieces(), &vec![Head, Tail]);
    assert_eq!(game.play_turn(vec![Point::new(4, 3), Point::new(5, 4)], Head), Ok(true));
    assert_eq!(game.pieces(), &vec![Tail]);
    assert_eq!(
        game.play_turn(vec![Point::new(5, 4), Point::new(4, 3)], Tail),
        Err(GameError::WrongPlayer)
    );
}

#[test]
fn remaining_players_keeps_order() {
    assert_eq!(remaining_players(&vec![Head, Tail, LeftHand], Tail), vec![Head, LeftHand]);
    assert_eq!(remaining_players(&vec![Head], Head), Vec::<Piece>::new());
    assert_eq!(remaining_players(&vec![Head, Tail], Empty), vec![Head, Tail]);
}
