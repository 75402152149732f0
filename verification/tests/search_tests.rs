use rustchess::board::{PieceKind, Side};
use rustchess::game::Game;
use rustchess::position::{Board, CastlingRights, Player, State};
use rustchess::search::{minimax, Ai, INF, MATE};
use rustchess::zobrist::Zobrist;

fn sparse_board(
    pieces_white: &[(usize, PieceKind)],
    pieces_black: &[(usize, PieceKind)],
) -> Board {
    let mut white = Player { pawns: 0, knights: 0, bishops: 0, rooks: 0, queens: 0, king: 0 };
    let mut black = Player { pawns: 0, knights: 0, bishops: 0, rooks: 0, queens: 0, king: 0 };
    for &(sq, k) in pieces_white {
        put(&mut white, sq, k);
    }
    for &(sq, k) in pieces_black {
        put(&mut black, sq, k);
    }
    Board {
        white,
        black,
        occ_white: white.pawns | white.knights | white.bishops | white.rooks | white.queens
            | white.king,
        occ_black: black.pawns | black.knights | black.bishops | black.rooks | black.queens
            | black.king,
    }
}

fn put(p: &mut Player, sq: usize, k: PieceKind) {
    let b = 1u64 << sq;
    match k {
        PieceKind::Pawn => p.pawns |= b,
        PieceKind::Knight => p.knights |= b,
        PieceKind::Bishop => p.bishops |= b,
        PieceKind::Rook => p.rooks |= b,
        PieceKind::Queen => p.queens |= b,
        PieceKind::King => p.king |= b,
    }
}

fn state_to_move(stm: Side) -> State {
    State {
        castling_rights: CastlingRights(0),
        en_passant_square: None,
        half_move_counter: 0,
        stm,
    }
}

#[test]
fn checkmate_scores_as_mate() {
    // White king h1, black queen g2 guarded by black king g3: White
    // to move has no legal move and is in check.
    let board = sparse_board(
        &[(7, PieceKind::King)],
        &[(14, PieceKind::Queen), (22, PieceKind::King)],
    );
    let state = state_to_move(Side::White);
    assert!(board.is_game_over(&state));
    let ai = Ai::default();
    assert_eq!(ai.alpha_beta(&board, &state, 3, -INF, INF), -(MATE + 3));
    assert_eq!(minimax(&board, &state, 3), -(MATE + 3));
}

#[test]
fn stalemate_scores_as_draw() {
    // White king h1 alone, black king f2 and black queen g3: White to
    // move has no legal move but is not in check.
    let board = sparse_board(
        &[(7, PieceKind::King)],
        &[(22, PieceKind::Queen), (13, PieceKind::King)],
    );
    let state = state_to_move(Side::White);
    assert!(board.is_game_over(&state));
    let ai = Ai::default();
    assert_eq!(ai.alpha_beta(&board, &state, 3, -INF, INF), 0);
    assert_eq!(minimax(&board, &state, 3), 0);
}

#[test]
fn pruning_never_changes_the_score() {
    let ai = Ai::default();
    // Sparse fixed positions, searched three plies deep.
    let endgames = [
        sparse_board(
            &[(7, PieceKind::King), (0, PieceKind::Rook)],
            &[(59, PieceKind::King)],
        ),
        sparse_board(
            &[(27, PieceKind::King), (35, PieceKind::Queen)],
            &[(56, PieceKind::King), (48, PieceKind::Pawn)],
        ),
        sparse_board(
            &[(4, PieceKind::King), (12, PieceKind::Pawn), (11, PieceKind::Pawn)],
            &[(60, PieceKind::King), (52, PieceKind::Pawn)],
        ),
    ];
    for board in endgames.iter() {
        for stm in [Side::White, Side::Black] {
            let state = state_to_move(stm);
            assert_eq!(
                ai.alpha_beta(board, &state, 3, -INF, INF),
                minimax(board, &state, 3),
            );
        }
    }
    // Random sparse positions, searched three plies deep.
    for _ in 0..4 {
        let mut squares: Vec<usize> = Vec::new();
        while squares.len() < 4 {
            let sq = (rand::random::<u64>() % 64) as usize;
            if !squares.contains(&sq) {
                squares.push(sq);
            }
        }
        let board = sparse_board(
            &[(squares[0], PieceKind::King), (squares[2], PieceKind::Rook)],
            &[(squares[1], PieceKind::King), (squares[3], PieceKind::Knight)],
        );
        let state = state_to_move(if rand::random::<u64>() % 2 == 0 {
            Side::White
        } else {
            Side::Black
        });
        assert!(rustchess::position::is_well_formed(&board, &state));
        assert_eq!(
            ai.alpha_beta(&board, &state, 3, -INF, INF),
            minimax(&board, &state, 3),
        );
    }
    // Positions reached by random play from the start, searched two
    // plies deep.
    let z = Zobrist::default();
    for plies in [6usize, 11, 16] {
        let mut g = Game::new(&z);
        for _ in 0..plies {
            let ms = g.board.legal_moves(&g.state);
            if ms.len() == 0 {
                break;
            }
            let pick = (rand::random::<u64>() as usize) % ms.len();
            g.apply(&z, ms[pick]);
        }
        assert_eq!(
            ai.alpha_beta(&g.board, &g.state, 2, -INF, INF),
            minimax(&g.board, &g.state, 2),
        );
    }
}

#[test]
fn narrow_windows_bound_the_score() {
    // The same sparse position probed with a deliberately narrow
    // window: a result inside the window is the exact score, a result
    // on the window edge bounds it.
    let board = sparse_board(
        &[(7, PieceKind::King), (0, PieceKind::Rook)],
        &[(59, PieceKind::King)],
    );
    let state = state_to_move(Side::White);
    let ai = Ai::default();
    let exact = minimax(&board, &state, 2);
    let r = ai.alpha_beta(&board, &state, 2, exact - 10, exact + 10);
    assert_eq!(r, exact);
    let low = ai.alpha_beta(&board, &state, 2, exact + 5, exact + 15);
    assert!(low <= exact + 5);
}

#[test]
fn search_reports_a_move_achieving_the_score() {
    let z = Zobrist::default();
    let g = Game::new(&z);
    let ai = Ai::default();
    let (best_move, score) = ai.search(&g.board, &g.state, 2);
    let m = best_move.expect("the opening has moves");
    assert_eq!(score, ai.alpha_beta(&g.board, &g.state, 2, -INF, INF));
    // The reported move really is one of the legal moves.
    let ms = g.board.legal_moves(&g.state);
    assert!(ms.iter().any(|x| *x == m));
    // Playing it leads to a position whose score negates back.
    let mut g2 = g;
    g2.apply(&z, m);
    assert_eq!(score, -minimax(&g2.board, &g2.state, 1));
}

#[test]
fn search_finds_mate_in_one() {
    // Black king h8 cornered by the white king on g6; the white queen
    // on a7 mates in one on g7.
    let board = sparse_board(
        &[(46, PieceKind::King), (48, PieceKind::Queen)],
        &[(63, PieceKind::King)],
    );
    let state = state_to_move(Side::White);
    let ai = Ai::default();
    let (best_move, score) = ai.search(&board, &state, 2);
    assert!(best_move.is_some());
    // Mate delivered one ply in: the opponent stands mated with one
    // ply of depth remaining.
    assert_eq!(score, MATE + 1);
}
