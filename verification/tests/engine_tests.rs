use rustchess::board::{BoardFlags, Move, PieceKind, Side};
use rustchess::game::{set_position, EngineError, Game};
use rustchess::position::{Board, CastlingRights, Player, State};
use rustchess::zobrist::Zobrist;

#[test]
fn test() {}

fn find_move(ms: &Vec<Move>, from: usize, to: usize) -> Option<Move> {
    for m in ms.iter() {
        if m.from == from && m.to == to {
            return Some(*m);
        }
    }
    None
}

fn bare_kings_board(white_extra: (u64, PieceKind), black_extra: (u64, PieceKind)) -> Board {
    let mut white = Player { pawns: 0, knights: 0, bishops: 0, rooks: 0, queens: 0, king: 0 };
    let mut black = Player { pawns: 0, knights: 0, bishops: 0, rooks: 0, queens: 0, king: 0 };
    place(&mut white, white_extra);
    place(&mut black, black_extra);
    Board {
        white,
        black,
        occ_white: white.pawns | white.knights | white.bishops | white.rooks | white.queens
            | white.king,
        occ_black: black.pawns | black.knights | black.bishops | black.rooks | black.queens
            | black.king,
    }
}

fn place(p: &mut Player, extra: (u64, PieceKind)) {
    match extra.1 {
        PieceKind::Pawn => p.pawns |= extra.0,
        PieceKind::Knight => p.knights |= extra.0,
        PieceKind::Bishop => p.bishops |= extra.0,
        PieceKind::Rook => p.rooks |= extra.0,
        PieceKind::Queen => p.queens |= extra.0,
        PieceKind::King => p.king |= extra.0,
    }
}

fn plain_state(stm: Side) -> State {
    State {
        castling_rights: CastlingRights(0),
        en_passant_square: None,
        half_move_counter: 0,
        stm,
    }
}

#[test]
fn twenty_opening_moves_each() {
    let board = Board::default();
    let white = board.moves(&State::initial());
    assert_eq!(white.len(), 20);
    let pawn_moves = white.iter().filter(|m| m.flags.piece == PieceKind::Pawn).count();
    let knight_moves = white.iter().filter(|m| m.flags.piece == PieceKind::Knight).count();
    assert_eq!(pawn_moves, 16);
    assert_eq!(knight_moves, 4);
    let black_state = State { stm: Side::Black, ..State::initial() };
    let black = board.moves(&black_state);
    assert_eq!(black.len(), 20);
}

#[test]
fn opening_rook_is_blocked() {
    // The rook on a1 stands behind its own pawn: blocker truncation
    // leaves it no move at all in the starting position.
    let board = Board::default();
    let ms = board.moves(&State::initial());
    assert_eq!(ms.iter().filter(|m| m.from == 0).count(), 0);
    assert_eq!(ms.iter().filter(|m| m.flags.piece == PieceKind::Rook).count(), 0);
}

#[test]
fn opening_counts() {
    let board = Board::default();
    assert_eq!(board.count_pieces(Side::White), 16);
    assert_eq!(board.count_pieces(Side::Black), 16);
    assert_eq!(board.occupancy(Side::White) & board.occupancy(Side::Black), 0);
    assert_eq!(board.piece_at(4), Some((Side::White, PieceKind::King)));
    assert_eq!(board.piece_at(3), Some((Side::White, PieceKind::Queen)));
    assert_eq!(board.piece_at(57), Some((Side::Black, PieceKind::Knight)));
    assert_eq!(board.piece_at(28), None);
    assert!(!board.is_game_over(&State::initial()));
}

#[test]
fn opening_is_balanced() {
    assert_eq!(Board::default().evaluate(), 0);
}

#[test]
fn lone_pawn_scores_its_square() {
    // A white pawn on e4 against bare kings on e1 and e8: one hundred
    // centipawns of material plus its square bonus, with the two king
    // square terms.
    let board = bare_kings_board(
        (1u64 << 28, PieceKind::Pawn),
        (0, PieceKind::Pawn),
    );
    let mut board = board;
    board.white.king = 1u64 << 4;
    board.black.king = 1u64 << 60;
    board.occ_white |= 1u64 << 4;
    board.occ_black |= 1u64 << 60;
    // white: pawn 100 + 25 (e4), king -50 (e1); black: king -50 (e8
    // read mirrored).
    assert_eq!(board.evaluate(), (100 + 25 - 50) - (-50));
}

#[test]
fn apply_then_undo_restores_everything() {
    let z = Zobrist::default();
    let mut g = Game::new(&z);
    // A quiet pawn push, a reply, and a capture, each unmade and
    // checked before it is replayed.
    for (from, to) in [(12usize, 28usize), (51, 35), (28, 35)] {
        let ms = g.board.legal_moves(&g.state);
        let m = find_move(&ms, from, to).expect("move should be legal");
        let before = g;
        let tok = g.apply(&z, m);
        assert_ne!(g.key, before.key);
        g.undo(tok);
        assert_eq!(g, before);
        g.apply(&z, m);
    }
    assert_eq!(g.board.piece_at(35), Some((Side::White, PieceKind::Pawn)));
    assert_eq!(g.board.count_pieces(Side::Black), 15);
}

#[test]
fn castling_moves_both_pieces_and_undoes() {
    let z = Zobrist::default();
    let mut g = Game::new(&z);
    // Clear the white king side, marking time with black rook-pawn
    // pushes, then castle.
    for (from, to) in [(12usize, 20usize), (48, 40), (5, 12), (40, 32), (6, 21), (32, 24)] {
        let ms = g.board.legal_moves(&g.state);
        let m = find_move(&ms, from, to).expect("preparation move should be legal");
        g.apply(&z, m);
    }
    let ms = g.board.legal_moves(&g.state);
    let castle = find_move(&ms, 4, 6).expect("castling should be available");
    assert!(castle.flags.castle_king);
    let before = g;
    let tok = g.apply(&z, castle);
    assert_eq!(g.board.piece_at(6), Some((Side::White, PieceKind::King)));
    assert_eq!(g.board.piece_at(5), Some((Side::White, PieceKind::Rook)));
    assert_eq!(g.board.piece_at(7), None);
    assert_eq!(g.board.piece_at(4), None);
    assert_eq!(g.state.castling_rights.0 & 0b0011, 0);
    g.undo(tok);
    assert_eq!(g, before);
}

#[test]
fn promotion_replaces_the_pawn() {
    let z = Zobrist::default();
    let mut board = bare_kings_board((1u64 << 48, PieceKind::Pawn), (0, PieceKind::Pawn));
    board.white.king = 1u64 << 7;
    board.black.king = 1u64 << 63;
    board.occ_white |= 1u64 << 7;
    board.occ_black |= 1u64 << 63;
    let mut g = Game::from_position(&z, board, plain_state(Side::White));
    let ms = g.board.legal_moves(&g.state);
    let promos: Vec<Move> = ms.iter().filter(|m| m.from == 48 && m.to == 56).cloned().collect();
    assert_eq!(promos.len(), 4);
    let queen = promos.iter().find(|m| m.flags.promoted == PieceKind::Queen).unwrap();
    assert!(queen.flags.promotion);
    let before = g;
    let tok = g.apply(&z, *queen);
    assert_eq!(g.board.piece_at(56), Some((Side::White, PieceKind::Queen)));
    assert_eq!(g.board.white.pawns, 0);
    g.undo(tok);
    assert_eq!(g, before);
}

#[test]
fn en_passant_exactly_one_capture() {
    // White pawn on e5, black pawn on d5 having just double-pushed:
    // the d6 target is set.
    let z = Zobrist::default();
    let mut board = bare_kings_board((1u64 << 36, PieceKind::Pawn), (1u64 << 35, PieceKind::Pawn));
    board.white.king = 1u64 << 4;
    board.black.king = 1u64 << 60;
    board.occ_white |= 1u64 << 4;
    board.occ_black |= 1u64 << 60;
    let state = State { en_passant_square: Some(43), ..plain_state(Side::White) };
    let ms = board.moves(&state);
    let ep_moves: Vec<Move> = ms.iter().filter(|m| m.flags.passant).cloned().collect();
    assert_eq!(ep_moves.len(), 1);
    let ep = ep_moves[0];
    assert_eq!(ep.from, 36);
    assert_eq!(ep.to, 43);
    assert!(ep.flags.capture);
    // No other pawn move targets the en-passant square as a normal
    // capture.
    assert!(
        !ms.iter().any(|m| m.flags.piece == PieceKind::Pawn && m.to == 43 && m.flags.capture
            && !m.flags.passant)
    );
    // Playing it removes the pawn behind the target, not one on the
    // target.
    let mut g = Game::from_position(&z, board, state);
    let before = g;
    let tok = g.apply(&z, ep);
    assert_eq!(g.board.black.pawns, 0);
    assert_eq!(g.board.piece_at(43), Some((Side::White, PieceKind::Pawn)));
    g.undo(tok);
    assert_eq!(g, before);
}

#[test]
fn occupancies_stay_disjoint_in_random_play() {
    let z = Zobrist::default();
    let mut g = Game::new(&z);
    for _ in 0..120 {
        let ms = g.board.legal_moves(&g.state);
        if ms.len() == 0 {
            break;
        }
        let pick = (rand::random::<u64>() as usize) % ms.len();
        g.apply(&z, ms[pick]);
        assert_eq!(g.board.occupancy(Side::White) & g.board.occupancy(Side::Black), 0);
        assert_eq!(g.board.occ_white & g.board.occ_black, 0);
    }
}

#[test]
fn transpositions_hash_alike() {
    let z = Zobrist::default();
    let play = |squares: &[(usize, usize)]| -> Game {
        let mut g = Game::new(&z);
        for &(from, to) in squares {
            let ms = g.board.legal_moves(&g.state);
            let m = find_move(&ms, from, to).expect("move should be legal");
            g.apply(&z, m);
        }
        g
    };
    // Knights out by either order reach the same position.
    let g1 = play(&[(6, 21), (62, 45), (1, 18), (57, 42)]);
    let g2 = play(&[(1, 18), (57, 42), (6, 21), (62, 45)]);
    assert_eq!(g1.board, g2.board);
    assert_eq!(g1.state.stm, g2.state.stm);
    assert_eq!(g1.key, g2.key);
    // Knights out and back again rebuild the starting position's key.
    let g3 = play(&[(6, 21), (62, 45), (21, 6), (45, 62)]);
    let g0 = Game::new(&z);
    assert_eq!(g3.board, g0.board);
    assert_eq!(g3.key, g0.key);
    // The half-move clock differs, so the games are not identical --
    // only the position identity is.
    assert_ne!(g3.state.half_move_counter, g0.state.half_move_counter);
}

#[test]
fn set_position_applies_legal_sequences() {
    let z = Zobrist::default();
    let g0 = Game::new(&z);
    let quiet = |from: usize, to: usize, piece: PieceKind| Move {
        from,
        to,
        flags: BoardFlags {
            piece,
            capture: false,
            captured: PieceKind::Pawn,
            passant: false,
            castle_king: false,
            castle_queen: false,
            promotion: false,
            promoted: PieceKind::Pawn,
        },
    };
    let seq = vec![quiet(12, 28, PieceKind::Pawn), quiet(52, 36, PieceKind::Pawn)];
    let g = set_position(&z, &g0, &seq).expect("both pushes are legal");
    assert_eq!(g.board.piece_at(28), Some((Side::White, PieceKind::Pawn)));
    assert_eq!(g.board.piece_at(36), Some((Side::Black, PieceKind::Pawn)));
    assert_eq!(g.state.stm, Side::White);
}

#[test]
fn set_position_rejects_illegal_moves() {
    let z = Zobrist::default();
    let g0 = Game::new(&z);
    let bad = Move {
        from: 12,
        to: 36,
        flags: BoardFlags {
            piece: PieceKind::Pawn,
            capture: false,
            captured: PieceKind::Pawn,
            passant: false,
            castle_king: false,
            castle_queen: false,
            promotion: false,
            promoted: PieceKind::Pawn,
        },
    };
    assert_eq!(set_position(&z, &g0, &vec![bad]), Err(EngineError::IllegalMove));
}
#[test]
fn incremental_key_matches_scratch_hash() {
    let z = Zobrist::default();
    let mut g = Game::new(&z);
    for _ in 0..40 {
        let ms = g.board.legal_moves(&g.state);
        if ms.len() == 0 {
            break;
        }
        let pick = (rand::random::<u64>() as usize) % ms.len();
        g.apply(&z, ms[pick]);
        // Re-hashing the position from scratch gives the running key.
        let fresh = Game::from_position(&z, g.board, g.state);
        assert_eq!(g.key, fresh.key);
    }
}

fn perft(z: &Zobrist, g: &Game, depth: usize) -> u64 {
    if depth == 0 {
        return 1;
    }
    let ms = g.board.legal_moves(&g.state);
    let mut nodes = 0u64;
    for m in ms.iter() {
        let mut child = *g;
        child.apply(z, *m);
        nodes += perft(z, &child, depth - 1);
    }
    nodes
}

#[test]
fn perft_counts_from_the_start() {
    let z = Zobrist::default();
    let g = Game::new(&z);
    assert_eq!(perft(&z, &g, 1), 20);
    assert_eq!(perft(&z, &g, 2), 400);
    assert_eq!(perft(&z, &g, 3), 8902);
}
