//! A full game position: board, game state and running Zobrist key,
//! mutated move by move with an inverse recorded for unmaking, plus
//! position set-up from a move sequence.
use vstd::prelude::*;

use crate::board::{Move, PieceKind, Side};
use crate::movegen::{is_legal, legal_moves, legal_moves_spec};
use crate::position::{apply_move, apply_spec, move_ok, pos_wf, Board, Player, State};
use crate::zobrist::{compute_key, key_delta_exec, key_of, lemma_key_apply, Zobrist};

verus! {

/// What can go wrong when a position is set up.
#[derive(Clone, Copy, Debug, PartialEq, Eq, Structural)]
pub enum EngineError {
    /// A move of the sequence is not legal in the position it is
    /// applied to.
    IllegalMove,
}

/// A playable position: the board, the game state, and the running
/// Zobrist key, kept congruent with hashing the position from
/// scratch.
#[derive(Clone, Copy, Debug, PartialEq, Eq)]
#[verifier::ext_equal]
pub struct Game {
    pub board: Board,
    pub state: State,
    pub key: u64,
}

/// The opaque token `apply` hands back: exactly what `undo` needs to
/// reverse the move — the prior values of the piece boards that
/// changed, of the occupancy boards, of the game state, and of the
/// key.
#[derive(Clone, Copy, Debug, PartialEq, Eq)]
#[verifier::ext_equal]
pub struct UndoToken {
    /// The side that made the move.
    pub side: Side,
    /// The kind that moved and its prior board.
    pub moved: PieceKind,
    pub moved_bb: u64,
    /// The mover's second changed board: the promotion piece's, or the
    /// castling rook's.
    pub extra: Option<(PieceKind, u64)>,
    /// The opponent's board hit by a capture.
    pub taken: Option<(PieceKind, u64)>,
    pub occ_white: u64,
    pub occ_black: u64,
    pub state: State,
    pub key: u64,
}

/// The token recorded when `m` is played on `g`.
pub open spec fn token_spec(g: Game, m: Move) -> UndoToken {
    let us = g.board.player_spec(g.state.stm);
    let them = g.board.player_spec(g.state.stm.flip_spec());
    let fl = m.flags;
    UndoToken {
        side: g.state.stm,
        moved: fl.piece,
        moved_bb: us.bb_spec(fl.piece),
        extra: if fl.promotion {
            Some((fl.promoted, us.bb_spec(fl.promoted)))
        } else if fl.castle_king || fl.castle_queen {
            Some((PieceKind::Rook, us.rooks))
        } else {
            None
        },
        taken: if fl.passant {
            Some((PieceKind::Pawn, them.pawns))
        } else if fl.capture {
            Some((fl.captured, them.bb_spec(fl.captured)))
        } else {
            None
        },
        occ_white: g.board.occ_white,
        occ_black: g.board.occ_black,
        state: g.state,
        key: g.key,
    }
}

/// The position `undo` reconstructs from a token: every recorded board
/// written back, occupancy, state and key restored.
pub open spec fn undo_spec(g: Game, tok: UndoToken) -> Game {
    let us1 = g.board.player_spec(tok.side).with_bb(tok.moved, tok.moved_bb);
    let us2 = match tok.extra {
        Some((k, bb)) => us1.with_bb(k, bb),
        None => us1,
    };
    let them0 = g.board.player_spec(tok.side.flip_spec());
    let them1 = match tok.taken {
        Some((k, bb)) => them0.with_bb(k, bb),
        None => them0,
    };
    let b = g.board.with_player(tok.side, us2).with_player(tok.side.flip_spec(), them1);
    Game {
        board: Board { occ_white: tok.occ_white, occ_black: tok.occ_black, ..b },
        state: tok.state,
        key: tok.key,
    }
}

impl Game {
    /// The board, state and key are mutually consistent: a well-formed
    /// position whose key equals its from-scratch hash under `z`.
    pub open spec fn wf(self, z: Zobrist) -> bool {
        &&& pos_wf(self.board, self.state)
        &&& self.key == key_of(z, self.board, self.state)
    }

    /// A fresh game: the standard starting position, hashed under `z`.
    pub fn new(z: &Zobrist) -> (g: Game)
        requires
            z.wf(),
        ensures
            g.board == crate::position::start_board(),
            g.state == (State {
                castling_rights: crate::position::CastlingRights(
                    crate::position::Castling::ANY_CASTLING,
                ),
                en_passant_square: None,
                half_move_counter: 0,
                stm: Side::White,
            }),
            g.wf(*z),
    {
        let board = Board::default();
        let state = State::initial();
        proof {
            assert(crate::position::Castling::ANY_CASTLING < 16) by (bit_vector);
        }
        let key = compute_key(z, &board, &state);
        Game { board, state, key }
    }

    /// A game at the given (well-formed) position, hashed under `z`.
    pub fn from_position(z: &Zobrist, board: Board, state: State) -> (g: Game)
        requires
            z.wf(),
            pos_wf(board, state),
        ensures
            g.board == board,
            g.state == state,
            g.wf(*z),
    {
        let key = compute_key(z, &board, &state);
        Game { board, state, key }
    }

    /// Play `m`, updating board, state and key in place, and hand back
    /// the token that reverses the mutation.  The move must satisfy
    /// `move_ok` (every generated move does); a move that does not is
    /// a contract violation, not a recoverable error.
    pub fn apply(&mut self, z: &Zobrist, m: Move) -> (tok: UndoToken)
        requires
            z.wf(),
            old(self).wf(*z),
            move_ok(old(self).board, old(self).state, m),
        ensures
            final(self).board == apply_spec(old(self).board, old(self).state, m).0,
            final(self).state == apply_spec(old(self).board, old(self).state, m).1,
            final(self).wf(*z),
            tok == token_spec(*old(self), m),
    {
        let us = self.board.player(self.state.stm);
        let them = self.board.player(self.state.stm.flip());
        let fl = m.flags;
        let tok = UndoToken {
            side: self.state.stm,
            moved: fl.piece,
            moved_bb: us.bb(fl.piece),
            extra: if fl.promotion {
                Some((fl.promoted, us.bb(fl.promoted)))
            } else if fl.castle_king || fl.castle_queen {
                Some((PieceKind::Rook, us.rooks))
            } else {
                None
            },
            taken: if fl.passant {
                Some((PieceKind::Pawn, them.pawns))
            } else if fl.capture {
                Some((fl.captured, them.bb(fl.captured)))
            } else {
                None
            },
            occ_white: self.board.occ_white,
            occ_black: self.board.occ_black,
            state: self.state,
            key: self.key,
        };
        let (nb, ns) = apply_move(&self.board, &self.state, m);
        let delta = key_delta_exec(z, &self.board, &self.state, m, &ns);
        proof {
            lemma_key_apply(*z, self.board, self.state, m);
        }
        self.key = self.key ^ delta;
        self.board = nb;
        self.state = ns;
        tok
    }

    /// Reverse the mutation `tok` records, restoring the exact prior
    /// board, state and key.
    pub fn undo(&mut self, tok: UndoToken)
        ensures
            *final(self) == undo_spec(*old(self), tok),
    {
        let mut us = self.board.player(tok.side).put_bb(tok.moved, tok.moved_bb);
        if let Some((k, bb)) = tok.extra {
            us = us.put_bb(k, bb);
        }
        let mut them = self.board.player(tok.side.flip());
        if let Some((k, bb)) = tok.taken {
            them = them.put_bb(k, bb);
        }
        let (white, black) = match tok.side {
            Side::White => (us, them),
            Side::Black => (them, us),
        };
        self.board = Board { white, black, occ_white: tok.occ_white, occ_black: tok.occ_black };
        self.state = tok.state;
        self.key = tok.key;
        proof {
            assert(*self =~= undo_spec(*old(self), tok));
        }
    }
}

/// Two armies equal field by field are equal.
proof fn lemma_player_ext(p: Player, q: Player)
    requires
        p.pawns == q.pawns,
        p.knights == q.knights,
        p.bishops == q.bishops,
        p.rooks == q.rooks,
        p.queens == q.queens,
        p.king == q.king,
    ensures
        p == q,
{
    assert(p =~= q);
}

/// Unmaking a move reconstructs the prior position bit for bit —
/// board, game state and Zobrist key — whatever key the intermediate
/// position carried: `undo(apply(g, m))` is the identity on
/// `Game` values.
pub proof fn lemma_apply_undo(g: Game, m: Move, k2: u64)
    requires
        pos_wf(g.board, g.state),
        move_ok(g.board, g.state, m),
    ensures
        undo_spec(
            Game {
                board: apply_spec(g.board, g.state, m).0,
                state: apply_spec(g.board, g.state, m).1,
                key: k2,
            },
            token_spec(g, m),
        ) == g,
{
    let fl = m.flags;
    let stm = g.state.stm;
    let us0 = g.board.player_spec(stm);
    let them0 = g.board.player_spec(stm.flip_spec());
    let b2 = apply_spec(g.board, g.state, m).0;
    let tok = token_spec(g, m);
    let g2 = Game { board: b2, state: apply_spec(g.board, g.state, m).1, key: k2 };
    let r = undo_spec(g2, tok);
    // The mover's army is restored exactly.
    let us_r = match tok.extra {
        Some((k, bb)) => b2.player_spec(stm).with_bb(tok.moved, tok.moved_bb).with_bb(k, bb),
        None => b2.player_spec(stm).with_bb(tok.moved, tok.moved_bb),
    };
    if fl.castle_king || fl.castle_queen {
        lemma_player_ext(us_r, us0);
    } else if fl.promotion {
        match fl.promoted {
            PieceKind::Knight => lemma_player_ext(us_r, us0),
            PieceKind::Bishop => lemma_player_ext(us_r, us0),
            PieceKind::Rook => lemma_player_ext(us_r, us0),
            PieceKind::Queen => lemma_player_ext(us_r, us0),
            PieceKind::Pawn => lemma_player_ext(us_r, us0),
            PieceKind::King => lemma_player_ext(us_r, us0),
        }
    } else {
        match fl.piece {
            PieceKind::Pawn => lemma_player_ext(us_r, us0),
            PieceKind::Knight => lemma_player_ext(us_r, us0),
            PieceKind::Bishop => lemma_player_ext(us_r, us0),
            PieceKind::Rook => lemma_player_ext(us_r, us0),
            PieceKind::Queen => lemma_player_ext(us_r, us0),
            PieceKind::King => lemma_player_ext(us_r, us0),
        }
    }
    // The opponent's army is restored exactly.
    let them_r = match tok.taken {
        Some((k, bb)) => b2.player_spec(stm.flip_spec()).with_bb(k, bb),
        None => b2.player_spec(stm.flip_spec()),
    };
    if fl.passant {
        lemma_player_ext(them_r, them0);
    } else if fl.capture {
        match fl.captured {
            PieceKind::Pawn => lemma_player_ext(them_r, them0),
            PieceKind::Knight => lemma_player_ext(them_r, them0),
            PieceKind::Bishop => lemma_player_ext(them_r, them0),
            PieceKind::Rook => lemma_player_ext(them_r, them0),
            PieceKind::Queen => lemma_player_ext(them_r, them0),
            PieceKind::King => lemma_player_ext(them_r, them0),
        }
    } else {
        lemma_player_ext(them_r, them0);
    }
    assert(r =~= g);
}

/// No move ever puts both sides on one square: applying any
/// admissible move to a well-formed position leaves the two
/// occupancy boards disjoint (and the whole position well formed).
pub proof fn lemma_occupancy_stays_disjoint(b: Board, s: State, m: Move)
    requires
        pos_wf(b, s),
        move_ok(b, s, m),
    ensures
        apply_spec(b, s, m).0.occ_white & apply_spec(b, s, m).0.occ_black == 0,
{
    crate::position::lemma_apply_wf(b, s, m);
}

/// Transposition: two games over the same constants whose positions
/// are equal carry the same key, however the positions were reached.
pub proof fn lemma_key_transposition(z: Zobrist, g1: Game, g2: Game)
    requires
        g1.wf(z),
        g2.wf(z),
        g1.board == g2.board,
        g1.state == g2.state,
    ensures
        g1.key == g2.key,
{
}

/// The position reached by playing `ms` from index `i` on, move by
/// move, from `(b, s)`; `None` when some move of the sequence is not
/// legal in the position it is applied to.
pub open spec fn play_seq(b: Board, s: State, ms: Seq<Move>, i: int) -> Option<(Board, State)>
    decreases ms.len() - i,
{
    if i < 0 || i >= ms.len() {
        Some((b, s))
    } else if legal_moves_spec(b, s).contains(ms[i]) {
        let n = apply_spec(b, s, ms[i]);
        play_seq(n.0, n.1, ms, i + 1)
    } else {
        None
    }
}

/// Whether `v` holds `m`.
fn vec_contains_move(v: &Vec<Move>, m: Move) -> (r: bool)
    ensures
        r == v@.contains(m),
{
    let mut i: usize = 0;
    while i < v.len()
        invariant
            i <= v.len(),
            forall|j: int| 0 <= j < i ==> v@[j] != m,
        decreases v.len() - i,
    {
        if v[i] == m {
            return true;
        }
        i = i + 1;
    }
    assert(!v@.contains(m));
    false
}

/// Rebuild a position by applying a sequence of moves from a known
/// starting point.  Fails — without mutating anything — as soon as a
/// move of the sequence is not legal in the position it is applied
/// to; succeeds exactly when every move is.
pub fn set_position(z: &Zobrist, initial: &Game, moves: &Vec<Move>) -> (r: Result<
    Game,
    EngineError,
>)
    requires
        z.wf(),
        initial.wf(*z),
    ensures
        r is Ok <==> play_seq(initial.board, initial.state, moves@, 0) is Some,
        r is Ok ==> {
            let g = r->Ok_0;
            &&& Some((g.board, g.state)) == play_seq(initial.board, initial.state, moves@, 0)
            &&& g.wf(*z)
        },
        r is Err ==> r->Err_0 == EngineError::IllegalMove,
{
    let mut g = *initial;
    let mut i: usize = 0;
    while i < moves.len()
        invariant
            i <= moves.len(),
            z.wf(),
            g.wf(*z),
            play_seq(initial.board, initial.state, moves@, 0) == play_seq(
                g.board,
                g.state,
                moves@,
                i as int,
            ),
        decreases moves.len() - i,
    {
        let m = moves[i];
        let legal = legal_moves(&g.board, &g.state);
        if !vec_contains_move(&legal, m) {
            assert(play_seq(g.board, g.state, moves@, i as int) is None);
            return Err(EngineError::IllegalMove);
        }
        proof {
            let j = choose|j: int| 0 <= j < legal@.len() && legal@[j] == m;
            assert(is_legal(g.board, g.state, legal@[j]));
            assert(move_ok(g.board, g.state, m));
        }
        g.apply(z, m);
        i = i + 1;
    }
    Ok(g)
}

/// Every position reachable from a well-formed position by a sequence
/// of legal moves is itself well formed; in particular its two
/// occupancy boards are disjoint.
pub proof fn lemma_reachable_wf(b: Board, s: State, ms: Seq<Move>, i: int)
    requires
        pos_wf(b, s),
        play_seq(b, s, ms, i) is Some,
    ensures
        ({
            let p = play_seq(b, s, ms, i)->0;
            pos_wf(p.0, p.1) && p.0.occ_white & p.0.occ_black == 0
        }),
    decreases ms.len() - i,
{
    if 0 <= i < ms.len() {
        crate::movegen::lemma_legal_moves_sound(b, s);
        let legal = legal_moves_spec(b, s);
        let j = choose|j: int| 0 <= j < legal.len() && legal[j] == ms[i];
        assert(is_legal(b, s, ms[i]));
        crate::position::lemma_apply_wf(b, s, ms[i]);
        let n = apply_spec(b, s, ms[i]);
        lemma_reachable_wf(n.0, n.1, ms, i + 1);
    }
}

} // verus!
