//! The search engine: a depth-bounded negamax walk of the game tree
//! with alpha-beta pruning.  The mathematical reference is `negamax`,
//! a prune-free minimax in negamax form; `Ai::alpha_beta` is proved to
//! agree with it inside its window, so pruning never changes the
//! returned score.
use vstd::prelude::*;

use crate::board::{Move, Side};
use crate::eval::{eval_spec, lemma_eval_bound};
use crate::movegen::{in_check, in_check_exec, is_legal, legal_moves, legal_moves_spec};
use crate::position::{apply_move, apply_spec, pos_wf, Board, State};

verus! {

/// The magnitude of a checkmate score at depth zero.
pub const MATE: i32 = 1000000;

/// A bound no reachable score attains; the full search window.
pub const INF: i32 = 100000000;

/// The larger of two scores.
pub open spec fn imax(a: int, b: int) -> int {
    if a >= b {
        a
    } else {
        b
    }
}

/// The best achievable score for the side to move, `depth` plies
/// deep, without any pruning: the value of a terminal position is the
/// mate or stalemate score or the evaluator's score seen from the
/// side to move, and otherwise the maximum over all legal moves of
/// the negated value of the resulting position.
pub open spec fn negamax(b: Board, s: State, depth: nat) -> int
    decreases depth, legal_moves_spec(b, s).len() + 1,
{
    let moves = legal_moves_spec(b, s);
    if moves.len() == 0 {
        if in_check(b, s.stm) {
            -(MATE as int + depth)
        } else {
            0
        }
    } else if depth == 0 {
        if s.stm == Side::White {
            eval_spec(b)
        } else {
            -eval_spec(b)
        }
    } else {
        best_over(b, s, moves, 0, depth)
    }
}

/// The maximum of the negated child values of `moves[i..]`.
pub open spec fn best_over(b: Board, s: State, moves: Seq<Move>, i: int, depth: nat) -> int
    decreases depth, moves.len() - i,
{
    if depth == 0 || i < 0 || i >= moves.len() {
        0
    } else if i == moves.len() - 1 {
        -negamax(apply_spec(b, s, moves[i]).0, apply_spec(b, s, moves[i]).1, (depth - 1) as nat)
    } else {
        imax(
            -negamax(
                apply_spec(b, s, moves[i]).0,
                apply_spec(b, s, moves[i]).1,
                (depth - 1) as nat,
            ),
            best_over(b, s, moves, i + 1, depth),
        )
    }
}

/// The negated value of the position reached by `moves[j]`.
pub open spec fn child_val(b: Board, s: State, moves: Seq<Move>, j: int, depth: nat) -> int {
    -negamax(apply_spec(b, s, moves[j]).0, apply_spec(b, s, moves[j]).1, (depth - 1) as nat)
}

/// The maximum of the negated child values of `moves[..i]`.
pub open spec fn prefix_best(b: Board, s: State, moves: Seq<Move>, i: int, depth: nat) -> int
    decreases i,
{
    if i <= 1 {
        child_val(b, s, moves, 0, depth)
    } else {
        imax(prefix_best(b, s, moves, i - 1, depth), child_val(b, s, moves, i - 1, depth))
    }
}

/// No score exceeds the mate magnitude at its depth.
pub proof fn lemma_negamax_bound(b: Board, s: State, depth: nat)
    ensures
        -(MATE as int + depth) <= negamax(b, s, depth) <= MATE as int + depth,
    decreases depth, legal_moves_spec(b, s).len() + 1,
{
    let moves = legal_moves_spec(b, s);
    if moves.len() == 0 {
    } else if depth == 0 {
        lemma_eval_bound(b);
    } else {
        lemma_best_over_bound(b, s, moves, 0, depth);
    }
}

proof fn lemma_best_over_bound(b: Board, s: State, moves: Seq<Move>, i: int, depth: nat)
    requires
        depth >= 1,
        0 <= i < moves.len(),
    ensures
        -(MATE as int + depth) <= best_over(b, s, moves, i, depth) <= MATE as int + depth,
    decreases depth, moves.len() - i,
{
    lemma_negamax_bound(
        apply_spec(b, s, moves[i]).0,
        apply_spec(b, s, moves[i]).1,
        (depth - 1) as nat,
    );
    if i < moves.len() - 1 {
        lemma_best_over_bound(b, s, moves, i + 1, depth);
    }
}

/// The whole maximum splits into the best of a prefix and the best of
/// the remaining suffix.
proof fn lemma_best_split(b: Board, s: State, moves: Seq<Move>, i: int, depth: nat)
    requires
        depth >= 1,
        1 <= i <= moves.len(),
        moves.len() >= 1,
    ensures
        best_over(b, s, moves, 0, depth) == if i < moves.len() {
            imax(prefix_best(b, s, moves, i, depth), best_over(b, s, moves, i, depth))
        } else {
            prefix_best(b, s, moves, i, depth)
        },
    decreases i,
{
    if i == 1 {
    } else {
        lemma_best_split(b, s, moves, i - 1, depth);
    }
}

/// Every single child value is at most the whole maximum.
proof fn lemma_child_le(b: Board, s: State, moves: Seq<Move>, j: int, depth: nat)
    requires
        depth >= 1,
        0 <= j < moves.len(),
    ensures
        child_val(b, s, moves, j, depth) <= best_over(b, s, moves, 0, depth),
{
    lemma_best_split(b, s, moves, j + 1, depth);
    if j >= 1 {
        lemma_best_split(b, s, moves, j, depth);
    }
}

/// Full minimax, no pruning: the reference the pruning search is held
/// to.
pub fn minimax(b: &Board, s: &State, depth: usize) -> (r: i32)
    requires
        pos_wf(*b, *s),
        depth <= 1000,
    ensures
        r as int == negamax(*b, *s, depth as nat),
    decreases depth,
{
    let moves = legal_moves(b, s);
    if moves.len() == 0 {
        if in_check_exec(b, s.stm) {
            return -(MATE + depth as i32);
        } else {
            return 0;
        }
    }
    if depth == 0 {
        let e = b.evaluate();
        proof {
            lemma_eval_bound(*b);
        }
        return match s.stm {
            Side::White => e,
            Side::Black => -e,
        };
    }
    let ghost ms = moves@;
    let mut best: i32 = -INF;
    let mut i: usize = 0;
    while i < moves.len()
        invariant
            pos_wf(*b, *s),
            depth >= 1,
            depth <= 1000,
            ms == moves@,
            ms == legal_moves_spec(*b, *s),
            forall|j: int| 0 <= j < ms.len() ==> is_legal(*b, *s, ms[j]),
            ms.len() >= 1,
            0 <= i <= ms.len(),
            i >= 1 ==> best as int == prefix_best(*b, *s, ms, i as int, depth as nat),
            i >= 1 ==> -(MATE as int + depth) <= best as int <= MATE as int + depth,
            i == 0 ==> best == -INF,
        decreases moves.len() - i,
    {
        let m = moves[i];
        let (nb, ns) = apply_move(b, s, m);
        let v = minimax(&nb, &ns, depth - 1);
        proof {
            lemma_negamax_bound(nb, ns, (depth - 1) as nat);
        }
        let sc = -v;
        proof {
            assert(sc as int == child_val(*b, *s, ms, i as int, depth as nat));
        }
        if i == 0 || sc > best {
            best = sc;
        }
        proof {
            assert(best as int == prefix_best(*b, *s, ms, i + 1, depth as nat));
        }
        i = i + 1;
    }
    proof {
        lemma_best_split(*b, *s, ms, ms.len() as int, depth as nat);
    }
    best
}

/// The search engine.  `board_stack` may hold scratch boards for a
/// caller's own bookkeeping; the searches themselves never touch the
/// positions they are given beyond apply/undo pairs on copies.
pub struct Ai {
    pub board_stack: Vec<Board>,
}

impl Default for Ai {
    /// An engine with an empty scratch stack.
    fn default() -> (r: Ai)
        ensures
            r.board_stack@.len() == 0,
    {
        Ai { board_stack: Vec::new() }
    }
}

impl Ai {
    /// Depth-bounded negamax search with alpha-beta pruning.  The
    /// result agrees with the prune-free `negamax` inside the window:
    /// a result strictly between `alpha` and `beta` is exactly the
    /// minimax score, a result at or below `alpha` bounds it from
    /// above, and a result at or above `beta` bounds it from below.
    /// With the full window the result equals full minimax.
    pub fn alpha_beta(&self, board: &Board, state: &State, depth: usize, alpha: i32, beta: i32) -> (r:
        i32)
        requires
            pos_wf(*board, *state),
            depth <= 1000,
            -INF <= alpha < beta <= INF,
        ensures
            -INF <= r <= INF,
            r <= alpha ==> negamax(*board, *state, depth as nat) <= r,
            r >= beta ==> negamax(*board, *state, depth as nat) >= r,
            alpha < r < beta ==> r as int == negamax(*board, *state, depth as nat),
        decreases depth,
    {
        let moves = legal_moves(board, state);
        if moves.len() == 0 {
            if in_check_exec(board, state.stm) {
                return -(MATE + depth as i32);
            } else {
                return 0;
            }
        }
        if depth == 0 {
            let e = board.evaluate();
            proof {
                lemma_eval_bound(*board);
            }
            return match state.stm {
                Side::White => e,
                Side::Black => -e,
            };
        }
        let ghost ms = moves@;
        let ghost v = negamax(*board, *state, depth as nat);
        let mut best: i32 = -INF;
        let mut a: i32 = alpha;
        let mut i: usize = 0;
        while i < moves.len()
            invariant
                pos_wf(*board, *state),
                1 <= depth <= 1000,
                -INF <= alpha < beta <= INF,
                ms == moves@,
                ms == legal_moves_spec(*board, *state),
                forall|j: int| 0 <= j < ms.len() ==> is_legal(*board, *state, ms[j]),
                ms.len() >= 1,
                0 <= i <= ms.len(),
                v == negamax(*board, *state, depth as nat),
                v == best_over(*board, *state, ms, 0, depth as nat),
                a as int == imax(alpha as int, best as int),
                a < beta,
                best < beta,
                -INF <= best,
                i == 0 ==> best == -INF,
                // what was seen so far neither overshoots nor misses
                i >= 1 ==> best as int <= imax(
                    alpha as int,
                    prefix_best(*board, *state, ms, i as int, depth as nat),
                ),
                i >= 1 ==> prefix_best(*board, *state, ms, i as int, depth as nat) <= best as int,
            decreases moves.len() - i,
        {
            let m = moves[i];
            let (nb, ns) = apply_move(board, state, m);
            let rr = self.alpha_beta(&nb, &ns, depth - 1, -beta, -a);
            proof {
                lemma_negamax_bound(nb, ns, (depth - 1) as nat);
            }
            let sc = -rr;
            let ghost c = child_val(*board, *state, ms, i as int, depth as nat);
            proof {
                // translate the child's window guarantee
                if sc >= beta {
                    assert(c >= sc);
                } else if sc as int <= a {
                    assert(c <= sc);
                } else {
                    assert(sc as int == c);
                }
            }
            let ghost best0 = best;
            if sc > best {
                best = sc;
            }
            if best > a {
                a = best;
            }
            proof {
                assert(prefix_best(*board, *state, ms, i + 1, depth as nat) == if i == 0 {
                    c
                } else {
                    imax(prefix_best(*board, *state, ms, i as int, depth as nat), c)
                });
            }
            if a >= beta {
                proof {
                    assert(best == sc);
                    assert(c >= sc);
                    lemma_child_le(*board, *state, ms, i as int, depth as nat);
                }
                return best;
            }
            i = i + 1;
        }
        proof {
            lemma_best_split(*board, *state, ms, ms.len() as int, depth as nat);
        }
        best
    }

    /// Search the position to the given depth and report the best
    /// achievable score together with a move that achieves it; only
    /// the copies made internally are ever mutated.  When the side to
    /// move has no legal move there is no move to report and the
    /// score is the terminal (mate or stalemate) score.
    pub fn search(&self, board: &Board, state: &State, depth: usize) -> (r: (Option<Move>, i32))
        requires
            pos_wf(*board, *state),
            1 <= depth <= 1000,
        ensures
            r.1 as int == negamax(*board, *state, depth as nat),
            r.0 is None <==> legal_moves_spec(*board, *state).len() == 0,
            r.0 is Some ==> {
                let m = r.0->0;
                &&& legal_moves_spec(*board, *state).contains(m)
                &&& r.1 as int == -negamax(
                    apply_spec(*board, *state, m).0,
                    apply_spec(*board, *state, m).1,
                    (depth - 1) as nat,
                )
            },
    {
        let moves = legal_moves(board, state);
        if moves.len() == 0 {
            if in_check_exec(board, state.stm) {
                return (None, -(MATE + depth as i32));
            } else {
                return (None, 0);
            }
        }
        let ghost ms = moves@;
        let mut best: i32 = -INF;
        let mut best_move: Option<Move> = None;
        let mut i: usize = 0;
        while i < moves.len()
            invariant
                pos_wf(*board, *state),
                1 <= depth <= 1000,
                ms == moves@,
                ms == legal_moves_spec(*board, *state),
                forall|j: int| 0 <= j < ms.len() ==> is_legal(*board, *state, ms[j]),
                ms.len() >= 1,
                0 <= i <= ms.len(),
                i == 0 ==> best == -INF && best_move is None,
                i >= 1 ==> best as int == prefix_best(*board, *state, ms, i as int, depth as nat),
                i >= 1 ==> best_move is Some,
                best_move is Some ==> {
                    let m = best_move->0;
                    &&& ms.contains(m)
                    &&& best as int == -negamax(
                        apply_spec(*board, *state, m).0,
                        apply_spec(*board, *state, m).1,
                        (depth - 1) as nat,
                    )
                },
            decreases moves.len() - i,
        {
            let m = moves[i];
            let (nb, ns) = apply_move(board, state, m);
            let rr = self.alpha_beta(&nb, &ns, depth - 1, -INF, INF);
            proof {
                lemma_negamax_bound(nb, ns, (depth - 1) as nat);
            }
            let sc = -rr;
            proof {
                assert(sc as int == child_val(*board, *state, ms, i as int, depth as nat));
            }
            if i == 0 || sc > best {
                best = sc;
                best_move = Some(m);
                proof {
                    assert(ms[i as int] == m);
                    assert(ms.contains(m));
                }
            }
            proof {
                assert(best as int == prefix_best(*board, *state, ms, i + 1, depth as nat));
            }
            i = i + 1;
        }
        proof {
            lemma_best_split(*board, *state, ms, ms.len() as int, depth as nat);
        }
        (best_move, best)
    }
}

/// A side with no legal moves is checkmated or stalemated: with its
/// king attacked the position scores as a mate against it (larger in
/// magnitude the more search depth remains, so that faster mates are
/// preferred), and with its king safe it scores as a draw, at every
/// depth.
pub proof fn lemma_no_moves_scores(b: Board, s: State, depth: nat)
    requires
        legal_moves_spec(b, s).len() == 0,
    ensures
        in_check(b, s.stm) ==> negamax(b, s, depth) == -(MATE as int + depth),
        !in_check(b, s.stm) ==> negamax(b, s, depth) == 0,
{
}

} // verus!
