//! The move generator: pseudo-legal moves (respecting piece movement
//! and occupancy, but not yet the safety of the mover's own king), the
//! attack predicate, and the fully legal subset.
use vstd::prelude::*;

use crate::bits::{lemma_bit_ops, lemma_comm, lemma_disjoint_nth, nth, sq_bb};
use crate::board::{
    ray_step, east_of, east_one, lowest_set, north_of, north_one, northeast_of, northeast_one, northwest_of, northwest_one, south_of, south_one, southeast_of, southeast_one, southwest_of, southwest_one, west_of, west_one, BoardFlags, Move, PieceKind, Ray, Side,
};
use crate::position::{Board, Player, State};

verus! {


/// The squares a slider on `cur` reaches in direction `d` before the
/// board edge, with the first occupied square included and nothing
/// beyond it: `acc` holds what was already collected.
pub open spec fn slide_fill(acc: u64, cur: u64, occ: u64, d: Ray, fuel: nat) -> u64
    decreases fuel,
{
    if fuel == 0 {
        acc
    } else {
        let nxt = ray_step(cur, d);
        if nxt == 0 {
            acc
        } else if nxt & occ != 0 {
            acc | nxt
        } else {
            slide_fill(acc | nxt, nxt, occ, d, (fuel - 1) as nat)
        }
    }
}

/// The attack set of a slider on the single-square board `cur`, in
/// direction `d`, truncated at the first square of `occ`.
pub open spec fn slide(cur: u64, occ: u64, d: Ray) -> u64 {
    slide_fill(0, cur, occ, d, 7)
}

/// Walk one ray outward from `cur`, collecting squares until the board
/// edge or the first occupied square (which is still collected).
pub fn slide_exec(cur: u64, occ: u64, d: Ray) -> (r: u64)
    ensures
        r == slide(cur, occ, d),
{
    let mut acc: u64 = 0;
    let mut t: u64 = cur;
    let mut k: u64 = 0;
    while k < 7
        invariant
            k <= 7,
            slide(cur, occ, d) == slide_fill(acc, t, occ, d, (7 - k) as nat),
        decreases 7 - k,
    {
        let nxt = match d {
            Ray::North => north_one(t),
            Ray::NorthEast => east_one(north_one(t)),
            Ray::East => east_one(t),
            Ray::SouthEast => east_one(south_one(t)),
            Ray::South => south_one(t),
            Ray::SouthWest => west_one(south_one(t)),
            Ray::West => west_one(t),
            Ray::NorthWest => west_one(north_one(t)),
        };
        assert(nxt == ray_step(t, d));
        if nxt == 0 {
            return acc;
        }
        if nxt & occ != 0 {
            return acc | nxt;
        }
        acc = acc | nxt;
        t = nxt;
        k = k + 1;
    }
    acc
}

/// Every square a rook on the single-square board `sq` attacks, with
/// blocker truncation.
pub open spec fn rook_attacks(sq: u64, occ: u64) -> u64 {
    slide(sq, occ, Ray::North) | slide(sq, occ, Ray::East) | slide(sq, occ, Ray::South) | slide(
        sq,
        occ,
        Ray::West,
    )
}

/// Every square a bishop on the single-square board `sq` attacks.
pub open spec fn bishop_attacks(sq: u64, occ: u64) -> u64 {
    slide(sq, occ, Ray::NorthEast) | slide(sq, occ, Ray::NorthWest) | slide(sq, occ, Ray::SouthEast)
        | slide(sq, occ, Ray::SouthWest)
}

/// Every square a rook on `sq` attacks.
pub fn rook_attacks_exec(sq: u64, occ: u64) -> (r: u64)
    ensures
        r == rook_attacks(sq, occ),
{
    slide_exec(sq, occ, Ray::North) | slide_exec(sq, occ, Ray::East) | slide_exec(
        sq,
        occ,
        Ray::South,
    ) | slide_exec(sq, occ, Ray::West)
}

/// Every square a bishop on `sq` attacks.
pub fn bishop_attacks_exec(sq: u64, occ: u64) -> (r: u64)
    ensures
        r == bishop_attacks(sq, occ),
{
    slide_exec(sq, occ, Ray::NorthEast) | slide_exec(sq, occ, Ray::NorthWest) | slide_exec(
        sq,
        occ,
        Ray::SouthEast,
    ) | slide_exec(sq, occ, Ray::SouthWest)
}

/// The destination squares of a knight on (every square of) `b`, with
/// wrap-around onto the far files excluded.
pub open spec fn knight_pattern(b: u64) -> u64 {
    ((b << 17) & !crate::board::A_FILE) | ((b << 10) & !(crate::board::A_FILE
        | crate::board::B_FILE)) | ((b >> 6) & !(crate::board::A_FILE | crate::board::B_FILE)) | ((b
        >> 15) & !crate::board::A_FILE) | ((b << 15) & !crate::board::H_FILE) | ((b << 6) & !(
    crate::board::G_FILE | crate::board::H_FILE)) | ((b >> 17) & !crate::board::H_FILE) | ((b >> 10)
        & !(crate::board::G_FILE | crate::board::H_FILE))
}

/// The destination squares of a knight on (every square of) `b`.
pub fn knight_pattern_exec(b: u64) -> (r: u64)
    ensures
        r == knight_pattern(b),
{
    ((b << 17) & !crate::board::A_FILE) | ((b << 10) & !(crate::board::A_FILE
        | crate::board::B_FILE)) | ((b >> 6) & !(crate::board::A_FILE | crate::board::B_FILE)) | ((b
        >> 15) & !crate::board::A_FILE) | ((b << 15) & !crate::board::H_FILE) | ((b << 6) & !(
    crate::board::G_FILE | crate::board::H_FILE)) | ((b >> 17) & !crate::board::H_FILE) | ((b >> 10)
        & !(crate::board::G_FILE | crate::board::H_FILE))
}

/// The squares adjacent to (every square of) `b`.
pub open spec fn king_pattern(b: u64) -> u64 {
    north_of(b) | south_of(b) | east_of(b) | west_of(b) | northeast_of(b) | northwest_of(b)
        | southeast_of(b) | southwest_of(b)
}

/// The squares adjacent to (every square of) `b`.
pub fn king_pattern_exec(b: u64) -> (r: u64)
    ensures
        r == king_pattern(b),
{
    north_one(b) | south_one(b) | east_one(b) | west_one(b) | northeast_one(b) | northwest_one(b)
        | southeast_one(b) | southwest_one(b)
}

/// The squares from which a pawn of `side` would attack (every square
/// of) `b`: the reverse of the pawn capture pattern.
pub open spec fn pawn_sources(b: u64, side: Side) -> u64 {
    match side {
        Side::White => southwest_of(b) | southeast_of(b),
        Side::Black => northwest_of(b) | northeast_of(b),
    }
}

/// Whether side `by` attacks square `sq`: a knight, king, pawn or
/// (along unblocked rays) slider of `by` reaches it.
pub open spec fn attacked(b: Board, sq: u64, by: Side) -> bool {
    let p = b.player_spec(by);
    let occ = b.occ_all();
    ||| knight_pattern(sq_bb(sq)) & p.knights != 0
    ||| king_pattern(sq_bb(sq)) & p.king != 0
    ||| pawn_sources(sq_bb(sq), by) & p.pawns != 0
    ||| rook_attacks(sq_bb(sq), occ) & (p.rooks | p.queens) != 0
    ||| bishop_attacks(sq_bb(sq), occ) & (p.bishops | p.queens) != 0
}

/// Whether side `by` attacks square `sq`.
pub fn attacked_exec(b: &Board, sq: u64, by: Side) -> (r: bool)
    requires
        sq < 64,
    ensures
        r == attacked(*b, sq, by),
{
    let p = b.player(by);
    let occ = b.occupancy_all();
    let s = 1u64 << sq;
    let pawn_from = match by {
        Side::White => southwest_one(s) | southeast_one(s),
        Side::Black => northwest_one(s) | northeast_one(s),
    };
    knight_pattern_exec(s) & p.knights != 0 || king_pattern_exec(s) & p.king != 0 || pawn_from
        & p.pawns != 0 || rook_attacks_exec(s, occ) & (p.rooks | p.queens) != 0
        || bishop_attacks_exec(s, occ) & (p.bishops | p.queens) != 0
}

/// The square of the (single) king of `p`.
pub open spec fn king_sq(p: Player) -> u64 {
    lowest_set(p.king, 0)
}

/// Whether the king of `side` is attacked in `b`.
pub open spec fn in_check(b: Board, side: Side) -> bool {
    attacked(b, king_sq(b.player_spec(side)), side.flip_spec())
}

/// Whether the king of `side` is attacked in `b`.
pub fn in_check_exec(b: &Board, side: Side) -> (r: bool)
    requires
        b.wf(),
    ensures
        r == in_check(*b, side),
{
    let p = b.player(side);
    let ksq = match crate::board::bitscan(p.king) {
        Some(i) => i,
        None => {
            proof {
                assert(false);
            }
            0
        },
    };
    attacked_exec(b, ksq, side.flip())
}


/// How each one-square step acts on a single-square board: when the
/// result is not empty it is the single square a fixed offset away.
pub proof fn lemma_pawn_steps()
    by (bit_vector)
    ensures
        forall|f: u64|
            f < 64 && #[trigger] north_of(sq_bb(f)) != 0 ==> f + 8 < 64 && north_of(sq_bb(f))
                == sq_bb((f + 8) as u64),
        forall|f: u64|
            f < 64 && #[trigger] south_of(sq_bb(f)) != 0 ==> f >= 8 && south_of(sq_bb(f)) == sq_bb(
                (f - 8) as u64,
            ),
        forall|f: u64|
            f < 64 && #[trigger] northeast_of(sq_bb(f)) != 0 ==> f + 9 < 64 && northeast_of(
                sq_bb(f),
            ) == sq_bb((f + 9) as u64),
        forall|f: u64|
            f < 64 && #[trigger] northwest_of(sq_bb(f)) != 0 ==> f + 7 < 64 && northwest_of(
                sq_bb(f),
            ) == sq_bb((f + 7) as u64),
        forall|f: u64|
            f < 64 && #[trigger] southeast_of(sq_bb(f)) != 0 ==> f >= 7 && southeast_of(sq_bb(f))
                == sq_bb((f - 7) as u64),
        forall|f: u64|
            f < 64 && #[trigger] southwest_of(sq_bb(f)) != 0 ==> f >= 9 && southwest_of(sq_bb(f))
                == sq_bb((f - 9) as u64),
{
}

/// The kind of the piece of `p` standing on `sq` (meaningful only
/// when some board of `p` holds `sq`).
pub open spec fn kind_at(p: Player, sq: u64) -> PieceKind {
    if nth(p.pawns, sq) {
        PieceKind::Pawn
    } else if nth(p.knights, sq) {
        PieceKind::Knight
    } else if nth(p.bishops, sq) {
        PieceKind::Bishop
    } else if nth(p.rooks, sq) {
        PieceKind::Rook
    } else if nth(p.queens, sq) {
        PieceKind::Queen
    } else {
        PieceKind::King
    }
}

/// The kind of the piece of `p` standing on `sq`.
pub fn kind_at_exec(p: &Player, sq: u64) -> (r: PieceKind)
    requires
        sq < 64,
    ensures
        r == kind_at(*p, sq),
{
    let m = 1u64 << sq;
    if p.pawns & m != 0 {
        PieceKind::Pawn
    } else if p.knights & m != 0 {
        PieceKind::Knight
    } else if p.bishops & m != 0 {
        PieceKind::Bishop
    } else if p.rooks & m != 0 {
        PieceKind::Rook
    } else if p.queens & m != 0 {
        PieceKind::Queen
    } else {
        PieceKind::King
    }
}

/// A plain (non-pawn, non-castling) move of `kind` from `from` to
/// `to`, its capture flags read off the board.
pub open spec fn simple_move(b: Board, s: State, from: u64, kind: PieceKind, to: u64) -> Move {
    let them = b.player_spec(s.stm.flip_spec());
    let cap = nth(b.occ_of(s.stm.flip_spec()), to);
    Move {
        from: from as usize,
        to: to as usize,
        flags: BoardFlags {
            piece: kind,
            capture: cap,
            captured: if cap {
                kind_at(them, to)
            } else {
                PieceKind::Pawn
            },
            passant: false,
            castle_king: false,
            castle_queen: false,
            promotion: false,
            promoted: PieceKind::Pawn,
        },
    }
}

/// One plain move for every square of `targets` at or above `i`.
pub open spec fn targets_moves(b: Board, s: State, from: u64, kind: PieceKind, targets: u64, i: u64) -> Seq<
    Move,
>
    decreases 64 - i,
{
    if i >= 64 {
        Seq::empty()
    } else {
        (if nth(targets, i) {
            seq![simple_move(b, s, from, kind, i)]
        } else {
            Seq::empty()
        }) + targets_moves(b, s, from, kind, targets, (i + 1) as u64)
    }
}

/// Append one plain move for every square of `targets`; each appended
/// move satisfies `move_ok`.
fn push_targets(b: &Board, s: &State, from: u64, kind: PieceKind, targets: u64, out: &mut Vec<Move>)
    requires
        crate::position::pos_wf(*b, *s),
        from < 64,
        kind != PieceKind::Pawn,
        nth(b.player_spec(s.stm).bb_spec(kind), from),
        targets & b.occ_of(s.stm) == 0,
        targets & b.player_spec(s.stm.flip_spec()).king == 0,
    ensures
        final(out)@ == old(out)@ + targets_moves(*b, *s, from, kind, targets, 0),
        forall|j: int|
            old(out)@.len() <= j < final(out)@.len() ==> crate::position::move_ok(
                *b,
                *s,
                final(out)@[j],
            ),
{
    proof {
        lemma_bit_ops();
        lemma_comm();
        lemma_disjoint_nth(targets, b.occ_of(s.stm));
        lemma_disjoint_nth(targets, b.player_spec(s.stm.flip_spec()).king);
        lemma_disjoint_nth(b.occ_white, b.occ_black);
    }
    let them = b.player(s.stm.flip());
    let occ_them = b.occupancy(s.stm.flip());
    let mut sq: u64 = 0;
    while sq < 64
        invariant
            sq <= 64,
            them == b.player_spec(s.stm.flip_spec()),
            occ_them == b.occ_of(s.stm.flip_spec()),
            crate::position::pos_wf(*b, *s),
            from < 64,
            kind != PieceKind::Pawn,
            nth(b.player_spec(s.stm).bb_spec(kind), from),
            targets & b.occ_of(s.stm) == 0,
            targets & b.player_spec(s.stm.flip_spec()).king == 0,
            old(out)@ + targets_moves(*b, *s, from, kind, targets, 0) == out@ + targets_moves(
                *b,
                *s,
                from,
                kind,
                targets,
                sq,
            ),
            forall|j: int|
                old(out)@.len() <= j < out@.len() ==> crate::position::move_ok(*b, *s, out@[j]),
        decreases 64 - sq,
    {
        proof {
            lemma_bit_ops();
            lemma_disjoint_nth(targets, b.occ_of(s.stm));
            lemma_disjoint_nth(targets, b.player_spec(s.stm.flip_spec()).king);
        }
        if targets & (1u64 << sq) != 0 {
            assert(nth(targets, sq));
            let cap = occ_them & (1u64 << sq) != 0;
            let captured = if cap {
                kind_at_exec(&them, sq)
            } else {
                PieceKind::Pawn
            };
            let m = Move {
                from: from as usize,
                to: sq as usize,
                flags: BoardFlags {
                    piece: kind,
                    capture: cap,
                    captured,
                    passant: false,
                    castle_king: false,
                    castle_queen: false,
                    promotion: false,
                    promoted: PieceKind::Pawn,
                },
            };
            proof {
                assert(cap == nth(b.occ_of(s.stm.flip_spec()), sq));
                assert(m == simple_move(*b, *s, from, kind, sq));
                assert(!nth(b.occ_of(s.stm), sq));
                if cap {
                    let themp = b.player_spec(s.stm.flip_spec());
                    assert(nth(themp.occ_spec(), sq));
                    assert(!nth(themp.king, sq));
                    assert(nth(themp.bb_spec(kind_at(themp, sq)), sq));
                    assert(kind_at(themp, sq) != PieceKind::King);
                }
                assert(crate::position::move_ok(*b, *s, m));
            }
            let ghost out_pre = out@;
            out.push(m);
            proof {
                assert(out@ == out_pre + seq![m]);
                assert(targets_moves(*b, *s, from, kind, targets, sq) == seq![m] + targets_moves(
                    *b,
                    *s,
                    from,
                    kind,
                    targets,
                    (sq + 1) as u64,
                ));
                assert(out_pre + targets_moves(*b, *s, from, kind, targets, sq) == (out_pre + seq![
                    m,
                ]) + targets_moves(*b, *s, from, kind, targets, (sq + 1) as u64)) by {
                    assert(out_pre + (seq![m] + targets_moves(
                        *b,
                        *s,
                        from,
                        kind,
                        targets,
                        (sq + 1) as u64,
                    )) =~= (out_pre + seq![m]) + targets_moves(
                        *b,
                        *s,
                        from,
                        kind,
                        targets,
                        (sq + 1) as u64,
                    ));
                }
            }
        } else {
            assert(!nth(targets, sq));
            assert(targets_moves(*b, *s, from, kind, targets, sq) == targets_moves(
                *b,
                *s,
                from,
                kind,
                targets,
                (sq + 1) as u64,
            )) by {
                assert(Seq::<Move>::empty() + targets_moves(
                    *b,
                    *s,
                    from,
                    kind,
                    targets,
                    (sq + 1) as u64,
                ) =~= targets_moves(*b, *s, from, kind, targets, (sq + 1) as u64));
            }
        }
        sq = sq + 1;
    }
    assert(targets_moves(*b, *s, from, kind, targets, 64) =~= Seq::<Move>::empty());
    assert(out@ + targets_moves(*b, *s, from, kind, targets, 64) =~= out@);
}

/// A pawn move with the given properties.
pub open spec fn pawn_mv(
    from: u64,
    to: u64,
    cap: bool,
    captured: PieceKind,
    passant: bool,
    promo: bool,
    promoted: PieceKind,
) -> Move {
    Move {
        from: from as usize,
        to: to as usize,
        flags: BoardFlags {
            piece: PieceKind::Pawn,
            capture: cap,
            captured,
            passant,
            castle_king: false,
            castle_queen: false,
            promotion: promo,
            promoted,
        },
    }
}

/// The four promotion choices for a pawn arriving on the farthest
/// rank.
pub open spec fn promo_moves(from: u64, to: u64, cap: bool, captured: PieceKind) -> Seq<Move> {
    seq![
        pawn_mv(from, to, cap, captured, false, true, PieceKind::Knight),
        pawn_mv(from, to, cap, captured, false, true, PieceKind::Bishop),
        pawn_mv(from, to, cap, captured, false, true, PieceKind::Rook),
        pawn_mv(from, to, cap, captured, false, true, PieceKind::Queen),
    ]
}

/// Whether `to` lies on the farthest rank for a pawn of `stm`.
pub open spec fn last_rank(stm: Side, to: u64) -> bool {
    match stm {
        Side::White => to >= 56,
        Side::Black => to < 8,
    }
}

/// The push moves of the pawn of the side to move on `from`: a single
/// push onto an empty square (expanded when it promotes), and a double
/// push from the starting rank across two empty squares.
pub open spec fn pawn_push_seq(b: Board, s: State, from: u64) -> Seq<Move> {
    let fb = sq_bb(from);
    if s.stm == Side::White {
        let t1 = north_of(fb) & !b.occ_all();
        if t1 != 0 {
            let to = (from + 8) as u64;
            let single = if to >= 56 {
                promo_moves(from, to, false, PieceKind::Pawn)
            } else {
                seq![pawn_mv(from, to, false, PieceKind::Pawn, false, false, PieceKind::Pawn)]
            };
            let dbl: Seq<Move> = if 8 <= from < 16 && (north_of(t1) & !b.occ_all()) != 0 {
                seq![
                    pawn_mv(
                        from,
                        (from + 16) as u64,
                        false,
                        PieceKind::Pawn,
                        false,
                        false,
                        PieceKind::Pawn,
                    ),
                ]
            } else {
                Seq::empty()
            };
            single + dbl
        } else {
            Seq::empty()
        }
    } else {
        let t1 = south_of(fb) & !b.occ_all();
        if t1 != 0 {
            let to = (from - 8) as u64;
            let single = if to < 8 {
                promo_moves(from, to, false, PieceKind::Pawn)
            } else {
                seq![pawn_mv(from, to, false, PieceKind::Pawn, false, false, PieceKind::Pawn)]
            };
            let dbl: Seq<Move> = if 48 <= from < 56 && (south_of(t1) & !b.occ_all()) != 0 {
                seq![
                    pawn_mv(
                        from,
                        (from - 16) as u64,
                        false,
                        PieceKind::Pawn,
                        false,
                        false,
                        PieceKind::Pawn,
                    ),
                ]
            } else {
                Seq::empty()
            };
            single + dbl
        } else {
            Seq::empty()
        }
    }
}

/// One diagonal pawn capture, when `tbb` (the attack square masked to
/// capturable enemy pieces) is occupied; expanded when it promotes.
pub open spec fn pawn_cap_one(b: Board, s: State, from: u64, tbb: u64, to: u64) -> Seq<Move> {
    let them = b.player_spec(s.stm.flip_spec());
    if tbb != 0 {
        let captured = kind_at(them, to);
        if last_rank(s.stm, to) {
            promo_moves(from, to, true, captured)
        } else {
            seq![pawn_mv(from, to, true, captured, false, false, PieceKind::Pawn)]
        }
    } else {
        Seq::empty()
    }
}

/// The diagonal captures of the pawn of the side to move on `from`.
pub open spec fn pawn_caps_seq(b: Board, s: State, from: u64) -> Seq<Move> {
    let fb = sq_bb(from);
    let them = b.player_spec(s.stm.flip_spec());
    let prey = b.occ_of(s.stm.flip_spec()) & !them.king;
    if s.stm == Side::White {
        pawn_cap_one(b, s, from, northwest_of(fb) & prey, (from + 7) as u64) + pawn_cap_one(
            b,
            s,
            from,
            northeast_of(fb) & prey,
            (from + 9) as u64,
        )
    } else {
        pawn_cap_one(b, s, from, southwest_of(fb) & prey, (from - 9) as u64) + pawn_cap_one(
            b,
            s,
            from,
            southeast_of(fb) & prey,
            (from - 7) as u64,
        )
    }
}

/// The en-passant capture of the pawn on `from`, when the target is
/// set and this pawn attacks it.
pub open spec fn pawn_ep_seq(b: Board, s: State, from: u64) -> Seq<Move> {
    match s.en_passant_square {
        None => Seq::empty(),
        Some(e) => {
            let fb = sq_bb(from);
            let att = if s.stm == Side::White {
                northwest_of(fb) | northeast_of(fb)
            } else {
                southwest_of(fb) | southeast_of(fb)
            };
            if att & sq_bb(e as u64) != 0 {
                seq![pawn_mv(from, e as u64, true, PieceKind::Pawn, true, false, PieceKind::Pawn)]
            } else {
                Seq::empty()
            }
        },
    }
}

/// Every move of the pawn of the side to move on `from`.
pub open spec fn pawn_moves_from(b: Board, s: State, from: u64) -> Seq<Move> {
    (pawn_push_seq(b, s, from) + pawn_caps_seq(b, s, from)) + pawn_ep_seq(b, s, from)
}

/// Append the four promotion moves of one pawn arrival.
fn push_promos(
    b: &Board,
    s: &State,
    from: u64,
    to: u64,
    cap: bool,
    captured: PieceKind,
    out: &mut Vec<Move>,
)
    requires
        crate::position::move_ok(
            *b,
            *s,
            pawn_mv(from, to, cap, captured, false, true, PieceKind::Knight),
        ),
        crate::position::move_ok(
            *b,
            *s,
            pawn_mv(from, to, cap, captured, false, true, PieceKind::Bishop),
        ),
        crate::position::move_ok(
            *b,
            *s,
            pawn_mv(from, to, cap, captured, false, true, PieceKind::Rook),
        ),
        crate::position::move_ok(
            *b,
            *s,
            pawn_mv(from, to, cap, captured, false, true, PieceKind::Queen),
        ),
        from < 64,
        to < 64,
    ensures
        final(out)@ == old(out)@ + promo_moves(from, to, cap, captured),
        forall|j: int|
            old(out)@.len() <= j < final(out)@.len() ==> crate::position::move_ok(
                *b,
                *s,
                final(out)@[j],
            ),
{
    let ghost pre = out@;
    let base = BoardFlags {
        piece: PieceKind::Pawn,
        capture: cap,
        captured,
        passant: false,
        castle_king: false,
        castle_queen: false,
        promotion: true,
        promoted: PieceKind::Knight,
    };
    out.push(Move { from: from as usize, to: to as usize, flags: base });
    out.push(
        Move {
            from: from as usize,
            to: to as usize,
            flags: BoardFlags { promoted: PieceKind::Bishop, ..base },
        },
    );
    out.push(
        Move {
            from: from as usize,
            to: to as usize,
            flags: BoardFlags { promoted: PieceKind::Rook, ..base },
        },
    );
    out.push(
        Move {
            from: from as usize,
            to: to as usize,
            flags: BoardFlags { promoted: PieceKind::Queen, ..base },
        },
    );
    proof {
        assert(out@ =~= pre + promo_moves(from, to, cap, captured));
    }
}

/// Append every move of the pawn of the side to move on `from`; each
/// appended move satisfies `move_ok`.
fn push_pawn_moves(b: &Board, s: &State, from: u64, out: &mut Vec<Move>)
    requires
        crate::position::pos_wf(*b, *s),
        from < 64,
        nth(b.player_spec(s.stm).pawns, from),
    ensures
        final(out)@ == old(out)@ + pawn_moves_from(*b, *s, from),
        forall|j: int|
            old(out)@.len() <= j < final(out)@.len() ==> crate::position::move_ok(
                *b,
                *s,
                final(out)@[j],
            ),
{
    let ghost pre = out@;
    push_pawn_pushes(b, s, from, out);
    push_pawn_caps(b, s, from, out);
    push_pawn_ep(b, s, from, out);
    proof {
        assert(out@ =~= pre + pawn_moves_from(*b, *s, from));
    }
}

/// Append the push moves of the pawn on `from`.
#[verifier::rlimit(60)]
fn push_pawn_pushes(b: &Board, s: &State, from: u64, out: &mut Vec<Move>)
    requires
        crate::position::pos_wf(*b, *s),
        from < 64,
        nth(b.player_spec(s.stm).pawns, from),
    ensures
        final(out)@ == old(out)@ + pawn_push_seq(*b, *s, from),
        forall|j: int|
            old(out)@.len() <= j < final(out)@.len() ==> crate::position::move_ok(
                *b,
                *s,
                final(out)@[j],
            ),
{
    proof {
        lemma_bit_ops();
        lemma_comm();
        crate::bits::lemma_single_bits();
        lemma_pawn_steps();
        lemma_disjoint_nth(b.occ_white, b.occ_black);
    }
    let fb = 1u64 << from;
    let occ_all = b.occupancy_all();
    let ghost pre = out@;
    let white = matches!(s.stm, Side::White);
    let t1 = if white {
        north_one(fb) & !occ_all
    } else {
        south_one(fb) & !occ_all
    };
    if t1 != 0 {
        let to: u64 = if white {
            proof {
                assert(north_of(sq_bb(from)) != 0);
            }
            from + 8
        } else {
            proof {
                assert(south_of(sq_bb(from)) != 0);
            }
            from - 8
        };
        proof {
            assert(t1 == sq_bb(to) & !b.occ_all());
            assert(!nth(b.occ_all(), to));
            assert(!nth(b.occ_of(s.stm), to) && !nth(b.occ_of(s.stm.flip_spec()), to));
        }
        if (white && to >= 56) || (!white && to < 8) {
            proof {
                assert(crate::position::move_ok(
                    *b,
                    *s,
                    pawn_mv(from, to, false, PieceKind::Pawn, false, true, PieceKind::Knight),
                ));
                assert(crate::position::move_ok(
                    *b,
                    *s,
                    pawn_mv(from, to, false, PieceKind::Pawn, false, true, PieceKind::Bishop),
                ));
                assert(crate::position::move_ok(
                    *b,
                    *s,
                    pawn_mv(from, to, false, PieceKind::Pawn, false, true, PieceKind::Rook),
                ));
                assert(crate::position::move_ok(
                    *b,
                    *s,
                    pawn_mv(from, to, false, PieceKind::Pawn, false, true, PieceKind::Queen),
                ));
            }
            push_promos(b, s, from, to, false, PieceKind::Pawn, out);
        } else {
            let m = Move {
                from: from as usize,
                to: to as usize,
                flags: BoardFlags {
                    piece: PieceKind::Pawn,
                    capture: false,
                    captured: PieceKind::Pawn,
                    passant: false,
                    castle_king: false,
                    castle_queen: false,
                    promotion: false,
                    promoted: PieceKind::Pawn,
                },
            };
            proof {
                assert(m == pawn_mv(from, to, false, PieceKind::Pawn, false, false, PieceKind::Pawn));
                assert(m.to != m.from + 16 && m.to + 16 != m.from);
                assert(crate::position::move_ok(*b, *s, m));
            }
            out.push(m);
        }
        if (white && from >= 8 && from < 16) || (!white && from >= 48 && from < 56) {
            let t2 = if white {
                north_one(t1) & !occ_all
            } else {
                south_one(t1) & !occ_all
            };
            if t2 != 0 {
                let to2: u64 = if white {
                    from + 16
                } else {
                    from - 16
                };
                proof {
                    if white {
                        assert(north_of(sq_bb(to)) != 0);
                        assert(t2 == sq_bb(to2) & !b.occ_all());
                    } else {
                        assert(south_of(sq_bb(to)) != 0);
                        assert(t2 == sq_bb(to2) & !b.occ_all());
                    }
                    assert(!nth(b.occ_all(), to2));
                }
                let m = Move {
                    from: from as usize,
                    to: to2 as usize,
                    flags: BoardFlags {
                        piece: PieceKind::Pawn,
                        capture: false,
                        captured: PieceKind::Pawn,
                        passant: false,
                        castle_king: false,
                        castle_queen: false,
                        promotion: false,
                        promoted: PieceKind::Pawn,
                    },
                };
                proof {
                    assert(m == pawn_mv(
                        from,
                        to2,
                        false,
                        PieceKind::Pawn,
                        false,
                        false,
                        PieceKind::Pawn,
                    ));
                    assert(crate::position::move_ok(*b, *s, m));
                }
                out.push(m);
            }
        }
    }
    proof {
        assert(out@ =~= pre + pawn_push_seq(*b, *s, from));
    }
}

/// Append the diagonal captures of the pawn on `from`.
#[verifier::rlimit(60)]
fn push_pawn_caps(b: &Board, s: &State, from: u64, out: &mut Vec<Move>)
    requires
        crate::position::pos_wf(*b, *s),
        from < 64,
        nth(b.player_spec(s.stm).pawns, from),
    ensures
        final(out)@ == old(out)@ + pawn_caps_seq(*b, *s, from),
        forall|j: int|
            old(out)@.len() <= j < final(out)@.len() ==> crate::position::move_ok(
                *b,
                *s,
                final(out)@[j],
            ),
{
    proof {
        lemma_bit_ops();
        lemma_comm();
        crate::bits::lemma_single_bits();
        lemma_pawn_steps();
    }
    let fb = 1u64 << from;
    let them = b.player(s.stm.flip());
    let occ_them = b.occupancy(s.stm.flip());
    let prey = occ_them & !them.king;
    let ghost pre = out@;
    let white = matches!(s.stm, Side::White);
    let ghost prey_s = b.occ_of(s.stm.flip_spec()) & !b.player_spec(s.stm.flip_spec()).king;
    let cw = if white {
        northwest_one(fb) & prey
    } else {
        southwest_one(fb) & prey
    };
    if cw != 0 {
        let to: u64 = if white {
            proof {
                assert(northwest_of(sq_bb(from)) != 0);
            }
            from + 7
        } else {
            proof {
                assert(southwest_of(sq_bb(from)) != 0);
            }
            from - 9
        };
        proof {
            assert(cw == sq_bb(to) & prey_s);
            assert(nth(prey_s, to));
            assert(nth(b.occ_of(s.stm.flip_spec()), to) && !nth(
                b.player_spec(s.stm.flip_spec()).king,
                to,
            ));
        }
        push_pawn_capture(b, s, from, to, out);
    }
    proof {
        assert(out@ =~= pre + pawn_cap_one(
            *b,
            *s,
            from,
            if s.stm == Side::White {
                northwest_of(sq_bb(from)) & prey_s
            } else {
                southwest_of(sq_bb(from)) & prey_s
            },
            if s.stm == Side::White {
                (from + 7) as u64
            } else {
                (from - 9) as u64
            },
        ));
    }
    let ce = if white {
        northeast_one(fb) & prey
    } else {
        southeast_one(fb) & prey
    };
    if ce != 0 {
        let to: u64 = if white {
            proof {
                assert(northeast_of(sq_bb(from)) != 0);
            }
            from + 9
        } else {
            proof {
                assert(southeast_of(sq_bb(from)) != 0);
            }
            from - 7
        };
        proof {
            assert(ce == sq_bb(to) & prey_s);
            assert(nth(prey_s, to));
            assert(nth(b.occ_of(s.stm.flip_spec()), to) && !nth(
                b.player_spec(s.stm.flip_spec()).king,
                to,
            ));
        }
        push_pawn_capture(b, s, from, to, out);
    }
    proof {
        assert(out@ =~= pre + pawn_caps_seq(*b, *s, from));
    }
}

/// Append the en-passant capture of the pawn on `from`, when one is
/// available.
#[verifier::rlimit(60)]
fn push_pawn_ep(b: &Board, s: &State, from: u64, out: &mut Vec<Move>)
    requires
        crate::position::pos_wf(*b, *s),
        from < 64,
        nth(b.player_spec(s.stm).pawns, from),
    ensures
        final(out)@ == old(out)@ + pawn_ep_seq(*b, *s, from),
        forall|j: int|
            old(out)@.len() <= j < final(out)@.len() ==> crate::position::move_ok(
                *b,
                *s,
                final(out)@[j],
            ),
{
    proof {
        lemma_bit_ops();
        lemma_comm();
        crate::bits::lemma_single_bits();
        lemma_pawn_steps();
    }
    let fb = 1u64 << from;
    let ghost pre = out@;
    let white = matches!(s.stm, Side::White);
    if let Some(e) = s.en_passant_square {
        let att = if white {
            northwest_one(fb) | northeast_one(fb)
        } else {
            southwest_one(fb) | southeast_one(fb)
        };
        if att & (1u64 << (e as u64)) != 0 {
            proof {
                assert(sq_bb(e as u64) & att != 0);
                assert(nth(att, e as u64));
            }
            let m = Move {
                from: from as usize,
                to: e,
                flags: BoardFlags {
                    piece: PieceKind::Pawn,
                    capture: true,
                    captured: PieceKind::Pawn,
                    passant: true,
                    castle_king: false,
                    castle_queen: false,
                    promotion: false,
                    promoted: PieceKind::Pawn,
                },
            };
            proof {
                assert(m == pawn_mv(
                    from,
                    e as u64,
                    true,
                    PieceKind::Pawn,
                    true,
                    false,
                    PieceKind::Pawn,
                ));
                assert(!nth(b.occ_all(), e as u64));
                assert(crate::position::move_ok(*b, *s, m));
            }
            out.push(m);
        }
    }
    proof {
        assert(out@ =~= pre + pawn_ep_seq(*b, *s, from));
    }
}

/// Append one diagonal pawn capture landing on `to` (which holds a
/// capturable enemy piece), expanding promotions.
fn push_pawn_capture(b: &Board, s: &State, from: u64, to: u64, out: &mut Vec<Move>)
    requires
        crate::position::pos_wf(*b, *s),
        from < 64,
        to < 64,
        nth(b.player_spec(s.stm).pawns, from),
        nth(b.occ_of(s.stm.flip_spec()), to),
        !nth(b.player_spec(s.stm.flip_spec()).king, to),
        s.stm == Side::White ==> to == from + 7 || to == from + 9,
        s.stm == Side::Black ==> to + 7 == from || to + 9 == from,
    ensures
        final(out)@ == old(out)@ + (if last_rank(s.stm, to) {
            promo_moves(from, to, true, kind_at(b.player_spec(s.stm.flip_spec()), to))
        } else {
            seq![
                pawn_mv(
                    from,
                    to,
                    true,
                    kind_at(b.player_spec(s.stm.flip_spec()), to),
                    false,
                    false,
                    PieceKind::Pawn,
                ),
            ]
        }),
        forall|j: int|
            old(out)@.len() <= j < final(out)@.len() ==> crate::position::move_ok(
                *b,
                *s,
                final(out)@[j],
            ),
{
    proof {
        lemma_bit_ops();
        lemma_comm();
        lemma_disjoint_nth(b.occ_white, b.occ_black);
    }
    let them = b.player(s.stm.flip());
    let captured = kind_at_exec(&them, to);
    proof {
        let themp = b.player_spec(s.stm.flip_spec());
        assert(nth(themp.occ_spec(), to));
        assert(nth(themp.bb_spec(kind_at(themp, to)), to));
        assert(kind_at(themp, to) != PieceKind::King);
        assert(!nth(b.occ_of(s.stm), to));
    }
    let last = match s.stm {
        Side::White => to >= 56,
        Side::Black => to < 8,
    };
    if last {
        proof {
            assert(crate::position::move_ok(
                *b,
                *s,
                pawn_mv(from, to, true, captured, false, true, PieceKind::Knight),
            ));
            assert(crate::position::move_ok(
                *b,
                *s,
                pawn_mv(from, to, true, captured, false, true, PieceKind::Bishop),
            ));
            assert(crate::position::move_ok(
                *b,
                *s,
                pawn_mv(from, to, true, captured, false, true, PieceKind::Rook),
            ));
            assert(crate::position::move_ok(
                *b,
                *s,
                pawn_mv(from, to, true, captured, false, true, PieceKind::Queen),
            ));
        }
        push_promos(b, s, from, to, true, captured, out);
    } else {
        let m = Move {
            from: from as usize,
            to: to as usize,
            flags: BoardFlags {
                piece: PieceKind::Pawn,
                capture: true,
                captured,
                passant: false,
                castle_king: false,
                castle_queen: false,
                promotion: false,
                promoted: PieceKind::Pawn,
            },
        };
        proof {
            assert(m == pawn_mv(from, to, true, captured, false, false, PieceKind::Pawn));
            assert(crate::position::move_ok(*b, *s, m));
        }
        out.push(m);
    }
}

/// A castling move of the side to move.
pub open spec fn castle_mv(from: u64, to: u64, kingside: bool) -> Move {
    Move {
        from: from as usize,
        to: to as usize,
        flags: BoardFlags {
            piece: PieceKind::King,
            capture: false,
            captured: PieceKind::Pawn,
            passant: false,
            castle_king: kingside,
            castle_queen: !kingside,
            promotion: false,
            promoted: PieceKind::Pawn,
        },
    }
}

/// The castling moves available to the side to move: the right is
/// still held, king and rook stand on their home squares, the squares
/// between them are empty, and the king neither stands on, passes
/// through, nor lands on an attacked square.
pub open spec fn castle_seq(b: Board, s: State) -> Seq<Move> {
    let us = b.player_spec(s.stm);
    let foe = s.stm.flip_spec();
    let occ = b.occ_all();
    if s.stm == Side::White {
        (if s.castling_rights.0 & crate::position::Castling::WHITE_00 != 0 && nth(us.king, 4)
            && nth(us.rooks, 7) && !nth(occ, 5) && !nth(occ, 6) && !attacked(b, 4, foe) && !attacked(
            b,
            5,
            foe,
        ) && !attacked(b, 6, foe) {
            seq![castle_mv(4, 6, true)]
        } else {
            Seq::empty()
        }) + (if s.castling_rights.0 & crate::position::Castling::WHITE_000 != 0 && nth(us.king, 4)
            && nth(us.rooks, 0) && !nth(occ, 1) && !nth(occ, 2) && !nth(occ, 3) && !attacked(
            b,
            4,
            foe,
        ) && !attacked(b, 3, foe) && !attacked(b, 2, foe) {
            seq![castle_mv(4, 2, false)]
        } else {
            Seq::empty()
        })
    } else {
        (if s.castling_rights.0 & crate::position::Castling::BLACK_00 != 0 && nth(us.king, 60)
            && nth(us.rooks, 63) && !nth(occ, 61) && !nth(occ, 62) && !attacked(b, 60, foe)
            && !attacked(b, 61, foe) && !attacked(b, 62, foe) {
            seq![castle_mv(60, 62, true)]
        } else {
            Seq::empty()
        }) + (if s.castling_rights.0 & crate::position::Castling::BLACK_000 != 0 && nth(us.king, 60)
            && nth(us.rooks, 56) && !nth(occ, 57) && !nth(occ, 58) && !nth(occ, 59) && !attacked(
            b,
            60,
            foe,
        ) && !attacked(b, 59, foe) && !attacked(b, 58, foe) {
            seq![castle_mv(60, 58, false)]
        } else {
            Seq::empty()
        })
    }
}

/// Append the available castling moves; each appended move satisfies
/// `move_ok`.
#[verifier::rlimit(60)]
fn push_castles(b: &Board, s: &State, out: &mut Vec<Move>)
    requires
        crate::position::pos_wf(*b, *s),
    ensures
        final(out)@ == old(out)@ + castle_seq(*b, *s),
        forall|j: int|
            old(out)@.len() <= j < final(out)@.len() ==> crate::position::move_ok(
                *b,
                *s,
                final(out)@[j],
            ),
{
    proof {
        lemma_bit_ops();
        lemma_comm();
        lemma_disjoint_nth(b.occ_white, b.occ_black);
    }
    let us = b.player(s.stm);
    let foe = s.stm.flip();
    let occ = b.occupancy_all();
    let ghost pre = out@;
    let white = matches!(s.stm, Side::White);
    let (kf, kt_k, kt_q, rk, rq): (u64, u64, u64, u64, u64) = if white {
        (4, 6, 2, 7, 0)
    } else {
        (60, 62, 58, 63, 56)
    };
    let right_k = if white {
        s.castling_rights.0 & crate::position::Castling::WHITE_00 != 0
    } else {
        s.castling_rights.0 & crate::position::Castling::BLACK_00 != 0
    };
    let right_q = if white {
        s.castling_rights.0 & crate::position::Castling::WHITE_000 != 0
    } else {
        s.castling_rights.0 & crate::position::Castling::BLACK_000 != 0
    };
    if right_k && us.king & (1u64 << kf) != 0 && us.rooks & (1u64 << rk) != 0 && occ & (1u64 << (kf
        + 1)) == 0 && occ & (1u64 << kt_k) == 0 && !attacked_exec(b, kf, foe) && !attacked_exec(
        b,
        kf + 1,
        foe,
    ) && !attacked_exec(b, kt_k, foe) {
        let m = Move {
            from: kf as usize,
            to: kt_k as usize,
            flags: BoardFlags {
                piece: PieceKind::King,
                capture: false,
                captured: PieceKind::Pawn,
                passant: false,
                castle_king: true,
                castle_queen: false,
                promotion: false,
                promoted: PieceKind::Pawn,
            },
        };
        proof {
            assert(m == castle_mv(kf, kt_k, true));
            assert(nth(us.king, kf) && nth(us.rooks, rk));
            assert(!nth(b.occ_all(), (kf + 1) as u64) && !nth(b.occ_all(), kt_k));
            assert(crate::position::move_ok(*b, *s, m));
        }
        out.push(m);
    }
    if right_q && us.king & (1u64 << kf) != 0 && us.rooks & (1u64 << rq) != 0 && occ & (1u64 << (rq
        + 1)) == 0 && occ & (1u64 << kt_q) == 0 && occ & (1u64 << (kf - 1)) == 0 && !attacked_exec(
        b,
        kf,
        foe,
    ) && !attacked_exec(b, kf - 1, foe) && !attacked_exec(b, kt_q, foe) {
        let m = Move {
            from: kf as usize,
            to: kt_q as usize,
            flags: BoardFlags {
                piece: PieceKind::King,
                capture: false,
                captured: PieceKind::Pawn,
                passant: false,
                castle_king: false,
                castle_queen: true,
                promotion: false,
                promoted: PieceKind::Pawn,
            },
        };
        proof {
            assert(m == castle_mv(kf, kt_q, false));
            assert(nth(us.king, kf) && nth(us.rooks, rq));
            assert(!nth(b.occ_all(), (rq + 1) as u64) && !nth(b.occ_all(), kt_q) && !nth(
                b.occ_all(),
                (kf - 1) as u64,
            ));
            assert(crate::position::move_ok(*b, *s, m));
        }
        out.push(m);
    }
    proof {
        assert(out@ =~= pre + castle_seq(*b, *s));
    }
}

/// Every pseudo-legal move of the piece of the side to move standing
/// on `from` (castling excluded; it is appended separately).
pub open spec fn moves_at(b: Board, s: State, from: u64) -> Seq<Move> {
    let us = b.player_spec(s.stm);
    let them = b.player_spec(s.stm.flip_spec());
    let free = !b.occ_of(s.stm) & !them.king;
    if nth(us.pawns, from) {
        pawn_moves_from(b, s, from)
    } else if nth(us.knights, from) {
        targets_moves(b, s, from, PieceKind::Knight, knight_pattern(sq_bb(from)) & free, 0)
    } else if nth(us.bishops, from) {
        targets_moves(
            b,
            s,
            from,
            PieceKind::Bishop,
            bishop_attacks(sq_bb(from), b.occ_all()) & free,
            0,
        )
    } else if nth(us.rooks, from) {
        targets_moves(
            b,
            s,
            from,
            PieceKind::Rook,
            rook_attacks(sq_bb(from), b.occ_all()) & free,
            0,
        )
    } else if nth(us.queens, from) {
        targets_moves(
            b,
            s,
            from,
            PieceKind::Queen,
            (rook_attacks(sq_bb(from), b.occ_all()) | bishop_attacks(sq_bb(from), b.occ_all()))
                & free,
            0,
        )
    } else if nth(us.king, from) {
        targets_moves(b, s, from, PieceKind::King, king_pattern(sq_bb(from)) & free, 0)
    } else {
        Seq::empty()
    }
}

/// The pseudo-legal moves of all pieces standing on squares at or
/// above `from`.
pub open spec fn pseudo_from(b: Board, s: State, from: u64) -> Seq<Move>
    decreases 64 - from,
{
    if from >= 64 {
        Seq::empty()
    } else {
        moves_at(b, s, from) + pseudo_from(b, s, (from + 1) as u64)
    }
}

/// Every pseudo-legal move of the side to move: moves respecting
/// piece movement rules and occupancy, but not yet filtered for
/// leaving the mover's own king attacked.
pub open spec fn pseudo_moves_spec(b: Board, s: State) -> Seq<Move> {
    pseudo_from(b, s, 0) + castle_seq(b, s)
}

/// The masking that target sets receive: never onto an own piece, and
/// never capturing a king.
proof fn lemma_free_mask(x: u64, a: u64, k: u64)
    by (bit_vector)
    ensures
        (x & (!a & !k)) & a == 0,
        (x & (!a & !k)) & k == 0,
{
}

/// Generate every pseudo-legal move of the side to move; each
/// satisfies `move_ok`.
#[verifier::rlimit(60)]
pub fn pseudo_moves(b: &Board, s: &State) -> (r: Vec<Move>)
    requires
        crate::position::pos_wf(*b, *s),
    ensures
        r@ == pseudo_moves_spec(*b, *s),
        forall|j: int| 0 <= j < r@.len() ==> crate::position::move_ok(*b, *s, r@[j]),
{
    proof {
        lemma_bit_ops();
    }
    let mut out: Vec<Move> = Vec::new();
    let us = b.player(s.stm);
    let them = b.player(s.stm.flip());
    let occ_us = b.occupancy(s.stm);
    let occ = b.occupancy_all();
    let free = !occ_us & !them.king;
    let mut from: u64 = 0;
    while from < 64
        invariant
            from <= 64,
            crate::position::pos_wf(*b, *s),
            us == b.player_spec(s.stm),
            them == b.player_spec(s.stm.flip_spec()),
            occ_us == b.occ_of(s.stm),
            occ == b.occ_all(),
            free == !b.occ_of(s.stm) & !b.player_spec(s.stm.flip_spec()).king,
            pseudo_from(*b, *s, 0) == out@ + pseudo_from(*b, *s, from),
            forall|j: int| 0 <= j < out@.len() ==> crate::position::move_ok(*b, *s, out@[j]),
        decreases 64 - from,
    {
        let ghost pre = out@;
        let fbit = 1u64 << from;
        proof {
            lemma_bit_ops();
            lemma_free_mask(0, occ_us, them.king);
        }
        if us.pawns & fbit != 0 {
            assert(nth(us.pawns, from));
            push_pawn_moves(b, s, from, &mut out);
        } else if us.knights & fbit != 0 {
            assert(nth(us.knights, from));
            let targets = knight_pattern_exec(fbit) & free;
            proof {
                lemma_free_mask(knight_pattern(sq_bb(from)), occ_us, them.king);
            }
            push_targets(b, s, from, PieceKind::Knight, targets, &mut out);
        } else if us.bishops & fbit != 0 {
            assert(nth(us.bishops, from));
            let targets = bishop_attacks_exec(fbit, occ) & free;
            proof {
                lemma_free_mask(bishop_attacks(sq_bb(from), b.occ_all()), occ_us, them.king);
            }
            push_targets(b, s, from, PieceKind::Bishop, targets, &mut out);
        } else if us.rooks & fbit != 0 {
            assert(nth(us.rooks, from));
            let targets = rook_attacks_exec(fbit, occ) & free;
            proof {
                lemma_free_mask(rook_attacks(sq_bb(from), b.occ_all()), occ_us, them.king);
            }
            push_targets(b, s, from, PieceKind::Rook, targets, &mut out);
        } else if us.queens & fbit != 0 {
            assert(nth(us.queens, from));
            let targets = (rook_attacks_exec(fbit, occ) | bishop_attacks_exec(fbit, occ)) & free;
            proof {
                lemma_free_mask(
                    rook_attacks(sq_bb(from), b.occ_all()) | bishop_attacks(
                        sq_bb(from),
                        b.occ_all(),
                    ),
                    occ_us,
                    them.king,
                );
            }
            push_targets(b, s, from, PieceKind::Queen, targets, &mut out);
        } else if us.king & fbit != 0 {
            assert(nth(us.king, from));
            let targets = king_pattern_exec(fbit) & free;
            proof {
                lemma_free_mask(king_pattern(sq_bb(from)), occ_us, them.king);
            }
            push_targets(b, s, from, PieceKind::King, targets, &mut out);
        } else {
            assert(!nth(us.pawns, from) && !nth(us.knights, from) && !nth(us.bishops, from) && !nth(
                us.rooks,
                from,
            ) && !nth(us.queens, from) && !nth(us.king, from));
        }
        proof {
            assert(out@ =~= pre + moves_at(*b, *s, from));
            assert(pseudo_from(*b, *s, from) == moves_at(*b, *s, from) + pseudo_from(
                *b,
                *s,
                (from + 1) as u64,
            ));
            assert(pre + pseudo_from(*b, *s, from) =~= out@ + pseudo_from(*b, *s, (from + 1) as u64));
        }
        from = from + 1;
    }
    proof {
        assert(pseudo_from(*b, *s, 64) =~= Seq::<Move>::empty());
        assert(out@ =~= pseudo_from(*b, *s, 0));
    }
    push_castles(b, s, &mut out);
    proof {
        assert(out@ =~= pseudo_moves_spec(*b, *s));
    }
    out
}

/// A pseudo-legal move is legal when, once it is played, the mover's
/// own king is not attacked.
pub open spec fn is_legal(b: Board, s: State, m: Move) -> bool {
    &&& crate::position::move_ok(b, s, m)
    &&& !in_check(crate::position::apply_spec(b, s, m).0, s.stm)
}

/// The legal subsequence of `ms` from index `i` on.
pub open spec fn legal_filter(b: Board, s: State, ms: Seq<Move>, i: int) -> Seq<Move>
    decreases ms.len() - i,
{
    if i < 0 || i >= ms.len() {
        Seq::empty()
    } else {
        (if is_legal(b, s, ms[i]) {
            seq![ms[i]]
        } else {
            Seq::empty()
        }) + legal_filter(b, s, ms, i + 1)
    }
}

/// Every legal move of the side to move.
pub open spec fn legal_moves_spec(b: Board, s: State) -> Seq<Move> {
    legal_filter(b, s, pseudo_moves_spec(b, s), 0)
}

/// Generate every legal move of the side to move: the pseudo-legal
/// moves that do not leave the mover's own king attacked (checked by
/// playing each move on a scratch copy, never by mutating the given
/// position).
pub fn legal_moves(b: &Board, s: &State) -> (r: Vec<Move>)
    requires
        crate::position::pos_wf(*b, *s),
    ensures
        r@ == legal_moves_spec(*b, *s),
        forall|j: int| 0 <= j < r@.len() ==> is_legal(*b, *s, r@[j]),
{
    let ps = pseudo_moves(b, s);
    let mut out: Vec<Move> = Vec::new();
    let mut i: usize = 0;
    while i < ps.len()
        invariant
            i <= ps.len(),
            crate::position::pos_wf(*b, *s),
            ps@ == pseudo_moves_spec(*b, *s),
            forall|j: int| 0 <= j < ps@.len() ==> crate::position::move_ok(*b, *s, ps@[j]),
            legal_filter(*b, *s, ps@, 0) == out@ + legal_filter(*b, *s, ps@, i as int),
            forall|j: int| 0 <= j < out@.len() ==> is_legal(*b, *s, out@[j]),
        decreases ps.len() - i,
    {
        let m = ps[i];
        let (nb, ns) = crate::position::apply_move(b, s, m);
        let keeps_king_safe = !in_check_exec(&nb, s.stm);
        let ghost pre = out@;
        if keeps_king_safe {
            out.push(m);
            proof {
                assert(is_legal(*b, *s, m));
            }
        }
        proof {
            if keeps_king_safe {
                assert(pre + legal_filter(*b, *s, ps@, i as int) =~= out@ + legal_filter(
                    *b,
                    *s,
                    ps@,
                    i + 1,
                ));
            } else {
                assert(!is_legal(*b, *s, m));
                assert(pre + legal_filter(*b, *s, ps@, i as int) =~= out@ + legal_filter(
                    *b,
                    *s,
                    ps@,
                    i + 1,
                ));
            }
        }
        i = i + 1;
    }
    proof {
        assert(legal_filter(*b, *s, ps@, ps@.len() as int) =~= Seq::<Move>::empty());
        assert(out@ =~= legal_filter(*b, *s, ps@, 0));
    }
    out
}

impl Board {
    /// The pseudo-legal moves of the side to move in `s`.
    pub fn moves(&self, s: &State) -> (r: Vec<Move>)
        requires
            crate::position::pos_wf(*self, *s),
        ensures
            r@ == pseudo_moves_spec(*self, *s),
            forall|j: int| 0 <= j < r@.len() ==> crate::position::move_ok(*self, *s, r@[j]),
    {
        pseudo_moves(self, s)
    }

    /// The legal moves of the side to move in `s`.
    pub fn legal_moves(&self, s: &State) -> (r: Vec<Move>)
        requires
            crate::position::pos_wf(*self, *s),
        ensures
            r@ == legal_moves_spec(*self, *s),
            forall|j: int| 0 <= j < r@.len() ==> is_legal(*self, *s, r@[j]),
    {
        legal_moves(self, s)
    }

    /// Whether the side to move has no legal move left: it is then
    /// either checkmated (king attacked) or stalemated (king safe).
    pub fn is_game_over(&self, s: &State) -> (r: bool)
        requires
            crate::position::pos_wf(*self, *s),
        ensures
            r == (legal_moves_spec(*self, *s).len() == 0),
    {
        let ms = legal_moves(self, s);
        ms.len() == 0
    }
}

/// Everything the legal filter keeps really is legal.
proof fn lemma_legal_filter_sound(b: Board, s: State, ms: Seq<Move>, i: int)
    ensures
        forall|k: int|
            0 <= k < legal_filter(b, s, ms, i).len() ==> is_legal(b, s, legal_filter(b, s, ms, i)[k]),
    decreases ms.len() - i,
{
    if 0 <= i < ms.len() {
        lemma_legal_filter_sound(b, s, ms, i + 1);
        let head: Seq<Move> = if is_legal(b, s, ms[i]) {
            seq![ms[i]]
        } else {
            Seq::empty()
        };
        let rest = legal_filter(b, s, ms, i + 1);
        assert forall|k: int|
            0 <= k < legal_filter(b, s, ms, i).len() implies is_legal(
            b,
            s,
            legal_filter(b, s, ms, i)[k],
        ) by {
            if k < head.len() {
                assert(legal_filter(b, s, ms, i)[k] == head[k]);
            } else {
                assert(legal_filter(b, s, ms, i)[k] == rest[k - head.len()]);
            }
        }
    }
}

/// Every member of the legal move list is a legal move.
pub proof fn lemma_legal_moves_sound(b: Board, s: State)
    ensures
        forall|k: int|
            0 <= k < legal_moves_spec(b, s).len() ==> is_legal(b, s, legal_moves_spec(b, s)[k]),
{
    lemma_legal_filter_sound(b, s, pseudo_moves_spec(b, s), 0);
}

} // verus!
