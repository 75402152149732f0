//! Position-identity hashing.  A position's key is the exclusive or of
//! one random 64-bit constant for every true fact about it: each
//! (side, kind, square) occupation, Black to move, each castling
//! right, and the file of the en-passant target.  Keys of equal
//! positions are therefore equal however the positions were reached,
//! and a single fact changing toggles exactly its constant.
use vstd::prelude::*;

use crate::bits::{lemma_bit_ops, lemma_comm, lemma_nth_update, lemma_toggle_is_xor, nth, sq_bb};
use crate::board::{Move, PieceKind, Side};
use crate::position::{
    apply_spec, ep_victim, move_ok, pos_wf, rook_dest_k, rook_dest_q, rook_home_k, rook_home_q,
    Board, CastlingRights, Player, State,
};

verus! {

/// Relies on rand::random: draws an arbitrary value from the thread's
/// generator; nothing can be promised of the result.
pub assume_specification<T>[ rand::random::<T> ]() -> (r: T)
    where
        rand::distributions::Standard: rand::distributions::Distribution<T>,
;

/// The random constants of the hashing scheme: one per (side, kind,
/// square), one for Black to move, four for the castling rights, and
/// eight for the en-passant file.  Generated once per process and
/// never mutated.
pub struct Zobrist {
    pub pawn_white: Vec<u64>,
    pub knight_white: Vec<u64>,
    pub bishop_white: Vec<u64>,
    pub rook_white: Vec<u64>,
    pub queen_white: Vec<u64>,
    pub king_white: Vec<u64>,
    pub pawn_black: Vec<u64>,
    pub knight_black: Vec<u64>,
    pub bishop_black: Vec<u64>,
    pub rook_black: Vec<u64>,
    pub queen_black: Vec<u64>,
    pub king_black: Vec<u64>,
    pub move_black: u64,
    pub castling_king_black: u64,
    pub castling_queen_black: u64,
    pub castling_king_white: u64,
    pub castling_queen_white: u64,
    pub passant_a: u64,
    pub passant_b: u64,
    pub passant_c: u64,
    pub passant_d: u64,
    pub passant_e: u64,
    pub passant_f: u64,
    pub passant_g: u64,
    pub passant_h: u64,
}

impl Zobrist {
    /// Each per-square table has one constant per square.
    pub open spec fn wf(self) -> bool {
        &&& self.pawn_white@.len() == 64
        &&& self.knight_white@.len() == 64
        &&& self.bishop_white@.len() == 64
        &&& self.rook_white@.len() == 64
        &&& self.queen_white@.len() == 64
        &&& self.king_white@.len() == 64
        &&& self.pawn_black@.len() == 64
        &&& self.knight_black@.len() == 64
        &&& self.bishop_black@.len() == 64
        &&& self.rook_black@.len() == 64
        &&& self.queen_black@.len() == 64
        &&& self.king_black@.len() == 64
    }

    /// The constant table of one (side, kind) pair.
    pub open spec fn table_spec(self, side: Side, k: PieceKind) -> Seq<u64> {
        match (side, k) {
            (Side::White, PieceKind::Pawn) => self.pawn_white@,
            (Side::White, PieceKind::Knight) => self.knight_white@,
            (Side::White, PieceKind::Bishop) => self.bishop_white@,
            (Side::White, PieceKind::Rook) => self.rook_white@,
            (Side::White, PieceKind::Queen) => self.queen_white@,
            (Side::White, PieceKind::King) => self.king_white@,
            (Side::Black, PieceKind::Pawn) => self.pawn_black@,
            (Side::Black, PieceKind::Knight) => self.knight_black@,
            (Side::Black, PieceKind::Bishop) => self.bishop_black@,
            (Side::Black, PieceKind::Rook) => self.rook_black@,
            (Side::Black, PieceKind::Queen) => self.queen_black@,
            (Side::Black, PieceKind::King) => self.king_black@,
        }
    }

    /// The constant table of one (side, kind) pair.
    pub fn table(&self, side: Side, k: PieceKind) -> (r: &Vec<u64>)
        ensures
            r@ == self.table_spec(side, k),
    {
        match (side, k) {
            (Side::White, PieceKind::Pawn) => &self.pawn_white,
            (Side::White, PieceKind::Knight) => &self.knight_white,
            (Side::White, PieceKind::Bishop) => &self.bishop_white,
            (Side::White, PieceKind::Rook) => &self.rook_white,
            (Side::White, PieceKind::Queen) => &self.queen_white,
            (Side::White, PieceKind::King) => &self.king_white,
            (Side::Black, PieceKind::Pawn) => &self.pawn_black,
            (Side::Black, PieceKind::Knight) => &self.knight_black,
            (Side::Black, PieceKind::Bishop) => &self.bishop_black,
            (Side::Black, PieceKind::Rook) => &self.rook_black,
            (Side::Black, PieceKind::Queen) => &self.queen_black,
            (Side::Black, PieceKind::King) => &self.king_black,
        }
    }
}

/// A table of 64 freshly drawn constants.
fn random_table() -> (v: Vec<u64>)
    ensures
        v@.len() == 64,
{
    let mut v: Vec<u64> = Vec::new();
    let mut i: usize = 0;
    while i < 64
        invariant
            v@.len() == i,
            i <= 64,
        decreases 64 - i,
    {
        v.push(rand::random::<u64>());
        i = i + 1;
    }
    v
}

impl Default for Zobrist {
    /// Draw the whole set of constants from the thread's generator.
    fn default() -> (r: Zobrist)
        ensures
            r.wf(),
    {
        Zobrist {
            pawn_white: random_table(),
            knight_white: random_table(),
            bishop_white: random_table(),
            rook_white: random_table(),
            queen_white: random_table(),
            king_white: random_table(),
            pawn_black: random_table(),
            knight_black: random_table(),
            bishop_black: random_table(),
            rook_black: random_table(),
            queen_black: random_table(),
            king_black: random_table(),
            move_black: rand::random::<u64>(),
            castling_king_black: rand::random::<u64>(),
            castling_queen_black: rand::random::<u64>(),
            castling_king_white: rand::random::<u64>(),
            castling_queen_white: rand::random::<u64>(),
            passant_a: rand::random::<u64>(),
            passant_b: rand::random::<u64>(),
            passant_c: rand::random::<u64>(),
            passant_d: rand::random::<u64>(),
            passant_e: rand::random::<u64>(),
            passant_f: rand::random::<u64>(),
            passant_g: rand::random::<u64>(),
            passant_h: rand::random::<u64>(),
        }
    }
}

/// The exclusive or of `tab[j]` over every set square `j >= i` of `bb`.
pub open spec fn bb_key_from(tab: Seq<u64>, bb: u64, i: u64) -> u64
    decreases 64 - i,
{
    if i >= 64 {
        0u64
    } else {
        (if nth(bb, i) {
            tab[i as int]
        } else {
            0u64
        }) ^ bb_key_from(tab, bb, (i + 1) as u64)
    }
}

/// Toggling square `s` of `bb` toggles exactly `tab[s]` in its key.
pub proof fn lemma_bb_key_toggle(tab: Seq<u64>, bb: u64, s: u64)
    requires
        tab.len() == 64,
        s < 64,
    ensures
        bb_key_from(tab, bb ^ sq_bb(s), 0) == bb_key_from(tab, bb, 0) ^ tab[s as int],
{
    lemma_bb_key_toggle_from(tab, bb, s, 0);
}

proof fn lemma_bb_key_toggle_from(tab: Seq<u64>, bb: u64, s: u64, i: u64)
    requires
        tab.len() == 64,
        s < 64,
        i <= 64,
    ensures
        bb_key_from(tab, bb ^ sq_bb(s), i) == if i <= s {
            bb_key_from(tab, bb, i) ^ tab[s as int]
        } else {
            bb_key_from(tab, bb, i)
        },
    decreases 64 - i,
{
    lemma_nth_update();
    if i < 64 {
        lemma_bb_key_toggle_from(tab, bb, s, (i + 1) as u64);
        let rest = bb_key_from(tab, bb, (i + 1) as u64);
        let ts = tab[s as int];
        if i == s {
            if nth(bb, i) {
                assert((0u64 ^ rest) == (ts ^ rest) ^ ts) by (bit_vector);
            } else {
                assert((ts ^ rest) == (0u64 ^ rest) ^ ts) by (bit_vector);
            }
        } else if i < s {
            let c = if nth(bb, i) {
                tab[i as int]
            } else {
                0u64
            };
            assert((c ^ (rest ^ ts)) == (c ^ rest) ^ ts) by (bit_vector);
        }
    }
}

/// The exclusive or of the keys of one side's six piece boards.
pub open spec fn side_keys(z: Zobrist, p: crate::position::Player, side: Side) -> u64 {
    bb_key_from(z.table_spec(side, PieceKind::Pawn), p.pawns, 0) ^ bb_key_from(
        z.table_spec(side, PieceKind::Knight),
        p.knights,
        0,
    ) ^ bb_key_from(z.table_spec(side, PieceKind::Bishop), p.bishops, 0) ^ bb_key_from(
        z.table_spec(side, PieceKind::Rook),
        p.rooks,
        0,
    ) ^ bb_key_from(z.table_spec(side, PieceKind::Queen), p.queens, 0) ^ bb_key_from(
        z.table_spec(side, PieceKind::King),
        p.king,
        0,
    )
}

/// The castling-rights component of the key.
pub open spec fn castle_keys(z: Zobrist, r: CastlingRights) -> u64 {
    (if r.0 & crate::position::Castling::WHITE_00 != 0 {
        z.castling_king_white
    } else {
        0u64
    }) ^ (if r.0 & crate::position::Castling::WHITE_000 != 0 {
        z.castling_queen_white
    } else {
        0u64
    }) ^ (if r.0 & crate::position::Castling::BLACK_00 != 0 {
        z.castling_king_black
    } else {
        0u64
    }) ^ (if r.0 & crate::position::Castling::BLACK_000 != 0 {
        z.castling_queen_black
    } else {
        0u64
    })
}

/// The constant of one en-passant file.
pub open spec fn ep_file_key(z: Zobrist, e: usize) -> u64 {
    if e % 8 == 0 {
        z.passant_a
    } else if e % 8 == 1 {
        z.passant_b
    } else if e % 8 == 2 {
        z.passant_c
    } else if e % 8 == 3 {
        z.passant_d
    } else if e % 8 == 4 {
        z.passant_e
    } else if e % 8 == 5 {
        z.passant_f
    } else if e % 8 == 6 {
        z.passant_g
    } else {
        z.passant_h
    }
}

/// The en-passant component of the key.
pub open spec fn ep_key(z: Zobrist, ep: Option<usize>) -> u64 {
    match ep {
        None => 0u64,
        Some(e) => ep_file_key(z, e),
    }
}

/// The key of a full position: the exclusive or of the constants of
/// every true fact about it.
pub open spec fn key_of(z: Zobrist, b: crate::position::Board, s: crate::position::State) -> u64 {
    side_keys(z, b.white, Side::White) ^ side_keys(z, b.black, Side::Black) ^ (if s.stm
        == Side::Black {
        z.move_black
    } else {
        0u64
    }) ^ castle_keys(z, s.castling_rights) ^ ep_key(z, s.en_passant_square)
}

/// The key of one bitboard, computed square by square.
fn bb_key_exec(tab: &Vec<u64>, bb: u64) -> (r: u64)
    requires
        tab@.len() == 64,
    ensures
        r == bb_key_from(tab@, bb, 0),
{
    proof {
        let k0 = bb_key_from(tab@, bb, 0);
        assert(0u64 ^ k0 == k0) by (bit_vector);
    }
    let mut acc: u64 = 0;
    let mut i: usize = 0;
    while i < 64
        invariant
            i <= 64,
            tab@.len() == 64,
            bb_key_from(tab@, bb, 0) == acc ^ bb_key_from(tab@, bb, i as u64),
        decreases 64 - i,
    {
        let c: u64 = if bb & (1u64 << (i as u64)) != 0 {
            assert(nth(bb, i as u64));
            tab[i]
        } else {
            assert(!nth(bb, i as u64));
            0
        };
        proof {
            let rest = bb_key_from(tab@, bb, (i + 1) as u64);
            let a = acc;
            let cc = c;
            assert(a ^ (cc ^ rest) == (a ^ cc) ^ rest) by (bit_vector);
        }
        acc = acc ^ c;
        i = i + 1;
    }
    assert(acc ^ bb_key_from(tab@, bb, 64) == acc ^ 0) by (bit_vector)
        requires
            bb_key_from(tab@, bb, 64) == 0u64,
    ;
    assert(acc ^ 0 == acc) by (bit_vector);
    acc
}

/// The key of a full position, computed from scratch.
pub fn compute_key(
    z: &Zobrist,
    b: &crate::position::Board,
    s: &crate::position::State,
) -> (r: u64)
    requires
        z.wf(),
    ensures
        r == key_of(*z, *b, *s),
{
    let sw: u64 = bb_key_exec(z.table(Side::White, PieceKind::Pawn), b.white.pawns) ^ bb_key_exec(
        z.table(Side::White, PieceKind::Knight),
        b.white.knights,
    ) ^ bb_key_exec(z.table(Side::White, PieceKind::Bishop), b.white.bishops) ^ bb_key_exec(
        z.table(Side::White, PieceKind::Rook),
        b.white.rooks,
    ) ^ bb_key_exec(z.table(Side::White, PieceKind::Queen), b.white.queens) ^ bb_key_exec(
        z.table(Side::White, PieceKind::King),
        b.white.king,
    );
    let sb: u64 = bb_key_exec(z.table(Side::Black, PieceKind::Pawn), b.black.pawns) ^ bb_key_exec(
        z.table(Side::Black, PieceKind::Knight),
        b.black.knights,
    ) ^ bb_key_exec(z.table(Side::Black, PieceKind::Bishop), b.black.bishops) ^ bb_key_exec(
        z.table(Side::Black, PieceKind::Rook),
        b.black.rooks,
    ) ^ bb_key_exec(z.table(Side::Black, PieceKind::Queen), b.black.queens) ^ bb_key_exec(
        z.table(Side::Black, PieceKind::King),
        b.black.king,
    );
    let mut k: u64 = sw ^ sb;
    let sd: u64 = if matches!(s.stm, Side::Black) {
        z.move_black
    } else {
        0
    };
    k = k ^ sd;
    k = k ^ castle_keys_exec(z, s.castling_rights);
    k = k ^ ep_key_exec(z, s.en_passant_square);
    k
}

/// The castling-rights component of the key.
fn castle_keys_exec(z: &Zobrist, r: CastlingRights) -> (k: u64)
    ensures
        k == castle_keys(*z, r),
{
    let a: u64 = if r.0 & crate::position::Castling::WHITE_00 != 0 {
        z.castling_king_white
    } else {
        0
    };
    let b: u64 = if r.0 & crate::position::Castling::WHITE_000 != 0 {
        z.castling_queen_white
    } else {
        0
    };
    let c: u64 = if r.0 & crate::position::Castling::BLACK_00 != 0 {
        z.castling_king_black
    } else {
        0
    };
    let d: u64 = if r.0 & crate::position::Castling::BLACK_000 != 0 {
        z.castling_queen_black
    } else {
        0
    };
    ((a ^ b) ^ c) ^ d
}

/// The en-passant component of the key.
fn ep_key_exec(z: &Zobrist, ep: Option<usize>) -> (k: u64)
    ensures
        k == ep_key(*z, ep),
{
    match ep {
        None => 0,
        Some(e) => {
            if e % 8 == 0 {
                z.passant_a
            } else if e % 8 == 1 {
                z.passant_b
            } else if e % 8 == 2 {
                z.passant_c
            } else if e % 8 == 3 {
                z.passant_d
            } else if e % 8 == 4 {
                z.passant_e
            } else if e % 8 == 5 {
                z.passant_f
            } else if e % 8 == 6 {
                z.passant_g
            } else {
                z.passant_h
            }
        },
    }
}

/// Replacing the board of one kind replaces exactly its term in the
/// side key.
proof fn lemma_side_replace(z: Zobrist, p: Player, side: Side, k: PieceKind, v: u64)
    ensures
        side_keys(z, p.with_bb(k, v), side) == side_keys(z, p, side) ^ bb_key_from(
            z.table_spec(side, k),
            p.bb_spec(k),
            0,
        ) ^ bb_key_from(z.table_spec(side, k), v, 0),
{
    let t1 = bb_key_from(z.table_spec(side, PieceKind::Pawn), p.pawns, 0);
    let t2 = bb_key_from(z.table_spec(side, PieceKind::Knight), p.knights, 0);
    let t3 = bb_key_from(z.table_spec(side, PieceKind::Bishop), p.bishops, 0);
    let t4 = bb_key_from(z.table_spec(side, PieceKind::Rook), p.rooks, 0);
    let t5 = bb_key_from(z.table_spec(side, PieceKind::Queen), p.queens, 0);
    let t6 = bb_key_from(z.table_spec(side, PieceKind::King), p.king, 0);
    let n = bb_key_from(z.table_spec(side, k), v, 0);
    match k {
        PieceKind::Pawn => {
            assert((((((n ^ t2) ^ t3) ^ t4) ^ t5) ^ t6) == ((((((t1 ^ t2) ^ t3) ^ t4) ^ t5) ^ t6)
                ^ t1) ^ n) by (bit_vector);
        },
        PieceKind::Knight => {
            assert((((((t1 ^ n) ^ t3) ^ t4) ^ t5) ^ t6) == ((((((t1 ^ t2) ^ t3) ^ t4) ^ t5) ^ t6)
                ^ t2) ^ n) by (bit_vector);
        },
        PieceKind::Bishop => {
            assert((((((t1 ^ t2) ^ n) ^ t4) ^ t5) ^ t6) == ((((((t1 ^ t2) ^ t3) ^ t4) ^ t5) ^ t6)
                ^ t3) ^ n) by (bit_vector);
        },
        PieceKind::Rook => {
            assert((((((t1 ^ t2) ^ t3) ^ n) ^ t5) ^ t6) == ((((((t1 ^ t2) ^ t3) ^ t4) ^ t5) ^ t6)
                ^ t4) ^ n) by (bit_vector);
        },
        PieceKind::Queen => {
            assert((((((t1 ^ t2) ^ t3) ^ t4) ^ n) ^ t6) == ((((((t1 ^ t2) ^ t3) ^ t4) ^ t5) ^ t6)
                ^ t5) ^ n) by (bit_vector);
        },
        PieceKind::King => {
            assert((((((t1 ^ t2) ^ t3) ^ t4) ^ t5) ^ n) == ((((((t1 ^ t2) ^ t3) ^ t4) ^ t5) ^ t6)
                ^ t6) ^ n) by (bit_vector);
        },
    }
}

/// The constants whose facts the move toggles: the moved piece leaving
/// and arriving, any captured piece, the castling rook, the
/// side-to-move constant, and the difference of the castling-right and
/// en-passant components.
pub open spec fn key_delta(z: Zobrist, b: Board, s: State, m: Move) -> u64 {
    let stm = s.stm;
    let them = stm.flip_spec();
    let f = m.from as u64;
    let t = m.to as u64;
    let fl = m.flags;
    let place = if fl.promotion {
        fl.promoted
    } else {
        fl.piece
    };
    let c_from = z.table_spec(stm, fl.piece)[f as int];
    let c_to = z.table_spec(stm, place)[t as int];
    let c_cap = if fl.passant {
        z.table_spec(them, PieceKind::Pawn)[ep_victim(stm, t) as int]
    } else if fl.capture {
        z.table_spec(them, fl.captured)[t as int]
    } else {
        0u64
    };
    let c_rook = if fl.castle_king {
        z.table_spec(stm, PieceKind::Rook)[rook_home_k(stm) as int] ^ z.table_spec(
            stm,
            PieceKind::Rook,
        )[rook_dest_k(stm) as int]
    } else if fl.castle_queen {
        z.table_spec(stm, PieceKind::Rook)[rook_home_q(stm) as int] ^ z.table_spec(
            stm,
            PieceKind::Rook,
        )[rook_dest_q(stm) as int]
    } else {
        0u64
    };
    let s2 = apply_spec(b, s, m).1;
    (((((c_from ^ c_to) ^ c_cap) ^ c_rook) ^ z.move_black) ^ (castle_keys(z, s.castling_rights)
        ^ castle_keys(z, s2.castling_rights))) ^ (ep_key(z, s.en_passant_square) ^ ep_key(
        z,
        s2.en_passant_square,
    ))
}

/// Exclusive-oring `key_delta` into the key of a position gives the
/// key of the position after the move: the incremental update is
/// congruent with hashing from scratch.
pub proof fn lemma_key_apply(z: Zobrist, b: Board, s: State, m: Move)
    requires
        z.wf(),
        pos_wf(b, s),
        move_ok(b, s, m),
    ensures
        key_of(z, apply_spec(b, s, m).0, apply_spec(b, s, m).1) == key_of(z, b, s) ^ key_delta(
            z,
            b,
            s,
            m,
        ),
{
    lemma_bit_ops();
    lemma_comm();
    lemma_nth_update();
    let stm = s.stm;
    let them = stm.flip_spec();
    let us0 = b.player_spec(stm);
    let them0 = b.player_spec(them);
    let f = m.from as u64;
    let t = m.to as u64;
    let fl = m.flags;
    let place = if fl.promotion {
        fl.promoted
    } else {
        fl.piece
    };
    let us1 = us0.with_bb(fl.piece, us0.bb_spec(fl.piece) & !sq_bb(f));
    let us2 = us1.with_bb(place, us1.bb_spec(place) | sq_bb(t));
    let b2 = apply_spec(b, s, m).0;
    let s2 = apply_spec(b, s, m).1;
    assert(z.table_spec(stm, fl.piece).len() == 64 && z.table_spec(stm, place).len() == 64
        && z.table_spec(stm, PieceKind::Rook).len() == 64 && z.table_spec(them, fl.captured).len()
        == 64 && z.table_spec(them, PieceKind::Pawn).len() == 64);
    // No piece of the mover stands on the target square.
    assert(!nth(us0.occ_spec(), t));
    assert(!nth(us0.pawns, t) && !nth(us0.knights, t) && !nth(us0.bishops, t) && !nth(
        us0.rooks,
        t,
    ) && !nth(us0.queens, t) && !nth(us0.king, t));
    let cf = z.table_spec(stm, fl.piece)[f as int];
    let ct = z.table_spec(stm, place)[t as int];
    // Lifting the moved piece toggles its origin constant.
    let a1 = bb_key_from(z.table_spec(stm, fl.piece), us0.bb_spec(fl.piece), 0);
    lemma_toggle_is_xor(us0.bb_spec(fl.piece), f);
    lemma_bb_key_toggle(z.table_spec(stm, fl.piece), us0.bb_spec(fl.piece), f);
    lemma_side_replace(z, us0, stm, fl.piece, us0.bb_spec(fl.piece) & !sq_bb(f));
    let a2 = bb_key_from(z.table_spec(stm, fl.piece), us0.bb_spec(fl.piece) & !sq_bb(f), 0);
    assert(a2 == a1 ^ cf);
    // Landing (possibly promoted) toggles the target constant.
    assert(!nth(us1.bb_spec(place), t));
    let b1k = bb_key_from(z.table_spec(stm, place), us1.bb_spec(place), 0);
    lemma_toggle_is_xor(us1.bb_spec(place), t);
    lemma_bb_key_toggle(z.table_spec(stm, place), us1.bb_spec(place), t);
    lemma_side_replace(z, us1, stm, place, us1.bb_spec(place) | sq_bb(t));
    let b2k = bb_key_from(z.table_spec(stm, place), us1.bb_spec(place) | sq_bb(t), 0);
    assert(b2k == b1k ^ ct);
    let sk0 = side_keys(z, us0, stm);
    let sk1 = side_keys(z, us1, stm);
    let sk2 = side_keys(z, us2, stm);
    assert(sk2 == (sk0 ^ cf) ^ ct) by (bit_vector)
        requires
            sk1 == (sk0 ^ a1) ^ a2,
            a2 == a1 ^ cf,
            sk2 == (sk1 ^ b1k) ^ b2k,
            b2k == b1k ^ ct,
    ;
    // The castling rook, when there is one.
    let c_rook = if fl.castle_king {
        z.table_spec(stm, PieceKind::Rook)[rook_home_k(stm) as int] ^ z.table_spec(
            stm,
            PieceKind::Rook,
        )[rook_dest_k(stm) as int]
    } else if fl.castle_queen {
        z.table_spec(stm, PieceKind::Rook)[rook_home_q(stm) as int] ^ z.table_spec(
            stm,
            PieceKind::Rook,
        )[rook_dest_q(stm) as int]
    } else {
        0u64
    };
    let us3 = if fl.castle_king {
        us2.with_bb(PieceKind::Rook, (us2.rooks & !sq_bb(rook_home_k(stm))) | sq_bb(
            rook_dest_k(stm),
        ))
    } else if fl.castle_queen {
        us2.with_bb(PieceKind::Rook, (us2.rooks & !sq_bb(rook_home_q(stm))) | sq_bb(
            rook_dest_q(stm),
        ))
    } else {
        us2
    };
    let sk3 = side_keys(z, us3, stm);
    if fl.castle_king || fl.castle_queen {
        let rf = if fl.castle_king {
            rook_home_k(stm)
        } else {
            rook_home_q(stm)
        };
        let rt = if fl.castle_king {
            rook_dest_k(stm)
        } else {
            rook_dest_q(stm)
        };
        let trf = z.table_spec(stm, PieceKind::Rook)[rf as int];
        let trt = z.table_spec(stm, PieceKind::Rook)[rt as int];
        assert(us2.rooks == us0.rooks);
        assert(rf < 64 && rt < 64 && nth(us2.rooks, rf) && !nth(b.occ_all(), rt));
        assert(!nth(us2.rooks, rt) && rt != rf);
        lemma_toggle_is_xor(us2.rooks, rf);
        lemma_bb_key_toggle(z.table_spec(stm, PieceKind::Rook), us2.rooks, rf);
        assert(!nth(us2.rooks ^ sq_bb(rf), rt));
        lemma_toggle_is_xor(us2.rooks ^ sq_bb(rf), rt);
        lemma_bb_key_toggle(z.table_spec(stm, PieceKind::Rook), us2.rooks ^ sq_bb(rf), rt);
        assert((us2.rooks & !sq_bb(rf)) | sq_bb(rt) == (us2.rooks ^ sq_bb(rf)) ^ sq_bb(rt));
        lemma_side_replace(z, us2, stm, PieceKind::Rook, (us2.rooks & !sq_bb(rf)) | sq_bb(rt));
        let rb = bb_key_from(z.table_spec(stm, PieceKind::Rook), us2.rooks, 0);
        let rb2 = bb_key_from(
            z.table_spec(stm, PieceKind::Rook),
            (us2.rooks & !sq_bb(rf)) | sq_bb(rt),
            0,
        );
        assert(rb2 == (rb ^ trf) ^ trt);
        assert(sk3 == ((sk0 ^ cf) ^ ct) ^ c_rook) by (bit_vector)
            requires
                sk2 == (sk0 ^ cf) ^ ct,
                sk3 == (sk2 ^ rb) ^ rb2,
                rb2 == (rb ^ trf) ^ trt,
                c_rook == trf ^ trt,
        ;
    } else {
        assert(sk3 == ((sk0 ^ cf) ^ ct) ^ c_rook) by (bit_vector)
            requires
                sk3 == (sk0 ^ cf) ^ ct,
                c_rook == 0u64,
        ;
    }
    // The opponent loses at most the captured constant.
    let c_cap = if fl.passant {
        z.table_spec(them, PieceKind::Pawn)[ep_victim(stm, t) as int]
    } else if fl.capture {
        z.table_spec(them, fl.captured)[t as int]
    } else {
        0u64
    };
    let them1 = if fl.passant {
        them0.with_bb(PieceKind::Pawn, them0.pawns & !sq_bb(ep_victim(stm, t)))
    } else if fl.capture {
        them0.with_bb(fl.captured, them0.bb_spec(fl.captured) & !sq_bb(t))
    } else {
        them0
    };
    let skt0 = side_keys(z, them0, them);
    let skt1 = side_keys(z, them1, them);
    if fl.passant {
        let v = ep_victim(stm, t);
        assert(v < 64 && nth(them0.pawns, v));
        lemma_toggle_is_xor(them0.pawns, v);
        lemma_bb_key_toggle(z.table_spec(them, PieceKind::Pawn), them0.pawns, v);
        lemma_side_replace(z, them0, them, PieceKind::Pawn, them0.pawns & !sq_bb(v));
        let d1 = bb_key_from(z.table_spec(them, PieceKind::Pawn), them0.pawns, 0);
        let d2 = bb_key_from(z.table_spec(them, PieceKind::Pawn), them0.pawns & !sq_bb(v), 0);
        assert(skt1 == skt0 ^ c_cap) by (bit_vector)
            requires
                skt1 == (skt0 ^ d1) ^ d2,
                d2 == d1 ^ c_cap,
        ;
    } else if fl.capture {
        assert(nth(them0.bb_spec(fl.captured), t));
        lemma_toggle_is_xor(them0.bb_spec(fl.captured), t);
        lemma_bb_key_toggle(z.table_spec(them, fl.captured), them0.bb_spec(fl.captured), t);
        lemma_side_replace(z, them0, them, fl.captured, them0.bb_spec(fl.captured) & !sq_bb(t));
        let d1 = bb_key_from(z.table_spec(them, fl.captured), them0.bb_spec(fl.captured), 0);
        let d2 = bb_key_from(
            z.table_spec(them, fl.captured),
            them0.bb_spec(fl.captured) & !sq_bb(t),
            0,
        );
        assert(skt1 == skt0 ^ c_cap) by (bit_vector)
            requires
                skt1 == (skt0 ^ d1) ^ d2,
                d2 == d1 ^ c_cap,
        ;
    } else {
        assert(skt1 == skt0 ^ c_cap) by (bit_vector)
            requires
                skt1 == skt0,
                c_cap == 0u64,
        ;
    }
    // Assemble the full keys of the old and the new position.
    let sd0 = if s.stm == Side::Black {
        z.move_black
    } else {
        0u64
    };
    let sd2 = if s2.stm == Side::Black {
        z.move_black
    } else {
        0u64
    };
    let mb = z.move_black;
    assert(sd2 == sd0 ^ mb) by (bit_vector)
        requires
            (sd0 == 0u64 && sd2 == mb) || (sd0 == mb && sd2 == 0u64),
    ;
    let ck0 = castle_keys(z, s.castling_rights);
    let ck2 = castle_keys(z, s2.castling_rights);
    let ek0 = ep_key(z, s.en_passant_square);
    let ek2 = ep_key(z, s2.en_passant_square);
    if stm == Side::White {
        assert(b2.white == us3 && b2.black == them1);
        let sw0 = side_keys(z, b.white, Side::White);
        let sb0 = side_keys(z, b.black, Side::Black);
        assert(sw0 == sk0 && sb0 == skt0);
        assert(((((sk3 ^ skt1) ^ sd2) ^ ck2) ^ ek2) == (((((sk0 ^ skt0) ^ sd0) ^ ck0) ^ ek0))
            ^ ((((((cf ^ ct) ^ c_cap) ^ c_rook) ^ mb) ^ (ck0 ^ ck2)) ^ (ek0 ^ ek2))) by (bit_vector)
            requires
                sk3 == ((sk0 ^ cf) ^ ct) ^ c_rook,
                skt1 == skt0 ^ c_cap,
                sd2 == sd0 ^ mb,
        ;
    } else {
        assert(b2.white == them1 && b2.black == us3);
        assert(((((skt1 ^ sk3) ^ sd2) ^ ck2) ^ ek2) == (((((skt0 ^ sk0) ^ sd0) ^ ck0) ^ ek0))
            ^ ((((((cf ^ ct) ^ c_cap) ^ c_rook) ^ mb) ^ (ck0 ^ ck2)) ^ (ek0 ^ ek2))) by (bit_vector)
            requires
                sk3 == ((sk0 ^ cf) ^ ct) ^ c_rook,
                skt1 == skt0 ^ c_cap,
                sd2 == sd0 ^ mb,
        ;
    }
}

/// The constants the move toggles, computed from the position, the
/// move, and the state after the move.
pub fn key_delta_exec(z: &Zobrist, b: &Board, s: &State, m: Move, ns: &State) -> (r: u64)
    requires
        z.wf(),
        pos_wf(*b, *s),
        move_ok(*b, *s, m),
        *ns == apply_spec(*b, *s, m).1,
    ensures
        r == key_delta(*z, *b, *s, m),
{
    proof {
        assert(z.table_spec(s.stm, m.flags.piece).len() == 64);
        assert(z.table_spec(s.stm, m.flags.promoted).len() == 64);
        assert(z.table_spec(s.stm, PieceKind::Rook).len() == 64);
        assert(z.table_spec(s.stm.flip_spec(), m.flags.captured).len() == 64);
        assert(z.table_spec(s.stm.flip_spec(), PieceKind::Pawn).len() == 64);
    }
    let stm = s.stm;
    let them = stm.flip();
    let place = if m.flags.promotion {
        m.flags.promoted
    } else {
        m.flags.piece
    };
    let c_from = z.table(stm, m.flags.piece)[m.from];
    let c_to = z.table(stm, place)[m.to];
    let c_cap: u64 = if m.flags.passant {
        let v: usize = match stm {
            Side::White => m.to - 8,
            Side::Black => m.to + 8,
        };
        assert(v == ep_victim(s.stm, m.to as u64) as int);
        z.table(them, PieceKind::Pawn)[v]
    } else if m.flags.capture {
        z.table(them, m.flags.captured)[m.to]
    } else {
        0
    };
    let c_rook: u64 = if m.flags.castle_king {
        let (rh, rd): (usize, usize) = match stm {
            Side::White => (7, 5),
            Side::Black => (63, 61),
        };
        z.table(stm, PieceKind::Rook)[rh] ^ z.table(stm, PieceKind::Rook)[rd]
    } else if m.flags.castle_queen {
        let (rh, rd): (usize, usize) = match stm {
            Side::White => (0, 3),
            Side::Black => (56, 59),
        };
        z.table(stm, PieceKind::Rook)[rh] ^ z.table(stm, PieceKind::Rook)[rd]
    } else {
        0
    };
    (((((c_from ^ c_to) ^ c_cap) ^ c_rook) ^ z.move_black) ^ (castle_keys_exec(
        z,
        s.castling_rights,
    ) ^ castle_keys_exec(z, ns.castling_rights))) ^ (ep_key_exec(z, s.en_passant_square)
        ^ ep_key_exec(z, ns.en_passant_square))
}

} // verus!
