//! The authoritative position: per-side piece bitboards with their
//! derived occupancy, castling rights, en-passant target, half-move
//! clock and side to move, together with the rules for applying a move.
use vstd::prelude::*;

use crate::bits::{
    lemma_bit_ops, lemma_comm, lemma_disjoint_nth, lemma_low_mask_all, lemma_low_mask_zero,
    lemma_nth_update, low_mask, nth, sq_bb,
};
use crate::board::{Move, PieceKind, Side};

verus! {

/// Labels for the four castling-right bits.
pub struct Castling;

impl Castling {
    pub const NO_CASTLING: u8 = 0;

    pub const WHITE_00: u8 = 0b00000001;

    pub const WHITE_000: u8 = 0b00000010;

    pub const BLACK_00: u8 = 0b00000100;

    pub const BLACK_000: u8 = 0b00001000;

    pub const KING_SIDE: u8 = Self::BLACK_00 | Self::WHITE_00;

    pub const QUEEN_SIDE: u8 = Self::BLACK_000 | Self::WHITE_000;

    pub const WHITE_CASTLING: u8 = Self::WHITE_00 | Self::WHITE_000;

    pub const BLACK_CASTLING: u8 = Self::BLACK_00 | Self::BLACK_000;

    pub const ANY_CASTLING: u8 = Self::WHITE_CASTLING | Self::BLACK_CASTLING;
}

/// The set of castling rights still available, one bit per right as
/// labelled by [`Castling`]; the four high bits are never set.
#[derive(Clone, Copy, Debug, Hash, PartialEq, Eq, Structural)]
#[verifier::ext_equal]
pub struct CastlingRights(pub u8);

impl CastlingRights {
    /// Only the four labelled bits may be set.
    pub open spec fn wf(self) -> bool {
        self.0 < 16
    }

    /// No right is available.
    pub fn empty() -> (r: Self)
        ensures
            r.0 == Castling::NO_CASTLING,
    {
        Self(Castling::NO_CASTLING)
    }

    /// Every right is available.
    pub fn all() -> (r: Self)
        ensures
            r.0 == Castling::ANY_CASTLING,
    {
        Self(Castling::ANY_CASTLING)
    }
}

impl Default for CastlingRights {
    /// A fresh game starts with every right available.
    fn default() -> (r: Self)
        ensures
            r.0 == Castling::ANY_CASTLING,
    {
        Self(Castling::ANY_CASTLING)
    }
}

/// Everything of the position besides the piece placement: castling
/// rights, the en-passant target square when the last move was a double
/// pawn push, the half-move clock, and the side to move.
#[derive(Clone, Copy, Debug, PartialEq, Eq)]
#[verifier::ext_equal]
pub struct State {
    pub castling_rights: CastlingRights,
    pub en_passant_square: Option<usize>,
    pub half_move_counter: u8,
    pub stm: Side,
}

impl State {
    /// The state of a fresh game: all rights, no en-passant target,
    /// clock zero, White to move.
    pub fn initial() -> (r: State)
        ensures
            r == (State {
                castling_rights: CastlingRights(Castling::ANY_CASTLING),
                en_passant_square: None,
                half_move_counter: 0,
                stm: Side::White,
            }),
    {
        State {
            castling_rights: CastlingRights(Castling::ANY_CASTLING),
            en_passant_square: None,
            half_move_counter: 0,
            stm: Side::White,
        }
    }
}

/// One side's army: a bitboard per piece kind.
#[derive(Clone, Copy, Debug, PartialEq, Eq)]
#[verifier::ext_equal]
pub struct Player {
    pub pawns: u64,
    pub knights: u64,
    pub bishops: u64,
    pub rooks: u64,
    pub queens: u64,
    pub king: u64,
}

impl Player {
    /// The bitboard of the given piece kind.
    pub open spec fn bb_spec(self, k: PieceKind) -> u64 {
        match k {
            PieceKind::Pawn => self.pawns,
            PieceKind::Knight => self.knights,
            PieceKind::Bishop => self.bishops,
            PieceKind::Rook => self.rooks,
            PieceKind::Queen => self.queens,
            PieceKind::King => self.king,
        }
    }

    /// This army with the bitboard of kind `k` replaced by `v`.
    pub open spec fn with_bb(self, k: PieceKind, v: u64) -> Player {
        match k {
            PieceKind::Pawn => Player { pawns: v, ..self },
            PieceKind::Knight => Player { knights: v, ..self },
            PieceKind::Bishop => Player { bishops: v, ..self },
            PieceKind::Rook => Player { rooks: v, ..self },
            PieceKind::Queen => Player { queens: v, ..self },
            PieceKind::King => Player { king: v, ..self },
        }
    }

    /// The union of this army's six piece boards.
    pub open spec fn occ_spec(self) -> u64 {
        self.pawns | self.knights | self.bishops | self.rooks | self.queens | self.king
    }

    /// The six piece boards are pairwise disjoint and the king is a
    /// single square.
    pub open spec fn wf(self) -> bool {
        &&& self.pawns & self.knights == 0
        &&& self.pawns & self.bishops == 0
        &&& self.pawns & self.rooks == 0
        &&& self.pawns & self.queens == 0
        &&& self.pawns & self.king == 0
        &&& self.knights & self.bishops == 0
        &&& self.knights & self.rooks == 0
        &&& self.knights & self.queens == 0
        &&& self.knights & self.king == 0
        &&& self.bishops & self.rooks == 0
        &&& self.bishops & self.queens == 0
        &&& self.bishops & self.king == 0
        &&& self.rooks & self.queens == 0
        &&& self.rooks & self.king == 0
        &&& self.queens & self.king == 0
        &&& self.king != 0
        &&& self.king & (self.king - 1) as u64 == 0
    }

    /// The bitboard of the given piece kind.
    pub fn bb(&self, k: PieceKind) -> (r: u64)
        ensures
            r == self.bb_spec(k),
    {
        match k {
            PieceKind::Pawn => self.pawns,
            PieceKind::Knight => self.knights,
            PieceKind::Bishop => self.bishops,
            PieceKind::Rook => self.rooks,
            PieceKind::Queen => self.queens,
            PieceKind::King => self.king,
        }
    }

    /// This army with the bitboard of kind `k` replaced by `v`.
    pub fn put_bb(self, k: PieceKind, v: u64) -> (r: Player)
        ensures
            r == self.with_bb(k, v),
    {
        match k {
            PieceKind::Pawn => Player { pawns: v, ..self },
            PieceKind::Knight => Player { knights: v, ..self },
            PieceKind::Bishop => Player { bishops: v, ..self },
            PieceKind::Rook => Player { rooks: v, ..self },
            PieceKind::Queen => Player { queens: v, ..self },
            PieceKind::King => Player { king: v, ..self },
        }
    }

    /// The union of this army's six piece boards.
    pub fn occ(&self) -> (r: u64)
        ensures
            r == self.occ_spec(),
    {
        self.pawns | self.knights | self.bishops | self.rooks | self.queens | self.king
    }

    /// The starting army of the given side.
    pub fn new(side: Side) -> (r: Player)
        ensures
            r == start_player(side),
            r.wf(),
    {
        let p = match side {
            Side::White => Player {
                pawns: 0x000000000000FF00,
                knights: 0x0000000000000042,
                bishops: 0x0000000000000024,
                rooks: 0x0000000000000081,
                queens: 0x0000000000000008,
                king: 0x0000000000000010,
            },
            Side::Black => Player {
                pawns: 0x00FF000000000000,
                knights: 0x4200000000000000,
                bishops: 0x2400000000000000,
                rooks: 0x8100000000000000,
                queens: 0x0800000000000000,
                king: 0x1000000000000000,
            },
        };
        proof {
            lemma_start_wf();
        }
        p
    }
}

/// Both starting armies are well formed and occupy disjoint squares.
pub proof fn lemma_start_wf()
    ensures
        start_player(Side::White).wf(),
        start_player(Side::Black).wf(),
        start_player(Side::White).occ_spec() & start_player(Side::Black).occ_spec() == 0,
{
    assert(0x000000000000FF00u64 & 0x0000000000000042u64 == 0 && 0x000000000000FF00u64
        & 0x0000000000000024u64 == 0 && 0x000000000000FF00u64 & 0x0000000000000081u64 == 0
        && 0x000000000000FF00u64 & 0x0000000000000008u64 == 0 && 0x000000000000FF00u64
        & 0x0000000000000010u64 == 0 && 0x0000000000000042u64 & 0x0000000000000024u64 == 0
        && 0x0000000000000042u64 & 0x0000000000000081u64 == 0 && 0x0000000000000042u64
        & 0x0000000000000008u64 == 0 && 0x0000000000000042u64 & 0x0000000000000010u64 == 0
        && 0x0000000000000024u64 & 0x0000000000000081u64 == 0 && 0x0000000000000024u64
        & 0x0000000000000008u64 == 0 && 0x0000000000000024u64 & 0x0000000000000010u64 == 0
        && 0x0000000000000081u64 & 0x0000000000000008u64 == 0 && 0x0000000000000081u64
        & 0x0000000000000010u64 == 0 && 0x0000000000000008u64 & 0x0000000000000010u64 == 0
        && 0x0000000000000010u64 & (0x0000000000000010u64 - 1) as u64 == 0) by (bit_vector);
    assert(0x00FF000000000000u64 & 0x4200000000000000u64 == 0 && 0x00FF000000000000u64
        & 0x2400000000000000u64 == 0 && 0x00FF000000000000u64 & 0x8100000000000000u64 == 0
        && 0x00FF000000000000u64 & 0x0800000000000000u64 == 0 && 0x00FF000000000000u64
        & 0x1000000000000000u64 == 0 && 0x4200000000000000u64 & 0x2400000000000000u64 == 0
        && 0x4200000000000000u64 & 0x8100000000000000u64 == 0 && 0x4200000000000000u64
        & 0x0800000000000000u64 == 0 && 0x4200000000000000u64 & 0x1000000000000000u64 == 0
        && 0x2400000000000000u64 & 0x8100000000000000u64 == 0 && 0x2400000000000000u64
        & 0x0800000000000000u64 == 0 && 0x2400000000000000u64 & 0x1000000000000000u64 == 0
        && 0x8100000000000000u64 & 0x0800000000000000u64 == 0 && 0x8100000000000000u64
        & 0x1000000000000000u64 == 0 && 0x0800000000000000u64 & 0x1000000000000000u64 == 0
        && 0x1000000000000000u64 & (0x1000000000000000u64 - 1) as u64 == 0) by (bit_vector);
    assert((0x000000000000FF00u64 | 0x0000000000000042u64 | 0x0000000000000024u64
        | 0x0000000000000081u64 | 0x0000000000000008u64 | 0x0000000000000010u64) & (
    0x00FF000000000000u64 | 0x4200000000000000u64 | 0x2400000000000000u64 | 0x8100000000000000u64
        | 0x0800000000000000u64 | 0x1000000000000000u64) == 0) by (bit_vector);
}

/// The starting army of the given side.
pub open spec fn start_player(side: Side) -> Player {
    match side {
        Side::White => Player {
            pawns: 0x000000000000FF00,
            knights: 0x0000000000000042,
            bishops: 0x0000000000000024,
            rooks: 0x0000000000000081,
            queens: 0x0000000000000008,
            king: 0x0000000000000010,
        },
        Side::Black => Player {
            pawns: 0x00FF000000000000,
            knights: 0x4200000000000000,
            bishops: 0x2400000000000000,
            rooks: 0x8100000000000000,
            queens: 0x0800000000000000,
            king: 0x1000000000000000,
        },
    }
}

/// The full piece placement: both armies and their derived occupancy
/// boards.
#[derive(Clone, Copy, Debug, PartialEq, Eq)]
#[verifier::ext_equal]
pub struct Board {
    pub white: Player,
    pub black: Player,
    pub occ_white: u64,
    pub occ_black: u64,
}

impl Board {
    /// The army of the given side.
    pub open spec fn player_spec(self, s: Side) -> Player {
        match s {
            Side::White => self.white,
            Side::Black => self.black,
        }
    }

    /// This board with the army of `s` replaced by `p` (occupancy is
    /// not touched).
    pub open spec fn with_player(self, s: Side, p: Player) -> Board {
        match s {
            Side::White => Board { white: p, ..self },
            Side::Black => Board { black: p, ..self },
        }
    }

    /// The occupancy board of the given side.
    pub open spec fn occ_of(self, s: Side) -> u64 {
        match s {
            Side::White => self.occ_white,
            Side::Black => self.occ_black,
        }
    }

    /// Every occupied square of either side.
    pub open spec fn occ_all(self) -> u64 {
        self.occ_white | self.occ_black
    }

    /// Both armies are well formed, the occupancy boards equal the
    /// unions of the armies, and no square is occupied by both sides.
    pub open spec fn wf(self) -> bool {
        &&& self.white.wf()
        &&& self.black.wf()
        &&& self.occ_white == self.white.occ_spec()
        &&& self.occ_black == self.black.occ_spec()
        &&& self.occ_white & self.occ_black == 0
    }

    /// The army of the given side.
    pub fn player(&self, s: Side) -> (r: Player)
        ensures
            r == self.player_spec(s),
    {
        match s {
            Side::White => self.white,
            Side::Black => self.black,
        }
    }

    /// The occupancy board of the given side; kept consistent by every
    /// mutating operation, never recomputed lazily.
    pub fn occupancy(&self, s: Side) -> (r: u64)
        ensures
            r == self.occ_of(s),
    {
        match s {
            Side::White => self.occ_white,
            Side::Black => self.occ_black,
        }
    }

    /// Every occupied square of either side.
    pub fn occupancy_all(&self) -> (r: u64)
        ensures
            r == self.occ_all(),
    {
        self.occ_white | self.occ_black
    }

    /// The side and kind occupying `square`, or `None` when it is
    /// empty; a total function.
    pub open spec fn piece_at_spec(self, square: u64) -> Option<(Side, PieceKind)> {
        if nth(self.white.pawns, square) {
            Some((Side::White, PieceKind::Pawn))
        } else if nth(self.white.knights, square) {
            Some((Side::White, PieceKind::Knight))
        } else if nth(self.white.bishops, square) {
            Some((Side::White, PieceKind::Bishop))
        } else if nth(self.white.rooks, square) {
            Some((Side::White, PieceKind::Rook))
        } else if nth(self.white.queens, square) {
            Some((Side::White, PieceKind::Queen))
        } else if nth(self.white.king, square) {
            Some((Side::White, PieceKind::King))
        } else if nth(self.black.pawns, square) {
            Some((Side::Black, PieceKind::Pawn))
        } else if nth(self.black.knights, square) {
            Some((Side::Black, PieceKind::Knight))
        } else if nth(self.black.bishops, square) {
            Some((Side::Black, PieceKind::Bishop))
        } else if nth(self.black.rooks, square) {
            Some((Side::Black, PieceKind::Rook))
        } else if nth(self.black.queens, square) {
            Some((Side::Black, PieceKind::Queen))
        } else if nth(self.black.king, square) {
            Some((Side::Black, PieceKind::King))
        } else {
            None
        }
    }

    /// The side and kind occupying `square`, or `None` when it is
    /// empty.
    pub fn piece_at(&self, square: usize) -> (r: Option<(Side, PieceKind)>)
        requires
            square < 64,
        ensures
            r == self.piece_at_spec(square as u64),
    {
        let m: u64 = 1u64 << (square as u64);
        if self.white.pawns & m != 0 {
            Some((Side::White, PieceKind::Pawn))
        } else if self.white.knights & m != 0 {
            Some((Side::White, PieceKind::Knight))
        } else if self.white.bishops & m != 0 {
            Some((Side::White, PieceKind::Bishop))
        } else if self.white.rooks & m != 0 {
            Some((Side::White, PieceKind::Rook))
        } else if self.white.queens & m != 0 {
            Some((Side::White, PieceKind::Queen))
        } else if self.white.king & m != 0 {
            Some((Side::White, PieceKind::King))
        } else if self.black.pawns & m != 0 {
            Some((Side::Black, PieceKind::Pawn))
        } else if self.black.knights & m != 0 {
            Some((Side::Black, PieceKind::Knight))
        } else if self.black.bishops & m != 0 {
            Some((Side::Black, PieceKind::Bishop))
        } else if self.black.rooks & m != 0 {
            Some((Side::Black, PieceKind::Rook))
        } else if self.black.queens & m != 0 {
            Some((Side::Black, PieceKind::Queen))
        } else if self.black.king & m != 0 {
            Some((Side::Black, PieceKind::King))
        } else {
            None
        }
    }

    /// The number of set squares of `b` at or above index `i`.
    pub open spec fn count_bits_from(b: u64, i: u64) -> nat
        decreases 64 - i,
    {
        if i >= 64 {
            0
        } else {
            (if nth(b, i) {
                1nat
            } else {
                0nat
            }) + Self::count_bits_from(b, (i + 1) as u64)
        }
    }

    /// How many pieces the given side has on the board.
    pub fn count_pieces(&self, side: Side) -> (r: usize)
        ensures
            r == Self::count_bits_from(self.occ_of(side), 0),
    {
        let occ = self.occupancy(side);
        let mut n: usize = 0;
        let mut i: u64 = 0;
        while i < 64
            invariant
                i <= 64,
                n + Self::count_bits_from(occ, i) == Self::count_bits_from(occ, 0),
                n <= i,
            decreases 64 - i,
        {
            if occ & (1u64 << i) != 0 {
                assert(nth(occ, i));
                n = n + 1;
            } else {
                assert(!nth(occ, i));
            }
            i = i + 1;
        }
        n
    }
}

impl Default for Board {
    /// The standard starting position.
    fn default() -> (r: Board)
        ensures
            r == start_board(),
            r.wf(),
    {
        let white = Player::new(Side::White);
        let black = Player::new(Side::Black);
        let b = Board { white, black, occ_white: white.occ(), occ_black: black.occ() };
        proof {
            lemma_start_wf();
        }
        b
    }
}

/// The standard starting position.
pub open spec fn start_board() -> Board {
    Board {
        white: start_player(Side::White),
        black: start_player(Side::Black),
        occ_white: start_player(Side::White).occ_spec(),
        occ_black: start_player(Side::Black).occ_spec(),
    }
}

/// When the en-passant target is set it points at the square just
/// behind an enemy pawn that has only just double-pushed, and the
/// target square itself is empty.
pub open spec fn ep_wf(b: Board, s: State) -> bool {
    match s.en_passant_square {
        None => true,
        Some(e) => {
            &&& e < 64
            &&& !nth(b.occ_all(), e as u64)
            &&& (if s.stm == Side::Black {
                16 <= e < 24 && nth(b.white.pawns, (e + 8) as u64)
            } else {
                40 <= e < 48 && nth(b.black.pawns, (e - 8) as u64)
            })
        },
    }
}

/// The invariant of a full position: a well-formed board, only the
/// four labelled castling bits, and a meaningful en-passant target.
pub open spec fn pos_wf(b: Board, s: State) -> bool {
    &&& b.wf()
    &&& s.castling_rights.wf()
    &&& ep_wf(b, s)
}

/// The square of the pawn taken by an en-passant capture landing on
/// `t`: directly behind the target square.
pub open spec fn ep_victim(stm: Side, t: u64) -> u64 {
    match stm {
        Side::White => (t - 8) as u64,
        Side::Black => (t + 8) as u64,
    }
}

/// The corner square of the king-side rook of `s`.
pub open spec fn rook_home_k(s: Side) -> u64 {
    match s {
        Side::White => 7u64,
        Side::Black => 63u64,
    }
}

/// Where the king-side rook lands when castling.
pub open spec fn rook_dest_k(s: Side) -> u64 {
    match s {
        Side::White => 5u64,
        Side::Black => 61u64,
    }
}

/// The corner square of the queen-side rook of `s`.
pub open spec fn rook_home_q(s: Side) -> u64 {
    match s {
        Side::White => 0u64,
        Side::Black => 56u64,
    }
}

/// Where the queen-side rook lands when castling.
pub open spec fn rook_dest_q(s: Side) -> u64 {
    match s {
        Side::White => 3u64,
        Side::Black => 59u64,
    }
}

/// The castling right lost when a move leaves or enters the given
/// rook home square.
pub open spec fn corner_mask(sq: usize) -> u8 {
    if sq == 7 {
        Castling::WHITE_00
    } else if sq == 0 {
        Castling::WHITE_000
    } else if sq == 63 {
        Castling::BLACK_00
    } else if sq == 56 {
        Castling::BLACK_000
    } else {
        0u8
    }
}

/// Every castling right lost by playing `m`: both rights of the mover
/// when the king moves, and the right tied to any rook home square the
/// move leaves or enters.
pub open spec fn rights_mask(stm: Side, m: Move) -> u8 {
    (if m.flags.piece == PieceKind::King {
        match stm {
            Side::White => Castling::WHITE_CASTLING,
            Side::Black => Castling::BLACK_CASTLING,
        }
    } else {
        0u8
    }) | corner_mask(m.from) | corner_mask(m.to)
}

/// The en-passant target after `m`: set only by a double pawn push, to
/// the square the pawn skipped.
pub open spec fn new_ep(m: Move) -> Option<usize> {
    if m.flags.piece == PieceKind::Pawn && !m.flags.capture && m.to == m.from + 16 {
        Some((m.from + 8) as usize)
    } else if m.flags.piece == PieceKind::Pawn && !m.flags.capture && m.to + 16 == m.from {
        Some((m.from - 8) as usize)
    } else {
        None
    }
}

/// The half-move clock after `m`: reset by captures and pawn moves,
/// otherwise one more (saturating).
pub open spec fn new_clock(c: u8, m: Move) -> u8 {
    if m.flags.capture || m.flags.piece == PieceKind::Pawn {
        0u8
    } else if c < 255 {
        (c + 1) as u8
    } else {
        255u8
    }
}

/// The sanity conditions `apply_move` assumes of a move; every
/// pseudo-legal move the generator produces satisfies them.  They say
/// that the moved piece stands on the origin square, that the target
/// is not occupied by the mover, that capture flags match what stands
/// on the target, and that the special-move flags are consistent with
/// the position.
pub open spec fn move_ok(b: Board, s: State, m: Move) -> bool {
    let us = b.player_spec(s.stm);
    let them = b.player_spec(s.stm.flip_spec());
    let f = m.from as u64;
    let t = m.to as u64;
    let fl = m.flags;
    &&& m.from < 64
    &&& m.to < 64
    &&& nth(us.bb_spec(fl.piece), f)
    &&& !nth(b.occ_of(s.stm), t)
    &&& (fl.passant ==> fl.capture && fl.piece == PieceKind::Pawn && fl.captured == PieceKind::Pawn
        && s.en_passant_square == Some(m.to))
    &&& (fl.capture && !fl.passant ==> nth(them.bb_spec(fl.captured), t) && fl.captured
        != PieceKind::King)
    &&& (!fl.capture ==> !nth(b.occ_of(s.stm.flip_spec()), t))
    &&& (fl.promotion ==> fl.piece == PieceKind::Pawn && (fl.promoted == PieceKind::Knight
        || fl.promoted == PieceKind::Bishop || fl.promoted == PieceKind::Rook || fl.promoted
        == PieceKind::Queen) && (if s.stm == Side::White {
        m.to >= 56
    } else {
        m.to < 8
    }))
    &&& (fl.piece == PieceKind::Pawn && !fl.capture && m.to == m.from + 16 ==> s.stm == Side::White
        && 8 <= m.from < 16 && !nth(b.occ_all(), (m.from + 8) as u64))
    &&& (fl.piece == PieceKind::Pawn && !fl.capture && m.to + 16 == m.from ==> s.stm == Side::Black
        && 48 <= m.from < 56 && !nth(b.occ_all(), (m.from - 8) as u64))
    &&& !(fl.castle_king && fl.castle_queen)
    &&& (fl.castle_king ==> fl.piece == PieceKind::King && !fl.capture && !fl.promotion
        && !fl.passant && (if s.stm == Side::White {
        m.from == 4 && m.to == 6 && nth(us.rooks, 7) && !nth(b.occ_all(), 5)
    } else {
        m.from == 60 && m.to == 62 && nth(us.rooks, 63) && !nth(b.occ_all(), 61)
    }))
    &&& (fl.castle_queen ==> fl.piece == PieceKind::King && !fl.capture && !fl.promotion
        && !fl.passant && (if s.stm == Side::White {
        m.from == 4 && m.to == 2 && nth(us.rooks, 0) && !nth(b.occ_all(), 3) && !nth(
            b.occ_all(),
            1,
        )
    } else {
        m.from == 60 && m.to == 58 && nth(us.rooks, 56) && !nth(b.occ_all(), 59) && !nth(
            b.occ_all(),
            57,
        )
    }))
}

/// The position reached by playing `m`: the moved piece leaves its
/// origin, any captured piece disappears, the piece (or its promotion)
/// lands on the target, a castling rook jumps over, the occupancy
/// boards are rebuilt, and the game state advances.
pub open spec fn apply_spec(b: Board, s: State, m: Move) -> (Board, State) {
    let us0 = b.player_spec(s.stm);
    let them0 = b.player_spec(s.stm.flip_spec());
    let f = m.from as u64;
    let t = m.to as u64;
    let fl = m.flags;
    let us1 = us0.with_bb(fl.piece, us0.bb_spec(fl.piece) & !sq_bb(f));
    let them1 = if fl.passant {
        them0.with_bb(PieceKind::Pawn, them0.pawns & !sq_bb(ep_victim(s.stm, t)))
    } else if fl.capture {
        them0.with_bb(fl.captured, them0.bb_spec(fl.captured) & !sq_bb(t))
    } else {
        them0
    };
    let place = if fl.promotion {
        fl.promoted
    } else {
        fl.piece
    };
    let us2 = us1.with_bb(place, us1.bb_spec(place) | sq_bb(t));
    let us3 = if fl.castle_king {
        us2.with_bb(PieceKind::Rook, (us2.rooks & !sq_bb(rook_home_k(s.stm))) | sq_bb(
            rook_dest_k(s.stm),
        ))
    } else if fl.castle_queen {
        us2.with_bb(PieceKind::Rook, (us2.rooks & !sq_bb(rook_home_q(s.stm))) | sq_bb(
            rook_dest_q(s.stm),
        ))
    } else {
        us2
    };
    let b1 = b.with_player(s.stm, us3).with_player(s.stm.flip_spec(), them1);
    let b2 = Board {
        occ_white: b1.white.occ_spec(),
        occ_black: b1.black.occ_spec(),
        ..b1
    };
    let s2 = State {
        castling_rights: CastlingRights(s.castling_rights.0 & !rights_mask(s.stm, m)),
        en_passant_square: new_ep(m),
        half_move_counter: new_clock(s.half_move_counter, m),
        stm: s.stm.flip_spec(),
    };
    (b2, s2)
}

/// Moving one bitboard of an army from `f` to an empty square `t`
/// keeps it disjoint from the other five boards.
proof fn lemma_army_move(m0: u64, o1: u64, o2: u64, o3: u64, o4: u64, o5: u64, f: u64, t: u64)
    by (bit_vector)
    requires
        f < 64,
        t < 64,
        nth(m0, f),
        m0 & o1 == 0,
        m0 & o2 == 0,
        m0 & o3 == 0,
        m0 & o4 == 0,
        m0 & o5 == 0,
        !nth(m0, t),
        !nth(o1, t),
        !nth(o2, t),
        !nth(o3, t),
        !nth(o4, t),
        !nth(o5, t),
    ensures
        ((m0 & !sq_bb(f)) | sq_bb(t)) & o1 == 0,
        o1 & ((m0 & !sq_bb(f)) | sq_bb(t)) == 0,
        ((m0 & !sq_bb(f)) | sq_bb(t)) & o2 == 0,
        o2 & ((m0 & !sq_bb(f)) | sq_bb(t)) == 0,
        ((m0 & !sq_bb(f)) | sq_bb(t)) & o3 == 0,
        o3 & ((m0 & !sq_bb(f)) | sq_bb(t)) == 0,
        ((m0 & !sq_bb(f)) | sq_bb(t)) & o4 == 0,
        o4 & ((m0 & !sq_bb(f)) | sq_bb(t)) == 0,
        ((m0 & !sq_bb(f)) | sq_bb(t)) & o5 == 0,
        o5 & ((m0 & !sq_bb(f)) | sq_bb(t)) == 0,
{
}

/// A pawn leaving `f` while its promotion piece appears on the empty
/// square `t` keeps all six boards pairwise disjoint.
proof fn lemma_army_promote(p0: u64, g0: u64, o1: u64, o2: u64, o3: u64, o4: u64, f: u64, t: u64)
    by (bit_vector)
    requires
        f < 64,
        t < 64,
        nth(p0, f),
        p0 & g0 == 0,
        p0 & o1 == 0,
        p0 & o2 == 0,
        p0 & o3 == 0,
        p0 & o4 == 0,
        g0 & o1 == 0,
        g0 & o2 == 0,
        g0 & o3 == 0,
        g0 & o4 == 0,
        !nth(p0, t),
        !nth(g0, t),
        !nth(o1, t),
        !nth(o2, t),
        !nth(o3, t),
        !nth(o4, t),
    ensures
        (p0 & !sq_bb(f)) & (g0 | sq_bb(t)) == 0,
        (g0 | sq_bb(t)) & (p0 & !sq_bb(f)) == 0,
        (p0 & !sq_bb(f)) & o1 == 0,
        o1 & (p0 & !sq_bb(f)) == 0,
        (p0 & !sq_bb(f)) & o2 == 0,
        o2 & (p0 & !sq_bb(f)) == 0,
        (p0 & !sq_bb(f)) & o3 == 0,
        o3 & (p0 & !sq_bb(f)) == 0,
        (p0 & !sq_bb(f)) & o4 == 0,
        o4 & (p0 & !sq_bb(f)) == 0,
        (g0 | sq_bb(t)) & o1 == 0,
        o1 & (g0 | sq_bb(t)) == 0,
        (g0 | sq_bb(t)) & o2 == 0,
        o2 & (g0 | sq_bb(t)) == 0,
        (g0 | sq_bb(t)) & o3 == 0,
        o3 & (g0 | sq_bb(t)) == 0,
        (g0 | sq_bb(t)) & o4 == 0,
        o4 & (g0 | sq_bb(t)) == 0,
{
}

/// Clearing one square of one bitboard keeps the army pairwise
/// disjoint.
proof fn lemma_army_remove(c0: u64, o1: u64, o2: u64, o3: u64, o4: u64, o5: u64, v: u64)
    by (bit_vector)
    requires
        v < 64,
        c0 & o1 == 0,
        c0 & o2 == 0,
        c0 & o3 == 0,
        c0 & o4 == 0,
        c0 & o5 == 0,
    ensures
        (c0 & !sq_bb(v)) & o1 == 0,
        o1 & (c0 & !sq_bb(v)) == 0,
        (c0 & !sq_bb(v)) & o2 == 0,
        o2 & (c0 & !sq_bb(v)) == 0,
        (c0 & !sq_bb(v)) & o3 == 0,
        o3 & (c0 & !sq_bb(v)) == 0,
        (c0 & !sq_bb(v)) & o4 == 0,
        o4 & (c0 & !sq_bb(v)) == 0,
        (c0 & !sq_bb(v)) & o5 == 0,
        o5 & (c0 & !sq_bb(v)) == 0,
{
}

/// Moving a lone king from `f` to `t` leaves a lone king on `t`.
proof fn lemma_single_bit_move(k: u64, f: u64, t: u64)
    by (bit_vector)
    requires
        f < 64,
        t < 64,
        k != 0,
        k & (k - 1) as u64 == 0,
        nth(k, f),
    ensures
        ((k & !sq_bb(f)) | sq_bb(t)) == sq_bb(t),
        sq_bb(t) != 0,
        sq_bb(t) & (sq_bb(t) - 1) as u64 == 0,
{
}

/// One scanning step of `lemma_disjoint_from_pointwise`.
proof fn lemma_pointwise_step(x: u64, y: u64, i: u64)
    by (bit_vector)
    requires
        i < 64,
        (x & y) & low_mask(i) == 0,
        !(nth(x, i) && nth(y, i)),
    ensures
        (x & y) & low_mask((i + 1) as u64) == 0,
{
}

/// Two boards that share no square are disjoint as bitboards.
pub proof fn lemma_disjoint_from_pointwise(x: u64, y: u64)
    requires
        forall|i: u64| i < 64 ==> !(nth(x, i) && nth(y, i)),
    ensures
        x & y == 0,
{
    lemma_low_mask_zero();
    lemma_disjoint_rec(x, y, 0);
}

proof fn lemma_disjoint_rec(x: u64, y: u64, i: u64)
    requires
        i <= 64,
        (x & y) & low_mask(i) == 0,
        forall|j: u64| j < 64 ==> !(nth(x, j) && nth(y, j)),
    ensures
        x & y == 0,
    decreases 64 - i,
{
    if i == 64 {
        lemma_low_mask_all(x & y);
    } else {
        lemma_pointwise_step(x, y, i);
        lemma_disjoint_rec(x, y, (i + 1) as u64);
    }
}

/// Masking bits out of a four-bit value keeps it below sixteen.
proof fn lemma_rights_lt(r: u8, m: u8)
    by (bit_vector)
    requires
        r < 16,
    ensures
        (r & !m) < 16,
{
}

/// Lifting the piece of kind `k` off square `f` and putting it down on
/// the empty square `t` preserves the army invariant, and changes the
/// army's occupancy by exactly those two squares.
proof fn lemma_player_move_wf(p: Player, k: PieceKind, f: u64, t: u64)
    requires
        p.wf(),
        f < 64,
        t < 64,
        nth(p.bb_spec(k), f),
        !nth(p.occ_spec(), t),
    ensures
        ({
            let p1 = p.with_bb(k, p.bb_spec(k) & !sq_bb(f));
            let p2 = p1.with_bb(k, p1.bb_spec(k) | sq_bb(t));
            &&& p2.wf()
            &&& p2.bb_spec(k) == (p.bb_spec(k) & !sq_bb(f)) | sq_bb(t)
            &&& forall|i: u64|
                i < 64 ==> nth(p2.occ_spec(), i) == ((nth(p.occ_spec(), i) && i != f) || i == t)
        }),
{
    lemma_bit_ops();
    lemma_comm();
    lemma_nth_update();
    let p1 = p.with_bb(k, p.bb_spec(k) & !sq_bb(f));
    let p2 = p1.with_bb(k, p1.bb_spec(k) | sq_bb(t));
    let m1 = (p.bb_spec(k) & !sq_bb(f)) | sq_bb(t);
    assert(p2.bb_spec(k) == m1);
    lemma_disjoint_nth(p.pawns, p.knights);
    lemma_disjoint_nth(p.pawns, p.bishops);
    lemma_disjoint_nth(p.pawns, p.rooks);
    lemma_disjoint_nth(p.pawns, p.queens);
    lemma_disjoint_nth(p.pawns, p.king);
    lemma_disjoint_nth(p.knights, p.bishops);
    lemma_disjoint_nth(p.knights, p.rooks);
    lemma_disjoint_nth(p.knights, p.queens);
    lemma_disjoint_nth(p.knights, p.king);
    lemma_disjoint_nth(p.bishops, p.rooks);
    lemma_disjoint_nth(p.bishops, p.queens);
    lemma_disjoint_nth(p.bishops, p.king);
    lemma_disjoint_nth(p.rooks, p.queens);
    lemma_disjoint_nth(p.rooks, p.king);
    lemma_disjoint_nth(p.queens, p.king);
    match k {
        PieceKind::Pawn => {
            lemma_army_move(p.pawns, p.knights, p.bishops, p.rooks, p.queens, p.king, f, t);
        },
        PieceKind::Knight => {
            lemma_army_move(p.knights, p.pawns, p.bishops, p.rooks, p.queens, p.king, f, t);
        },
        PieceKind::Bishop => {
            lemma_army_move(p.bishops, p.pawns, p.knights, p.rooks, p.queens, p.king, f, t);
        },
        PieceKind::Rook => {
            lemma_army_move(p.rooks, p.pawns, p.knights, p.bishops, p.queens, p.king, f, t);
        },
        PieceKind::Queen => {
            lemma_army_move(p.queens, p.pawns, p.knights, p.bishops, p.rooks, p.king, f, t);
        },
        PieceKind::King => {
            lemma_army_move(p.king, p.pawns, p.knights, p.bishops, p.rooks, p.queens, f, t);
            lemma_single_bit_move(p.king, f, t);
        },
    }
    assert(p2.wf());
    assert forall|i: u64|
        i < 64 implies nth(p2.occ_spec(), i) == ((nth(p.occ_spec(), i) && i != f) || i == t) by {
        assert(nth(m1, i) == ((nth(p.bb_spec(k), i) && i != f) || i == t));
        match k {
            PieceKind::Pawn => {},
            PieceKind::Knight => {},
            PieceKind::Bishop => {},
            PieceKind::Rook => {},
            PieceKind::Queen => {},
            PieceKind::King => {},
        }
    }
}

/// A pawn on `f` promoting to `g` on the empty square `t` preserves
/// the army invariant; the occupancy again changes by those two
/// squares.
proof fn lemma_player_promote_wf(p: Player, g: PieceKind, f: u64, t: u64)
    requires
        p.wf(),
        f < 64,
        t < 64,
        nth(p.pawns, f),
        !nth(p.occ_spec(), t),
        g == PieceKind::Knight || g == PieceKind::Bishop || g == PieceKind::Rook || g
            == PieceKind::Queen,
    ensures
        ({
            let p1 = p.with_bb(PieceKind::Pawn, p.bb_spec(PieceKind::Pawn) & !sq_bb(f));
            let p2 = p1.with_bb(g, p1.bb_spec(g) | sq_bb(t));
            &&& p2.wf()
            &&& forall|i: u64|
                i < 64 ==> nth(p2.occ_spec(), i) == ((nth(p.occ_spec(), i) && i != f) || i == t)
        }),
{
    lemma_bit_ops();
    lemma_comm();
    lemma_nth_update();
    let p1 = p.with_bb(PieceKind::Pawn, p.bb_spec(PieceKind::Pawn) & !sq_bb(f));
    let p2 = p1.with_bb(g, p1.bb_spec(g) | sq_bb(t));
    lemma_disjoint_nth(p.pawns, p.knights);
    lemma_disjoint_nth(p.pawns, p.bishops);
    lemma_disjoint_nth(p.pawns, p.rooks);
    lemma_disjoint_nth(p.pawns, p.queens);
    lemma_disjoint_nth(p.pawns, p.king);
    lemma_disjoint_nth(p.knights, p.bishops);
    lemma_disjoint_nth(p.knights, p.rooks);
    lemma_disjoint_nth(p.knights, p.queens);
    lemma_disjoint_nth(p.knights, p.king);
    lemma_disjoint_nth(p.bishops, p.rooks);
    lemma_disjoint_nth(p.bishops, p.queens);
    lemma_disjoint_nth(p.bishops, p.king);
    lemma_disjoint_nth(p.rooks, p.queens);
    lemma_disjoint_nth(p.rooks, p.king);
    lemma_disjoint_nth(p.queens, p.king);
    match g {
        PieceKind::Knight => {
            lemma_army_promote(p.pawns, p.knights, p.bishops, p.rooks, p.queens, p.king, f, t);
        },
        PieceKind::Bishop => {
            lemma_army_promote(p.pawns, p.bishops, p.knights, p.rooks, p.queens, p.king, f, t);
        },
        PieceKind::Rook => {
            lemma_army_promote(p.pawns, p.rooks, p.knights, p.bishops, p.queens, p.king, f, t);
        },
        PieceKind::Queen => {
            lemma_army_promote(p.pawns, p.queens, p.knights, p.bishops, p.rooks, p.king, f, t);
        },
        _ => {},
    }
    assert(p2.wf());
    assert forall|i: u64|
        i < 64 implies nth(p2.occ_spec(), i) == ((nth(p.occ_spec(), i) && i != f) || i == t) by {
        assert(nth(p.pawns & !sq_bb(f), i) == (nth(p.pawns, i) && i != f));
        assert(nth(p1.bb_spec(g) | sq_bb(t), i) == (nth(p1.bb_spec(g), i) || i == t));
        match g {
            PieceKind::Knight => {},
            PieceKind::Bishop => {},
            PieceKind::Rook => {},
            PieceKind::Queen => {},
            _ => {},
        }
    }
}

/// Clearing the occupied square `v` of the board of kind `k` (not the
/// king) preserves the army invariant; the occupancy loses exactly
/// that square.
proof fn lemma_player_remove_wf(p: Player, k: PieceKind, v: u64)
    requires
        p.wf(),
        v < 64,
        nth(p.bb_spec(k), v),
        k != PieceKind::King,
    ensures
        ({
            let p1 = p.with_bb(k, p.bb_spec(k) & !sq_bb(v));
            &&& p1.wf()
            &&& forall|i: u64|
                i < 64 ==> nth(p1.occ_spec(), i) == (nth(p.occ_spec(), i) && i != v)
        }),
{
    lemma_bit_ops();
    lemma_comm();
    lemma_nth_update();
    let p1 = p.with_bb(k, p.bb_spec(k) & !sq_bb(v));
    lemma_disjoint_nth(p.pawns, p.knights);
    lemma_disjoint_nth(p.pawns, p.bishops);
    lemma_disjoint_nth(p.pawns, p.rooks);
    lemma_disjoint_nth(p.pawns, p.queens);
    lemma_disjoint_nth(p.pawns, p.king);
    lemma_disjoint_nth(p.knights, p.bishops);
    lemma_disjoint_nth(p.knights, p.rooks);
    lemma_disjoint_nth(p.knights, p.queens);
    lemma_disjoint_nth(p.knights, p.king);
    lemma_disjoint_nth(p.bishops, p.rooks);
    lemma_disjoint_nth(p.bishops, p.queens);
    lemma_disjoint_nth(p.bishops, p.king);
    lemma_disjoint_nth(p.rooks, p.queens);
    lemma_disjoint_nth(p.rooks, p.king);
    lemma_disjoint_nth(p.queens, p.king);
    match k {
        PieceKind::Pawn => {
            lemma_army_remove(p.pawns, p.knights, p.bishops, p.rooks, p.queens, p.king, v);
        },
        PieceKind::Knight => {
            lemma_army_remove(p.knights, p.pawns, p.bishops, p.rooks, p.queens, p.king, v);
        },
        PieceKind::Bishop => {
            lemma_army_remove(p.bishops, p.pawns, p.knights, p.rooks, p.queens, p.king, v);
        },
        PieceKind::Rook => {
            lemma_army_remove(p.rooks, p.pawns, p.knights, p.bishops, p.queens, p.king, v);
        },
        PieceKind::Queen => {
            lemma_army_remove(p.queens, p.pawns, p.knights, p.bishops, p.rooks, p.king, v);
        },
        PieceKind::King => {},
    }
    assert(p1.wf());
    assert forall|i: u64|
        i < 64 implies nth(p1.occ_spec(), i) == (nth(p.occ_spec(), i) && i != v) by {
        assert(nth(p.bb_spec(k) & !sq_bb(v), i) == (nth(p.bb_spec(k), i) && i != v));
        match k {
            PieceKind::Pawn => {},
            PieceKind::Knight => {},
            PieceKind::Bishop => {},
            PieceKind::Rook => {},
            PieceKind::Queen => {},
            PieceKind::King => {},
        }
    }
}

/// Applying a move that satisfies `move_ok` to a well-formed position
/// yields a well-formed position.
pub proof fn lemma_apply_wf(b: Board, s: State, m: Move)
    requires
        pos_wf(b, s),
        move_ok(b, s, m),
    ensures
        pos_wf(apply_spec(b, s, m).0, apply_spec(b, s, m).1),
{
    lemma_bit_ops();
    let us0 = b.player_spec(s.stm);
    let them0 = b.player_spec(s.stm.flip_spec());
    let f = m.from as u64;
    let t = m.to as u64;
    let fl = m.flags;
    let us1 = us0.with_bb(fl.piece, us0.bb_spec(fl.piece) & !sq_bb(f));
    let them1 = if fl.passant {
        them0.with_bb(PieceKind::Pawn, them0.pawns & !sq_bb(ep_victim(s.stm, t)))
    } else if fl.capture {
        them0.with_bb(fl.captured, them0.bb_spec(fl.captured) & !sq_bb(t))
    } else {
        them0
    };
    let place = if fl.promotion {
        fl.promoted
    } else {
        fl.piece
    };
    let us2 = us1.with_bb(place, us1.bb_spec(place) | sq_bb(t));
    let us3 = if fl.castle_king {
        us2.with_bb(PieceKind::Rook, (us2.rooks & !sq_bb(rook_home_k(s.stm))) | sq_bb(
            rook_dest_k(s.stm),
        ))
    } else if fl.castle_queen {
        us2.with_bb(PieceKind::Rook, (us2.rooks & !sq_bb(rook_home_q(s.stm))) | sq_bb(
            rook_dest_q(s.stm),
        ))
    } else {
        us2
    };
    lemma_comm();
    lemma_nth_update();
    // The occupancy boards seen from the mover's side.
    let occ_us0 = us0.occ_spec();
    let occ_them0 = them0.occ_spec();
    assert(occ_us0 & occ_them0 == 0);
    lemma_disjoint_nth(occ_us0, occ_them0);
    assert(!nth(occ_us0, t));
    // The opponent after any capture: well formed, occupancy only shrinks.
    if fl.passant {
        let v = ep_victim(s.stm, t);
        assert(s.en_passant_square == Some(m.to));
        assert(nth(them0.bb_spec(PieceKind::Pawn), v) && v < 64);
        assert(!nth(occ_them0, t));
        lemma_player_remove_wf(them0, PieceKind::Pawn, v);
    } else if fl.capture {
        lemma_player_remove_wf(them0, fl.captured, t);
    }
    assert(them1.wf());
    assert(forall|i: u64| i < 64 && nth(them1.occ_spec(), i) ==> nth(occ_them0, i));
    assert(!nth(them1.occ_spec(), t));
    // The mover after lifting, landing, promoting and castling.
    if fl.castle_king || fl.castle_queen {
        let rf = if fl.castle_king {
            rook_home_k(s.stm)
        } else {
            rook_home_q(s.stm)
        };
        let rt = if fl.castle_king {
            rook_dest_k(s.stm)
        } else {
            rook_dest_q(s.stm)
        };
        lemma_player_move_wf(us0, PieceKind::King, f, t);
        assert(us2.rooks == us0.rooks);
        assert(rf < 64 && rt < 64 && rt != t && nth(us0.rooks, rf) && !nth(b.occ_all(), rt)
            && !nth(occ_us0, rt) && !nth(occ_them0, rt));
        assert(!nth(us2.occ_spec(), rt));
        assert(nth(us2.bb_spec(PieceKind::Rook), rf));
        lemma_player_move_wf(us2, PieceKind::Rook, rf, rt);
        assert(us3 == us2.with_bb(PieceKind::Rook, us2.bb_spec(PieceKind::Rook) & !sq_bb(rf))
            .with_bb(
            PieceKind::Rook,
            us2.with_bb(PieceKind::Rook, us2.bb_spec(PieceKind::Rook) & !sq_bb(rf)).bb_spec(
                PieceKind::Rook,
            ) | sq_bb(rt),
        ));
        assert(us3.wf());
        assert(forall|i: u64|
            i < 64 && nth(us3.occ_spec(), i) ==> nth(occ_us0, i) || i == t || i == rt);
        // No enemy piece stands on any square the mover now occupies.
        assert forall|i: u64| i < 64 implies !(nth(us3.occ_spec(), i) && nth(
            them1.occ_spec(),
            i,
        )) by {
            if i < 64 && nth(them1.occ_spec(), i) {
                assert(nth(occ_them0, i));
                assert(!nth(occ_us0, i));
                assert(i != t);
                assert(i != rt);
            }
        }
    } else if fl.promotion {
        lemma_player_promote_wf(us0, fl.promoted, f, t);
        assert(us3.wf());
        assert forall|i: u64| i < 64 implies !(nth(us3.occ_spec(), i) && nth(
            them1.occ_spec(),
            i,
        )) by {
            if i < 64 && nth(them1.occ_spec(), i) {
                assert(nth(occ_them0, i));
                assert(!nth(occ_us0, i));
                assert(i != t);
            }
        }
    } else {
        lemma_player_move_wf(us0, fl.piece, f, t);
        assert(us3.wf());
        assert forall|i: u64| i < 64 implies !(nth(us3.occ_spec(), i) && nth(
            them1.occ_spec(),
            i,
        )) by {
            if i < 64 && nth(them1.occ_spec(), i) {
                assert(nth(occ_them0, i));
                assert(!nth(occ_us0, i));
                assert(i != t);
            }
        }
    }
    // The two sides still occupy disjoint squares.
    lemma_disjoint_from_pointwise(us3.occ_spec(), them1.occ_spec());
    assert forall|i: u64| i < 64 implies !(nth(them1.occ_spec(), i) && nth(
        us3.occ_spec(),
        i,
    )) by {}
    lemma_disjoint_from_pointwise(them1.occ_spec(), us3.occ_spec());
    let b2 = apply_spec(b, s, m).0;
    let s2 = apply_spec(b, s, m).1;
    assert(b2.white == if s.stm == Side::White {
        us3
    } else {
        them1
    });
    assert(b2.wf());
    // The four castling bits stay in range.
    lemma_rights_lt(s.castling_rights.0, rights_mask(s.stm, m));
    // A fresh en-passant target is meaningful.
    if new_ep(m) is Some {
        let e = new_ep(m)->0;
        assert(fl.piece == PieceKind::Pawn && !fl.capture);
        assert(!fl.promotion && !fl.castle_king && !fl.castle_queen);
        assert(us3 == us2);
        assert(nth(us3.bb_spec(PieceKind::Pawn), t));
        if m.to == m.from + 16 {
            assert(e == m.from + 8 && s.stm == Side::White);
            assert(!nth(occ_us0, (e as u64)) && !nth(occ_them0, (e as u64)));
            assert(!nth(us3.occ_spec(), e as u64) && !nth(them1.occ_spec(), e as u64));
            assert(!nth(b2.occ_all(), e as u64));
            assert(nth(b2.white.pawns, (e + 8) as u64));
        } else {
            assert(e == m.from - 8 && s.stm == Side::Black);
            assert(!nth(occ_us0, (e as u64)) && !nth(occ_them0, (e as u64)));
            assert(!nth(us3.occ_spec(), e as u64) && !nth(them1.occ_spec(), e as u64));
            assert(!nth(b2.occ_all(), e as u64));
            assert(nth(b2.black.pawns, (e - 8) as u64));
        }
    }
    assert(ep_wf(b2, s2));
}

/// Play `m` on the position `(b, s)`, producing the new position.
/// The move must satisfy `move_ok`; legality is the move generator's
/// responsibility.
pub fn apply_move(b: &Board, s: &State, m: Move) -> (r: (Board, State))
    requires
        pos_wf(*b, *s),
        move_ok(*b, *s, m),
    ensures
        r == apply_spec(*b, *s, m),
        pos_wf(r.0, r.1),
{
    proof {
        lemma_apply_wf(*b, *s, m);
        lemma_bit_ops();
    }
    let stm = s.stm;
    let us0 = b.player(stm);
    let them0 = b.player(stm.flip());
    let f: u64 = m.from as u64;
    let t: u64 = m.to as u64;
    let fl = m.flags;
    let us1 = us0.put_bb(fl.piece, us0.bb(fl.piece) & !(1u64 << f));
    let them1 = if fl.passant {
        let v: u64 = match stm {
            Side::White => t - 8,
            Side::Black => t + 8,
        };
        assert(v == ep_victim(s.stm, t));
        them0.put_bb(PieceKind::Pawn, them0.pawns & !(1u64 << v))
    } else if fl.capture {
        them0.put_bb(fl.captured, them0.bb(fl.captured) & !(1u64 << t))
    } else {
        them0
    };
    let place = if fl.promotion {
        fl.promoted
    } else {
        fl.piece
    };
    let us2 = us1.put_bb(place, us1.bb(place) | (1u64 << t));
    let us3 = if fl.castle_king {
        let rf: u64 = match stm {
            Side::White => 7,
            Side::Black => 63,
        };
        let rt: u64 = match stm {
            Side::White => 5,
            Side::Black => 61,
        };
        us2.put_bb(PieceKind::Rook, (us2.rooks & !(1u64 << rf)) | (1u64 << rt))
    } else if fl.castle_queen {
        let rf: u64 = match stm {
            Side::White => 0,
            Side::Black => 56,
        };
        let rt: u64 = match stm {
            Side::White => 3,
            Side::Black => 59,
        };
        us2.put_bb(PieceKind::Rook, (us2.rooks & !(1u64 << rf)) | (1u64 << rt))
    } else {
        us2
    };
    let (white, black) = match stm {
        Side::White => (us3, them1),
        Side::Black => (them1, us3),
    };
    let nb = Board { white, black, occ_white: white.occ(), occ_black: black.occ() };
    let rights = CastlingRights(s.castling_rights.0 & !rights_mask_exec(stm, m));
    let ep = if fl.piece == PieceKind::Pawn && !fl.capture && m.to == m.from + 16 {
        Some(m.from + 8)
    } else if fl.piece == PieceKind::Pawn && !fl.capture && m.to + 16 == m.from {
        Some(m.from - 16 + 8)
    } else {
        None
    };
    let clock = if fl.capture || fl.piece == PieceKind::Pawn {
        0
    } else if s.half_move_counter < 255 {
        s.half_move_counter + 1
    } else {
        255
    };
    let ns = State { castling_rights: rights, en_passant_square: ep, half_move_counter: clock, stm: stm.flip() };
    assert((nb, ns) == apply_spec(*b, *s, m));
    (nb, ns)
}

/// Every castling right lost by playing `m`.
fn rights_mask_exec(stm: Side, m: Move) -> (r: u8)
    ensures
        r == rights_mask(stm, m),
{
    let king_part: u8 = if m.flags.piece == PieceKind::King {
        match stm {
            Side::White => Castling::WHITE_CASTLING,
            Side::Black => Castling::BLACK_CASTLING,
        }
    } else {
        0
    };
    king_part | corner_mask_exec(m.from) | corner_mask_exec(m.to)
}

/// The castling right tied to a rook home square.
fn corner_mask_exec(sq: usize) -> (r: u8)
    ensures
        r == corner_mask(sq),
{
    if sq == 7 {
        Castling::WHITE_00
    } else if sq == 0 {
        Castling::WHITE_000
    } else if sq == 63 {
        Castling::BLACK_00
    } else if sq == 56 {
        Castling::BLACK_000
    } else {
        0
    }
}

/// Whether one army satisfies its invariant, decided at run time.
fn player_well_formed(p: &Player) -> (r: bool)
    ensures
        r == p.wf(),
{
    p.pawns & p.knights == 0 && p.pawns & p.bishops == 0 && p.pawns & p.rooks == 0 && p.pawns
        & p.queens == 0 && p.pawns & p.king == 0 && p.knights & p.bishops == 0 && p.knights
        & p.rooks == 0 && p.knights & p.queens == 0 && p.knights & p.king == 0 && p.bishops
        & p.rooks == 0 && p.bishops & p.queens == 0 && p.bishops & p.king == 0 && p.rooks
        & p.queens == 0 && p.rooks & p.king == 0 && p.queens & p.king == 0 && p.king != 0
        && p.king & (p.king - 1) == 0
}

/// Whether a board and state satisfy the full position invariant,
/// decided at run time: what every position handed to the engine must
/// satisfy.
pub fn is_well_formed(b: &Board, s: &State) -> (r: bool)
    ensures
        r == pos_wf(*b, *s),
{
    proof {
        lemma_bit_ops();
    }
    let boards_ok = player_well_formed(&b.white) && player_well_formed(&b.black) && b.occ_white
        == b.white.occ() && b.occ_black == b.black.occ() && b.occ_white & b.occ_black == 0;
    let rights_ok = s.castling_rights.0 < 16;
    let ep_ok = match s.en_passant_square {
        None => true,
        Some(e) => {
            e < 64 && (b.occ_white | b.occ_black) & (1u64 << (e as u64)) == 0 && (match s.stm {
                Side::Black => 16 <= e && e < 24 && b.white.pawns & (1u64 << ((e + 8) as u64))
                    != 0,
                Side::White => 40 <= e && e < 48 && b.black.pawns & (1u64 << ((e - 8) as u64))
                    != 0,
            })
        },
    };
    boards_ok && rights_ok && ep_ok
}

} // verus!
