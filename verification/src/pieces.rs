//! Per-piece value types: a single piece's bitboard and side, with its
//! movement geometry.  The move generator works on whole positions;
//! these types expose the same geometry piece by piece.
use vstd::prelude::*;

use crate::board::{
    north_of, north_one, northeast_of, northeast_one, northwest_of, northwest_one, south_of, south_one, southeast_of, southeast_one, southwest_of, southwest_one, Side, A_FILE, B_FILE, G_FILE, H_FILE, RANK_2, RANK_7,
};

verus! {

/// A single pawn: its square as a one-bit board, and its side.
pub struct Pawn {
    pub bboard: u64,
    pub side: Side,
}

impl Pawn {
    pub const WHITE_DEFAULT: u64 = RANK_2;

    pub const BLACK_DEFAULT: u64 = RANK_7;

    /// A pawn on the given square board.
    pub fn new(pos: u64, side: Side) -> (r: Pawn)
        ensures
            r.bboard == pos,
            r.side == side,
    {
        Pawn { bboard: pos, side }
    }

    /// The square one step ahead, in this side's direction.
    pub fn push(&self) -> (r: u64)
        ensures
            self.side == Side::White ==> r == north_of(self.bboard),
            self.side == Side::Black ==> r == south_of(self.bboard),
    {
        match self.side {
            Side::White => north_one(self.bboard),
            Side::Black => south_one(self.bboard),
        }
    }

    /// The square two steps ahead, in this side's direction.
    pub fn double_push(&self) -> (r: u64)
        ensures
            self.side == Side::White ==> r == north_of(north_of(self.bboard)),
            self.side == Side::Black ==> r == south_of(south_of(self.bboard)),
    {
        match self.side {
            Side::White => north_one(north_one(self.bboard)),
            Side::Black => south_one(south_one(self.bboard)),
        }
    }

    /// The capture square towards the a-file, wrap-around excluded.
    pub fn west_attacks(&self) -> (r: u64)
        ensures
            self.side == Side::White ==> r == northwest_of(self.bboard),
            self.side == Side::Black ==> r == southwest_of(self.bboard),
    {
        match self.side {
            Side::White => northwest_one(self.bboard),
            Side::Black => southwest_one(self.bboard),
        }
    }

    /// The capture square towards the h-file, wrap-around excluded.
    pub fn east_attacks(&self) -> (r: u64)
        ensures
            self.side == Side::White ==> r == northeast_of(self.bboard),
            self.side == Side::Black ==> r == southeast_of(self.bboard),
    {
        match self.side {
            Side::White => northeast_one(self.bboard),
            Side::Black => southeast_one(self.bboard),
        }
    }
}

/// A single knight: its square as a one-bit board, and its side.
pub struct Knight {
    pub bboard: u64,
    pub side: Side,
}

impl Knight {
    pub const WHITE_DEFAULT: u64 = 0x42;

    pub const BLACK_DEFAULT: u64 = 0x4200000000000000;

    /// A knight on the given square board.
    pub fn new(pos: u64, side: Side) -> (r: Knight)
        ensures
            r.bboard == pos,
            r.side == side,
    {
        Knight { bboard: pos, side }
    }

    /// Two ranks up, one file towards h; wrap-around excluded.
    pub fn north_north_east(&self) -> (r: u64)
        ensures
            r == (self.bboard << 17) & !A_FILE,
    {
        (self.bboard << 17) & !A_FILE
    }

    /// One rank up, two files towards h; wrap-around excluded.
    pub fn north_east_east(&self) -> (r: u64)
        ensures
            r == (self.bboard << 10) & !(A_FILE | B_FILE),
    {
        (self.bboard << 10) & !(A_FILE | B_FILE)
    }

    /// One rank down, two files towards h; wrap-around excluded.
    pub fn south_east_east(&self) -> (r: u64)
        ensures
            r == (self.bboard >> 6) & !(A_FILE | B_FILE),
    {
        (self.bboard >> 6) & !(A_FILE | B_FILE)
    }

    /// Two ranks down, one file towards h; wrap-around excluded.
    pub fn south_south_east(&self) -> (r: u64)
        ensures
            r == (self.bboard >> 15) & !A_FILE,
    {
        (self.bboard >> 15) & !A_FILE
    }

    /// Two ranks up, one file towards a; wrap-around excluded.
    pub fn north_north_west(&self) -> (r: u64)
        ensures
            r == (self.bboard << 15) & !H_FILE,
    {
        (self.bboard << 15) & !H_FILE
    }

    /// One rank up, two files towards a; wrap-around excluded.
    pub fn north_west_west(&self) -> (r: u64)
        ensures
            r == (self.bboard << 6) & !(G_FILE | H_FILE),
    {
        (self.bboard << 6) & !(G_FILE | H_FILE)
    }

    /// Two ranks down, one file towards a; wrap-around excluded.
    pub fn south_south_west(&self) -> (r: u64)
        ensures
            r == (self.bboard >> 17) & !H_FILE,
    {
        (self.bboard >> 17) & !H_FILE
    }

    /// One rank down, two files towards a; wrap-around excluded.
    pub fn south_west_west(&self) -> (r: u64)
        ensures
            r == (self.bboard >> 10) & !(G_FILE | H_FILE),
    {
        (self.bboard >> 10) & !(G_FILE | H_FILE)
    }
}

/// A single bishop: its square as a one-bit board, and its side.
pub struct Bishop {
    pub bboard: u64,
    pub side: Side,
}

impl Bishop {
    pub const WHITE_DEFAULT: u64 = 0x24;

    pub const BLACK_DEFAULT: u64 = 0x2400000000000000;

    /// A bishop on the given square board.
    pub fn new(pos: u64, side: Side) -> (r: Bishop)
        ensures
            r.bboard == pos,
            r.side == side,
    {
        Bishop { bboard: pos, side }
    }
}

/// A single rook: its square as a one-bit board, and its side.
pub struct Rook {
    pub bboard: u64,
    pub side: Side,
}

impl Rook {
    pub const WHITE_DEFAULT: u64 = 0x81;

    pub const BLACK_DEFAULT: u64 = 0x8100000000000000;

    /// A rook on the given square board.
    pub fn new(pos: u64, side: Side) -> (r: Rook)
        ensures
            r.bboard == pos,
            r.side == side,
    {
        Rook { bboard: pos, side }
    }
}

/// A single queen: its square as a one-bit board, and its side.
pub struct Queen {
    pub bboard: u64,
    pub side: Side,
}

impl Queen {
    pub const WHITE_DEFAULT: u64 = 0x8;

    pub const BLACK_DEFAULT: u64 = 0x0800000000000000;

    /// The queen of the given side on its home square.
    pub fn new(side: Side) -> (r: Queen)
        ensures
            r.side == side,
            side == Side::White ==> r.bboard == Queen::WHITE_DEFAULT,
            side == Side::Black ==> r.bboard == Queen::BLACK_DEFAULT,
    {
        match side {
            Side::White => Queen { bboard: Queen::WHITE_DEFAULT, side },
            Side::Black => Queen { bboard: Queen::BLACK_DEFAULT, side },
        }
    }
}

/// A single king: its square as a one-bit board, and its side.
pub struct King {
    pub bboard: u64,
    pub side: Side,
}

impl King {
    pub const WHITE_DEFAULT: u64 = 0x10;

    pub const BLACK_DEFAULT: u64 = 0x1000000000000000;

    /// The king of the given side on its home square.
    pub fn new(side: Side) -> (r: King)
        ensures
            r.side == side,
            side == Side::White ==> r.bboard == King::WHITE_DEFAULT,
            side == Side::Black ==> r.bboard == King::BLACK_DEFAULT,
    {
        match side {
            Side::White => King { bboard: King::WHITE_DEFAULT, side },
            Side::Black => King { bboard: King::BLACK_DEFAULT, side },
        }
    }

    /// Every square this king is one step away from.
    pub fn targets(&self) -> (r: u64)
        ensures
            r == crate::movegen::king_pattern(self.bboard),
    {
        crate::movegen::king_pattern_exec(self.bboard)
    }
}

} // verus!
