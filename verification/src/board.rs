//! Board geometry: squares, files, ranks, directional shifts and rays.
//! A bitboard is a `u64`; bit `i` stands for square `i` (rank-major,
//! 0 = a1, 63 = h8).
use vstd::prelude::*;

use crate::bits::{lemma_low_mask_all, lemma_low_mask_step, lemma_low_mask_zero, low_mask, nth};

verus! {

/// The two players.
#[derive(Clone, Copy, Debug, PartialEq, Eq, Structural)]
pub enum Side {
    White,
    Black,
}

impl Side {
    /// The opponent of this side.
    pub open spec fn flip_spec(self) -> Side {
        match self {
            Side::White => Side::Black,
            Side::Black => Side::White,
        }
    }

    /// The opponent of this side.
    pub fn flip(self) -> (r: Side)
        ensures
            r == self.flip_spec(),
    {
        match self {
            Side::White => Side::Black,
            Side::Black => Side::White,
        }
    }
}

/// The six piece kinds.
#[derive(Clone, Copy, Debug, PartialEq, Eq, Structural)]
pub enum PieceKind {
    Pawn,
    Knight,
    Bishop,
    Rook,
    Queen,
    King,
}

/// The eight compass directions a ray can extend in.
#[derive(Clone, Copy, Debug, PartialEq, Eq, Structural)]
pub enum Ray {
    North,
    NorthEast,
    East,
    SouthEast,
    South,
    SouthWest,
    West,
    NorthWest,
}

/// The properties of a move besides its squares: what moved, what was
/// taken, and which of the special-move rules applies.
#[derive(Clone, Copy, Debug, PartialEq, Eq, Structural)]
pub struct BoardFlags {
    /// The kind of the piece being moved.
    pub piece: PieceKind,
    /// The move takes an enemy piece.
    pub capture: bool,
    /// The kind taken when `capture` is set.
    pub captured: PieceKind,
    /// The capture is en passant: the taken pawn sits behind the target.
    pub passant: bool,
    /// King-side castling.
    pub castle_king: bool,
    /// Queen-side castling.
    pub castle_queen: bool,
    /// The move promotes a pawn on the farthest rank.
    pub promotion: bool,
    /// The kind the pawn becomes when `promotion` is set.
    pub promoted: PieceKind,
}


/// A move: origin square, destination square, and its flags.
#[derive(Clone, Copy, Debug, PartialEq, Eq, Structural)]
pub struct Move {
    pub from: usize,
    pub to: usize,
    pub flags: BoardFlags,
}

pub const EMPTY: u64 = 0x0000000000000000;

pub const FULL: u64 = 0xFFFFFFFFFFFFFFFF;

// Files (columns).
pub const A_FILE: u64 = 0x0101010101010101;

pub const B_FILE: u64 = 0x0202020202020202;

pub const C_FILE: u64 = 0x0404040404040404;

pub const D_FILE: u64 = 0x0808080808080808;

pub const E_FILE: u64 = 0x1010101010101010;

pub const F_FILE: u64 = 0x2020202020202020;

pub const G_FILE: u64 = 0x4040404040404040;

pub const H_FILE: u64 = 0x8080808080808080;

// Ranks (rows).
pub const RANK_1: u64 = 0x00000000000000FF;

pub const RANK_2: u64 = 0x000000000000FF00;

pub const RANK_3: u64 = 0x0000000000FF0000;

pub const RANK_4: u64 = 0x00000000FF000000;

pub const RANK_5: u64 = 0x000000FF00000000;

pub const RANK_6: u64 = 0x0000FF0000000000;

pub const RANK_7: u64 = 0x00FF000000000000;

pub const RANK_8: u64 = 0xFF00000000000000;

// Long diagonals.
pub const A1_H8_DIAGONAL: u64 = 0x8040201008040201;

pub const H1_A8_ANTIDIAGONAL: u64 = 0x0102040810204080;

// Square colours.
pub const LIGHT_SQUARES: u64 = 0x55AA55AA55AA55AA;

pub const DARK_SQUARES: u64 = 0xAA55AA55AA55AA55;

/// One step north of every occupied square.
pub open spec fn north_of(b: u64) -> u64 {
    b << 8
}

/// One step south of every occupied square.
pub open spec fn south_of(b: u64) -> u64 {
    b >> 8
}

/// One step east of every occupied square, with wrap-around onto the
/// a-file excluded.
pub open spec fn east_of(b: u64) -> u64 {
    (b << 1) & !A_FILE
}

/// One step west of every occupied square, with wrap-around onto the
/// h-file excluded.
pub open spec fn west_of(b: u64) -> u64 {
    (b >> 1) & !H_FILE
}

/// One step northeast, wrap-around excluded.
pub open spec fn northeast_of(b: u64) -> u64 {
    (b << 9) & !A_FILE
}

/// One step northwest, wrap-around excluded.
pub open spec fn northwest_of(b: u64) -> u64 {
    (b << 7) & !H_FILE
}

/// One step southeast, wrap-around excluded.
pub open spec fn southeast_of(b: u64) -> u64 {
    (b >> 7) & !A_FILE
}

/// One step southwest, wrap-around excluded.
pub open spec fn southwest_of(b: u64) -> u64 {
    (b >> 9) & !H_FILE
}

/// Shift board north one square.
pub fn north_one(board: u64) -> (r: u64)
    ensures
        r == north_of(board),
{
    board << 8
}

/// Shift board south one square.
pub fn south_one(board: u64) -> (r: u64)
    ensures
        r == south_of(board),
{
    board >> 8
}

/// Shift board east one square.
pub fn east_one(board: u64) -> (r: u64)
    ensures
        r == east_of(board),
{
    (board << 1) & !A_FILE
}

/// Shift board west one square.
pub fn west_one(board: u64) -> (r: u64)
    ensures
        r == west_of(board),
{
    (board >> 1) & !H_FILE
}

/// Shift board northeast one square.
pub fn northeast_one(board: u64) -> (r: u64)
    ensures
        r == northeast_of(board),
{
    (board << 9) & !A_FILE
}

/// Shift board northwest one square.
pub fn northwest_one(board: u64) -> (r: u64)
    ensures
        r == northwest_of(board),
{
    (board << 7) & !H_FILE
}

/// Shift board southeast one square.
pub fn southeast_one(board: u64) -> (r: u64)
    ensures
        r == southeast_of(board),
{
    (board >> 7) & !A_FILE
}

/// Shift board southwest one square.
pub fn southwest_one(board: u64) -> (r: u64)
    ensures
        r == southwest_of(board),
{
    (board >> 9) & !H_FILE
}

/// Rotate board left by `s` bits.
pub fn rotate_left(board: u64, s: i32) -> (r: u64)
    requires
        0 < s < 64,
    ensures
        r == (board << s as u64) | (board >> (64 - s) as u64),
{
    (board << s) | (board >> (64 - s))
}

/// Rotate board right by `s` bits.
pub fn rotate_right(board: u64, s: i32) -> (r: u64)
    requires
        0 < s < 64,
    ensures
        r == (board >> s as u64) | (board << (64 - s) as u64),
{
    (board >> s) | (board << (64 - s))
}

/// The index of the lowest set bit at or above `i`, or 64 when all bits
/// at or above `i` are clear.
pub open spec fn lowest_set(b: u64, i: u64) -> u64
    decreases 64 - i,
{
    if i >= 64 {
        64u64
    } else if nth(b, i) {
        i
    } else {
        lowest_set(b, (i + 1) as u64)
    }
}


/// The index of the lowest set bit of `board`, when one exists.
pub fn bitscan(board: u64) -> (r: Option<u64>)
    ensures
        board == 0 ==> r is None,
        board != 0 ==> r == Some(lowest_set(board, 0)) && lowest_set(board, 0) < 64,
{
    if board == 0 {
        return None;
    }
    proof {
        lemma_low_mask_zero();
    }
    let mut i: u64 = 0;
    while i < 64
        invariant
            i <= 64,
            board != 0,
            lowest_set(board, 0) == lowest_set(board, i),
            board & low_mask(i) == 0,
        decreases 64 - i,
    {
        if board & (1u64 << i) != 0 {
            assert(nth(board, i));
            return Some(i);
        }
        assert(!nth(board, i));
        proof {
            lemma_low_mask_step(board, i);
        }
        i = i + 1;
    }
    proof {
        lemma_low_mask_all(board);
    }
    None
}

/// One step of a ray walk in direction `d`.
pub open spec fn ray_step(t: u64, d: Ray) -> u64 {
    match d {
        Ray::North => north_of(t),
        Ray::NorthEast => east_of(north_of(t)),
        Ray::East => east_of(t),
        Ray::SouthEast => east_of(south_of(t)),
        Ray::South => south_of(t),
        Ray::SouthWest => west_of(south_of(t)),
        Ray::West => west_of(t),
        Ray::NorthWest => west_of(north_of(t)),
    }
}

/// A ray walk stops when its frontier touches the board edge it is
/// moving towards.
pub open spec fn ray_stop(t: u64, d: Ray) -> bool {
    match d {
        Ray::North => t & RANK_8 != 0,
        Ray::NorthEast => t & RANK_8 != 0 || t & H_FILE != 0,
        Ray::East => t & H_FILE != 0,
        Ray::SouthEast => t & RANK_1 != 0 || t & H_FILE != 0,
        Ray::South => t & RANK_1 != 0,
        Ray::SouthWest => t & RANK_1 != 0 || t & A_FILE != 0,
        Ray::West => t & A_FILE != 0,
        Ray::NorthWest => t & RANK_8 != 0 || t & A_FILE != 0,
    }
}

/// The accumulated squares of a ray walk with `fuel` steps left:
/// `acc` already holds the squares collected so far and `t` is the
/// frontier.
pub open spec fn ray_fill(acc: u64, t: u64, d: Ray, fuel: nat) -> u64
    decreases fuel,
{
    if fuel == 0 || ray_stop(t, d) {
        acc
    } else {
        ray_fill(acc | ray_step(t, d), ray_step(t, d), d, (fuel - 1) as nat)
    }
}

/// Extend every occupied square of `board` into a full ray in
/// direction `d` (the occupied squares themselves are kept).
pub fn get_ray(board: u64, direction: Ray) -> (r: u64)
    ensures
        r == ray_fill(board, board, direction, 8),
{
    let mut acc: u64 = board;
    let mut t: u64 = board;
    let mut k: u64 = 0;
    while k < 8
        invariant
            k <= 8,
            ray_fill(board, board, direction, 8) == ray_fill(acc, t, direction, (8 - k) as nat),
        decreases 8 - k,
    {
        if match direction {
            Ray::North => t & RANK_8 != 0,
            Ray::NorthEast => t & RANK_8 != 0 || t & H_FILE != 0,
            Ray::East => t & H_FILE != 0,
            Ray::SouthEast => t & RANK_1 != 0 || t & H_FILE != 0,
            Ray::South => t & RANK_1 != 0,
            Ray::SouthWest => t & RANK_1 != 0 || t & A_FILE != 0,
            Ray::West => t & A_FILE != 0,
            Ray::NorthWest => t & RANK_8 != 0 || t & A_FILE != 0,
        } {
            assert(ray_stop(t, direction));
            assert(ray_fill(acc, t, direction, (8 - k) as nat) == acc);
            return acc;
        }
        let step = match direction {
            Ray::North => north_one(t),
            Ray::NorthEast => east_one(north_one(t)),
            Ray::East => east_one(t),
            Ray::SouthEast => east_one(south_one(t)),
            Ray::South => south_one(t),
            Ray::SouthWest => west_one(south_one(t)),
            Ray::West => west_one(t),
            Ray::NorthWest => west_one(north_one(t)),
        };
        acc = acc | step;
        t = step;
        k = k + 1;
    }
    acc
}

/// The union of the file and rank rays through every occupied square.
pub fn get_rows_and_col(board: u64) -> (r: u64)
    ensures
        r == ray_fill(board, board, Ray::North, 8) | ray_fill(board, board, Ray::East, 8) | ray_fill(
            board,
            board,
            Ray::South,
            8,
        ) | ray_fill(board, board, Ray::West, 8),
{
    get_ray(board, Ray::North) | get_ray(board, Ray::East) | get_ray(board, Ray::South) | get_ray(
        board,
        Ray::West,
    )
}

/// The union of the two diagonal rays through every occupied square.
pub fn get_diagonals(board: u64) -> (r: u64)
    ensures
        r == ray_fill(board, board, Ray::NorthEast, 8) | ray_fill(board, board, Ray::NorthWest, 8)
            | ray_fill(board, board, Ray::SouthEast, 8) | ray_fill(board, board, Ray::SouthWest, 8),
{
    get_ray(board, Ray::NorthEast) | get_ray(board, Ray::NorthWest) | get_ray(
        board,
        Ray::SouthEast,
    ) | get_ray(board, Ray::SouthWest)
}

} // verus!
