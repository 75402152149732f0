//! The evaluator: material count plus piece-square bonuses, positive
//! favouring White, in centipawns.  The tables are authored from
//! White's perspective and read mirrored (index 63 minus square) for
//! Black.
use vstd::prelude::*;

use crate::bits::nth;
use crate::board::{PieceKind, Side};
use crate::position::{Board, Player};

verus! {

/// The positional bonus of a pawn on each square.
pub open spec fn pawn_pst(sq: int) -> int {
    if sq == 0 {
        0
    } else if sq == 1 {
        0
    } else if sq == 2 {
        0
    } else if sq == 3 {
        0
    } else if sq == 4 {
        0
    } else if sq == 5 {
        0
    } else if sq == 6 {
        0
    } else if sq == 7 {
        0
    } else if sq == 8 {
        50
    } else if sq == 9 {
        50
    } else if sq == 10 {
        50
    } else if sq == 11 {
        50
    } else if sq == 12 {
        50
    } else if sq == 13 {
        50
    } else if sq == 14 {
        50
    } else if sq == 15 {
        50
    } else if sq == 16 {
        10
    } else if sq == 17 {
        10
    } else if sq == 18 {
        20
    } else if sq == 19 {
        30
    } else if sq == 20 {
        30
    } else if sq == 21 {
        20
    } else if sq == 22 {
        10
    } else if sq == 23 {
        10
    } else if sq == 24 {
        5
    } else if sq == 25 {
        5
    } else if sq == 26 {
        10
    } else if sq == 27 {
        25
    } else if sq == 28 {
        25
    } else if sq == 29 {
        10
    } else if sq == 30 {
        5
    } else if sq == 31 {
        5
    } else if sq == 32 {
        0
    } else if sq == 33 {
        0
    } else if sq == 34 {
        0
    } else if sq == 35 {
        20
    } else if sq == 36 {
        20
    } else if sq == 37 {
        0
    } else if sq == 38 {
        0
    } else if sq == 39 {
        0
    } else if sq == 40 {
        5
    } else if sq == 41 {
        -5
    } else if sq == 42 {
        -10
    } else if sq == 43 {
        0
    } else if sq == 44 {
        0
    } else if sq == 45 {
        -10
    } else if sq == 46 {
        -5
    } else if sq == 47 {
        5
    } else if sq == 48 {
        5
    } else if sq == 49 {
        10
    } else if sq == 50 {
        10
    } else if sq == 51 {
        -20
    } else if sq == 52 {
        -20
    } else if sq == 53 {
        10
    } else if sq == 54 {
        10
    } else if sq == 55 {
        5
    } else if sq == 56 {
        0
    } else if sq == 57 {
        0
    } else if sq == 58 {
        0
    } else if sq == 59 {
        0
    } else if sq == 60 {
        0
    } else if sq == 61 {
        0
    } else if sq == 62 {
        0
    } else {
        0
    }
}

/// The positional bonus of a pawn on each square.
pub fn pawn_pst_exec(sq: usize) -> (r: i32)
    requires
        sq < 64,
    ensures
        r as int == pawn_pst(sq as int),
{
    if sq == 0 {
        0i32
    } else if sq == 1 {
        0i32
    } else if sq == 2 {
        0i32
    } else if sq == 3 {
        0i32
    } else if sq == 4 {
        0i32
    } else if sq == 5 {
        0i32
    } else if sq == 6 {
        0i32
    } else if sq == 7 {
        0i32
    } else if sq == 8 {
        50i32
    } else if sq == 9 {
        50i32
    } else if sq == 10 {
        50i32
    } else if sq == 11 {
        50i32
    } else if sq == 12 {
        50i32
    } else if sq == 13 {
        50i32
    } else if sq == 14 {
        50i32
    } else if sq == 15 {
        50i32
    } else if sq == 16 {
        10i32
    } else if sq == 17 {
        10i32
    } else if sq == 18 {
        20i32
    } else if sq == 19 {
        30i32
    } else if sq == 20 {
        30i32
    } else if sq == 21 {
        20i32
    } else if sq == 22 {
        10i32
    } else if sq == 23 {
        10i32
    } else if sq == 24 {
        5i32
    } else if sq == 25 {
        5i32
    } else if sq == 26 {
        10i32
    } else if sq == 27 {
        25i32
    } else if sq == 28 {
        25i32
    } else if sq == 29 {
        10i32
    } else if sq == 30 {
        5i32
    } else if sq == 31 {
        5i32
    } else if sq == 32 {
        0i32
    } else if sq == 33 {
        0i32
    } else if sq == 34 {
        0i32
    } else if sq == 35 {
        20i32
    } else if sq == 36 {
        20i32
    } else if sq == 37 {
        0i32
    } else if sq == 38 {
        0i32
    } else if sq == 39 {
        0i32
    } else if sq == 40 {
        5i32
    } else if sq == 41 {
        -5i32
    } else if sq == 42 {
        -10i32
    } else if sq == 43 {
        0i32
    } else if sq == 44 {
        0i32
    } else if sq == 45 {
        -10i32
    } else if sq == 46 {
        -5i32
    } else if sq == 47 {
        5i32
    } else if sq == 48 {
        5i32
    } else if sq == 49 {
        10i32
    } else if sq == 50 {
        10i32
    } else if sq == 51 {
        -20i32
    } else if sq == 52 {
        -20i32
    } else if sq == 53 {
        10i32
    } else if sq == 54 {
        10i32
    } else if sq == 55 {
        5i32
    } else if sq == 56 {
        0i32
    } else if sq == 57 {
        0i32
    } else if sq == 58 {
        0i32
    } else if sq == 59 {
        0i32
    } else if sq == 60 {
        0i32
    } else if sq == 61 {
        0i32
    } else if sq == 62 {
        0i32
    } else {
        0i32
    }
}


/// The positional bonus of a knight on each square.
pub open spec fn knight_pst(sq: int) -> int {
    if sq == 0 {
        -50
    } else if sq == 1 {
        -40
    } else if sq == 2 {
        -30
    } else if sq == 3 {
        -30
    } else if sq == 4 {
        -30
    } else if sq == 5 {
        -30
    } else if sq == 6 {
        -40
    } else if sq == 7 {
        -50
    } else if sq == 8 {
        -40
    } else if sq == 9 {
        -20
    } else if sq == 10 {
        0
    } else if sq == 11 {
        5
    } else if sq == 12 {
        5
    } else if sq == 13 {
        0
    } else if sq == 14 {
        -20
    } else if sq == 15 {
        -40
    } else if sq == 16 {
        -30
    } else if sq == 17 {
        5
    } else if sq == 18 {
        10
    } else if sq == 19 {
        15
    } else if sq == 20 {
        15
    } else if sq == 21 {
        10
    } else if sq == 22 {
        5
    } else if sq == 23 {
        -30
    } else if sq == 24 {
        -30
    } else if sq == 25 {
        0
    } else if sq == 26 {
        15
    } else if sq == 27 {
        20
    } else if sq == 28 {
        20
    } else if sq == 29 {
        15
    } else if sq == 30 {
        0
    } else if sq == 31 {
        -30
    } else if sq == 32 {
        -30
    } else if sq == 33 {
        5
    } else if sq == 34 {
        15
    } else if sq == 35 {
        20
    } else if sq == 36 {
        20
    } else if sq == 37 {
        15
    } else if sq == 38 {
        5
    } else if sq == 39 {
        -30
    } else if sq == 40 {
        -30
    } else if sq == 41 {
        0
    } else if sq == 42 {
        10
    } else if sq == 43 {
        15
    } else if sq == 44 {
        15
    } else if sq == 45 {
        10
    } else if sq == 46 {
        0
    } else if sq == 47 {
        -30
    } else if sq == 48 {
        -40
    } else if sq == 49 {
        -20
    } else if sq == 50 {
        0
    } else if sq == 51 {
        0
    } else if sq == 52 {
        0
    } else if sq == 53 {
        0
    } else if sq == 54 {
        -20
    } else if sq == 55 {
        -40
    } else if sq == 56 {
        -50
    } else if sq == 57 {
        -40
    } else if sq == 58 {
        -30
    } else if sq == 59 {
        -30
    } else if sq == 60 {
        -30
    } else if sq == 61 {
        -30
    } else if sq == 62 {
        -40
    } else {
        -50
    }
}

/// The positional bonus of a knight on each square.
pub fn knight_pst_exec(sq: usize) -> (r: i32)
    requires
        sq < 64,
    ensures
        r as int == knight_pst(sq as int),
{
    if sq == 0 {
        -50i32
    } else if sq == 1 {
        -40i32
    } else if sq == 2 {
        -30i32
    } else if sq == 3 {
        -30i32
    } else if sq == 4 {
        -30i32
    } else if sq == 5 {
        -30i32
    } else if sq == 6 {
        -40i32
    } else if sq == 7 {
        -50i32
    } else if sq == 8 {
        -40i32
    } else if sq == 9 {
        -20i32
    } else if sq == 10 {
        0i32
    } else if sq == 11 {
        5i32
    } else if sq == 12 {
        5i32
    } else if sq == 13 {
        0i32
    } else if sq == 14 {
        -20i32
    } else if sq == 15 {
        -40i32
    } else if sq == 16 {
        -30i32
    } else if sq == 17 {
        5i32
    } else if sq == 18 {
        10i32
    } else if sq == 19 {
        15i32
    } else if sq == 20 {
        15i32
    } else if sq == 21 {
        10i32
    } else if sq == 22 {
        5i32
    } else if sq == 23 {
        -30i32
    } else if sq == 24 {
        -30i32
    } else if sq == 25 {
        0i32
    } else if sq == 26 {
        15i32
    } else if sq == 27 {
        20i32
    } else if sq == 28 {
        20i32
    } else if sq == 29 {
        15i32
    } else if sq == 30 {
        0i32
    } else if sq == 31 {
        -30i32
    } else if sq == 32 {
        -30i32
    } else if sq == 33 {
        5i32
    } else if sq == 34 {
        15i32
    } else if sq == 35 {
        20i32
    } else if sq == 36 {
        20i32
    } else if sq == 37 {
        15i32
    } else if sq == 38 {
        5i32
    } else if sq == 39 {
        -30i32
    } else if sq == 40 {
        -30i32
    } else if sq == 41 {
        0i32
    } else if sq == 42 {
        10i32
    } else if sq == 43 {
        15i32
    } else if sq == 44 {
        15i32
    } else if sq == 45 {
        10i32
    } else if sq == 46 {
        0i32
    } else if sq == 47 {
        -30i32
    } else if sq == 48 {
        -40i32
    } else if sq == 49 {
        -20i32
    } else if sq == 50 {
        0i32
    } else if sq == 51 {
        0i32
    } else if sq == 52 {
        0i32
    } else if sq == 53 {
        0i32
    } else if sq == 54 {
        -20i32
    } else if sq == 55 {
        -40i32
    } else if sq == 56 {
        -50i32
    } else if sq == 57 {
        -40i32
    } else if sq == 58 {
        -30i32
    } else if sq == 59 {
        -30i32
    } else if sq == 60 {
        -30i32
    } else if sq == 61 {
        -30i32
    } else if sq == 62 {
        -40i32
    } else {
        -50i32
    }
}


/// The positional bonus of a bishop on each square.
pub open spec fn bishop_pst(sq: int) -> int {
    if sq == 0 {
        -20
    } else if sq == 1 {
        -10
    } else if sq == 2 {
        -10
    } else if sq == 3 {
        -10
    } else if sq == 4 {
        -10
    } else if sq == 5 {
        -10
    } else if sq == 6 {
        -10
    } else if sq == 7 {
        -20
    } else if sq == 8 {
        -10
    } else if sq == 9 {
        0
    } else if sq == 10 {
        0
    } else if sq == 11 {
        0
    } else if sq == 12 {
        0
    } else if sq == 13 {
        0
    } else if sq == 14 {
        0
    } else if sq == 15 {
        -10
    } else if sq == 16 {
        -10
    } else if sq == 17 {
        0
    } else if sq == 18 {
        5
    } else if sq == 19 {
        10
    } else if sq == 20 {
        10
    } else if sq == 21 {
        5
    } else if sq == 22 {
        0
    } else if sq == 23 {
        -10
    } else if sq == 24 {
        -10
    } else if sq == 25 {
        5
    } else if sq == 26 {
        5
    } else if sq == 27 {
        10
    } else if sq == 28 {
        10
    } else if sq == 29 {
        5
    } else if sq == 30 {
        5
    } else if sq == 31 {
        -10
    } else if sq == 32 {
        -10
    } else if sq == 33 {
        0
    } else if sq == 34 {
        10
    } else if sq == 35 {
        10
    } else if sq == 36 {
        10
    } else if sq == 37 {
        10
    } else if sq == 38 {
        0
    } else if sq == 39 {
        -10
    } else if sq == 40 {
        -10
    } else if sq == 41 {
        10
    } else if sq == 42 {
        10
    } else if sq == 43 {
        10
    } else if sq == 44 {
        10
    } else if sq == 45 {
        10
    } else if sq == 46 {
        10
    } else if sq == 47 {
        -10
    } else if sq == 48 {
        -10
    } else if sq == 49 {
        5
    } else if sq == 50 {
        0
    } else if sq == 51 {
        0
    } else if sq == 52 {
        0
    } else if sq == 53 {
        0
    } else if sq == 54 {
        5
    } else if sq == 55 {
        -10
    } else if sq == 56 {
        -20
    } else if sq == 57 {
        -10
    } else if sq == 58 {
        -10
    } else if sq == 59 {
        -10
    } else if sq == 60 {
        -10
    } else if sq == 61 {
        -10
    } else if sq == 62 {
        -10
    } else {
        -20
    }
}

/// The positional bonus of a bishop on each square.
pub fn bishop_pst_exec(sq: usize) -> (r: i32)
    requires
        sq < 64,
    ensures
        r as int == bishop_pst(sq as int),
{
    if sq == 0 {
        -20i32
    } else if sq == 1 {
        -10i32
    } else if sq == 2 {
        -10i32
    } else if sq == 3 {
        -10i32
    } else if sq == 4 {
        -10i32
    } else if sq == 5 {
        -10i32
    } else if sq == 6 {
        -10i32
    } else if sq == 7 {
        -20i32
    } else if sq == 8 {
        -10i32
    } else if sq == 9 {
        0i32
    } else if sq == 10 {
        0i32
    } else if sq == 11 {
        0i32
    } else if sq == 12 {
        0i32
    } else if sq == 13 {
        0i32
    } else if sq == 14 {
        0i32
    } else if sq == 15 {
        -10i32
    } else if sq == 16 {
        -10i32
    } else if sq == 17 {
        0i32
    } else if sq == 18 {
        5i32
    } else if sq == 19 {
        10i32
    } else if sq == 20 {
        10i32
    } else if sq == 21 {
        5i32
    } else if sq == 22 {
        0i32
    } else if sq == 23 {
        -10i32
    } else if sq == 24 {
        -10i32
    } else if sq == 25 {
        5i32
    } else if sq == 26 {
        5i32
    } else if sq == 27 {
        10i32
    } else if sq == 28 {
        10i32
    } else if sq == 29 {
        5i32
    } else if sq == 30 {
        5i32
    } else if sq == 31 {
        -10i32
    } else if sq == 32 {
        -10i32
    } else if sq == 33 {
        0i32
    } else if sq == 34 {
        10i32
    } else if sq == 35 {
        10i32
    } else if sq == 36 {
        10i32
    } else if sq == 37 {
        10i32
    } else if sq == 38 {
        0i32
    } else if sq == 39 {
        -10i32
    } else if sq == 40 {
        -10i32
    } else if sq == 41 {
        10i32
    } else if sq == 42 {
        10i32
    } else if sq == 43 {
        10i32
    } else if sq == 44 {
        10i32
    } else if sq == 45 {
        10i32
    } else if sq == 46 {
        10i32
    } else if sq == 47 {
        -10i32
    } else if sq == 48 {
        -10i32
    } else if sq == 49 {
        5i32
    } else if sq == 50 {
        0i32
    } else if sq == 51 {
        0i32
    } else if sq == 52 {
        0i32
    } else if sq == 53 {
        0i32
    } else if sq == 54 {
        5i32
    } else if sq == 55 {
        -10i32
    } else if sq == 56 {
        -20i32
    } else if sq == 57 {
        -10i32
    } else if sq == 58 {
        -10i32
    } else if sq == 59 {
        -10i32
    } else if sq == 60 {
        -10i32
    } else if sq == 61 {
        -10i32
    } else if sq == 62 {
        -10i32
    } else {
        -20i32
    }
}


/// The positional bonus of a rook on each square.
pub open spec fn rook_pst(sq: int) -> int {
    if sq == 0 {
        0
    } else if sq == 1 {
        0
    } else if sq == 2 {
        0
    } else if sq == 3 {
        5
    } else if sq == 4 {
        5
    } else if sq == 5 {
        0
    } else if sq == 6 {
        0
    } else if sq == 7 {
        0
    } else if sq == 8 {
        -5
    } else if sq == 9 {
        0
    } else if sq == 10 {
        0
    } else if sq == 11 {
        0
    } else if sq == 12 {
        0
    } else if sq == 13 {
        0
    } else if sq == 14 {
        0
    } else if sq == 15 {
        -5
    } else if sq == 16 {
        -5
    } else if sq == 17 {
        0
    } else if sq == 18 {
        0
    } else if sq == 19 {
        0
    } else if sq == 20 {
        0
    } else if sq == 21 {
        0
    } else if sq == 22 {
        0
    } else if sq == 23 {
        -5
    } else if sq == 24 {
        -5
    } else if sq == 25 {
        0
    } else if sq == 26 {
        0
    } else if sq == 27 {
        0
    } else if sq == 28 {
        0
    } else if sq == 29 {
        0
    } else if sq == 30 {
        0
    } else if sq == 31 {
        -5
    } else if sq == 32 {
        -5
    } else if sq == 33 {
        0
    } else if sq == 34 {
        0
    } else if sq == 35 {
        0
    } else if sq == 36 {
        0
    } else if sq == 37 {
        0
    } else if sq == 38 {
        0
    } else if sq == 39 {
        -5
    } else if sq == 40 {
        -5
    } else if sq == 41 {
        0
    } else if sq == 42 {
        0
    } else if sq == 43 {
        0
    } else if sq == 44 {
        0
    } else if sq == 45 {
        0
    } else if sq == 46 {
        0
    } else if sq == 47 {
        -5
    } else if sq == 48 {
        5
    } else if sq == 49 {
        10
    } else if sq == 50 {
        10
    } else if sq == 51 {
        10
    } else if sq == 52 {
        10
    } else if sq == 53 {
        10
    } else if sq == 54 {
        10
    } else if sq == 55 {
        5
    } else if sq == 56 {
        0
    } else if sq == 57 {
        0
    } else if sq == 58 {
        0
    } else if sq == 59 {
        0
    } else if sq == 60 {
        0
    } else if sq == 61 {
        0
    } else if sq == 62 {
        0
    } else {
        0
    }
}

/// The positional bonus of a rook on each square.
pub fn rook_pst_exec(sq: usize) -> (r: i32)
    requires
        sq < 64,
    ensures
        r as int == rook_pst(sq as int),
{
    if sq == 0 {
        0i32
    } else if sq == 1 {
        0i32
    } else if sq == 2 {
        0i32
    } else if sq == 3 {
        5i32
    } else if sq == 4 {
        5i32
    } else if sq == 5 {
        0i32
    } else if sq == 6 {
        0i32
    } else if sq == 7 {
        0i32
    } else if sq == 8 {
        -5i32
    } else if sq == 9 {
        0i32
    } else if sq == 10 {
        0i32
    } else if sq == 11 {
        0i32
    } else if sq == 12 {
        0i32
    } else if sq == 13 {
        0i32
    } else if sq == 14 {
        0i32
    } else if sq == 15 {
        -5i32
    } else if sq == 16 {
        -5i32
    } else if sq == 17 {
        0i32
    } else if sq == 18 {
        0i32
    } else if sq == 19 {
        0i32
    } else if sq == 20 {
        0i32
    } else if sq == 21 {
        0i32
    } else if sq == 22 {
        0i32
    } else if sq == 23 {
        -5i32
    } else if sq == 24 {
        -5i32
    } else if sq == 25 {
        0i32
    } else if sq == 26 {
        0i32
    } else if sq == 27 {
        0i32
    } else if sq == 28 {
        0i32
    } else if sq == 29 {
        0i32
    } else if sq == 30 {
        0i32
    } else if sq == 31 {
        -5i32
    } else if sq == 32 {
        -5i32
    } else if sq == 33 {
        0i32
    } else if sq == 34 {
        0i32
    } else if sq == 35 {
        0i32
    } else if sq == 36 {
        0i32
    } else if sq == 37 {
        0i32
    } else if sq == 38 {
        0i32
    } else if sq == 39 {
        -5i32
    } else if sq == 40 {
        -5i32
    } else if sq == 41 {
        0i32
    } else if sq == 42 {
        0i32
    } else if sq == 43 {
        0i32
    } else if sq == 44 {
        0i32
    } else if sq == 45 {
        0i32
    } else if sq == 46 {
        0i32
    } else if sq == 47 {
        -5i32
    } else if sq == 48 {
        5i32
    } else if sq == 49 {
        10i32
    } else if sq == 50 {
        10i32
    } else if sq == 51 {
        10i32
    } else if sq == 52 {
        10i32
    } else if sq == 53 {
        10i32
    } else if sq == 54 {
        10i32
    } else if sq == 55 {
        5i32
    } else if sq == 56 {
        0i32
    } else if sq == 57 {
        0i32
    } else if sq == 58 {
        0i32
    } else if sq == 59 {
        0i32
    } else if sq == 60 {
        0i32
    } else if sq == 61 {
        0i32
    } else if sq == 62 {
        0i32
    } else {
        0i32
    }
}


/// The positional bonus of a queen on each square.
pub open spec fn queen_pst(sq: int) -> int {
    if sq == 0 {
        -20
    } else if sq == 1 {
        -10
    } else if sq == 2 {
        -10
    } else if sq == 3 {
        -5
    } else if sq == 4 {
        -5
    } else if sq == 5 {
        -10
    } else if sq == 6 {
        -10
    } else if sq == 7 {
        -20
    } else if sq == 8 {
        -10
    } else if sq == 9 {
        0
    } else if sq == 10 {
        0
    } else if sq == 11 {
        0
    } else if sq == 12 {
        0
    } else if sq == 13 {
        0
    } else if sq == 14 {
        0
    } else if sq == 15 {
        -10
    } else if sq == 16 {
        -10
    } else if sq == 17 {
        0
    } else if sq == 18 {
        5
    } else if sq == 19 {
        5
    } else if sq == 20 {
        5
    } else if sq == 21 {
        5
    } else if sq == 22 {
        0
    } else if sq == 23 {
        -10
    } else if sq == 24 {
        -5
    } else if sq == 25 {
        0
    } else if sq == 26 {
        5
    } else if sq == 27 {
        5
    } else if sq == 28 {
        5
    } else if sq == 29 {
        5
    } else if sq == 30 {
        0
    } else if sq == 31 {
        -5
    } else if sq == 32 {
        0
    } else if sq == 33 {
        0
    } else if sq == 34 {
        5
    } else if sq == 35 {
        5
    } else if sq == 36 {
        5
    } else if sq == 37 {
        5
    } else if sq == 38 {
        0
    } else if sq == 39 {
        -5
    } else if sq == 40 {
        -10
    } else if sq == 41 {
        5
    } else if sq == 42 {
        5
    } else if sq == 43 {
        5
    } else if sq == 44 {
        5
    } else if sq == 45 {
        5
    } else if sq == 46 {
        0
    } else if sq == 47 {
        -10
    } else if sq == 48 {
        -10
    } else if sq == 49 {
        0
    } else if sq == 50 {
        5
    } else if sq == 51 {
        0
    } else if sq == 52 {
        0
    } else if sq == 53 {
        0
    } else if sq == 54 {
        0
    } else if sq == 55 {
        -10
    } else if sq == 56 {
        -20
    } else if sq == 57 {
        -10
    } else if sq == 58 {
        -10
    } else if sq == 59 {
        -5
    } else if sq == 60 {
        -5
    } else if sq == 61 {
        -10
    } else if sq == 62 {
        -10
    } else {
        -20
    }
}

/// The positional bonus of a queen on each square.
pub fn queen_pst_exec(sq: usize) -> (r: i32)
    requires
        sq < 64,
    ensures
        r as int == queen_pst(sq as int),
{
    if sq == 0 {
        -20i32
    } else if sq == 1 {
        -10i32
    } else if sq == 2 {
        -10i32
    } else if sq == 3 {
        -5i32
    } else if sq == 4 {
        -5i32
    } else if sq == 5 {
        -10i32
    } else if sq == 6 {
        -10i32
    } else if sq == 7 {
        -20i32
    } else if sq == 8 {
        -10i32
    } else if sq == 9 {
        0i32
    } else if sq == 10 {
        0i32
    } else if sq == 11 {
        0i32
    } else if sq == 12 {
        0i32
    } else if sq == 13 {
        0i32
    } else if sq == 14 {
        0i32
    } else if sq == 15 {
        -10i32
    } else if sq == 16 {
        -10i32
    } else if sq == 17 {
        0i32
    } else if sq == 18 {
        5i32
    } else if sq == 19 {
        5i32
    } else if sq == 20 {
        5i32
    } else if sq == 21 {
        5i32
    } else if sq == 22 {
        0i32
    } else if sq == 23 {
        -10i32
    } else if sq == 24 {
        -5i32
    } else if sq == 25 {
        0i32
    } else if sq == 26 {
        5i32
    } else if sq == 27 {
        5i32
    } else if sq == 28 {
        5i32
    } else if sq == 29 {
        5i32
    } else if sq == 30 {
        0i32
    } else if sq == 31 {
        -5i32
    } else if sq == 32 {
        0i32
    } else if sq == 33 {
        0i32
    } else if sq == 34 {
        5i32
    } else if sq == 35 {
        5i32
    } else if sq == 36 {
        5i32
    } else if sq == 37 {
        5i32
    } else if sq == 38 {
        0i32
    } else if sq == 39 {
        -5i32
    } else if sq == 40 {
        -10i32
    } else if sq == 41 {
        5i32
    } else if sq == 42 {
        5i32
    } else if sq == 43 {
        5i32
    } else if sq == 44 {
        5i32
    } else if sq == 45 {
        5i32
    } else if sq == 46 {
        0i32
    } else if sq == 47 {
        -10i32
    } else if sq == 48 {
        -10i32
    } else if sq == 49 {
        0i32
    } else if sq == 50 {
        5i32
    } else if sq == 51 {
        0i32
    } else if sq == 52 {
        0i32
    } else if sq == 53 {
        0i32
    } else if sq == 54 {
        0i32
    } else if sq == 55 {
        -10i32
    } else if sq == 56 {
        -20i32
    } else if sq == 57 {
        -10i32
    } else if sq == 58 {
        -10i32
    } else if sq == 59 {
        -5i32
    } else if sq == 60 {
        -5i32
    } else if sq == 61 {
        -10i32
    } else if sq == 62 {
        -10i32
    } else {
        -20i32
    }
}


/// The positional bonus of a king on each square.
pub open spec fn king_pst(sq: int) -> int {
    if sq == 0 {
        -30
    } else if sq == 1 {
        -40
    } else if sq == 2 {
        -40
    } else if sq == 3 {
        -50
    } else if sq == 4 {
        -50
    } else if sq == 5 {
        -40
    } else if sq == 6 {
        -40
    } else if sq == 7 {
        -30
    } else if sq == 8 {
        -30
    } else if sq == 9 {
        -40
    } else if sq == 10 {
        -40
    } else if sq == 11 {
        -50
    } else if sq == 12 {
        -50
    } else if sq == 13 {
        -40
    } else if sq == 14 {
        -40
    } else if sq == 15 {
        -30
    } else if sq == 16 {
        -30
    } else if sq == 17 {
        -40
    } else if sq == 18 {
        -40
    } else if sq == 19 {
        -50
    } else if sq == 20 {
        -50
    } else if sq == 21 {
        -40
    } else if sq == 22 {
        -40
    } else if sq == 23 {
        -30
    } else if sq == 24 {
        -30
    } else if sq == 25 {
        -40
    } else if sq == 26 {
        -40
    } else if sq == 27 {
        -50
    } else if sq == 28 {
        -50
    } else if sq == 29 {
        -40
    } else if sq == 30 {
        -40
    } else if sq == 31 {
        -30
    } else if sq == 32 {
        -20
    } else if sq == 33 {
        -30
    } else if sq == 34 {
        -30
    } else if sq == 35 {
        -40
    } else if sq == 36 {
        -40
    } else if sq == 37 {
        -30
    } else if sq == 38 {
        -30
    } else if sq == 39 {
        -20
    } else if sq == 40 {
        -10
    } else if sq == 41 {
        -20
    } else if sq == 42 {
        -20
    } else if sq == 43 {
        -20
    } else if sq == 44 {
        -20
    } else if sq == 45 {
        -20
    } else if sq == 46 {
        -20
    } else if sq == 47 {
        -10
    } else if sq == 48 {
        20
    } else if sq == 49 {
        20
    } else if sq == 50 {
        0
    } else if sq == 51 {
        0
    } else if sq == 52 {
        0
    } else if sq == 53 {
        0
    } else if sq == 54 {
        20
    } else if sq == 55 {
        20
    } else if sq == 56 {
        20
    } else if sq == 57 {
        30
    } else if sq == 58 {
        10
    } else if sq == 59 {
        0
    } else if sq == 60 {
        0
    } else if sq == 61 {
        10
    } else if sq == 62 {
        30
    } else {
        20
    }
}

/// The positional bonus of a king on each square.
pub fn king_pst_exec(sq: usize) -> (r: i32)
    requires
        sq < 64,
    ensures
        r as int == king_pst(sq as int),
{
    if sq == 0 {
        -30i32
    } else if sq == 1 {
        -40i32
    } else if sq == 2 {
        -40i32
    } else if sq == 3 {
        -50i32
    } else if sq == 4 {
        -50i32
    } else if sq == 5 {
        -40i32
    } else if sq == 6 {
        -40i32
    } else if sq == 7 {
        -30i32
    } else if sq == 8 {
        -30i32
    } else if sq == 9 {
        -40i32
    } else if sq == 10 {
        -40i32
    } else if sq == 11 {
        -50i32
    } else if sq == 12 {
        -50i32
    } else if sq == 13 {
        -40i32
    } else if sq == 14 {
        -40i32
    } else if sq == 15 {
        -30i32
    } else if sq == 16 {
        -30i32
    } else if sq == 17 {
        -40i32
    } else if sq == 18 {
        -40i32
    } else if sq == 19 {
        -50i32
    } else if sq == 20 {
        -50i32
    } else if sq == 21 {
        -40i32
    } else if sq == 22 {
        -40i32
    } else if sq == 23 {
        -30i32
    } else if sq == 24 {
        -30i32
    } else if sq == 25 {
        -40i32
    } else if sq == 26 {
        -40i32
    } else if sq == 27 {
        -50i32
    } else if sq == 28 {
        -50i32
    } else if sq == 29 {
        -40i32
    } else if sq == 30 {
        -40i32
    } else if sq == 31 {
        -30i32
    } else if sq == 32 {
        -20i32
    } else if sq == 33 {
        -30i32
    } else if sq == 34 {
        -30i32
    } else if sq == 35 {
        -40i32
    } else if sq == 36 {
        -40i32
    } else if sq == 37 {
        -30i32
    } else if sq == 38 {
        -30i32
    } else if sq == 39 {
        -20i32
    } else if sq == 40 {
        -10i32
    } else if sq == 41 {
        -20i32
    } else if sq == 42 {
        -20i32
    } else if sq == 43 {
        -20i32
    } else if sq == 44 {
        -20i32
    } else if sq == 45 {
        -20i32
    } else if sq == 46 {
        -20i32
    } else if sq == 47 {
        -10i32
    } else if sq == 48 {
        20i32
    } else if sq == 49 {
        20i32
    } else if sq == 50 {
        0i32
    } else if sq == 51 {
        0i32
    } else if sq == 52 {
        0i32
    } else if sq == 53 {
        0i32
    } else if sq == 54 {
        20i32
    } else if sq == 55 {
        20i32
    } else if sq == 56 {
        20i32
    } else if sq == 57 {
        30i32
    } else if sq == 58 {
        10i32
    } else if sq == 59 {
        0i32
    } else if sq == 60 {
        0i32
    } else if sq == 61 {
        10i32
    } else if sq == 62 {
        30i32
    } else {
        20i32
    }
}


/// The material value of a piece kind, in pawns; the king carries no
/// material value.
pub open spec fn piece_val(k: PieceKind) -> int {
    match k {
        PieceKind::Pawn => 1,
        PieceKind::Knight => 3,
        PieceKind::Bishop => 3,
        PieceKind::Rook => 5,
        PieceKind::Queen => 9,
        PieceKind::King => 0,
    }
}

/// The material value of a piece kind, in pawns.
pub fn piece_val_exec(k: PieceKind) -> (r: i32)
    ensures
        r as int == piece_val(k),
{
    match k {
        PieceKind::Pawn => 1,
        PieceKind::Knight => 3,
        PieceKind::Bishop => 3,
        PieceKind::Rook => 5,
        PieceKind::Queen => 9,
        PieceKind::King => 0,
    }
}

/// The positional bonus of a piece of kind `k` on square `sq`.
pub open spec fn pst(k: PieceKind, sq: int) -> int {
    match k {
        PieceKind::Pawn => pawn_pst(sq),
        PieceKind::Knight => knight_pst(sq),
        PieceKind::Bishop => bishop_pst(sq),
        PieceKind::Rook => rook_pst(sq),
        PieceKind::Queen => queen_pst(sq),
        PieceKind::King => king_pst(sq),
    }
}

/// The positional bonus of a piece of kind `k` on square `sq`.
pub fn pst_exec(k: PieceKind, sq: usize) -> (r: i32)
    requires
        sq < 64,
    ensures
        r as int == pst(k, sq as int),
{
    match k {
        PieceKind::Pawn => pawn_pst_exec(sq),
        PieceKind::Knight => knight_pst_exec(sq),
        PieceKind::Bishop => bishop_pst_exec(sq),
        PieceKind::Rook => rook_pst_exec(sq),
        PieceKind::Queen => queen_pst_exec(sq),
        PieceKind::King => king_pst_exec(sq),
    }
}

/// Every table entry lies between minus fifty and fifty.
pub proof fn lemma_pst_bound(k: PieceKind, sq: int)
    requires
        0 <= sq < 64,
    ensures
        -50 <= pst(k, sq) <= 50,
{
}

/// The score a piece of `side` and kind `k` on square `i` contributes:
/// its material value in centipawns plus its positional bonus, read
/// mirrored for Black.
pub open spec fn square_score(k: PieceKind, side: Side, i: int) -> int {
    piece_val(k) * 100 + pst(
        k,
        if side == Side::White {
            i
        } else {
            63 - i
        },
    )
}

/// The summed score of the pieces of one bitboard on squares at or
/// above `i`.
pub open spec fn bb_score(bb: u64, k: PieceKind, side: Side, i: int) -> int
    decreases 64 - i,
{
    if i < 0 || i >= 64 {
        0
    } else {
        (if nth(bb, i as u64) {
            square_score(k, side, i)
        } else {
            0
        }) + bb_score(bb, k, side, i + 1)
    }
}

/// A partial board score stays within a thousand points per remaining
/// square.
pub proof fn lemma_bb_score_bound(bb: u64, k: PieceKind, side: Side, i: int)
    requires
        0 <= i <= 64,
    ensures
        -1000 * (64 - i) <= bb_score(bb, k, side, i) <= 1000 * (64 - i),
    decreases 64 - i,
{
    if i < 64 {
        lemma_bb_score_bound(bb, k, side, i + 1);
        if nth(bb, i as u64) {
            lemma_pst_bound(
                k,
                if side == Side::White {
                    i
                } else {
                    63 - i
                },
            );
        }
    }
}

/// The summed material and positional score of one army.
pub open spec fn player_score(p: Player, side: Side) -> int {
    bb_score(p.pawns, PieceKind::Pawn, side, 0) + bb_score(p.knights, PieceKind::Knight, side, 0)
        + bb_score(p.bishops, PieceKind::Bishop, side, 0) + bb_score(
        p.rooks,
        PieceKind::Rook,
        side,
        0,
    ) + bb_score(p.queens, PieceKind::Queen, side, 0) + bb_score(p.king, PieceKind::King, side, 0)
}

/// The score of a whole position: White's army minus Black's, so that
/// positive favours White whoever is to move.
pub open spec fn eval_spec(b: Board) -> int {
    player_score(b.white, Side::White) - player_score(b.black, Side::Black)
}

/// A whole army scores within 384000 points.
pub proof fn lemma_player_score_bound(p: Player, side: Side)
    ensures
        -384000 <= player_score(p, side) <= 384000,
{
    lemma_bb_score_bound(p.pawns, PieceKind::Pawn, side, 0);
    lemma_bb_score_bound(p.knights, PieceKind::Knight, side, 0);
    lemma_bb_score_bound(p.bishops, PieceKind::Bishop, side, 0);
    lemma_bb_score_bound(p.rooks, PieceKind::Rook, side, 0);
    lemma_bb_score_bound(p.queens, PieceKind::Queen, side, 0);
    lemma_bb_score_bound(p.king, PieceKind::King, side, 0);
}

/// A whole position scores within 768000 points.
pub proof fn lemma_eval_bound(b: Board)
    ensures
        -768000 <= eval_spec(b) <= 768000,
{
    lemma_player_score_bound(b.white, Side::White);
    lemma_player_score_bound(b.black, Side::Black);
}

/// The summed score of the pieces of one bitboard.
fn bb_score_exec(bb: u64, k: PieceKind, side: Side) -> (r: i32)
    ensures
        r as int == bb_score(bb, k, side, 0),
{
    let mut acc: i32 = 0;
    let mut i: usize = 0;
    while i < 64
        invariant
            i <= 64,
            acc as int + bb_score(bb, k, side, i as int) == bb_score(bb, k, side, 0),
            -128000 <= acc as int <= 128000,
        decreases 64 - i,
    {
        proof {
            lemma_bb_score_bound(bb, k, side, 0);
            lemma_bb_score_bound(bb, k, side, i as int);
            lemma_bb_score_bound(bb, k, side, i + 1);
            lemma_pst_bound(
                k,
                if side == Side::White {
                    i as int
                } else {
                    63 - i as int
                },
            );
        }
        if bb & (1u64 << (i as u64)) != 0 {
            assert(nth(bb, i as u64));
            let mirrored: usize = match side {
                Side::White => i,
                Side::Black => 63 - i,
            };
            acc = acc + (piece_val_exec(k) * 100 + pst_exec(k, mirrored));
        } else {
            assert(!nth(bb, i as u64));
        }
        i = i + 1;
    }
    acc
}

impl Player {
    /// The summed material and positional score of this army from the
    /// perspective of `side`.
    pub fn evaluate(&self, side: Side) -> (r: i32)
        ensures
            r as int == player_score(*self, side),
    {
        proof {
            lemma_bb_score_bound(self.pawns, PieceKind::Pawn, side, 0);
            lemma_bb_score_bound(self.knights, PieceKind::Knight, side, 0);
            lemma_bb_score_bound(self.bishops, PieceKind::Bishop, side, 0);
            lemma_bb_score_bound(self.rooks, PieceKind::Rook, side, 0);
            lemma_bb_score_bound(self.queens, PieceKind::Queen, side, 0);
            lemma_bb_score_bound(self.king, PieceKind::King, side, 0);
        }
        bb_score_exec(self.pawns, PieceKind::Pawn, side) + bb_score_exec(
            self.knights,
            PieceKind::Knight,
            side,
        ) + bb_score_exec(self.bishops, PieceKind::Bishop, side) + bb_score_exec(
            self.rooks,
            PieceKind::Rook,
            side,
        ) + bb_score_exec(self.queens, PieceKind::Queen, side) + bb_score_exec(
            self.king,
            PieceKind::King,
            side,
        )
    }
}

impl Board {
    /// The score of this position: material plus piece-square
    /// bonuses, positive favouring White.
    pub fn evaluate(&self) -> (r: i32)
        ensures
            r as int == eval_spec(*self),
    {
        proof {
            lemma_player_score_bound(self.white, Side::White);
            lemma_player_score_bound(self.black, Side::Black);
        }
        self.white.evaluate(Side::White) - self.black.evaluate(Side::Black)
    }
}

} // verus!
