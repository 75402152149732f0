//! Bit-level helpers shared by the whole crate: a `nth`-bit view of a
//! 64-bit bitboard and the algebraic lemmas that connect the bitwise
//! operators to that view.
use vstd::prelude::*;

verus! {

/// True when bit `i` of `b` is set.
pub open spec fn nth(b: u64, i: u64) -> bool {
    b & (1u64 << i) != 0
}

/// A bitboard with exactly the bit for square `s` set.
pub open spec fn sq_bb(s: u64) -> u64 {
    1u64 << s
}

/// How the boolean operators on bitboards act on single bits.
pub proof fn lemma_bit_ops()
    by (bit_vector)
    ensures
        forall|a: u64, b: u64, i: u64| i < 64 ==> #[trigger] nth(a & b, i) == (nth(a, i) && nth(
            b,
            i,
        )),
        forall|a: u64, b: u64, i: u64| i < 64 ==> #[trigger] nth(a | b, i) == (nth(a, i) || nth(
            b,
            i,
        )),
        forall|a: u64, b: u64, i: u64| i < 64 ==> #[trigger] nth(a ^ b, i) == (nth(a, i) != nth(
            b,
            i,
        )),
        forall|a: u64, i: u64| i < 64 ==> #[trigger] nth(!a, i) == !nth(a, i),
        forall|s: u64, i: u64| s < 64 && i < 64 ==> #[trigger] nth(sq_bb(s), i) == (i == s),
        forall|i: u64| i < 64 ==> !#[trigger] nth(0u64, i),
{
}

/// The mask of all bits strictly below `i`.
pub open spec fn low_mask(i: u64) -> u64 {
    if i >= 64 {
        0xFFFFFFFFFFFFFFFFu64
    } else {
        ((1u64 << i) - 1) as u64
    }
}

/// Below bit zero nothing is set.
pub proof fn lemma_low_mask_zero()
    by (bit_vector)
    ensures
        forall|b: u64| #[trigger] (b & low_mask(0)) == 0,
{
}

/// Scanning one more clear bit extends the clear prefix.
pub proof fn lemma_low_mask_step(b: u64, i: u64)
    by (bit_vector)
    requires
        i < 64,
        b & low_mask(i) == 0,
        !nth(b, i),
    ensures
        b & low_mask((i + 1) as u64) == 0,
{
}

/// A board whose whole prefix is clear is empty.
pub proof fn lemma_low_mask_all(b: u64)
    by (bit_vector)
    requires
        b & low_mask(64) == 0,
    ensures
        b == 0,
{
}

/// The bitwise connectives commute.
pub proof fn lemma_comm()
    by (bit_vector)
    ensures
        forall|x: u64, y: u64| #[trigger] (x & y) == (y & x),
        forall|x: u64, y: u64| #[trigger] (x | y) == (y | x),
{
}

/// How clearing or setting a single square changes each bit.
pub proof fn lemma_nth_update()
    by (bit_vector)
    ensures
        forall|x: u64, f: u64, t: u64, i: u64|
            f < 64 && t < 64 && i < 64 ==> #[trigger] nth((x & !sq_bb(f)) | sq_bb(t), i) == ((nth(
                x,
                i,
            ) && i != f) || i == t),
        forall|x: u64, v: u64, i: u64|
            v < 64 && i < 64 ==> #[trigger] nth(x & !sq_bb(v), i) == (nth(x, i) && i != v),
        forall|x: u64, t: u64, i: u64|
            t < 64 && i < 64 ==> #[trigger] nth(x | sq_bb(t), i) == (nth(x, i) || i == t),
        forall|x: u64, s: u64, i: u64|
            s < 64 && i < 64 ==> #[trigger] nth(x ^ sq_bb(s), i) == (if i == s {
                !nth(x, i)
            } else {
                nth(x, i)
            }),
{
}

/// Disjoint boards share no square.
pub proof fn lemma_disjoint_nth(x: u64, y: u64)
    requires
        x & y == 0,
    ensures
        forall|i: u64| i < 64 ==> !(nth(x, i) && nth(y, i)),
{
    lemma_bit_ops();
    assert forall|i: u64| i < 64 implies !(nth(x, i) && nth(y, i)) by {
        assert(nth(x & y, i) == (nth(x, i) && nth(y, i)));
        assert(!nth(0u64, i));
    }
}

/// Clearing a set bit and setting a clear bit are both exclusive ors.
pub proof fn lemma_toggle_is_xor(a: u64, s: u64)
    by (bit_vector)
    requires
        s < 64,
    ensures
        nth(a, s) ==> a & !sq_bb(s) == a ^ sq_bb(s),
        !nth(a, s) ==> a | sq_bb(s) == a ^ sq_bb(s),
{
}

/// Facts about single-square boards: intersecting one with anything
/// keeps or drops its square, and the empty board absorbs.
pub proof fn lemma_single_bits()
    by (bit_vector)
    ensures
        forall|s: u64, y: u64|
            s < 64 ==> #[trigger] (sq_bb(s) & y) == (if nth(y, s) {
                sq_bb(s)
            } else {
                0u64
            }),
        forall|s: u64| s < 64 ==> #[trigger] sq_bb(s) != 0,
        forall|y: u64| #[trigger] (0u64 & y) == 0,
        forall|y: u64| #[trigger] (y & 0u64) == 0,
{
}

} // verus!
