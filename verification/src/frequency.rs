//! Placement of Fourier frequencies on an FFT grid.
//!
//! A discrete Fourier transform of `n` samples stores the wave number `k` in slot
//! `k mod n`: the first half of the slots carries the non-negative wave numbers
//! `0, 1, ...`, the second half the negative ones `..., -2, -1`.  The kinetic
//! propagator of the solver multiplies slot `j` by a phase that depends on the
//! signed wave number of that slot, so each slot has to be mapped back to it.
use vstd::prelude::*;

verus! {

/// The signed wave number stored in slot `j` of an FFT grid of `n` points:
/// slots below `n / 2` keep their index, the others stand for `j - n`.
pub open spec fn wrapped_index(j: int, n: int) -> int {
    if j < n / 2 {
        j
    } else {
        j - n
    }
}

/// The slot of an FFT grid of `n` points that holds the signed wave number `k`.
pub open spec fn slot_of(k: int, n: int) -> int {
    if k < 0 {
        k + n
    } else {
        k
    }
}

/// The signed wave numbers that an FFT grid of `n` points can hold, each once:
/// `n / 2 - n <= k < n / 2`.
pub open spec fn in_band(k: int, n: int) -> bool {
    n / 2 - n <= k < n / 2
}

/// The magnitude `|x|` of an integer.
pub open spec fn magnitude(x: int) -> int {
    if x < 0 {
        -x
    } else {
        x
    }
}

/// Returns the signed wave number stored in slot `j` of an FFT grid of `n`
/// points: `j` for `j < n / 2`, and `j - n` otherwise.
pub fn wrapped_frequency_index(j: usize, n: usize) -> (k: i64)
    requires
        j < n,
        n <= i64::MAX,
    ensures
        k == wrapped_index(j as int, n as int),
        in_band(k as int, n as int),
{
    if j < n / 2 {
        j as i64
    } else {
        j as i64 - n as i64
    }
}

/// Returns the signed wave numbers of all `n` slots of an FFT grid, slot by slot.
pub fn frequency_indices(n: usize) -> (ks: Vec<i64>)
    requires
        n <= i64::MAX,
    ensures
        ks.len() == n,
        forall|j: int| 0 <= j < n ==> #[trigger] ks@[j] == wrapped_index(j, n as int),
{
    let mut ks: Vec<i64> = Vec::with_capacity(n);
    let mut j: usize = 0;
    while j < n
        invariant
            j <= n,
            n <= i64::MAX,
            ks.len() == j,
            forall|i: int| 0 <= i < j ==> #[trigger] ks@[i] == wrapped_index(i, n as int),
        decreases n - j,
    {
        let k = wrapped_frequency_index(j, n);
        ks.push(k);
        j = j + 1;
    }
    ks
}

/// Every slot carries a wave number of the band, and that wave number is the
/// slot's index up to a whole multiple of the grid size: `k = j + q * n` with
/// `q` either 0 or -1.
pub proof fn lemma_wrapped_index_is_alias(j: int, n: int)
    requires
        0 <= j < n,
    ensures
        in_band(wrapped_index(j, n), n),
        wrapped_index(j, n) == j || wrapped_index(j, n) == j - n,
        (wrapped_index(j, n) - j) % n == 0,
{
    if j >= n / 2 {
        assert((-1 * n) % n == 0) by {
            vstd::arithmetic::div_mod::lemma_mod_multiples_basic(-1, n);
        }
        assert(wrapped_index(j, n) - j == -1 * n);
    } else {
        assert(wrapped_index(j, n) - j == 0);
        vstd::arithmetic::div_mod::lemma_small_mod(0, n as nat);
    }
}

/// Slot and wave number determine each other: reading the wave number of a slot
/// and looking up the slot of that wave number gives the slot back, and the slot
/// of a wave number of the band carries that wave number.
pub proof fn lemma_slot_round_trip(j: int, k: int, n: int)
    requires
        0 < n,
    ensures
        0 <= j < n ==> slot_of(wrapped_index(j, n), n) == j,
        in_band(k, n) ==> 0 <= slot_of(k, n) < n && wrapped_index(slot_of(k, n), n) == k,
{
}

/// Distinct slots carry distinct wave numbers.
pub proof fn lemma_wrapped_index_injective(i: int, j: int, n: int)
    requires
        0 <= i < n,
        0 <= j < n,
        wrapped_index(i, n) == wrapped_index(j, n),
    ensures
        i == j,
{
    lemma_slot_round_trip(i, 0, n);
    lemma_slot_round_trip(j, 0, n);
}

/// On a grid of an even number of points, the wave number of a slot is an alias
/// of smallest magnitude: no other `k + q * n` is closer to zero.
pub proof fn lemma_wrapped_index_smallest_alias(j: int, n: int, q: int)
    requires
        0 <= j < n,
        n % 2 == 0,
    ensures
        magnitude(wrapped_index(j, n)) <= magnitude(wrapped_index(j, n) + q * n),
{
    let k = wrapped_index(j, n);
    assert(in_band(k, n));
    if q >= 1 {
        assert(q * n >= n) by (nonlinear_arith)
            requires
                q >= 1,
                n > 0,
        ;
    } else if q <= -1 {
        assert(q * n <= -n) by (nonlinear_arith)
            requires
                q <= -1,
                n > 0,
        ;
    }
}

} // verus!
