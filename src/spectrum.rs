use vstd::prelude::*;
use vstd::arithmetic::div_mod::{lemma_small_mod, lemma_mod_add_multiples_vanish};

verus! {

/// The DFT bin displayed at position `i` of a zero-centered spectrum of `n`
/// bins: the block is rotated by half its length.
pub open spec fn centered_bin_spec(i: int, n: int) -> int {
    (i + n / 2) % n
}

/// The position at which bin `b` is displayed: the inverse rotation.
pub open spec fn centered_position_spec(b: int, n: int) -> int {
    (b + (n - n / 2)) % n
}

/// For `0 <= x < 2n`, reducing modulo `n` subtracts `n` at most once.
proof fn lemma_mod_once(x: int, n: int)
    requires
        0 < n,
        0 <= x < 2 * n,
    ensures
        x % n == if x < n {
            x
        } else {
            x - n
        },
{
    if x < n {
        lemma_small_mod(x as nat, n as nat);
    } else {
        lemma_small_mod((x - n) as nat, n as nat);
        lemma_mod_add_multiples_vanish(x - n, n);
    }
}

/// Index into a DFT output of `n` bins that is shown at position `i` once
/// the zero-frequency bin is moved to the middle.
pub fn centered_bin(i: usize, n: usize) -> (r: usize)
    requires
        i < n,
    ensures
        r == centered_bin_spec(i as int, n as int),
        r < n,
{
    let half = n / 2;
    proof {
        lemma_mod_once(i + half, n as int);
    }
    if i < n - half {
        i + half
    } else {
        i - (n - half)
    }
}

/// Centering visits every bin exactly once: it is a permutation of
/// `0..n` whose inverse is `centered_position_spec`.
pub proof fn lemma_centering_is_permutation(n: int)
    requires
        0 < n,
    ensures
        forall|i: int|
            0 <= i < n ==> {
                &&& 0 <= #[trigger] centered_bin_spec(i, n) < n
                &&& centered_position_spec(centered_bin_spec(i, n), n) == i
            },
        forall|b: int|
            0 <= b < n ==> {
                &&& 0 <= #[trigger] centered_position_spec(b, n) < n
                &&& centered_bin_spec(centered_position_spec(b, n), n) == b
            },
        forall|i: int, j: int|
            0 <= i < n && 0 <= j < n && i != j ==> #[trigger] centered_bin_spec(i, n)
                != #[trigger] centered_bin_spec(j, n),
{
    assert forall|i: int| 0 <= i < n implies {
        &&& 0 <= #[trigger] centered_bin_spec(i, n) < n
        &&& centered_position_spec(centered_bin_spec(i, n), n) == i
    } by {
        lemma_mod_once(i + n / 2, n);
        let b = centered_bin_spec(i, n);
        lemma_mod_once(b + (n - n / 2), n);
    }
    assert forall|b: int| 0 <= b < n implies {
        &&& 0 <= #[trigger] centered_position_spec(b, n) < n
        &&& centered_bin_spec(centered_position_spec(b, n), n) == b
    } by {
        lemma_mod_once(b + (n - n / 2), n);
        let i = centered_position_spec(b, n);
        lemma_mod_once(i + n / 2, n);
    }
    assert forall|i: int, j: int|
        0 <= i < n && 0 <= j < n && i != j implies #[trigger] centered_bin_spec(i, n)
        != #[trigger] centered_bin_spec(j, n) by {
        lemma_mod_once(i + n / 2, n);
        lemma_mod_once(j + n / 2, n);
    }
}

/// For an even number of bins, position `i` shows the bin of signed
/// frequency index `i - n/2` (taken modulo `n`), so the zero-frequency bin
/// sits at position `n/2` and the axis runs from `-n/2` to `n/2 - 1` bins.
pub proof fn lemma_centered_frequency(i: int, n: int)
    requires
        0 < n,
        n % 2 == 0,
        0 <= i < n,
    ensures
        centered_bin_spec(i, n) == (i - n / 2) % n,
        centered_bin_spec(n / 2, n) == 0,
{
    lemma_mod_once(i + n / 2, n);
    lemma_mod_once(n / 2 + n / 2, n);
    if i < n / 2 {
        lemma_mod_once(i - n / 2 + n, n);
        lemma_mod_add_multiples_vanish(i - n / 2, n);
    } else {
        lemma_mod_once(i - n / 2, n);
    }
}

} // verus!
