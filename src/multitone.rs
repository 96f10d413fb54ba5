use vstd::prelude::*;
use crate::signal::MultitonePhase;

verus! {

/// What a generator does with its multitone phase bank before the next
/// multitone sample.
#[derive(Clone, Copy, PartialEq, Eq, Debug, Structural)]
pub enum BankStep {
    /// The bank already holds one phase per tone: keep advancing it.
    Continue,
    /// The bank does not match the tone count: discard it and build a new
    /// one with the given initial-phase schedule.
    Rebuild(MultitonePhase),
}

/// The transition taken before a multitone sample: the bank is rebuilt
/// exactly when the number of phases it holds differs from the requested
/// tone count; a change of initial-phase mode alone keeps the bank.
pub open spec fn bank_step_spec(stored: nat, tone_count: nat, mode: MultitonePhase) -> BankStep {
    if stored == tone_count {
        BankStep::Continue
    } else {
        BankStep::Rebuild(mode)
    }
}

/// Decides, from the number of phases the bank holds and the configured tone
/// count, whether the bank is kept or rebuilt.
pub fn bank_step(stored: usize, tone_count: usize, mode: MultitonePhase) -> (r: BankStep)
    ensures
        r == bank_step_spec(stored as nat, tone_count as nat, mode),
{
    if stored == tone_count {
        BankStep::Continue
    } else {
        BankStep::Rebuild(mode)
    }
}

/// Once a multitone sample has been produced with `first` tones, the bank
/// holds `first` phases. A later sample with a different tone count then
/// rebuilds the bank with the initial-phase mode active at that later call,
/// and one with the same count continues it, whatever mode is active.
pub proof fn lemma_count_change_rebuilds(
    stored: nat,
    first: nat,
    first_mode: MultitonePhase,
    second: nat,
    second_mode: MultitonePhase,
)
    ensures
        bank_len_after(bank_step_spec(stored, first, first_mode), stored, first) == first,
        first != second ==> bank_step_spec(first, second, second_mode) == BankStep::Rebuild(
            second_mode,
        ),
        first == second ==> bank_step_spec(first, second, second_mode) == BankStep::Continue,
{
}

/// The number of phases a bank holds after `step` was taken on a bank of
/// `stored` phases for `tone_count` tones.
pub open spec fn bank_len_after(step: BankStep, stored: nat, tone_count: nat) -> nat {
    match step {
        BankStep::Continue => stored,
        BankStep::Rebuild(_) => tone_count,
    }
}

/// Offset of tone `k` of `tone_count` from the carrier, in half tone spacings:
/// the tones sit symmetrically around the carrier, one spacing apart.
pub open spec fn tone_offset_halves_spec(k: int, tone_count: int) -> int {
    2 * k - (tone_count - 1)
}

/// Offset of tone `k` from the carrier in units of half the tone spacing, so
/// that the frequency offset in Hz is this value times `spacing / 2`.
pub fn tone_offset_halves(k: usize, tone_count: usize) -> (r: i128)
    requires
        k < tone_count,
    ensures
        r == tone_offset_halves_spec(k as int, tone_count as int),
{
    2 * (k as i128) - (tone_count as i128 - 1)
}

/// The tones are placed symmetrically around the carrier, and neighbouring
/// tones are exactly one spacing (two half spacings) apart.
pub proof fn lemma_tone_offsets_symmetric(k: int, tone_count: int)
    requires
        0 <= k < tone_count,
    ensures
        tone_offset_halves_spec(k, tone_count) == -tone_offset_halves_spec(
            tone_count - 1 - k,
            tone_count,
        ),
        k + 1 < tone_count ==> tone_offset_halves_spec(k + 1, tone_count)
            - tone_offset_halves_spec(k, tone_count) == 2,
        -(tone_count - 1) <= tone_offset_halves_spec(k, tone_count) <= tone_count - 1,
{
}

/// The integer factor of the Schroeder phase of tone `k`: that phase is
/// `-pi * k * (k - 1) / tone_count`.
pub open spec fn schroeder_numerator(k: int) -> int {
    k * (k - 1)
}

/// The Schroeder schedule for `tone_count` tones, as the exact integers
/// `k * (k - 1)`; tone `k` starts at `-pi * r[k] / tone_count`. The schedule
/// is a closed form of the tone index and count alone.
pub fn schroeder_numerators(tone_count: usize) -> (r: Vec<u128>)
    ensures
        r@.len() == tone_count,
        forall|k: int| 0 <= k < tone_count ==> #[trigger] r@[k] == schroeder_numerator(k),
{
    let mut r: Vec<u128> = Vec::with_capacity(tone_count);
    let mut k: usize = 0;
    while k < tone_count
        invariant
            k <= tone_count,
            r@.len() == k,
            forall|j: int| 0 <= j < k ==> #[trigger] r@[j] == schroeder_numerator(j),
        decreases tone_count - k,
    {
        let v: u128 = if k == 0 {
            0
        } else {
            let a: u128 = k as u128;
            assert(a * (a - 1) <= a * a) by (nonlinear_arith)
                requires
                    a >= 1,
            ;
            assert(a * a < 0x1_0000_0000_0000_0000_0000_0000_0000_0000) by (nonlinear_arith)
                requires
                    a < 0x1_0000_0000_0000_0000,
            ;
            a * (a - 1)
        };
        assert(v == schroeder_numerator(k as int));
        r.push(v);
        k = k + 1;
    }
    r
}

} // verus!
