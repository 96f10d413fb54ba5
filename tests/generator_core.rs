use iq_siggen::export::frame_iq_le;
use iq_siggen::multitone::{bank_step, schroeder_numerators, tone_offset_halves, BankStep};
use iq_siggen::spectrum::centered_bin;
use iq_siggen::{ModulationType, MultitonePhase};

#[test]
fn only_multitone_uses_the_tone_bank() {
    assert!(ModulationType::Multitone.is_multitone());
    for kind in [
        ModulationType::CW,
        ModulationType::AM,
        ModulationType::FM,
        ModulationType::PM,
        ModulationType::Pulse,
    ] {
        assert!(!kind.is_multitone());
    }
}

#[test]
fn empty_bank_is_built_on_first_multitone_sample() {
    assert_eq!(
        bank_step(0, 10, MultitonePhase::Random),
        BankStep::Rebuild(MultitonePhase::Random)
    );
}

#[test]
fn matching_bank_is_kept() {
    assert_eq!(bank_step(10, 10, MultitonePhase::Zero), BankStep::Continue);
    assert_eq!(bank_step(1, 1, MultitonePhase::Schroeder), BankStep::Continue);
}

#[test]
fn tone_count_change_rebuilds_with_active_mode() {
    // first call with 4 tones leaves 4 phases; the next call asks for 6
    assert_eq!(bank_step(0, 4, MultitonePhase::Zero), BankStep::Rebuild(MultitonePhase::Zero));
    assert_eq!(
        bank_step(4, 6, MultitonePhase::Schroeder),
        BankStep::Rebuild(MultitonePhase::Schroeder)
    );
    assert_eq!(bank_step(6, 3, MultitonePhase::Zero), BankStep::Rebuild(MultitonePhase::Zero));
}

#[test]
fn mode_change_alone_keeps_the_bank() {
    assert_eq!(bank_step(4, 4, MultitonePhase::Random), BankStep::Continue);
    assert_eq!(bank_step(4, 4, MultitonePhase::Schroeder), BankStep::Continue);
}

#[test]
fn tone_offsets_even_count() {
    let got: Vec<i128> = (0..4).map(|k| tone_offset_halves(k, 4)).collect();
    assert_eq!(got, vec![-3, -1, 1, 3]);
}

#[test]
fn tone_offsets_odd_count() {
    let got: Vec<i128> = (0..5).map(|k| tone_offset_halves(k, 5)).collect();
    assert_eq!(got, vec![-4, -2, 0, 2, 4]);
}

#[test]
fn single_tone_sits_on_the_carrier() {
    assert_eq!(tone_offset_halves(0, 1), 0);
}

#[test]
fn tone_offsets_are_symmetric() {
    let n = 11;
    for k in 0..n {
        assert_eq!(tone_offset_halves(k, n), -tone_offset_halves(n - 1 - k, n));
    }
}

#[test]
fn tone_offsets_at_largest_count() {
    let n = usize::MAX;
    assert_eq!(tone_offset_halves(0, n), -((usize::MAX - 1) as i128));
    assert_eq!(tone_offset_halves(n - 1, n), (usize::MAX - 1) as i128);
}

#[test]
fn tone_offset_in_hz() {
    // 10 tones spaced 1000 Hz apart: tone 0 sits 4500 Hz below the carrier
    let spacing = 1000.0_f64;
    let offset = tone_offset_halves(0, 10) as f64 * 0.5 * spacing;
    assert_eq!(offset, -4500.0);
    let offset = tone_offset_halves(9, 10) as f64 * 0.5 * spacing;
    assert_eq!(offset, 4500.0);
}

#[test]
fn schroeder_numerators_closed_form() {
    assert_eq!(schroeder_numerators(6), vec![0, 0, 2, 6, 12, 20]);
}

#[test]
fn schroeder_schedule_empty() {
    assert!(schroeder_numerators(0).is_empty());
}

#[test]
fn schroeder_phases_match_formula() {
    let n = 10usize;
    let nums = schroeder_numerators(n);
    assert_eq!(nums.len(), n);
    for (k, num) in nums.iter().enumerate() {
        assert_eq!(*num, (k as u128) * (k as u128).saturating_sub(1));
        let phase = -std::f64::consts::PI * (*num as f64) / n as f64;
        let kf = k as f64;
        let expected = -std::f64::consts::PI * kf * (kf - 1.0) / n as f64;
        assert!((phase - expected).abs() < 1e-12);
    }
}

#[test]
fn centered_bins_even() {
    let got: Vec<usize> = (0..4).map(|i| centered_bin(i, 4)).collect();
    assert_eq!(got, vec![2, 3, 0, 1]);
}

#[test]
fn centered_bins_odd() {
    let got: Vec<usize> = (0..5).map(|i| centered_bin(i, 5)).collect();
    assert_eq!(got, vec![2, 3, 4, 0, 1]);
}

#[test]
fn centered_bins_single() {
    assert_eq!(centered_bin(0, 1), 0);
}

#[test]
fn centering_is_a_permutation() {
    for n in 1..40usize {
        let mut seen = vec![false; n];
        for i in 0..n {
            let b = centered_bin(i, n);
            assert!(!seen[b]);
            seen[b] = true;
        }
        assert!(seen.iter().all(|s| *s));
    }
}

#[test]
fn centered_bin_at_largest_size() {
    let n = usize::MAX;
    assert_eq!(centered_bin(0, n), n / 2);
    assert_eq!(centered_bin(n - 1, n), n / 2 - 1);
    assert_eq!(centered_bin(n - n / 2, n), 0);
}

#[test]
fn frame_is_little_endian_real_first() {
    let samples = vec![(1.0f32.to_bits(), (-2.5f32).to_bits())];
    assert_eq!(frame_iq_le(&samples), vec![0x00, 0x00, 0x80, 0x3f, 0x00, 0x00, 0x20, 0xc0]);
}

#[test]
fn frame_of_empty_block_is_empty() {
    assert!(frame_iq_le(&Vec::new()).is_empty());
}

#[test]
fn frame_matches_std_encoding() {
    let values: Vec<(f32, f32)> = vec![(0.5, -0.25), (1e-3, 3.0), (-1.0, 0.0)];
    let bits: Vec<(u32, u32)> = values.iter().map(|(r, i)| (r.to_bits(), i.to_bits())).collect();
    let mut expected = Vec::new();
    for (r, i) in &values {
        expected.extend_from_slice(&r.to_le_bytes());
        expected.extend_from_slice(&i.to_le_bytes());
    }
    let got = frame_iq_le(&bits);
    assert_eq!(got.len(), 8 * values.len());
    assert_eq!(got, expected);
}
