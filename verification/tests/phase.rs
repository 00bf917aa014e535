use tonegen::phase::{
    advance, following_index, lookup_fraction, lookup_index, phase_increment, FRACTION_MASK,
    FRACTION_SIZE, LOOKUP_MASK, LOOKUP_SIZE,
};

fn cyclic_distance(a: u32, b: u32) -> u32 {
    let forward = b.wrapping_sub(a);
    forward.min(forward.wrapping_neg())
}

#[test]
fn constants_fit_together() {
    assert_eq!(LOOKUP_SIZE, 1 << 14);
    assert_eq!(LOOKUP_MASK, LOOKUP_SIZE - 1);
    assert_eq!(FRACTION_SIZE, 1 << 18);
    assert_eq!(FRACTION_MASK, FRACTION_SIZE - 1);
    assert_eq!(LOOKUP_SIZE as u64 * FRACTION_SIZE as u64, 1u64 << 32);
}

#[test]
fn phase_splits_into_index_and_fraction() {
    assert_eq!(lookup_index(0), 0);
    assert_eq!(lookup_fraction(0), 0);
    assert_eq!(lookup_index(262_143), 0);
    assert_eq!(lookup_fraction(262_143), 262_143);
    assert_eq!(lookup_index(262_144), 1);
    assert_eq!(lookup_fraction(262_144), 0);
    assert_eq!(lookup_index(0x8000_0000), 8192);
    assert_eq!(lookup_index(u32::MAX), 16383);
    assert_eq!(lookup_fraction(u32::MAX), 262_143);
    assert_eq!(lookup_index(0x1234_5678), 0x1234_5678 >> 18);
    assert_eq!(lookup_fraction(0x1234_5678), 0x1234_5678 & 0x3FFFF);
}

#[test]
fn last_index_is_followed_by_the_first() {
    assert_eq!(following_index(0), 1);
    assert_eq!(following_index(8191), 8192);
    assert_eq!(following_index(16382), 16383);
    assert_eq!(following_index(16383), 0);
}

#[test]
fn advance_wraps() {
    assert_eq!(advance(0, 0), 0);
    assert_eq!(advance(10, 5), 15);
    assert_eq!(advance(u32::MAX, 1), 0);
    assert_eq!(advance(0xFFFF_FFF0, 0x20), 0x10);
    assert_eq!(advance(u32::MAX, u32::MAX), u32::MAX - 1);
}

#[test]
fn increment_is_rounded() {
    // 440 * 2^32 / 48000 = 39370533.5467
    assert_eq!(phase_increment(440_000_000, 48_000), 39_370_534);
    // 440 * 2^32 / 44100 = 42852281.41
    assert_eq!(phase_increment(440_000_000, 44_100), 42_852_281);
    // 1 Hz at 2^32 samples per second would be 1; at 48000 it is 89478.485
    assert_eq!(phase_increment(1_000_000, 48_000), 89_478);
    // a quarter of the sample rate is a quarter of the cycle
    assert_eq!(phase_increment(12_000_000_000, 48_000), 0x4000_0000);
    assert_eq!(phase_increment(20_000_000, 48_000), 1_789_570);
    assert_eq!(phase_increment(20_000_000_000, 48_000), 1_789_569_707);
    assert_eq!(phase_increment(0, 48_000), 0);
}

#[test]
fn increment_rounds_halves_up() {
    // 1 uHz at 1 Hz: 2^32 / 10^6 = 4294.967
    assert_eq!(phase_increment(1, 1), 4295);
    // 1953125 uHz at 16777 Hz: 500006.437
    assert_eq!(phase_increment(1_953_125, 16_777), 500_006);
    // 1 uHz at 8590 Hz: 0.49999 rounds to 0
    assert_eq!(phase_increment(1, 8_590), 0);
    // 1 uHz at 8589 Hz: 0.50005 rounds to 1
    assert_eq!(phase_increment(1, 8_589), 1);
    // 15625 uHz at 2^27 Hz: 15625 * 2^32 / (2^27 * 10^6) = 0.5 exactly
    assert_eq!(phase_increment(15_625, 134_217_728), 1);
}

#[test]
fn increment_is_held_to_32_bits() {
    assert_eq!(phase_increment(48_000_000_000, 48_000), u32::MAX);
    assert_eq!(phase_increment(47_999_999_999, 48_000), u32::MAX);
    assert_eq!(phase_increment(u64::MAX, 1), u32::MAX);
    assert_eq!(phase_increment(u64::MAX, u32::MAX), u32::MAX);
    assert_eq!(phase_increment(24_000_000_000, 48_000), 0x8000_0000);
}

#[test]
fn increment_at_rate_zero_saturates() {
    assert_eq!(phase_increment(0, 0), 0);
    assert_eq!(phase_increment(1, 0), u32::MAX);
    assert_eq!(phase_increment(440_000_000, 0), u32::MAX);
}

#[test]
fn one_period_closes_the_cycle() {
    for (frequency, rate) in [
        (440_000_000u64, 48_000u32),
        (440_000_000, 44_100),
        (20_000_000, 48_000),
        (20_000_000_000, 48_000),
        (20_000_000, 192_000),
        (20_000_000, 1_310_720),
        (261_625_565, 22_050),
        (20_000_000_000, 8_000),
        (13_000_000_000, 8_000),
    ] {
        let increment = phase_increment(frequency, rate);
        let denominator = frequency as u128;
        let period = (2 * rate as u128 * 1_000_000 + denominator) / (2 * denominator);
        for start in [0u32, 1, 0x7FFF_FFFF, 0xDEAD_BEEF, u32::MAX] {
            let mut phase = start;
            for _ in 0..period {
                phase = advance(phase, increment);
            }
            assert!(
                cyclic_distance(start, phase) <= increment,
                "{} uHz at {} Hz from {}",
                frequency,
                rate,
                start
            );
        }
    }
}

#[test]
fn steps_add_up_linearly() {
    let increment = phase_increment(440_000_000, 48_000);
    let start: u32 = 0xF000_0000;
    let mut phase = start;
    for step in 0..1000u64 {
        let expected = ((start as u64 + step * increment as u64) % (1u64 << 32)) as u32;
        assert_eq!(phase, expected);
        phase = advance(phase, increment);
    }
}
