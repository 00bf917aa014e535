use tonegen::cycle::{Cycle, CYCLE_FREQUENCY, CYCLE_SAMPLE_RATE};
use tonegen::wavetable::WaveformTable;

fn sine_table() -> WaveformTable {
    let samples: Vec<i32> = (0..16384)
        .map(|i| {
            let angle = 2.0 * std::f64::consts::PI * (i as f64) / 16384.0;
            (angle.sin() * 1_000_000.0).round() as i32
        })
        .collect();
    WaveformTable::from_samples(samples).expect("a sine is one cycle")
}

const INCREMENT: u32 = 39_370_534;

#[test]
fn cycle_starts_at_phase_zero_at_concert_pitch() {
    let cycle = Cycle::new(sine_table());
    assert_eq!(CYCLE_FREQUENCY, 440_000_000);
    assert_eq!(CYCLE_SAMPLE_RATE, 48_000);
    assert_eq!(cycle.phase(), 0);
    assert_eq!(cycle.increment(), INCREMENT);
}

#[test]
fn perform_fills_the_front_of_both_buffers() {
    let sine = sine_table();
    let mut cycle = Cycle::new(sine_table());
    let mut signal = vec![7_777_777; 64];
    let mut phase = vec![0xAAAA_AAAA; 80];
    cycle.perform(&mut signal, &mut phase, 48);
    assert_eq!(signal.len(), 64);
    assert_eq!(phase.len(), 80);
    for i in 0..48 {
        let expected = INCREMENT.wrapping_mul(i as u32);
        assert_eq!(phase[i], expected);
        assert_eq!(signal[i], sine.sample_at(expected));
    }
    assert!(signal[48..].iter().all(|&value| value == 7_777_777));
    assert!(phase[48..].iter().all(|&value| value == 0xAAAA_AAAA));
    assert_eq!(cycle.phase(), INCREMENT.wrapping_mul(48));
}

#[test]
fn perform_carries_on_where_it_stopped() {
    let mut whole = Cycle::new(sine_table());
    let mut signal = vec![0; 1000];
    let mut phase = vec![0; 1000];
    whole.perform(&mut signal, &mut phase, 1000);

    let mut parts = Cycle::new(sine_table());
    let mut signal_a = vec![0; 400];
    let mut phase_a = vec![0; 400];
    parts.perform(&mut signal_a, &mut phase_a, 400);
    let mut signal_b = vec![0; 600];
    let mut phase_b = vec![0; 600];
    parts.perform(&mut signal_b, &mut phase_b, 600);

    assert_eq!(&signal[..400], &signal_a[..]);
    assert_eq!(&signal[400..], &signal_b[..]);
    assert_eq!(&phase[..400], &phase_a[..]);
    assert_eq!(&phase[400..], &phase_b[..]);
    assert_eq!(whole.phase(), parts.phase());
}

#[test]
fn perform_of_nothing_changes_nothing() {
    let mut cycle = Cycle::new(sine_table());
    let mut signal = vec![5; 3];
    let mut phase = vec![6; 3];
    cycle.perform(&mut signal, &mut phase, 0);
    assert_eq!(signal, vec![5, 5, 5]);
    assert_eq!(phase, vec![6, 6, 6]);
    assert_eq!(cycle.phase(), 0);
    let mut empty_signal: Vec<i32> = vec![];
    let mut empty_phase: Vec<u32> = vec![];
    cycle.perform(&mut empty_signal, &mut empty_phase, 0);
    assert!(empty_signal.is_empty());
}

#[test]
fn a_second_of_samples_is_a_sine_at_440_hertz() {
    let mut cycle = Cycle::new(sine_table());
    let mut signal = vec![0; 48_000];
    let mut phase = vec![0; 48_000];
    cycle.perform(&mut signal, &mut phase, 48_000);
    for i in (0..48_000).step_by(997) {
        let expected = (2.0 * std::f64::consts::PI * 440.0 * i as f64 / 48_000.0).sin();
        assert!((signal[i] as f64 / 1_000_000.0 - expected).abs() < 1e-3);
    }
}
