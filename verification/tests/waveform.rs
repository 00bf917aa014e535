use tonegen::tone::ToneError;
use tonegen::waveform::{HarmonicParams, WaveformType};
use tonegen::wavetable::WaveformTable;

fn sine_table() -> WaveformTable {
    let samples: Vec<i32> = (0..16384)
        .map(|i| {
            let angle = 2.0 * std::f64::consts::PI * (i as f64) / 16384.0;
            (angle.sin() * 1_000_000.0).round() as i32
        })
        .collect();
    WaveformTable::from_samples(samples).expect("a sine is one cycle")
}

const QUARTER: u32 = 0x4000_0000;
const HALF: u32 = 0x8000_0000;
const THREE_QUARTERS: u32 = 0xC000_0000;

#[test]
fn square_is_high_then_low() {
    let sine = sine_table();
    let square = WaveformType::from_str("square").unwrap();
    assert_eq!(square.generate_sample(QUARTER, &sine), 1_000_000);
    assert_eq!(square.generate_sample(THREE_QUARTERS, &sine), -1_000_000);
    assert_eq!(square.generate_sample(0, &sine), 1_000_000);
    assert_eq!(square.generate_sample(HALF - 1, &sine), 1_000_000);
    assert_eq!(square.generate_sample(HALF, &sine), -1_000_000);
    assert_eq!(square.generate_sample(u32::MAX, &sine), -1_000_000);
}

#[test]
fn triangle_rises_and_falls() {
    let sine = sine_table();
    let triangle = WaveformType::Triangle;
    assert_eq!(triangle.generate_sample(0, &sine), -1_000_000);
    assert_eq!(triangle.generate_sample(QUARTER / 2, &sine), -500_000);
    assert_eq!(triangle.generate_sample(QUARTER, &sine), 0);
    assert_eq!(triangle.generate_sample(HALF - 1, &sine), 999_999);
    assert_eq!(triangle.generate_sample(HALF, &sine), 1_000_000);
    assert_eq!(triangle.generate_sample(THREE_QUARTERS, &sine), 0);
    assert_eq!(triangle.generate_sample(u32::MAX, &sine), -999_999);
}

#[test]
fn saw_ramps_up() {
    let sine = sine_table();
    let saw = WaveformType::Saw;
    assert_eq!(saw.generate_sample(0, &sine), -1_000_000);
    assert_eq!(saw.generate_sample(QUARTER, &sine), -500_000);
    assert_eq!(saw.generate_sample(HALF, &sine), 0);
    assert_eq!(saw.generate_sample(THREE_QUARTERS, &sine), 500_000);
    assert_eq!(saw.generate_sample(u32::MAX, &sine), 999_999);
}

#[test]
fn pulse_is_high_for_a_tenth() {
    let sine = sine_table();
    let pulse = WaveformType::Pulse;
    assert_eq!(pulse.generate_sample(0, &sine), 1_000_000);
    assert_eq!(pulse.generate_sample(429_496_729, &sine), 1_000_000);
    assert_eq!(pulse.generate_sample(429_496_730, &sine), -1_000_000);
    assert_eq!(pulse.generate_sample(QUARTER, &sine), -1_000_000);
    assert_eq!(pulse.generate_sample(u32::MAX, &sine), -1_000_000);
}

#[test]
fn sine_is_read_from_the_cycle() {
    let sine = sine_table();
    let wave = WaveformType::Sine;
    assert_eq!(wave.generate_sample(0, &sine), 0);
    assert_eq!(wave.generate_sample(QUARTER, &sine), 1_000_000);
    assert_eq!(wave.generate_sample(HALF, &sine), 0);
    assert_eq!(wave.generate_sample(THREE_QUARTERS, &sine), -1_000_000);
    for phase in [1u32, 12_345_678, 0x3333_3333, 0x9ABC_DEF0, u32::MAX] {
        let expected = (2.0 * std::f64::consts::PI * phase as f64 / 4294967296.0).sin();
        let got = wave.generate_sample(phase, &sine) as f64 / 1_000_000.0;
        assert!((got - expected).abs() < 1e-5, "phase {}", phase);
    }
}

#[test]
fn noise_has_no_table_value() {
    let sine = sine_table();
    let noise = WaveformType::WhiteNoise;
    assert_eq!(noise.generate_sample(0, &sine), 0);
    assert_eq!(noise.generate_sample(QUARTER, &sine), 0);
}

#[test]
fn harmonic_mix_is_normalised() {
    let sine = sine_table();
    let mix = WaveformType::Harmonic(HarmonicParams::default());
    // (1 - 0.33 + 0.2 - 0.14) / 2.17
    assert_eq!(mix.generate_sample(QUARTER, &sine), 336_405);
    assert_eq!(mix.generate_sample(THREE_QUARTERS, &sine), -336_405);
    assert_eq!(mix.generate_sample(0, &sine), 0);
    for phase in [1u32, 99_999_999, 0x1234_5678, 0x8765_4321, u32::MAX] {
        let p = phase as f64 / 4294967296.0;
        let mut sum = 0.0;
        let mut total = 0.0;
        for (number, amplitude) in [(1.0, 1.0), (2.0, 0.5), (3.0, 0.33), (5.0, 0.2), (7.0, 0.14)] {
            sum += (2.0 * std::f64::consts::PI * p * number).sin() * amplitude;
            total += amplitude;
        }
        let got = mix.generate_sample(phase, &sine) as f64 / 1_000_000.0;
        assert!((got - sum / total).abs() < 1e-4, "phase {}", phase);
    }
}

#[test]
fn harmonic_mix_of_one_partial_is_that_partial() {
    let sine = sine_table();
    let octave = HarmonicParams::new(vec![(2, 250_000)]).unwrap();
    assert_eq!(octave.harmonics(), &vec![(2u32, 250_000u32)]);
    let mix = WaveformType::Harmonic(octave);
    assert_eq!(mix.generate_sample(QUARTER / 2, &sine), 1_000_000);
    assert_eq!(mix.generate_sample(QUARTER, &sine), 0);
    assert_eq!(mix.generate_sample(3 * (QUARTER / 2), &sine), -1_000_000);
    // twice 0.625 of a cycle is 0.25 of the next
    assert_eq!(mix.generate_sample(HALF + QUARTER / 2, &sine), 1_000_000);
}

#[test]
fn harmonic_mix_needs_an_amplitude() {
    assert!(HarmonicParams::new(vec![]).is_none());
    assert!(HarmonicParams::new(vec![(1, 0), (2, 0)]).is_none());
    assert!(HarmonicParams::new(vec![(1, 0), (2, 1)]).is_some());
    assert!(HarmonicParams::new(vec![(0, u32::MAX), (u32::MAX, u32::MAX)]).is_some());
}

#[test]
fn harmonic_mix_stays_in_full_scale() {
    let sine = sine_table();
    let mix = WaveformType::Harmonic(
        HarmonicParams::new(vec![
            (u32::MAX, u32::MAX),
            (3, u32::MAX),
            (0, 1),
            (65_537, 7),
        ])
        .unwrap(),
    );
    let mut phase: u32 = 0;
    for _ in 0..5000 {
        let value = mix.generate_sample(phase, &sine);
        assert!((-1_000_000..=1_000_000).contains(&value));
        phase = phase.wrapping_add(0x00C0_FFEE);
    }
}

#[test]
fn default_harmonics() {
    let mix = HarmonicParams::default();
    assert_eq!(
        mix.harmonics(),
        &vec![
            (1u32, 1_000_000u32),
            (2, 500_000),
            (3, 330_000),
            (5, 200_000),
            (7, 140_000)
        ]
    );
}

#[test]
fn waveforms_by_name() {
    assert!(matches!(WaveformType::from_str("sin"), Ok(WaveformType::Sine)));
    assert!(matches!(WaveformType::from_str("sine"), Ok(WaveformType::Sine)));
    assert!(matches!(WaveformType::from_str("square"), Ok(WaveformType::Square)));
    assert!(matches!(WaveformType::from_str("triangle"), Ok(WaveformType::Triangle)));
    assert!(matches!(WaveformType::from_str("saw"), Ok(WaveformType::Saw)));
    assert!(matches!(WaveformType::from_str("pulse"), Ok(WaveformType::Pulse)));
    assert!(matches!(WaveformType::from_str("noise"), Ok(WaveformType::WhiteNoise)));
    assert!(matches!(WaveformType::from_str("whitenoise"), Ok(WaveformType::WhiteNoise)));
    match WaveformType::from_str("harmonic") {
        Ok(WaveformType::Harmonic(mix)) => assert_eq!(mix.harmonics().len(), 5),
        other => panic!("unexpected: {:?}", other),
    }
}

#[test]
fn waveform_names_ignore_case() {
    assert!(matches!(WaveformType::from_str("SINE"), Ok(WaveformType::Sine)));
    assert!(matches!(WaveformType::from_str("Square"), Ok(WaveformType::Square)));
    assert!(matches!(WaveformType::from_str("WhiteNoise"), Ok(WaveformType::WhiteNoise)));
    assert!(matches!(WaveformType::from_str("tRiAnGlE"), Ok(WaveformType::Triangle)));
}

#[test]
fn unknown_waveform_is_a_parse_error() {
    for name in ["", "sinus", " sin", "sin ", "Cosine", "whitenoise1"] {
        match WaveformType::from_str(name) {
            Err(ToneError::Parse(text)) => {
                assert_eq!(text, format!("Unknown waveform: {}", name))
            }
            other => panic!("unexpected: {:?}", other),
        }
    }
}

#[test]
fn lower_case_names_are_matched_exactly() {
    let lower = String::from("saw");
    assert!(matches!(
        WaveformType::from_lowercase(&lower, "SAW"),
        Ok(WaveformType::Saw)
    ));
    let upper = String::from("SAW");
    match WaveformType::from_lowercase(&upper, "Saw") {
        Err(ToneError::Parse(text)) => assert_eq!(text, "Unknown waveform: Saw"),
        other => panic!("unexpected: {:?}", other),
    }
}

#[test]
fn table_holds_the_waveform_at_each_entry() {
    let sine = sine_table();
    for waveform in [
        WaveformType::Sine,
        WaveformType::Square,
        WaveformType::Triangle,
        WaveformType::Saw,
        WaveformType::Pulse,
        WaveformType::WhiteNoise,
        WaveformType::Harmonic(HarmonicParams::default()),
    ] {
        let table = waveform.build_table(&sine);
        assert_eq!(table.samples().len(), 16384);
        for i in 0..16384usize {
            let phase = (i as u32) << 18;
            assert_eq!(table.entry(i), waveform.generate_sample(phase, &sine));
        }
    }
}

#[test]
fn table_of_a_sine_is_the_cycle() {
    let sine = sine_table();
    let table = WaveformType::Sine.build_table(&sine);
    assert_eq!(table.samples(), sine.samples());
}

#[test]
fn table_shapes() {
    let sine = sine_table();
    let square = WaveformType::Square.build_table(&sine);
    assert_eq!(square.entry(0), 1_000_000);
    assert_eq!(square.entry(8191), 1_000_000);
    assert_eq!(square.entry(8192), -1_000_000);
    let pulse = WaveformType::Pulse.build_table(&sine);
    assert_eq!(pulse.entry(1638), 1_000_000);
    assert_eq!(pulse.entry(1639), -1_000_000);
    let saw = WaveformType::Saw.build_table(&sine);
    assert_eq!(saw.entry(4096), -500_000);
    let triangle = WaveformType::Triangle.build_table(&sine);
    assert_eq!(triangle.entry(8192), 1_000_000);
    let noise = WaveformType::WhiteNoise.build_table(&sine);
    assert!(noise.samples().iter().all(|&value| value == 0));
}
