use tonegen::wavetable::{interpolate_between, WaveformTable};

fn ramp_table() -> WaveformTable {
    let samples: Vec<i32> = (0..16384).map(|i| (i as i32 - 8192) * 100).collect();
    WaveformTable::from_samples(samples).expect("a ramp within full scale")
}

#[test]
fn only_a_whole_cycle_is_a_table() {
    assert!(WaveformTable::from_samples(vec![]).is_none());
    assert!(WaveformTable::from_samples(vec![0; 16383]).is_none());
    assert!(WaveformTable::from_samples(vec![0; 16385]).is_none());
    assert!(WaveformTable::from_samples(vec![0; 16384]).is_some());
    assert!(WaveformTable::from_samples(vec![1_000_000; 16384]).is_some());
    assert!(WaveformTable::from_samples(vec![-1_000_000; 16384]).is_some());
    let mut high = vec![0; 16384];
    high[16383] = 1_000_001;
    assert!(WaveformTable::from_samples(high).is_none());
    let mut low = vec![0; 16384];
    low[0] = -1_000_001;
    assert!(WaveformTable::from_samples(low).is_none());
}

#[test]
fn table_keeps_its_samples() {
    let table = ramp_table();
    assert_eq!(table.samples().len(), 16384);
    assert_eq!(table.entry(0), -819_200);
    assert_eq!(table.entry(8192), 0);
    assert_eq!(table.entry(16383), 819_100);
}

#[test]
fn interpolation_between_two_values() {
    assert_eq!(interpolate_between(0, 100, 0), 0);
    assert_eq!(interpolate_between(0, 100, 131_072), 50);
    assert_eq!(interpolate_between(0, 100, 262_143), 99);
    assert_eq!(interpolate_between(100, 0, 131_072), 50);
    assert_eq!(interpolate_between(-100, 100, 65_536), -50);
    assert_eq!(interpolate_between(7, 7, 200_000), 7);
}

#[test]
fn interpolation_rounds_down() {
    // 1/3 of the way from 0 to 10 is 3.33, from 0 to -10 it is -3.33
    assert_eq!(interpolate_between(0, 10, 87_381), 3);
    assert_eq!(interpolate_between(0, -10, 87_381), -4);
    assert_eq!(interpolate_between(0, 1, 262_143), 0);
    assert_eq!(interpolate_between(0, -1, 1), -1);
    assert_eq!(interpolate_between(i32::MIN, i32::MAX, 262_143), i32::MAX - 16384);
    assert_eq!(interpolate_between(i32::MAX, i32::MIN, 262_143), i32::MIN + 16383);
}

#[test]
fn table_is_read_by_phase() {
    let table = ramp_table();
    assert_eq!(table.sample_at(0), -819_200);
    assert_eq!(table.sample_at(1 << 18), -819_100);
    assert_eq!(table.sample_at((1 << 18) + (1 << 17)), -819_050);
    assert_eq!(table.sample_at(8192 << 18), 0);
    // the last entry is followed by the first
    assert_eq!(table.sample_at(16383 << 18), 819_100);
    assert_eq!(table.sample_at((16383 << 18) + (1 << 17)), -50);
    assert_eq!(table.sample_at(u32::MAX), -819_200 + 6);
}

#[test]
fn interpolated_value_lies_between_its_neighbours() {
    let samples: Vec<i32> = (0..16384)
        .map(|i: i64| (((i * 7919 + 13) * 104_729) % 2_000_001 - 1_000_000) as i32)
        .collect();
    let table = WaveformTable::from_samples(samples).unwrap();
    let mut phase: u32 = 0;
    for _ in 0..20_000 {
        let index = (phase >> 18) as usize;
        let here = table.entry(index);
        let next = table.entry((index + 1) & 16383);
        let value = table.sample_at(phase);
        assert!(value >= here.min(next) && value <= here.max(next));
        assert!((value - here).abs() <= (next - here).abs());
        phase = phase.wrapping_add(0x0123_4567);
    }
}
