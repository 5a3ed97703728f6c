use sysview::history::{band, clamp_sample, Band, HistoryBuffer, FULL_SCALE, HISTORY_SIZE, UNITS_PER_PERCENT};

fn fixed(percent: f64) -> i64 {
    (percent * UNITS_PER_PERCENT as f64).round() as i64
}

fn samples(b: &HistoryBuffer) -> Vec<u32> {
    (0..b.capacity()).map(|i| b.get(i)).collect()
}

#[test]
fn fresh_buffer_holds_zeros() {
    let b = HistoryBuffer::new();
    assert_eq!(b.capacity(), HISTORY_SIZE);
    assert_eq!(b.current(), 0);
    assert!(!b.is_seeded());
    assert!(samples(&b).iter().all(|&v| v == 0));
}

#[test]
fn length_stays_fixed_and_current_is_last_push() {
    let mut b = HistoryBuffer::new();
    let values = [10.0, 95.5, -3.0, 42.25, 180.0, 7.0];
    for (k, &v) in values.iter().enumerate() {
        b.push(fixed(v));
        assert_eq!(b.capacity(), HISTORY_SIZE);
        assert_eq!(samples(&b).len(), HISTORY_SIZE);
        assert_eq!(b.current(), clamp_sample(fixed(values[k])));
    }
    assert_eq!(b.current(), fixed(7.0) as u32);
    for i in 0..200 {
        b.push(i * 5_000);
        assert_eq!(samples(&b).len(), HISTORY_SIZE);
    }
}

#[test]
fn clamps_out_of_range_values() {
    let mut b = HistoryBuffer::new();
    b.push(fixed(-5.0));
    assert_eq!(b.current(), 0);
    b.push(fixed(150.0));
    assert_eq!(b.current(), FULL_SCALE);
    assert_eq!(b.current(), fixed(100.0) as u32);
    assert_eq!(clamp_sample(i64::MIN), 0);
    assert_eq!(clamp_sample(i64::MAX), FULL_SCALE);
    assert_eq!(clamp_sample(123_456), 123_456);
}

#[test]
fn first_push_seeds_every_slot() {
    let mut b = HistoryBuffer::new();
    b.push(fixed(37.5));
    assert!(b.is_seeded());
    assert!(samples(&b).iter().all(|&v| v == 375_000));
    b.push(fixed(10.0));
    let s = samples(&b);
    assert!(s[..HISTORY_SIZE - 1].iter().all(|&v| v == 375_000));
    assert_eq!(s[HISTORY_SIZE - 1], 100_000);
}

#[test]
fn oldest_sample_is_evicted_first() {
    let n = HISTORY_SIZE;
    let mut b = HistoryBuffer::new();
    let values: Vec<i64> = (1..=(n as i64 + 1)).map(|v| v * 1_000).collect();
    for &v in &values {
        b.push(v);
    }
    let expected: Vec<u32> = values[1..].iter().map(|&v| v as u32).collect();
    assert_eq!(samples(&b), expected);
}

#[test]
fn fifo_on_small_capacity() {
    let mut b = HistoryBuffer::with_capacity(3);
    for v in [1_000, 2_000, 3_000, 4_000] {
        b.push(v);
    }
    assert_eq!(samples(&b), vec![2_000, 3_000, 4_000]);
    b.push(5_000);
    assert_eq!(samples(&b), vec![3_000, 4_000, 5_000]);
}

#[test]
fn capacity_one_keeps_latest() {
    let mut b = HistoryBuffer::with_capacity(1);
    b.push(5);
    b.push(9);
    assert_eq!(samples(&b), vec![9]);
}

#[test]
fn snapshot_pairs_slots_with_samples() {
    let mut b = HistoryBuffer::with_capacity(4);
    b.push(10);
    b.push(20);
    assert_eq!(b.snapshot(), vec![(0, 10), (1, 10), (2, 10), (3, 20)]);
    assert_eq!(b.snapshot(), b.snapshot());
}

#[test]
fn bands_split_at_fifty_and_seventy_five() {
    assert_eq!(band(fixed(50.0) as u32), Band::Low);
    assert_eq!(band(fixed(50.0001) as u32), Band::Mid);
    assert_eq!(band(fixed(75.0) as u32), Band::Mid);
    assert_eq!(band(fixed(75.0001) as u32), Band::High);
    assert_eq!(band(0), Band::Low);
    assert_eq!(band(FULL_SCALE), Band::High);
}

#[test]
fn bands_never_go_down() {
    let mut last = Band::Low;
    let rank = |b: Band| match b {
        Band::Low => 0,
        Band::Mid => 1,
        Band::High => 2,
    };
    for v in (0..=FULL_SCALE).step_by(2_500) {
        let b = band(v);
        assert!(rank(b) >= rank(last));
        last = b;
    }
}
