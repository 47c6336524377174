use rsi_calculator::HistoryStore;
use rsi_calculator::PriceHistory;
use rsi_calculator::Signal;

#[test]
fn window_keeps_arrival_order() {
    let mut h = PriceHistory::new(5);
    h.add_price(3);
    h.add_price(1);
    h.add_price(2);
    assert_eq!(h.to_vec(), vec![3, 1, 2]);
}

#[test]
fn window_evicts_oldest_first() {
    let mut h = PriceHistory::new(3);
    for p in 1..=5u64 {
        h.add_price(p);
    }
    assert_eq!(h.to_vec(), vec![3, 4, 5]);
}

#[test]
fn window_never_exceeds_capacity() {
    let mut h = PriceHistory::new(4);
    for p in 0..1000u64 {
        h.add_price(p);
        assert!(h.len() <= 4);
    }
    assert_eq!(h.to_vec(), vec![996, 997, 998, 999]);
}

#[test]
fn zero_capacity_window_stays_empty() {
    let mut h = PriceHistory::new(0);
    h.add_price(7);
    assert_eq!(h.len(), 0);
}

#[test]
fn not_enough_data_yields_none() {
    let mut h = PriceHistory::new(20);
    for p in 1..=14u64 {
        h.add_price(p);
        // With 14 prices or fewer there are fewer than period + 1 = 15
        // observations, so no RSI is defined.
        assert!(h.calculate_rsi(14).is_none());
    }
    h.add_price(15);
    assert!(h.calculate_rsi(14).is_some());
}

#[test]
fn increasing_sequence_has_rsi_exactly_100() {
    let mut h = PriceHistory::new(30);
    for p in 1..=20u64 {
        h.add_price(p * 10);
    }
    let rsi = h.calculate_rsi(14).unwrap();
    assert_eq!(rsi.loss, 0);
    assert_eq!(rsi.value_millis(), 100000);
    assert_eq!(rsi.classify(), Signal::Overbought);
}

#[test]
fn decreasing_sequence_has_rsi_exactly_0() {
    let mut h = PriceHistory::new(30);
    for p in (1..=20u64).rev() {
        h.add_price(p * 10);
    }
    let rsi = h.calculate_rsi(14).unwrap();
    assert_eq!(rsi.gain, 0);
    assert_eq!(rsi.value_millis(), 0);
    assert_eq!(rsi.classify(), Signal::Oversold);
}

#[test]
fn flat_sequence_has_rsi_100() {
    // No down-moves at all, so the zero-loss policy applies.
    let mut h = PriceHistory::new(10);
    for _ in 0..5 {
        h.add_price(42);
    }
    let rsi = h.calculate_rsi(4).unwrap();
    assert_eq!(rsi.gain, 0);
    assert_eq!(rsi.loss, 0);
    assert_eq!(rsi.value_millis(), 100000);
}

#[test]
fn rsi_uses_only_most_recent_deltas() {
    // Window [100, 110, 105, 120]: with period 3 the deltas are
    // +10, -5, +15, so gain = 25 and loss = 5.
    let mut h = PriceHistory::new(10);
    for p in [100u64, 110, 105, 120] {
        h.add_price(p);
    }
    let rsi = h.calculate_rsi(3).unwrap();
    assert_eq!(rsi.gain, 25);
    assert_eq!(rsi.loss, 5);
    assert_eq!(rsi.value_millis(), 83333);
    // With period 2 only -5 and +15 count.
    let rsi2 = h.calculate_rsi(2).unwrap();
    assert_eq!(rsi2.gain, 15);
    assert_eq!(rsi2.loss, 5);
}

#[test]
fn extreme_prices_stay_in_range() {
    let mut h = PriceHistory::new(5);
    h.add_price(0);
    h.add_price(u64::MAX);
    let rsi = h.calculate_rsi(1).unwrap();
    assert_eq!(rsi.gain, u64::MAX as u128);
    assert_eq!(rsi.loss, 0);
    assert_eq!(rsi.value_millis(), 100000);
}

#[test]
fn store_creates_windows_lazily() {
    let mut s = HistoryStore::new(3);
    assert_eq!(s.window("abc"), Vec::<u64>::new());
    s.record("abc".to_string(), 5);
    s.record("abc".to_string(), 6);
    assert_eq!(s.window("abc"), vec![5, 6]);
    assert_eq!(s.window("other"), Vec::<u64>::new());
}

#[test]
fn store_bounds_every_asset() {
    let mut s = HistoryStore::new(2);
    for i in 0..50u64 {
        s.record("a".to_string(), i);
        s.record("b".to_string(), 100 + i);
    }
    assert_eq!(s.window("a"), vec![48, 49]);
    assert_eq!(s.window("b"), vec![148, 149]);
}
