use rsi_calculator::Rsi;
use rsi_calculator::Signal;

#[test]
fn classify_boundary_30_is_neutral() {
    // gain 30000, loss 70000 represents an RSI of exactly 30.0
    assert_eq!(Rsi::new(30000, 70000).classify(), Signal::Neutral);
}

#[test]
fn classify_boundary_70_is_neutral() {
    // gain 70000, loss 30000 represents an RSI of exactly 70.0
    assert_eq!(Rsi::new(70000, 30000).classify(), Signal::Neutral);
}

#[test]
fn classify_just_below_30_is_oversold() {
    // gain 29999, loss 70001 represents an RSI of exactly 29.999
    assert_eq!(Rsi::new(29999, 70001).classify(), Signal::Oversold);
}

#[test]
fn classify_just_above_70_is_overbought() {
    // gain 70001, loss 29999 represents an RSI of exactly 70.001
    assert_eq!(Rsi::new(70001, 29999).classify(), Signal::Overbought);
}

#[test]
fn classify_midrange_is_neutral() {
    assert_eq!(Rsi::new(1, 1).classify(), Signal::Neutral);
}

#[test]
fn zero_loss_means_rsi_100() {
    let r = Rsi::new(123, 0);
    assert_eq!(r.value_millis(), 100000);
    assert_eq!(r.classify(), Signal::Overbought);
}

#[test]
fn zero_movement_means_rsi_100() {
    // The zero-loss policy applies even when there were no gains either.
    let r = Rsi::new(0, 0);
    assert_eq!(r.value_millis(), 100000);
    assert_eq!(r.classify(), Signal::Overbought);
}

#[test]
fn zero_gain_means_rsi_0() {
    let r = Rsi::new(0, 5);
    assert_eq!(r.value_millis(), 0);
    assert_eq!(r.classify(), Signal::Oversold);
}

#[test]
fn value_millis_exact_formula() {
    // 100 * 120 / (120 + 20) = 85.714285... -> 85714 thousandths
    assert_eq!(Rsi::new(120, 20).value_millis(), 85714);
    // 100 * 25 / (25 + 5) = 83.333... -> 83333 thousandths
    assert_eq!(Rsi::new(25, 5).value_millis(), 83333);
    // 100 * 1 / (1 + 3) = 25 exactly
    assert_eq!(Rsi::new(1, 3).value_millis(), 25000);
}
