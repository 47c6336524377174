//! The RSI value itself and the signal classifier.
//!
//! Prices are fixed-point integers, so one RSI computation reduces to two
//! integer sums: the total upward movement (`gain`) and the total downward
//! movement (`loss`) over the window's most recent deltas. The RSI formula
//! `100 - 100 / (1 + gain/loss)` simplifies to the exact rational
//! `100 * gain / (gain + loss)`, with the value defined as exactly `100`
//! whenever `loss` is zero. An [`Rsi`] keeps the two sums, so the value is
//! held exactly and every threshold comparison is exact integer arithmetic.

use vstd::prelude::*;

verus! {

/// Largest accepted RSI period. Together with `u64` prices this keeps every
/// gain/loss sum below [`MAX_SUM`], so all arithmetic stays in range.
pub const MAX_PERIOD: usize = 1000000;

/// Upper bound on one gain/loss sum: [`MAX_PERIOD`] deltas of at most
/// `u64::MAX` each.
pub const MAX_SUM: u128 = 0xffff_ffff_ffff_ffff * 1000000;

/// The discrete trading signal derived from an RSI value.
#[derive(Clone, Copy, Debug, PartialEq, Eq, Structural)]
pub enum Signal {
    Oversold,
    Neutral,
    Overbought,
}

/// An RSI value, kept exactly as the pair of sums it is derived from.
///
/// The represented value is `100 * gain / (gain + loss)` as an exact
/// rational, or exactly `100` when `loss == 0` (no downward movement).
#[derive(Clone, Copy, Debug, PartialEq, Eq, Structural)]
pub struct Rsi {
    pub gain: u128,
    pub loss: u128,
}

/// The RSI value in thousandths of a point, rounded toward zero:
/// `100000` stands for an RSI of exactly 100.
pub open spec fn rsi_value_millis(gain: int, loss: int) -> int {
    if loss == 0 {
        100000
    } else {
        (100000 * gain) / (gain + loss)
    }
}

/// The classification bands, as exact comparisons of the rational RSI value
/// against 30 and 70: `100g/(g+l) < 30` iff `7g < 3l`, and
/// `100g/(g+l) > 70` iff `3g > 7l`; a zero `loss` means an RSI of 100.
/// Both boundaries themselves fall in the neutral band.
pub open spec fn spec_classify(gain: int, loss: int) -> Signal {
    if 7 * gain < 3 * loss {
        Signal::Oversold
    } else if loss == 0 || 3 * gain > 7 * loss {
        Signal::Overbought
    } else {
        Signal::Neutral
    }
}

impl Rsi {
    /// Both sums small enough that every derived computation fits in `u128`.
    pub open spec fn wf(&self) -> bool {
        self.gain <= MAX_SUM && self.loss <= MAX_SUM
    }

    pub fn new(gain: u128, loss: u128) -> (r: Self)
        requires
            gain <= MAX_SUM,
            loss <= MAX_SUM,
        ensures
            r.gain == gain,
            r.loss == loss,
            r.wf(),
    {
        Rsi { gain, loss }
    }

    /// The RSI value in thousandths of a point, rounded toward zero.
    pub fn value_millis(&self) -> (r: u64)
        requires
            self.wf(),
        ensures
            r == rsi_value_millis(self.gain as int, self.loss as int),
            r <= 100000,
    {
        if self.loss == 0 {
            100000
        } else {
            let num: u128 = 100000 * self.gain;
            let den: u128 = self.gain + self.loss;
            proof {
                vstd::arithmetic::mul::lemma_mul_inequality(
                    self.gain as int,
                    den as int,
                    100000,
                );
                vstd::arithmetic::mul::lemma_mul_is_commutative(self.gain as int, 100000);
                vstd::arithmetic::mul::lemma_mul_is_commutative(den as int, 100000);
                vstd::arithmetic::div_mod::lemma_div_is_ordered(
                    num as int,
                    100000 * (den as int),
                    den as int,
                );
                vstd::arithmetic::div_mod::lemma_div_multiples_vanish(100000, den as int);
            }
            (num / den) as u64
        }
    }

    /// Maps this value to its trading signal: strictly below 30 is oversold,
    /// strictly above 70 is overbought, anything else (both boundaries
    /// included) is neutral.
    pub fn classify(&self) -> (s: Signal)
        requires
            self.wf(),
        ensures
            s == spec_classify(self.gain as int, self.loss as int),
    {
        if 7 * self.gain < 3 * self.loss {
            Signal::Oversold
        } else if self.loss == 0 || 3 * self.gain > 7 * self.loss {
            Signal::Overbought
        } else {
            Signal::Neutral
        }
    }
}

impl Signal {
    /// The signal's wire name.
    pub fn name(&self) -> (r: &'static str)
        ensures
            *self == Signal::Oversold ==> r@ == "oversold"@,
            *self == Signal::Neutral ==> r@ == "neutral"@,
            *self == Signal::Overbought ==> r@ == "overbought"@,
    {
        match self {
            Signal::Oversold => "oversold",
            Signal::Neutral => "neutral",
            Signal::Overbought => "overbought",
        }
    }
}

/// The upward part of one price delta.
pub open spec fn gain_of(prev: u64, next: u64) -> int {
    if next > prev {
        next - prev
    } else {
        0
    }
}

/// The downward part of one price delta, as an absolute value.
pub open spec fn loss_of(prev: u64, next: u64) -> int {
    if next > prev {
        0
    } else {
        prev - next
    }
}

/// Total upward movement over the consecutive deltas of `s`, in order.
pub open spec fn gain_sum(s: Seq<u64>) -> int
    decreases s.len(),
{
    if s.len() < 2 {
        0
    } else {
        gain_sum(s.drop_last()) + gain_of(s[s.len() - 2], s[s.len() - 1])
    }
}

/// Total downward movement over the consecutive deltas of `s`, in order.
pub open spec fn loss_sum(s: Seq<u64>) -> int
    decreases s.len(),
{
    if s.len() < 2 {
        0
    } else {
        loss_sum(s.drop_last()) + loss_of(s[s.len() - 2], s[s.len() - 1])
    }
}

/// The last `period + 1` prices of a window: the observations whose `period`
/// deltas one RSI computation is taken over.
pub open spec fn tail_window(s: Seq<u64>, period: nat) -> Seq<u64>
    recommends
        s.len() >= period + 1,
{
    s.subrange(s.len() - (period + 1), s.len() as int)
}

/// Both sums are non-negative, and each is at most one `u64` delta per
/// adjacent pair of the sequence.
pub proof fn lemma_sums_in_range(s: Seq<u64>)
    ensures
        0 <= gain_sum(s),
        0 <= loss_sum(s),
        s.len() >= 1 ==> gain_sum(s) <= (s.len() - 1) * 0xffff_ffff_ffff_ffff,
        s.len() >= 1 ==> loss_sum(s) <= (s.len() - 1) * 0xffff_ffff_ffff_ffff,
    decreases s.len(),
{
    if s.len() >= 2 {
        lemma_sums_in_range(s.drop_last());
    }
}

/// A sequence whose every adjacent pair rises strictly has no downward
/// movement at all.
pub proof fn lemma_increasing_has_no_losses(s: Seq<u64>)
    requires
        forall|i: int| 0 <= i < s.len() - 1 ==> #[trigger] s[i] < s[i + 1],
    ensures
        loss_sum(s) == 0,
    decreases s.len(),
{
    if s.len() >= 2 {
        lemma_increasing_has_no_losses(s.drop_last());
    }
}

/// A sequence whose every adjacent pair falls strictly has no upward
/// movement at all.
pub proof fn lemma_decreasing_has_no_gains(s: Seq<u64>)
    requires
        forall|i: int| 0 <= i < s.len() - 1 ==> #[trigger] s[i] > s[i + 1],
    ensures
        gain_sum(s) == 0,
    decreases s.len(),
{
    if s.len() >= 2 {
        lemma_decreasing_has_no_gains(s.drop_last());
    }
}

/// Over a strictly increasing window with at least `period + 1` prices the
/// loss sum (hence the average loss) is zero, so the RSI is exactly 100 and
/// the signal is overbought.
pub proof fn lemma_increasing_window_rsi_is_100(s: Seq<u64>, period: nat)
    requires
        1 <= period,
        s.len() >= period + 1,
        forall|i: int| 0 <= i < s.len() - 1 ==> #[trigger] s[i] < s[i + 1],
    ensures
        loss_sum(tail_window(s, period)) == 0,
        rsi_value_millis(gain_sum(tail_window(s, period)), loss_sum(tail_window(s, period)))
            == 100000,
        spec_classify(gain_sum(tail_window(s, period)), loss_sum(tail_window(s, period)))
            == Signal::Overbought,
{
    let t = tail_window(s, period);
    assert forall|i: int| 0 <= i < t.len() - 1 implies #[trigger] t[i] < t[i + 1] by {
        assert(t[i] == s[s.len() - (period + 1) + i]);
        assert(t[i + 1] == s[s.len() - (period + 1) + i + 1]);
    }
    lemma_increasing_has_no_losses(t);
    lemma_sums_in_range(t);
}

/// Over a strictly decreasing window with at least `period + 1` prices the
/// gain sum (hence the average gain) is zero while some loss exists, so the
/// RSI is exactly 0 and the signal is oversold.
pub proof fn lemma_decreasing_window_rsi_is_0(s: Seq<u64>, period: nat)
    requires
        1 <= period,
        s.len() >= period + 1,
        forall|i: int| 0 <= i < s.len() - 1 ==> #[trigger] s[i] > s[i + 1],
    ensures
        gain_sum(tail_window(s, period)) == 0,
        loss_sum(tail_window(s, period)) > 0,
        rsi_value_millis(gain_sum(tail_window(s, period)), loss_sum(tail_window(s, period))) == 0,
        spec_classify(gain_sum(tail_window(s, period)), loss_sum(tail_window(s, period)))
            == Signal::Oversold,
{
    let t = tail_window(s, period);
    assert forall|i: int| 0 <= i < t.len() - 1 implies #[trigger] t[i] > t[i + 1] by {
        assert(t[i] == s[s.len() - (period + 1) + i]);
        assert(t[i + 1] == s[s.len() - (period + 1) + i + 1]);
    }
    lemma_decreasing_has_no_gains(t);
    lemma_sums_in_range(t.drop_last());
    assert(t.len() >= 2);
    assert(loss_of(t[t.len() - 2], t[t.len() - 1]) > 0);
    let l = loss_sum(t);
    assert(l > 0);
    vstd::arithmetic::div_mod::lemma_div_of0(l);
}

/// The classifier's bands restated over the rational RSI value itself:
/// with `v = 100*gain/(gain+loss)` (and 100 for zero loss), the signal is
/// oversold exactly when `v < 30` and overbought exactly when `v > 70`,
/// both comparisons taken over exact rationals by cross-multiplication.
pub proof fn lemma_classify_bands(gain: int, loss: int)
    requires
        gain >= 0,
        loss >= 0,
    ensures
        (spec_classify(gain, loss) == Signal::Oversold) <==> (loss > 0 && 100 * gain < 30 * (gain
            + loss)),
        (spec_classify(gain, loss) == Signal::Overbought) <==> (loss == 0 || 100 * gain > 70 * (
        gain + loss)),
{
}

} // verus!
