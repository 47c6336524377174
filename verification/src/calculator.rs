//! The per-trade engine: record the price, compute the RSI over the updated
//! window, classify it, and assemble the outbound result.

use vstd::prelude::*;
use crate::history::{HistoryStore, push_bounded, stored_window};
use crate::rsi::{Rsi, Signal, MAX_PERIOD, gain_sum, loss_sum, tail_window, spec_classify};

verus! {

/// Extra room a window keeps beyond the `period + 1` prices one RSI
/// computation needs.
pub const WINDOW_SLACK: usize = 10;

/// One decoded trade, with the price and amount as fixed-point integers in
/// the unit the caller chose.
pub struct TradeEvent {
    pub token_address: String,
    pub price: u64,
    pub block_time: String,
    pub transaction_signature: String,
    pub is_buy: bool,
    pub amount: u64,
}

/// One computed indicator, ready to publish.
pub struct RsiResult {
    pub token_address: String,
    pub rsi: Rsi,
    pub current_price: u64,
    pub timestamp: String,
    pub period: usize,
    pub signal: Signal,
}

/// The window `asset` holds after one more price: its stored window (empty
/// if the asset is new) with `price` appended, bounded by the configured
/// capacity `period + WINDOW_SLACK`.
pub open spec fn updated_window(
    m: Map<Seq<char>, Seq<u64>>,
    period: nat,
    asset: Seq<char>,
    price: u64,
) -> Seq<u64> {
    push_bounded(stored_window(m, asset), price, period + WINDOW_SLACK as nat)
}

/// What one trade yields: `None` while the updated window is still short of
/// `period + 1` prices, otherwise the exact gain and loss sums of its most
/// recent `period` deltas.
pub open spec fn spec_outcome(
    m: Map<Seq<char>, Seq<u64>>,
    period: nat,
    asset: Seq<char>,
    price: u64,
) -> Option<(int, int)> {
    let w = updated_window(m, period, asset, price);
    if w.len() >= period + 1 {
        Some((gain_sum(tail_window(w, period)), loss_sum(tail_window(w, period))))
    } else {
        None
    }
}

/// Everything a produced result must satisfy, except for its wall-clock
/// timestamp: emitted exactly when the updated window suffices, and then
/// carrying the event's asset and price, the configured period, the exact
/// gain and loss sums, and the signal those sums classify to.
pub open spec fn result_matches(
    m: Map<Seq<char>, Seq<u64>>,
    period: usize,
    trade: TradeEvent,
    r: Option<RsiResult>,
) -> bool {
    &&& ((r is Some) <==> (spec_outcome(m, period as nat, trade.token_address@, trade.price)
        is Some))
    &&& (r matches Some(res) ==> {
        let (g, l) = spec_outcome(m, period as nat, trade.token_address@, trade.price).unwrap();
        &&& res.token_address@ == trade.token_address@
        &&& res.current_price == trade.price
        &&& res.period == period
        &&& res.rsi.gain == g
        &&& res.rsi.loss == l
        &&& res.rsi.wf()
        &&& res.signal == spec_classify(g, l)
    })
}

/// Relies on `chrono::Utc::now` for the current wall-clock instant and on
/// `chrono::DateTime::to_rfc3339` to render it. The result depends on the
/// clock, so nothing is promised of it.
#[verifier::external_body]
pub(crate) fn now_rfc3339() -> String {
    chrono::Utc::now().to_rfc3339()
}

/// The engine: a per-asset history table and the configured period.
pub struct RsiCalculator {
    token_histories: HistoryStore,
    rsi_period: usize,
}

impl View for RsiCalculator {
    type V = Map<Seq<char>, Seq<u64>>;

    closed spec fn view(&self) -> Map<Seq<char>, Seq<u64>> {
        self.token_histories@
    }
}

impl RsiCalculator {
    pub closed spec fn spec_period(&self) -> usize {
        self.rsi_period
    }

    pub closed spec fn wf(&self) -> bool {
        &&& 1 <= self.rsi_period <= MAX_PERIOD
        &&& self.token_histories.wf()
        &&& self.token_histories.capacity() == self.rsi_period + WINDOW_SLACK
    }

    pub fn new(rsi_period: usize) -> (r: Self)
        requires
            1 <= rsi_period <= MAX_PERIOD,
        ensures
            r.wf(),
            r@ == Map::<Seq<char>, Seq<u64>>::empty(),
            r.spec_period() == rsi_period,
    {
        RsiCalculator {
            token_histories: HistoryStore::new(rsi_period + WINDOW_SLACK),
            rsi_period,
        }
    }

    pub fn period(&self) -> (p: usize)
        ensures
            p == self.spec_period(),
    {
        self.rsi_period
    }

    /// The current ordered price sequence recorded for an asset.
    pub fn window(&self, asset: &str) -> (w: Vec<u64>)
        ensures
            w@ == stored_window(self@, asset@),
    {
        self.token_histories.window(asset)
    }

    /// No asset's window ever exceeds `period + WINDOW_SLACK` prices.
    pub proof fn lemma_windows_bounded(&self)
        requires
            self.wf(),
        ensures
            forall|k: Seq<char>|
                self@.contains_key(k) ==> (#[trigger] self@[k]).len() <= self.spec_period()
                    + WINDOW_SLACK,
    {
        self.token_histories.lemma_windows_bounded();
    }

    /// Processes one trade with the given wall-clock timestamp: records the
    /// price and, if the window now suffices, computes, classifies and
    /// assembles the result.
    pub fn process_trade_at(&mut self, trade: TradeEvent, timestamp: String) -> (r: Option<
        RsiResult,
    >)
        requires
            old(self).wf(),
        ensures
            final(self).wf(),
            final(self).spec_period() == old(self).spec_period(),
            final(self)@ == step_histories(
                old(self)@,
                old(self).spec_period() as nat,
                trade.token_address@,
                trade.price,
            ),
            result_matches(old(self)@, old(self).spec_period(), trade, r),
            r matches Some(res) ==> res.timestamp@ == timestamp@,
    {
        self.token_histories.record(trade.token_address.clone(), trade.price);
        let rsi_opt: Option<Rsi> = match self.token_histories.get(trade.token_address.as_str()) {
            Some(h) => h.calculate_rsi(self.rsi_period),
            None => {
                proof {
                    assert(false);
                }
                None
            },
        };
        match rsi_opt {
            Some(rsi) => {
                let signal = rsi.classify();
                Some(
                    RsiResult {
                        token_address: trade.token_address,
                        rsi,
                        current_price: trade.price,
                        timestamp,
                        period: self.rsi_period,
                        signal,
                    },
                )
            },
            None => None,
        }
    }

    /// Processes one trade, stamping any result with the wall clock.
    pub fn process_trade(&mut self, trade: TradeEvent) -> (r: Option<RsiResult>)
        requires
            old(self).wf(),
        ensures
            final(self).wf(),
            final(self).spec_period() == old(self).spec_period(),
            final(self)@ == step_histories(
                old(self)@,
                old(self).spec_period() as nat,
                trade.token_address@,
                trade.price,
            ),
            result_matches(old(self)@, old(self).spec_period(), trade, r),
    {
        let ts = now_rfc3339();
        self.process_trade_at(trade, ts)
    }
}

/// The per-asset windows after one event, at the spec level: exactly the
/// table update `process_trade_at` promises.
pub open spec fn step_histories(
    m: Map<Seq<char>, Seq<u64>>,
    period: nat,
    asset: Seq<char>,
    price: u64,
) -> Map<Seq<char>, Seq<u64>> {
    m.insert(asset, updated_window(m, period, asset, price))
}

/// The outcome of every event of a run, in order, starting from the windows
/// in `m`: each event is a pair of asset identifier and price.
pub open spec fn run_outcomes(
    m: Map<Seq<char>, Seq<u64>>,
    period: nat,
    events: Seq<(Seq<char>, u64)>,
) -> Seq<Option<(int, int)>>
    decreases events.len(),
{
    if events.len() == 0 {
        Seq::<Option<(int, int)>>::empty()
    } else {
        seq![spec_outcome(m, period, events[0].0, events[0].1)] + run_outcomes(
            step_histories(m, period, events[0].0, events[0].1),
            period,
            events.drop_first(),
        )
    }
}

/// Determinism over a whole run: two runs that start from equal states and
/// consume the same ordered sequence of events produce identical outcome
/// sequences. Since `process_trade_at` pins its result and its table update
/// to exactly `spec_outcome` and `step_histories`, two independent
/// executions fed the same events emit identical results, the wall-clock
/// timestamp aside.
pub proof fn lemma_runs_deterministic(
    m1: Map<Seq<char>, Seq<u64>>,
    m2: Map<Seq<char>, Seq<u64>>,
    period: nat,
    events: Seq<(Seq<char>, u64)>,
)
    requires
        m1 == m2,
    ensures
        run_outcomes(m1, period, events) == run_outcomes(m2, period, events),
{
}

/// Determinism of one step: the updated window and the computed outcome are
/// functions of the event and of that asset's previously recorded window
/// alone. Events for other assets can never change what an asset's next
/// trade yields.
pub proof fn lemma_outcome_is_deterministic(
    m1: Map<Seq<char>, Seq<u64>>,
    m2: Map<Seq<char>, Seq<u64>>,
    period: nat,
    asset: Seq<char>,
    price: u64,
)
    requires
        stored_window(m1, asset) == stored_window(m2, asset),
    ensures
        updated_window(m1, period, asset, price) == updated_window(m2, period, asset, price),
        spec_outcome(m1, period, asset, price) == spec_outcome(m2, period, asset, price),
{
}

} // verus!
