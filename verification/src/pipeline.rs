//! The pipeline driver's decisions: one call per consumed message, one per
//! successful publish. The caller owns the transport: it receives and
//! decodes messages, publishes results, commits progress when told to, and
//! pauses before retrying after a receive error.

use vstd::prelude::*;
use crate::calculator::{RsiCalculator, RsiResult, TradeEvent, result_matches, step_histories};
use crate::history::stored_window;
use crate::rsi::MAX_PERIOD;

verus! {

/// Consumption progress is committed after every this many messages.
pub const COMMIT_INTERVAL: u64 = 100;

/// Throughput statistics are due after every this many published results.
pub const STATS_INTERVAL: u64 = 50;

/// How long to pause before retrying after a transport receive error.
pub const RECEIVE_BACKOFF_MS: u64 = 1000;

/// The loop's whole state: the engine plus the two counters that set the
/// commit and statistics cadence.
pub struct Pipeline {
    calculator: RsiCalculator,
    messages_seen: u64,
    results_published: u64,
}

impl Pipeline {
    pub closed spec fn wf(&self) -> bool {
        self.calculator.wf()
    }

    /// The per-asset windows currently held.
    pub closed spec fn histories(&self) -> Map<Seq<char>, Seq<u64>> {
        self.calculator@
    }

    pub closed spec fn spec_period(&self) -> usize {
        self.calculator.spec_period()
    }

    pub closed spec fn spec_messages_seen(&self) -> u64 {
        self.messages_seen
    }

    pub closed spec fn spec_results_published(&self) -> u64 {
        self.results_published
    }

    pub fn new(rsi_period: usize) -> (r: Self)
        requires
            1 <= rsi_period <= MAX_PERIOD,
        ensures
            r.wf(),
            r.histories() == Map::<Seq<char>, Seq<u64>>::empty(),
            r.spec_period() == rsi_period,
            r.spec_messages_seen() == 0,
            r.spec_results_published() == 0,
    {
        Pipeline { calculator: RsiCalculator::new(rsi_period), messages_seen: 0, results_published: 0 }
    }

    pub fn messages_seen(&self) -> (n: u64)
        ensures
            n == self.spec_messages_seen(),
    {
        self.messages_seen
    }

    pub fn results_published(&self) -> (n: u64)
        ensures
            n == self.spec_results_published(),
    {
        self.results_published
    }

    pub fn period(&self) -> (p: usize)
        ensures
            p == self.spec_period(),
    {
        self.calculator.period()
    }

    /// The current ordered price sequence recorded for an asset.
    pub fn window(&self, asset: &str) -> (w: Vec<u64>)
        ensures
            w@ == stored_window(self.histories(), asset@),
    {
        self.calculator.window(asset)
    }

    /// One consumed message. `parsed` is `None` for a payload that failed to
    /// decode: such a message is counted but mutates no window and yields no
    /// result. The second component of the return value tells the caller
    /// whether a progress commit is due.
    pub fn on_message(&mut self, parsed: Option<TradeEvent>) -> (r: (Option<RsiResult>, bool))
        requires
            old(self).wf(),
            old(self).spec_messages_seen() < u64::MAX,
        ensures
            final(self).wf(),
            final(self).spec_period() == old(self).spec_period(),
            final(self).spec_messages_seen() == old(self).spec_messages_seen() + 1,
            final(self).spec_results_published() == old(self).spec_results_published(),
            r.1 == (final(self).spec_messages_seen() % COMMIT_INTERVAL == 0),
            parsed is None ==> final(self).histories() == old(self).histories() && r.0 is None,
            parsed matches Some(t) ==> final(self).histories() == step_histories(
                old(self).histories(),
                old(self).spec_period() as nat,
                t.token_address@,
                t.price,
            ) && result_matches(old(self).histories(), old(self).spec_period(), t, r.0),
    {
        self.messages_seen = self.messages_seen + 1;
        let commit_due = self.messages_seen % COMMIT_INTERVAL == 0;
        match parsed {
            Some(t) => {
                let out = self.calculator.process_trade(t);
                (out, commit_due)
            },
            None => (None, commit_due),
        }
    }

    /// One successfully published result. The return value tells the caller
    /// whether a statistics report is due.
    pub fn on_published(&mut self) -> (stats_due: bool)
        requires
            old(self).spec_results_published() < u64::MAX,
        ensures
            final(self).wf() == old(self).wf(),
            final(self).histories() == old(self).histories(),
            final(self).spec_period() == old(self).spec_period(),
            final(self).spec_messages_seen() == old(self).spec_messages_seen(),
            final(self).spec_results_published() == old(self).spec_results_published() + 1,
            stats_due == (final(self).spec_results_published() % STATS_INTERVAL == 0),
    {
        self.results_published = self.results_published + 1;
        self.results_published % STATS_INTERVAL == 0
    }
}

} // verus!
