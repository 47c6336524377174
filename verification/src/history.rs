//! The windowed history store: one bounded FIFO price window per asset.

use vstd::prelude::*;
use vstd::hash_map::StringHashMap;
use crate::rsi::{Rsi, MAX_PERIOD, gain_sum, loss_sum, tail_window, MAX_SUM};

verus! {

/// A bounded price window: prices in arrival order, oldest evicted first
/// once the capacity is exceeded.
pub struct PriceHistory {
    prices: Vec<u64>,
    max_size: usize,
}

impl View for PriceHistory {
    type V = Seq<u64>;

    closed spec fn view(&self) -> Seq<u64> {
        self.prices@
    }
}

/// `s` with `price` appended and, if that exceeds `cap`, the oldest entry
/// dropped.
pub open spec fn push_bounded(s: Seq<u64>, price: u64, cap: nat) -> Seq<u64> {
    let grown = s.push(price);
    if grown.len() > cap {
        grown.subrange(1, grown.len() as int)
    } else {
        grown
    }
}

impl PriceHistory {
    pub closed spec fn capacity(&self) -> nat {
        self.max_size as nat
    }

    /// The window never holds more prices than its capacity.
    pub open spec fn wf(&self) -> bool {
        self@.len() <= self.capacity()
    }

    pub fn new(max_size: usize) -> (r: Self)
        ensures
            r@ == Seq::<u64>::empty(),
            r.capacity() == max_size,
            r.wf(),
    {
        PriceHistory { prices: Vec::new(), max_size }
    }

    pub fn len(&self) -> (n: usize)
        ensures
            n == self@.len(),
    {
        self.prices.len()
    }

    /// The window's contents, oldest first, as a fresh vector.
    pub fn to_vec(&self) -> (v: Vec<u64>)
        ensures
            v@ == self@,
    {
        let mut v: Vec<u64> = Vec::new();
        let mut i: usize = 0;
        while i < self.prices.len()
            invariant
                i <= self.prices.len(),
                v@ == self@.subrange(0, i as int),
            decreases self.prices.len() - i,
        {
            v.push(self.prices[i]);
            proof {
                assert(self@.subrange(0, i as int).push(self@[i as int]) =~= self@.subrange(
                    0,
                    i + 1,
                ));
            }
            i = i + 1;
        }
        proof {
            assert(self@.subrange(0, self@.len() as int) =~= self@);
        }
        v
    }

    /// A fresh window with the same contents and capacity.
    pub fn duplicate(&self) -> (r: Self)
        ensures
            r@ == self@,
            r.capacity() == self.capacity(),
    {
        PriceHistory { prices: self.to_vec(), max_size: self.max_size }
    }

    /// Appends a price, evicting the oldest entry if the capacity would be
    /// exceeded.
    pub fn add_price(&mut self, price: u64)
        requires
            old(self).wf(),
        ensures
            final(self)@ == push_bounded(old(self)@, price, old(self).capacity()),
            final(self).capacity() == old(self).capacity(),
            final(self).wf(),
    {
        self.prices.push(price);
        if self.prices.len() > self.max_size {
            self.prices.remove(0);
            proof {
                assert(self@ =~= old(self)@.push(price).subrange(
                    1,
                    old(self)@.push(price).len() as int,
                ));
            }
        }
    }

    /// Computes the RSI over this window: `None` unless the window holds at
    /// least `period + 1` prices, otherwise the exact gain and loss sums of
    /// the most recent `period` deltas.
    pub fn calculate_rsi(&self, period: usize) -> (r: Option<Rsi>)
        requires
            1 <= period <= MAX_PERIOD,
        ensures
            (r is Some) <==> self@.len() >= period + 1,
            r matches Some(v) ==> {
                &&& v.gain == gain_sum(tail_window(self@, period as nat))
                &&& v.loss == loss_sum(tail_window(self@, period as nat))
                &&& v.wf()
            },
    {
        let n = self.prices.len();
        if n < period + 1 {
            return None;
        }
        let start: usize = n - (period + 1);
        let mut gain_acc: u128 = 0;
        let mut loss_acc: u128 = 0;
        let mut i: usize = start + 1;
        while i < n
            invariant
                start + 1 <= i <= n,
                n == self@.len(),
                start == n - (period + 1),
                period <= MAX_PERIOD,
                gain_acc == gain_sum(self@.subrange(start as int, i as int)),
                loss_acc == loss_sum(self@.subrange(start as int, i as int)),
                gain_acc <= (i - start - 1) * 0xffff_ffff_ffff_ffff,
                loss_acc <= (i - start - 1) * 0xffff_ffff_ffff_ffff,
            decreases n - i,
        {
            let prev = self.prices[i - 1];
            let cur = self.prices[i];
            proof {
                let t = self@.subrange(start as int, i + 1);
                assert(t.drop_last() =~= self@.subrange(start as int, i as int));
                assert(t[t.len() - 2] == prev);
                assert(t[t.len() - 1] == cur);
            }
            if cur > prev {
                gain_acc = gain_acc + (cur - prev) as u128;
            } else {
                loss_acc = loss_acc + (prev - cur) as u128;
            }
            i = i + 1;
        }
        proof {
            assert(self@.subrange(start as int, n as int) =~= tail_window(self@, period as nat));
            assert(gain_acc <= (period as int) * 0xffff_ffff_ffff_ffff);
            assert((period as int) * 0xffff_ffff_ffff_ffff <= MAX_SUM) by {
                vstd::arithmetic::mul::lemma_mul_inequality(
                    period as int,
                    1000000,
                    0xffff_ffff_ffff_ffff,
                );
            }
        }
        Some(Rsi { gain: gain_acc, loss: loss_acc })
    }
}

/// The window an asset currently has in a history table: empty if the asset
/// was never recorded.
pub open spec fn stored_window(m: Map<Seq<char>, Seq<u64>>, asset: Seq<char>) -> Seq<u64> {
    if m.contains_key(asset) {
        m[asset]
    } else {
        Seq::<u64>::empty()
    }
}

/// The per-asset history table: asset identifier to bounded price window,
/// entries created lazily on first write and never removed.
pub struct HistoryStore {
    windows: StringHashMap<PriceHistory>,
    capacity: usize,
}

impl View for HistoryStore {
    type V = Map<Seq<char>, Seq<u64>>;

    closed spec fn view(&self) -> Map<Seq<char>, Seq<u64>> {
        self.windows@.map_values(|h: PriceHistory| h@)
    }
}

impl HistoryStore {
    pub closed spec fn capacity(&self) -> nat {
        self.capacity as nat
    }

    /// Every stored window is well formed and carries this store's capacity.
    pub closed spec fn wf(&self) -> bool {
        forall|k: Seq<char>|
            self.windows@.contains_key(k) ==> (#[trigger] self.windows@[k]).wf()
                && self.windows@[k].capacity() == self.capacity()
    }

    pub fn new(capacity: usize) -> (r: Self)
        ensures
            r@ == Map::<Seq<char>, Seq<u64>>::empty(),
            r.capacity() == capacity,
            r.wf(),
    {
        let r = HistoryStore { windows: StringHashMap::new(), capacity };
        proof {
            assert(r@ =~= Map::<Seq<char>, Seq<u64>>::empty());
        }
        r
    }

    /// No asset ever holds more prices than the configured capacity.
    pub proof fn lemma_windows_bounded(&self)
        requires
            self.wf(),
        ensures
            forall|k: Seq<char>|
                self@.contains_key(k) ==> (#[trigger] self@[k]).len() <= self.capacity(),
    {
    }

    /// Appends `price` to `asset`'s window, creating the window on first
    /// observation and evicting its oldest entry when full.
    pub fn record(&mut self, asset: String, price: u64)
        requires
            old(self).wf(),
        ensures
            final(self).wf(),
            final(self).capacity() == old(self).capacity(),
            final(self)@ == old(self)@.insert(
                asset@,
                push_bounded(stored_window(old(self)@, asset@), price, old(self).capacity()),
            ),
    {
        let mut w: PriceHistory = match self.windows.get(asset.as_str()) {
            Some(h) => h.duplicate(),
            None => PriceHistory::new(self.capacity),
        };
        w.add_price(price);
        self.windows.insert(asset, w);
        proof {
            assert(self@ =~= old(self)@.insert(
                asset@,
                push_bounded(stored_window(old(self)@, asset@), price, old(self).capacity()),
            ));
        }
    }

    /// A borrowed view of an asset's window, if one exists.
    pub fn get<'a>(&'a self, asset: &str) -> (r: Option<&'a PriceHistory>)
        ensures
            match r {
                Some(h) => self@.contains_key(asset@) && h@ == self@[asset@] && (self.wf()
                    ==> h.wf() && h.capacity() == self.capacity()),
                None => !self@.contains_key(asset@),
            },
    {
        self.windows.get(asset)
    }

    /// The current ordered price sequence of an asset, possibly empty.
    pub fn window(&self, asset: &str) -> (w: Vec<u64>)
        ensures
            w@ == stored_window(self@, asset@),
    {
        match self.windows.get(asset) {
            Some(h) => h.to_vec(),
            None => Vec::new(),
        }
    }
}

} // verus!
