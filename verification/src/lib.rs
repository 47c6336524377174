//! A real-time technical-indicator engine: it keeps a bounded recent-price
//! window per asset, computes the Relative Strength Index (RSI) over that
//! window, and classifies the value into a discrete trading signal.
//!
//! Prices are fixed-point integers in a unit chosen by the caller (for
//! example nano-units of the quote currency), so every computation here is
//! exact integer arithmetic and fully verified.

pub mod calculator;
pub mod history;
pub mod pipeline;
pub mod rsi;

pub use calculator::RsiCalculator;
pub use pipeline::Pipeline;
pub use calculator::RsiResult;
pub use calculator::TradeEvent;
pub use history::HistoryStore;
pub use history::PriceHistory;
pub use rsi::Rsi;
pub use rsi::Signal;
