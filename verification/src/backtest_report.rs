//! The deterministic, integrity-bound read model of one completed backtest, and its
//! exports.

pub mod csv;
pub mod details;
pub mod exports;
pub mod intake;
pub mod matching;
pub mod model;
pub mod projection;
pub mod readout;
pub mod record;
pub mod trade_record;
pub mod trades;
