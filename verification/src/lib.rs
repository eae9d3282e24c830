//! Verified core of the TradeAssembly local runtime.
//!
//! Every module holds rules that do not touch a file, a socket, a clock or a
//! process. Where an operation needs one of those, the module decides what to do
//! next and the surrounding program performs it.

pub mod adapters;
pub mod admin_control;
pub mod agent_launchd;
pub mod agent_runner;
pub mod agent_surfaces;
pub mod ai;
pub mod api_errors;
pub mod archive_outbox;
pub mod attribution_journal;
pub mod audit;
pub mod auth;
pub mod backtest_accounting;
pub mod backtest_contracts;
pub mod backtest_engine;
pub mod backtest_report;
pub mod digest;
pub mod json;
pub mod ports;
pub mod runner_protocol;
pub mod sandbox_launcher;
pub mod sorting;
pub mod text;
pub mod text_map;
