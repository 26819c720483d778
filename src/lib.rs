//! Performance metrics over closed trades: daily series, equity curve,
//! drawdown, expectancy, profit and recovery factors, Sharpe preconditions
//! and a watermark heatmap. Beside them: SQL statement builders, the
//! domain enumerations the service stores, and the decisions of the OAuth
//! token proxy.
use vstd::prelude::*;

pub mod drawdown;
pub mod metrics;
pub mod models;
pub mod oauth;
pub mod series;
pub mod sql;
pub mod stats;
pub mod text;
pub mod trades;
pub mod watermark;
