//! Correlation core of an exporter that supervises a continuous `fping`
//! process: line parsing, the summary-cycle aggregator, the control-token
//! middleware chain and the multiplexer's state machine.

pub mod chain;
pub mod completion;
pub mod event_stream;
pub mod fping;
pub mod metrics;
pub mod scrape;
pub mod text;
pub mod time;
pub mod util;
