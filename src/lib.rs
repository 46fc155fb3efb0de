//! Windowed aggregation of sensor and quote samples into named metrics,
//! with the light sensor's automatic gain control and the per-source
//! polling state machine.

pub mod aggregator;
pub mod bme;
pub mod channel;
pub mod conversion;
pub mod feed;
pub mod finance;
pub mod gain;
pub mod metric;
pub mod poller;
pub mod sgp;
pub mod tsl;
pub mod weather;
