//! Replay toolkit for fight telemetry: a rate-governed query client, a
//! paginated event fetcher, and per-entity trajectory stores that compact
//! position samples and answer interpolated point-in-time queries.

pub mod client;
pub mod events;
pub mod fetch;
pub mod positions;
pub mod queries;
pub mod report;
pub mod video;
