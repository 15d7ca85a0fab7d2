//! A terminal dashboard for exported metrics, without the terminal.
//!
//! Metrics come in as batches. The ingestion handler in [`metrics`] notes
//! which names it has seen, extracts the readings of each metric ([`wire`])
//! and turns them into notifications, which it sends down a channel. The
//! dashboard in [`ui`] consumes the notifications and the keys pressed, and
//! hands the renderer a snapshot of what to draw; [`model`] describes it as a
//! state machine and states what holds of all its states, and [`pipeline`]
//! what holds of the two ends taken together.

pub mod bounded;
pub mod channel;
pub mod chart;
pub mod clock;
pub mod metrics;
pub mod model;
pub mod names;
pub mod pipeline;
pub mod text;
pub mod ui;
pub mod wire;
