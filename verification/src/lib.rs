//! Core logic of a terminal client for a Kafka-compatible broker cluster.
//!
//! The crate models the interactive controller as a verified state machine
//! over plain values: tab and mode selection, the topics/groups/brokers tab
//! controllers, the three-field send form, the time-bounded error band, and
//! the domain records built from broker metadata.  Terminal rendering and the
//! broker wire protocol live outside the library; they hand plain values in
//! (key presses, metadata records, timestamps in milliseconds) and take plain
//! values back (next mode, actions to perform).

pub mod app;
pub mod constant;
pub mod error_band;
pub mod kafka;
pub mod keys;
pub mod list;
pub mod tabs;
