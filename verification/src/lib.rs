//! A coordinator for several concurrently updated status lines on one
//! terminal region.
//!
//! Producer threads hold per-row handles and enqueue update, remove and log
//! messages over a channel; a single listener owns the row table and the
//! output sink, classifies each message, and repaints the visible rows.

pub mod digits;
pub mod msg;
pub mod table;
pub mod render;
pub mod channel;
pub mod sink;
pub mod listener;
pub mod logbuf;
pub mod multi;
pub mod laws;
