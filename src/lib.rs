//! Hands-free window navigation from head tracking: a classifier that turns
//! a stream of time-stamped head poses into directional focus gestures.
//!
//! All quantities are fixed-point integers: poses in millionths of a sensor
//! unit (micro-degrees for the angles), instants and durations in
//! microseconds, rates in millionths of a unit per second.
pub mod classifier;
pub mod dispatch;
pub mod laws;
pub mod packet;
pub mod pose;

pub use classifier::{Axis, Classifier, Config, Record, Signal};
pub use dispatch::{Command, Debouncer};
pub use packet::{decode_packet, PacketError};
pub use pose::{Pose, PoseSample, Rates};
