//! Orientation tracking for accelerometer-equipped devices.
//!
//! A [`Tracker`] consumes one acceleration sample at a time and reports a
//! stable [`Orientation`]: a per-sample classification only becomes the
//! reported orientation once it has been confirmed by several consecutive
//! samples, so readings near a decision boundary do not make the output
//! flicker.

pub mod orientation;
pub mod sample;
pub mod stability;
pub mod tracker;

pub use crate::orientation::Orientation;
pub use crate::sample::AccelSample;
pub use crate::tracker::Tracker;
