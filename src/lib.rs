//! Orientation sensing for a device that reports its acceleration over a
//! line-oriented serial link: frame decoding with a bounded resync policy,
//! calibration of a four-vector reference frame, nearest-rotation
//! classification, and the decisions of the continuous image stabilization
//! (direction of the angle, where a rotated image meets the window, pausing).

pub mod calibration;
pub mod classify;
pub mod decoder;
pub mod direction;
pub mod geometry;
pub mod monitor;
pub mod order;
pub mod rotation;
pub mod stabilizer;
pub mod vector;
