//! Attitude stabilization for a quadrotor, in integer fixed point.
//!
//! Angles are in microradians, angular rates in millionths of the sensor's
//! unit (degrees per second), and forces in micronewtons.

pub mod algorithm;
pub mod control_loop;
