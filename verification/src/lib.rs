//! Admission control and cost estimation for homomorphic operations on
//! accelerator devices with finite memory.
//!
//! Before an encrypted operation runs on a device, a caller asks the cost
//! estimator how many bytes the operation will need, reserves that many bytes
//! against the device's outstanding-reservation counter, executes, and then
//! releases the reservation.  The estimator, the per-device counters and the
//! encrypted-value model live here; the accelerator runtime that performs the
//! real allocation and answers capacity queries is an external collaborator,
//! so its answers enter this crate as plain values.

pub mod coerce;
pub mod estimate;
pub mod fault;
pub mod health;
pub mod pool;
pub mod value;
