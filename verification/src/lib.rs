//! Accounting core of a collateralized lending pool.
//!
//! A [`bank::Bank`] tracks pooled deposits and borrows as shares of a floating
//! value, prices borrowing with a utilization-driven rate curve, accrues simple
//! interest over elapsed time and can spread an uncovered loss over its
//! depositors. Every quantity is a signed fixed-point number with 48
//! fractional bits, and every contract is stated over the 128-bit encoding of
//! those numbers.

pub mod bank;
pub mod errors;
pub mod fixed_point;
pub mod group;
pub mod interest;
