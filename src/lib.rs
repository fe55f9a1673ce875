//! Dimension bookkeeping and update policy for a discrete-time linear
//! Kalman filter.
//!
//! The filter's six matrices (state `x`, covariance `P`, process model `F`,
//! process noise `Q`, observation model `H`, observation noise `R`) are
//! dense real matrices whose shapes are fixed when the filter is built.
//! This crate states and proves which shapes are conformant, what shape
//! every intermediate product of a predict or update step has, and how an
//! update is committed or rejected.
pub mod algebra;
pub mod error;
pub mod estimate;
pub mod shape;
