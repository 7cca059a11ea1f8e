//! Fan control for machines whose fans are driven through sensor and control
//! files: temperature parsing and smoothing, speed curves, clamped actuation
//! and the decisions of the control loop, each with a machine-checked contract.

pub mod config;
pub mod control;
pub mod curve;
pub mod discovery;
pub mod error;
pub mod fan_controller;
pub mod filter;
pub mod sensor;
pub mod text;
