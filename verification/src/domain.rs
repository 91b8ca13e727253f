//! The rules: which requests to make, which documents a sample of telemetry
//! stands for, and where each document goes.

pub mod ilet;
pub mod nightscout;
