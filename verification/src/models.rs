//! The data that crosses the library's boundary: what the pump reports and
//! what the platform stores.

pub mod ilet;
pub mod nightscout;
pub mod nightscout_web;
