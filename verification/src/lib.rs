//! Turns the telemetry of an insulin pump into treatment documents for a
//! diabetes-data platform, and plans and judges their upload.
//!
//! - `decimal`: the exact decimal quantities that doses are counted in.
//! - `text`: integers written out in digits.
//! - `http`: the classes of status codes.
//! - `models`: what the pump reports and what the platform stores.
//! - `domain`: the requests to both services, the documents that a sample
//!   stands for, and the outcome of each upload.
//!
//! Nothing here opens a connection. A caller sends what `domain` plans and
//! hands back what came of it.

pub mod decimal;
pub mod domain;
pub mod http;
pub mod models;
pub mod text;
