//! Health evaluation of virtual machines polled from a management API.
//!
//! The library holds the decision logic: reading API responses, classifying
//! each machine against thresholds, collecting results and building reports.
//! Network access, argument handling and file output live with the caller.
pub mod evaluate;
pub mod gateway;
pub mod json;
pub mod metrics;
pub mod model;
pub mod monitor;
pub mod report;
pub mod results;
pub mod text;
