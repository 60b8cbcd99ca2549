//! Launch errors, the pairing of a request with its response, database connection pools and
//! template metadata for Rocket applications.
//!
//! The library decides; whoever uses it waits, connects, sends and logs, and hands back what came
//! of it.

pub mod databases;
pub mod error;
pub mod head;
pub mod laws;
pub mod outcome;
pub mod report;
pub mod req_res_pair;
pub mod response;
pub mod templates;
