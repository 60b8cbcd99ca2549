//! The configuration of a database pool, and why there may be none.

use vstd::prelude::*;

verus! {

/// The configuration of one database pool.
#[derive(Debug, Clone, Copy, PartialEq, Eq, Structural)]
pub struct Config {
    /// How many connections the pool may hand out at a time.
    pub pool_size: u32,
    /// For how many seconds a request waits for a connection.
    pub timeout: u8,
}

/// Why a pool could not be made, by the message that is shown.
#[derive(Debug)]
pub enum Error {
    /// The configuration is wrong.
    Config(String),
    /// The pool failed.
    Pool(String),
    /// The database's own manager failed.
    Custom(String),
}

} // verus!
