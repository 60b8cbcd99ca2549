//! What the operations of the library do, told by what goes into their calls and what comes out.
//!
//! In each of the laws a `call_ensures` stands for a call that was made: the function, its
//! arguments and what it returned. Of an argument that a call may change, `*x` is the value
//! before the call and `*final(x)` the value after it.

pub mod databases;
pub mod error;
pub mod pair;
pub mod response;
pub mod templates;
pub mod wire;
