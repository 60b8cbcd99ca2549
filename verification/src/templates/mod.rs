//! Templates: what an application may ask about them.

pub mod metadata;

pub use metadata::{ContextManager, Metadata};
