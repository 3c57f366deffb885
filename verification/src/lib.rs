//! A request-scoped, immutable, type-keyed value chain.
//!
//! A context is either the terminal background context or a node that
//! attaches one typed value to a shared parent context.  Looking a type
//! up walks the chain from the leaf toward the root and returns a copy
//! of the nearest value of that type, so a value attached later shadows
//! an earlier value of the same type.

pub mod context;
pub mod laws;
pub mod value;

pub use context::Context;
pub use context::Timestamp;
pub use context::WithValue;
pub use context::background;
pub use context::with_value;
pub use value::TypeKey;
pub use value::Value;
