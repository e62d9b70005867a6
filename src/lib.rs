//! Functional combinators on `bool`: turn a truth value into an `Option`,
//! a `Result`, a chosen value, a guarded side effect or an assertion.
pub mod bool_ext;
pub mod error;
pub mod laws;
pub mod model;

pub use bool_ext::BoolExt;
pub use error::Error;
