//! The crate's error kind.
use vstd::prelude::*;

verus! {

/// The one error kind of this crate. The combinators never produce it:
/// their `Result` outcomes carry the caller's own types.
#[derive(Debug, Clone, Copy, PartialEq, Eq, Structural)]
pub enum Error {
    SampleError,
}

} // verus!
