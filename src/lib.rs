//! Sequences laid out as the message code generator expects: an unbounded
//! `Sequence`, a `BoundedSequence` with a maximum length, and a consuming
//! `SequenceIterator`, all built over a per-element-type allocation backend.
pub mod bounded;
mod primitives;
pub mod sequence;
pub mod traits;

pub use bounded::{BoundedSequence, SequenceExceedsBoundsError};
pub use sequence::{Sequence, SequenceIterator};
pub use traits::SequenceAlloc;
