//! Fixed-arity zipping of producers.
//!
//! A producer yields a succession of elements, one per pull, and signals when none
//! remain. `Zip2` to `Zip5` advance two to five producers in lockstep and yield, for
//! each joint step, the tuple of what the producers yielded. A zipper is itself a
//! producer, so zippers nest.

pub mod nesting;
pub mod producer;
pub mod sources;
pub mod zip2;
pub mod zip3;
pub mod zip4;
pub mod zip5;

pub use producer::Producer;
pub use sources::{Items, Repeat, Span, Tally};
pub use zip2::Zip2;
pub use zip3::Zip3;
pub use zip4::Zip4;
pub use zip5::Zip5;
