//! Building fixed-size arrays and vectors from iterators, and a common
//! interface over both kinds of container.
mod construct;
mod laws;
mod sequence;

pub use construct::{built_from, NotEnoughItems, TryFromIterator};
pub use laws::{array_round_trip, vec_round_trip};
pub use sequence::Array;
