//! An iterator adapter that yields the elements of its source up to and
//! including the first one on which a caller-supplied predicate answers
//! `true`.
//!
//! The adapter is lazy: per pull it takes one element from the source, invokes
//! the predicate on it exactly once, hands the element on, and stops for good
//! once the predicate has answered `true`.
//!
//! - `take_until` holds the adapter, its constructor and its operations;
//! - `prefix` holds the sequences in which their contracts are written;
//! - `probe` holds the predicate and the tally of its invocations;
//! - `hint` and `describe` hold the size hint and the diagnostic text.

pub mod describe;
pub mod hint;
pub mod prefix;
pub mod probe;
pub mod take_until;

pub use crate::take_until::TakeUntil;
pub use crate::take_until::TakeUntilExt;
