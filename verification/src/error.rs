//! The two failure kinds of the container protocol: short reads and seek
//! failures on one hand, structural violations of the box layout on the other.

use vstd::prelude::*;

verus! {

/// An error raised while reading or writing a box.
#[derive(Debug, Clone, Copy, PartialEq, Eq)]
pub enum Error {
    /// The stream ended, or a seek target lay beyond it, before the
    /// requested bytes could be had.
    UnexpectedEof,
    /// The bytes violate the box layout; the message says how.
    InvalidData(&'static str),
}

} // verus!
