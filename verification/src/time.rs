//! Points in time.
use vstd::prelude::*;

verus! {

/// A point in time, as microseconds since the Unix epoch (UTC).
#[derive(Debug, Clone, Copy, PartialEq, Eq, Structural)]
pub struct Timestamp(pub i64);

} // verus!
