//! Values shared by all resources.
use vstd::prelude::*;

verus! {

/// A point in time, in UTC: whole seconds since the start of 1970, and the
/// nanoseconds into that second.
#[derive(Debug, Clone, Copy, PartialEq, Eq, Structural)]
pub struct Date {
    pub seconds: i64,
    pub nanoseconds: u32,
}

} // verus!
