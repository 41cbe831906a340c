pub mod engine;
pub mod models;
pub mod percent;
pub mod snapshot;
pub mod text;

use vstd::prelude::*;

verus! {

/// Milliseconds since the Unix epoch, captured when a record is produced.
#[derive(Clone, Copy, Debug, PartialEq, Eq, Structural)]
pub struct Timestamp(pub i64);

} // verus!
