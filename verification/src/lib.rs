//! In-process instrumentation: exponentially-decaying rate meters, a closed
//! metric-export abstraction, and a line-protocol reporter.

pub mod clock;
pub mod codec;
pub mod ewma;
pub mod meter;
pub mod metric;
pub mod reporter;

use vstd::prelude::*;

verus! {

/// Fixed-point scale: rates and means are stored in parts-per-million.
pub const SCALE: u64 = 1_000_000;

} // verus!
