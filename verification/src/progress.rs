//! Progress reporting: the interfaces a long-running aggregation pass
//! reports through.  The binary around the library supplies a terminal
//! implementation; nothing in the aggregation depends on what it does.
use vstd::prelude::*;

verus! {

/// Something with a size in items.
pub trait Size {
    fn size(&self) -> u64;
}

/// A progress sink for a long-running pass.
pub trait Progress {
    /// Shows progress.
    fn progress(&mut self, current: u64);

    /// Finishes the process.
    fn finish(&self);

    /// Sets the current message of the progress.
    fn message(&self, message: String);
}

} // verus!
