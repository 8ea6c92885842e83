//! The ways in which making a generator fails.

use crate::time::Timestamp;
use vstd::prelude::*;

verus! {

/// Why no generator was made. `E` is what the machine-id function fails with.
#[derive(Debug)]
pub enum Error<E> {
    /// The start time lies after the clock reading; it is handed back.
    StartTimeAheadOfCurrentTime(Timestamp),
    /// The machine-id function failed; its error is handed back.
    MachineIdFailed(E),
    /// The check refused the machine id.
    CheckMachineIdFailed,
}

/// The error of a machine-id function that never fails.
#[derive(Clone, Copy, Debug, PartialEq, Eq)]
pub struct NoCause;

} // verus!
