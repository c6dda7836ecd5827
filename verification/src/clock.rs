//! The clock that frames and log lines are stamped with.

use vstd::prelude::*;

verus! {

/// Calls `time::precise_time_ns`, which reads a high-resolution counter of
/// the system and gives its value in nanoseconds since an epoch that is not
/// specified. Nothing is claimed of the value: to the proofs, two readings
/// are any two numbers. The call returns on Unix, macOS and Windows; on bare
/// WebAssembly the crate has no counter and panics.
#[verifier::external_body]
pub(crate) fn precise_time_ns() -> u64 {
    time::precise_time_ns()
}

} // verus!
