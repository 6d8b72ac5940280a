//! The exit status of a sandboxed process, as this crate models it.
//!
//! The host-side process API reports either a normal exit code or the
//! signal that terminated the process; callers of the engine convert
//! that report into this plain representation at the boundary.

use vstd::prelude::*;

verus! {

/// What the operating system reported about a finished guest process:
/// a normal exit with a code, or termination by a signal.
#[derive(Debug, Hash, PartialEq, Eq, Copy, Clone, Structural)]
pub enum ExitStatus {
    Exited(i32),
    Signaled(i32),
}

impl ExitStatus {
    /// Whether the process finished successfully, that is, exited
    /// normally with code zero.
    pub fn success(&self) -> (r: bool)
        ensures
            r == (*self == ExitStatus::Exited(0)),
    {
        match *self {
            ExitStatus::Exited(code) => code == 0,
            ExitStatus::Signaled(_) => false,
        }
    }
}

} // verus!
