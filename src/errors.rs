use vstd::prelude::*;

verus! {

/// What can go wrong when working with capabilities.
#[derive(Debug, Clone, PartialEq, Eq)]
pub enum Error {
    /// The operation is not available on that set for that thread; detected
    /// before the kernel is asked anything.
    Unsupported,
    /// The kernel rejected a call; carries the OS error code it reported.
    Syscall(i32),
    /// A string that is not the name of a known capability.
    InvalidCapName(String),
}

} // verus!
