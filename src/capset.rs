use vstd::prelude::*;

verus! {

/// Linux capabilities sets.
///
/// All capabilities sets supported by Linux, including standard POSIX and
/// custom ones. See `capabilities(7)`.
#[derive(PartialEq, Eq, Structural, Debug, Clone, Copy)]
pub enum CapSet {
    /// Ambient capabilities set (from Linux 4.3).
    Ambient,
    /// Bounding capabilities set (from Linux 2.6.25).
    Bounding,
    /// Effective capabilities set (from POSIX).
    Effective,
    /// Inheritable capabilities set (from POSIX).
    Inheritable,
    /// Permitted capabilities set (from POSIX).
    Permitted,
}

impl CapSet {
    /// The three sets that the kernel transfers together through capget/capset.
    pub open spec fn is_posix(self) -> bool {
        self is Effective || self is Inheritable || self is Permitted
    }
}

} // verus!
