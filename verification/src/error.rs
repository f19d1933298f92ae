//! Error kinds reported by the bridge's setup operations.

use vstd::prelude::*;

verus! {

/// Why a bridge setup operation was refused.
///
/// Every setup failure is final for the operation in progress: the bridge
/// never proceeds in a partially-initialized state.
#[derive(Clone, Copy, Debug, PartialEq, Eq, Structural)]
pub enum BridgeError {
    /// A VM handle was needed before the module-load call had published one.
    VmUnavailable,
    /// The managed runtime refused to attach the calling thread.
    AttachFailure,
    /// Looking up or converting the context class loader failed.
    ClassLoaderFailure,
    /// A set-once cell (VM handle, class loader, or pool) was already set.
    DoubleInit,
}

} // verus!
