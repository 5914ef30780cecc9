//! Failures of the subsystems whose own error types this library defines:
//! the application bundler and the binary hot-patcher. Both are reported by
//! their message.

use vstd::prelude::*;

verus! {

/// A failure to package the application.
#[derive(Debug)]
pub struct BundleError {
    pub message: String,
}

/// A failure to apply a hot-patch to a running binary.
#[derive(Debug)]
pub struct PatchError {
    pub message: String,
}

} // verus!
