//! Shared error type for the signing side of this layer.

use vstd::prelude::*;

verus! {

/// Failures reported by signing keys and certified keys.
#[derive(Clone, Copy, Debug, PartialEq, Eq, Structural)]
pub enum Error {
    /// A certified key's chain held no certificate when the end-entity
    /// certificate was requested.
    NoCertificatesPresented,
    /// The underlying key operation failed while producing a signature.
    SigningFailed,
}

} // verus!
