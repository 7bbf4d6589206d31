//! Decoding of X.509 certificates and validation of a certificate chain
//! against an explicit trust anchor.
use vstd::prelude::*;

pub mod bytes;
pub mod certificate;
pub mod error;
pub mod signature;

verus! {

/// Result of the library's fallible operations.
pub type Result<T> = core::result::Result<T, error::Error>;

} // verus!
