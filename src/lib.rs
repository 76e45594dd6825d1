//! Algorithm registries, descriptors and the parameter validation that stands
//! between generic callers and a libsodium backend.

use vstd::prelude::*;

mod text;
pub mod cipher;
pub mod pbkdf;
pub mod rng;
pub mod signer;
pub mod laws;

pub use crate::cipher::Ciphers;
pub use crate::pbkdf::Pbkdfs;
pub use crate::rng::SystemRng;
pub use crate::signer::Signers;

verus! {

/// Errors reported by the provider.
#[derive(Debug, Clone, Copy, PartialEq, Eq)]
pub enum LibsodiumError {
    /// Invalid data (e.g. wrong format, invalid MAC etc.)
    InvalidData,
    /// Not enough resources to perform the operation
    ResourceError,
    /// API misuse, with a description of the violated constraint
    ApiMisuse(&'static str),
    /// The operation may be valid but not in this state
    InvalidState,
    /// Unsupported algorithm/parameter/etc.
    Unsupported,
}

} // verus!
