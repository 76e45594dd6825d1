use vstd::prelude::*;
use crate::text::same_text;
use crate::LibsodiumError;

verus! {

/// Length of an Ed25519 detached signature.
pub const SIG_LEN: usize = 64;
/// Length of an Ed25519 secret key (seed and public key).
pub const SEC_KEY_LEN: usize = 64;
/// Length of an Ed25519 public key.
pub const PUB_KEY_LEN: usize = 32;

/// Signer implementations
#[derive(Debug, Clone, Copy, PartialEq, Eq, Structural)]
pub enum Signers {
    /// Ed25519 (RFC 8032)
    Ed25519,
}

/// The fixed sizes of a signer.
#[derive(Debug, Clone, Copy, PartialEq, Eq)]
pub struct SignerInfo {
    pub name: &'static str,
    pub sig_len: usize,
    pub sec_key_len: usize,
    pub pub_key_len: usize,
}

/// What a lookup by name yields: the signer registered under exactly that name.
pub open spec fn signer_from_name(name: Seq<char>) -> Result<Signers, LibsodiumError> {
    if name == "Ed25519"@ {
        Ok(Signers::Ed25519)
    } else {
        Err(LibsodiumError::Unsupported)
    }
}

/// The declared descriptor of a signer.
pub open spec fn signer_info(s: Signers) -> SignerInfo {
    SignerInfo { name: "Ed25519", sig_len: SIG_LEN, sec_key_len: SEC_KEY_LEN, pub_key_len: PUB_KEY_LEN }
}

/// Validating a signature into a buffer of `buf_len` bytes: on success the
/// length of the signature the backend writes.
pub open spec fn sign_request(buf_len: nat, sec_key_len: nat) -> Result<usize, LibsodiumError> {
    if buf_len < SIG_LEN {
        Err(LibsodiumError::ApiMisuse("Buffer is too small"))
    } else if sec_key_len != SEC_KEY_LEN {
        Err(LibsodiumError::ApiMisuse("Invalid key length"))
    } else {
        Ok(SIG_LEN)
    }
}

/// Validating a verification.
pub open spec fn verify_request(sig_len: nat, pub_key_len: nat) -> Result<(), LibsodiumError> {
    if sig_len != SIG_LEN {
        Err(LibsodiumError::ApiMisuse("Invalid signature length"))
    } else if pub_key_len != PUB_KEY_LEN {
        Err(LibsodiumError::ApiMisuse("Invalid key length"))
    } else {
        Ok(())
    }
}

/// What a verification returns once the backend reported `status`: every
/// failure reads the same.
pub open spec fn verify_outcome(status: i32) -> Result<(), LibsodiumError> {
    if status == 0 {
        Ok(())
    } else {
        Err(LibsodiumError::InvalidData)
    }
}

/// Validating a key generation into a buffer of `buf_len` bytes: on success
/// the length of the secret key the backend writes.
pub open spec fn new_sec_key_request(buf_len: nat) -> Result<usize, LibsodiumError> {
    if buf_len < SEC_KEY_LEN {
        Err(LibsodiumError::ApiMisuse("Buffer is too small"))
    } else {
        Ok(SEC_KEY_LEN)
    }
}

/// Validating the computation of a public key into a buffer of `buf_len`
/// bytes: on success the length of the public key the backend writes.
pub open spec fn get_pub_key_request(buf_len: nat, sec_key_len: nat) -> Result<usize, LibsodiumError> {
    if buf_len < PUB_KEY_LEN {
        Err(LibsodiumError::ApiMisuse("Buffer is too small"))
    } else if sec_key_len != SEC_KEY_LEN {
        Err(LibsodiumError::ApiMisuse("Invalid key length"))
    } else {
        Ok(PUB_KEY_LEN)
    }
}

/// A handle with the `Signer`, `SecKeyGen` and `PubKeyGen` capabilities.
#[derive(Debug, Clone, Copy, PartialEq, Eq)]
pub struct SignerHandle {
    pub signer: Signers,
}

impl SignerHandle {
    /// The descriptor of this signer.
    pub fn info(&self) -> (r: SignerInfo)
        ensures
            r == signer_info(self.signer),
    {
        SignerInfo { name: "Ed25519", sig_len: SIG_LEN, sec_key_len: SEC_KEY_LEN, pub_key_len: PUB_KEY_LEN }
    }

    /// Validates a detached signature into `buf` with `sec_key`.
    pub fn sign(&self, buf: &[u8], sec_key: &[u8]) -> (r: Result<usize, LibsodiumError>)
        ensures
            r == sign_request(buf@.len(), sec_key@.len()),
    {
        if buf.len() < SIG_LEN {
            Err(LibsodiumError::ApiMisuse("Buffer is too small"))
        } else if sec_key.len() != SEC_KEY_LEN {
            Err(LibsodiumError::ApiMisuse("Invalid key length"))
        } else {
            Ok(SIG_LEN)
        }
    }

    /// Validates the verification of `sig` with `pub_key`.
    pub fn verify(&self, sig: &[u8], pub_key: &[u8]) -> (r: Result<(), LibsodiumError>)
        ensures
            r == verify_request(sig@.len(), pub_key@.len()),
    {
        if sig.len() != SIG_LEN {
            Err(LibsodiumError::ApiMisuse("Invalid signature length"))
        } else if pub_key.len() != PUB_KEY_LEN {
            Err(LibsodiumError::ApiMisuse("Invalid key length"))
        } else {
            Ok(())
        }
    }

    /// Maps the backend's verification status to the result.
    pub fn verify_result(&self, status: i32) -> (r: Result<(), LibsodiumError>)
        ensures
            r == verify_outcome(status),
    {
        if status == 0 {
            Ok(())
        } else {
            Err(LibsodiumError::InvalidData)
        }
    }

    /// Validates the generation of a secret key into `buf`.
    pub fn new_sec_key(&self, buf: &[u8]) -> (r: Result<usize, LibsodiumError>)
        ensures
            r == new_sec_key_request(buf@.len()),
    {
        if buf.len() < SEC_KEY_LEN {
            Err(LibsodiumError::ApiMisuse("Buffer is too small"))
        } else {
            Ok(SEC_KEY_LEN)
        }
    }

    /// Validates the computation of the public key of `sec_key` into `buf`.
    pub fn get_pub_key(&self, buf: &[u8], sec_key: &[u8]) -> (r: Result<usize, LibsodiumError>)
        ensures
            r == get_pub_key_request(buf@.len(), sec_key@.len()),
    {
        if buf.len() < PUB_KEY_LEN {
            Err(LibsodiumError::ApiMisuse("Buffer is too small"))
        } else if sec_key.len() != SEC_KEY_LEN {
            Err(LibsodiumError::ApiMisuse("Invalid key length"))
        } else {
            Ok(PUB_KEY_LEN)
        }
    }
}

impl Signers {
    /// Selects a signer implementation from name
    ///
    /// Currently supported names are:
    ///  - `Ed25519` which maps to Ed25519
    pub fn from_name(name: &str) -> (r: Result<Self, LibsodiumError>)
        ensures
            r == signer_from_name(name@),
    {
        if same_text(name, "Ed25519") {
            Ok(Signers::Ed25519)
        } else {
            Err(LibsodiumError::Unsupported)
        }
    }

    /// Creates a handle with the `Signer` capability for this signer.
    pub fn signer(self) -> (r: SignerHandle)
        ensures
            r.signer == self,
    {
        SignerHandle { signer: self }
    }
}

} // verus!
