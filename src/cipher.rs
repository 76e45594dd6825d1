use vstd::prelude::*;
use crate::text::same_text;
use crate::LibsodiumError;

verus! {

/// Key length of every supported cipher.
pub const KEY_LEN: usize = 32;
/// Nonce length of every supported cipher.
pub const NONCE_LEN: usize = 12;
/// Authentication tag length of the AEAD ciphers.
pub const AEAD_TAG_LEN: usize = 16;

/// Cipher implementations
#[derive(Debug, Clone, Copy, PartialEq, Eq, Structural)]
pub enum Ciphers {
    /// AES-256-GCM
    Aes256Gcm,
    /// ChaCha20+Poly1305 (IETF-version, RFC 7539)
    ChaCha20Poly1305Ietf,
    /// ChaCha20 (IETF-version, RFC 7539), a plain XOR stream cipher
    ChaCha20Ietf,
}

/// The fixed sizes of a cipher.
#[derive(Debug, Clone, Copy, PartialEq, Eq)]
pub struct CipherInfo {
    pub name: &'static str,
    pub key_len: usize,
    pub nonce_len: usize,
    /// The tag length for AEAD ciphers; `None` for plain stream ciphers
    pub aead_tag_len: Option<usize>,
}

/// The registry name of a cipher.
pub open spec fn cipher_name(c: Ciphers) -> Seq<char> {
    match c {
        Ciphers::Aes256Gcm => "Aes256Gcm"@,
        Ciphers::ChaCha20Poly1305Ietf => "ChaCha20Poly1305Ietf"@,
        Ciphers::ChaCha20Ietf => "ChaCha20Ietf"@,
    }
}

/// What a lookup by name yields: the cipher registered under exactly that name.
pub open spec fn cipher_from_name(name: Seq<char>) -> Result<Ciphers, LibsodiumError> {
    if name == "Aes256Gcm"@ {
        Ok(Ciphers::Aes256Gcm)
    } else if name == "ChaCha20Poly1305Ietf"@ {
        Ok(Ciphers::ChaCha20Poly1305Ietf)
    } else if name == "ChaCha20Ietf"@ {
        Ok(Ciphers::ChaCha20Ietf)
    } else {
        Err(LibsodiumError::Unsupported)
    }
}

/// Whether a cipher authenticates its output.
pub open spec fn is_aead(c: Ciphers) -> bool {
    c != Ciphers::ChaCha20Ietf
}

/// The tag length a cipher appends (zero for a stream cipher).
pub open spec fn tag_len(c: Ciphers) -> nat {
    if is_aead(c) {
        AEAD_TAG_LEN as nat
    } else {
        0
    }
}

/// The declared descriptor of a cipher.
pub open spec fn cipher_info(c: Ciphers) -> CipherInfo {
    match c {
        Ciphers::Aes256Gcm => CipherInfo {
            name: "Aes256Gcm",
            key_len: KEY_LEN,
            nonce_len: NONCE_LEN,
            aead_tag_len: Some(AEAD_TAG_LEN),
        },
        Ciphers::ChaCha20Poly1305Ietf => CipherInfo {
            name: "ChaCha20Poly1305Ietf",
            key_len: KEY_LEN,
            nonce_len: NONCE_LEN,
            aead_tag_len: Some(AEAD_TAG_LEN),
        },
        Ciphers::ChaCha20Ietf => CipherInfo {
            name: "ChaCha20Ietf",
            key_len: KEY_LEN,
            nonce_len: NONCE_LEN,
            aead_tag_len: None,
        },
    }
}


/// A backend operation that a validated cipher request asks for; it works in
/// place on the caller's buffer.
#[derive(Debug, Clone, Copy, PartialEq, Eq)]
pub enum CipherCall {
    /// Encrypt `buf[..plaintext_len]` and append the tag: `sealed_len` bytes result.
    Seal { cipher: Ciphers, plaintext_len: usize, sealed_len: usize },
    /// Verify the tag of `buf[..ciphertext_len]` and decrypt it.
    Open { cipher: Ciphers, ciphertext_len: usize },
    /// XOR `buf[..len]` with the key stream.
    Xor { cipher: Ciphers, len: usize },
}

/// The largest output that encrypting `plaintext_len` bytes produces.
pub open spec fn encrypted_len_max_of(c: Ciphers, plaintext_len: nat) -> nat {
    plaintext_len + tag_len(c)
}

/// Checks the key and nonce lengths, in that order.
pub open spec fn key_nonce_check(key_len: nat, nonce_len: nat) -> Result<(), LibsodiumError> {
    if key_len != KEY_LEN {
        Err(LibsodiumError::ApiMisuse("Invalid key length"))
    } else if nonce_len != NONCE_LEN {
        Err(LibsodiumError::ApiMisuse("Invalid nonce length"))
    } else {
        Ok(())
    }
}

/// The outcome of validating an encryption of `len` bytes: capacity first,
/// then key, then nonce.
pub open spec fn encrypt_request(
    c: Ciphers,
    buf_len: nat,
    len: nat,
    key_len: nat,
    nonce_len: nat,
) -> Result<CipherCall, LibsodiumError> {
    if buf_len < encrypted_len_max_of(c, len) {
        Err(LibsodiumError::ApiMisuse("Buffer is too small"))
    } else if key_nonce_check(key_len, nonce_len) is Err {
        Err(key_nonce_check(key_len, nonce_len)->Err_0)
    } else if is_aead(c) {
        Ok(CipherCall::Seal { cipher: c, plaintext_len: len as usize, sealed_len: (len + tag_len(c)) as usize })
    } else {
        Ok(CipherCall::Xor { cipher: c, len: len as usize })
    }
}

/// The outcome of validating a decryption of `len` bytes. A stream cipher
/// decrypts by encrypting again.
pub open spec fn decrypt_request(
    c: Ciphers,
    buf_len: nat,
    len: nat,
    key_len: nat,
    nonce_len: nat,
) -> Result<CipherCall, LibsodiumError> {
    if !is_aead(c) {
        encrypt_request(c, buf_len, len, key_len, nonce_len)
    } else if buf_len < len {
        Err(LibsodiumError::ApiMisuse("Buffer is too small"))
    } else if key_nonce_check(key_len, nonce_len) is Err {
        Err(key_nonce_check(key_len, nonce_len)->Err_0)
    } else {
        Ok(CipherCall::Open { cipher: c, ciphertext_len: len as usize })
    }
}

/// What an operation returns once the backend reported `status` for `call`;
/// `None` where the backend failed in a way that validation rules out, which
/// leaves nothing to trust.
pub open spec fn call_outcome(call: CipherCall, status: i32) -> Option<Result<usize, LibsodiumError>> {
    match call {
        CipherCall::Seal { sealed_len, .. } => if status == 0 {
            Some(Ok(sealed_len))
        } else {
            None
        },
        CipherCall::Open { ciphertext_len, .. } => if status == 0 && ciphertext_len >= AEAD_TAG_LEN {
            Some(Ok((ciphertext_len - AEAD_TAG_LEN) as usize))
        } else {
            Some(Err(LibsodiumError::InvalidData))
        },
        CipherCall::Xor { len, .. } => if status == 0 {
            Some(Ok(len))
        } else {
            None
        },
    }
}

fn check_key_nonce(key: &[u8], nonce: &[u8]) -> (r: Result<(), LibsodiumError>)
    ensures
        r == key_nonce_check(key@.len(), nonce@.len()),
{
    if key.len() != KEY_LEN {
        Err(LibsodiumError::ApiMisuse("Invalid key length"))
    } else if nonce.len() != NONCE_LEN {
        Err(LibsodiumError::ApiMisuse("Invalid nonce length"))
    } else {
        Ok(())
    }
}

fn info_of(c: Ciphers) -> (r: CipherInfo)
    ensures
        r == cipher_info(c),
{
    match c {
        Ciphers::Aes256Gcm => CipherInfo {
            name: "Aes256Gcm",
            key_len: KEY_LEN,
            nonce_len: NONCE_LEN,
            aead_tag_len: Some(AEAD_TAG_LEN),
        },
        Ciphers::ChaCha20Poly1305Ietf => CipherInfo {
            name: "ChaCha20Poly1305Ietf",
            key_len: KEY_LEN,
            nonce_len: NONCE_LEN,
            aead_tag_len: Some(AEAD_TAG_LEN),
        },
        Ciphers::ChaCha20Ietf => CipherInfo {
            name: "ChaCha20Ietf",
            key_len: KEY_LEN,
            nonce_len: NONCE_LEN,
            aead_tag_len: None,
        },
    }
}

fn encrypt_checked(c: Ciphers, buf: &[u8], len: usize, key: &[u8], nonce: &[u8]) -> (r: Result<CipherCall, LibsodiumError>)
    ensures
        r == encrypt_request(c, buf@.len(), len as nat, key@.len(), nonce@.len()),
{
    let tag: usize = if c != Ciphers::ChaCha20Ietf { AEAD_TAG_LEN } else { 0 };
    if len > buf.len() || buf.len() - len < tag {
        return Err(LibsodiumError::ApiMisuse("Buffer is too small"));
    }
    match check_key_nonce(key, nonce) {
        Err(e) => Err(e),
        Ok(()) => if tag > 0 {
            Ok(CipherCall::Seal { cipher: c, plaintext_len: len, sealed_len: len + tag })
        } else {
            Ok(CipherCall::Xor { cipher: c, len })
        },
    }
}

fn decrypt_checked(c: Ciphers, buf: &[u8], len: usize, key: &[u8], nonce: &[u8]) -> (r: Result<CipherCall, LibsodiumError>)
    ensures
        r == decrypt_request(c, buf@.len(), len as nat, key@.len(), nonce@.len()),
{
    if c == Ciphers::ChaCha20Ietf {
        return encrypt_checked(c, buf, len, key, nonce);
    }
    if len > buf.len() {
        return Err(LibsodiumError::ApiMisuse("Buffer is too small"));
    }
    match check_key_nonce(key, nonce) {
        Err(e) => Err(e),
        Ok(()) => Ok(CipherCall::Open { cipher: c, ciphertext_len: len }),
    }
}

impl CipherCall {
    /// Maps the backend's status for this call to the operation's result.
    pub fn finish(self, status: i32) -> (r: Option<Result<usize, LibsodiumError>>)
        ensures
            r == call_outcome(self, status),
    {
        match self {
            CipherCall::Seal { sealed_len, .. } => if status == 0 {
                Some(Ok(sealed_len))
            } else {
                None
            },
            CipherCall::Open { ciphertext_len, .. } => if status == 0 && ciphertext_len >= AEAD_TAG_LEN {
                Some(Ok(ciphertext_len - AEAD_TAG_LEN))
            } else {
                Some(Err(LibsodiumError::InvalidData))
            },
            CipherCall::Xor { len, .. } => if status == 0 {
                Some(Ok(len))
            } else {
                None
            },
        }
    }
}

/// A handle with the `Cipher` capability.
#[derive(Debug, Clone, Copy, PartialEq, Eq)]
pub struct CipherHandle {
    pub cipher: Ciphers,
}

impl CipherHandle {
    /// The descriptor of this cipher.
    pub fn info(&self) -> (r: CipherInfo)
        ensures
            r == cipher_info(self.cipher),
    {
        info_of(self.cipher)
    }

    /// The largest output that encrypting `plaintext_len` bytes produces.
    pub fn encrypted_len_max(&self, plaintext_len: usize) -> (r: usize)
        requires
            encrypted_len_max_of(self.cipher, plaintext_len as nat) <= usize::MAX,
        ensures
            r == encrypted_len_max_of(self.cipher, plaintext_len as nat),
    {
        if self.cipher != Ciphers::ChaCha20Ietf {
            plaintext_len + AEAD_TAG_LEN
        } else {
            plaintext_len
        }
    }

    /// Validates an in-place encryption of `buf[..plaintext_len]`.
    pub fn encrypt(&self, buf: &[u8], plaintext_len: usize, key: &[u8], nonce: &[u8]) -> (r: Result<CipherCall, LibsodiumError>)
        ensures
            r == encrypt_request(self.cipher, buf@.len(), plaintext_len as nat, key@.len(), nonce@.len()),
    {
        encrypt_checked(self.cipher, buf, plaintext_len, key, nonce)
    }

    /// Validates an in-place decryption of `buf[..ciphertext_len]`.
    pub fn decrypt(&self, buf: &[u8], ciphertext_len: usize, key: &[u8], nonce: &[u8]) -> (r: Result<CipherCall, LibsodiumError>)
        ensures
            r == decrypt_request(self.cipher, buf@.len(), ciphertext_len as nat, key@.len(), nonce@.len()),
    {
        decrypt_checked(self.cipher, buf, ciphertext_len, key, nonce)
    }
}

/// A handle with the `AeadCipher` capability: its cipher is always an AEAD.
#[derive(Debug, Clone, Copy, PartialEq, Eq)]
pub struct AeadHandle {
    cipher: Ciphers,
}

impl View for AeadHandle {
    type V = Ciphers;

    closed spec fn view(&self) -> Ciphers {
        self.cipher
    }
}

impl AeadHandle {
    #[verifier::type_invariant]
    spec fn inv(&self) -> bool {
        is_aead(self.cipher)
    }

    /// The cipher behind this handle.
    pub fn cipher(&self) -> (r: Ciphers)
        ensures
            r == self@,
            is_aead(r),
    {
        proof {
            use_type_invariant(self);
        }
        self.cipher
    }

    /// The descriptor of this cipher.
    pub fn info(&self) -> (r: CipherInfo)
        ensures
            r == cipher_info(self@),
    {
        info_of(self.cipher)
    }

    /// Validates an in-place seal of `buf[..plaintext_len]`.
    pub fn seal(&self, buf: &[u8], plaintext_len: usize, key: &[u8], nonce: &[u8]) -> (r: Result<CipherCall, LibsodiumError>)
        ensures
            r == encrypt_request(self@, buf@.len(), plaintext_len as nat, key@.len(), nonce@.len()),
            r is Ok ==> r->Ok_0 is Seal,
    {
        proof {
            use_type_invariant(self);
        }
        encrypt_checked(self.cipher, buf, plaintext_len, key, nonce)
    }

    /// Validates an in-place open of `buf[..ciphertext_len]`.
    pub fn open(&self, buf: &[u8], ciphertext_len: usize, key: &[u8], nonce: &[u8]) -> (r: Result<CipherCall, LibsodiumError>)
        ensures
            r == decrypt_request(self@, buf@.len(), ciphertext_len as nat, key@.len(), nonce@.len()),
            r is Ok ==> r->Ok_0 is Open,
    {
        proof {
            use_type_invariant(self);
        }
        decrypt_checked(self.cipher, buf, ciphertext_len, key, nonce)
    }
}

impl Ciphers {
    /// Selects a cipher implementation from name
    ///
    /// Currently supported names are:
    ///  - `Aes256Gcm` which maps to Aes256Gcm
    ///  - `ChaCha20Poly1305Ietf` which maps to ChaCha20Poly1305Ietf
    ///  - `ChaCha20Ietf` which maps to ChaCha20Ietf
    pub fn from_name(name: &str) -> (r: Result<Self, LibsodiumError>)
        ensures
            r == cipher_from_name(name@),
    {
        if same_text(name, "Aes256Gcm") {
            Ok(Ciphers::Aes256Gcm)
        } else if same_text(name, "ChaCha20Poly1305Ietf") {
            Ok(Ciphers::ChaCha20Poly1305Ietf)
        } else if same_text(name, "ChaCha20Ietf") {
            Ok(Ciphers::ChaCha20Ietf)
        } else {
            Err(LibsodiumError::Unsupported)
        }
    }

    /// Creates a handle with the `Cipher` capability for this cipher.
    pub fn cipher(self) -> (r: CipherHandle)
        ensures
            r.cipher == self,
    {
        CipherHandle { cipher: self }
    }

    /// Creates a handle with the `AeadCipher` capability; only the AEAD
    /// ciphers have it.
    pub fn aead_cipher(self) -> (r: Result<AeadHandle, LibsodiumError>)
        ensures
            is_aead(self) ==> r is Ok && r->Ok_0@ == self,
            !is_aead(self) ==> r == Err::<AeadHandle, LibsodiumError>(LibsodiumError::Unsupported),
    {
        match self {
            Ciphers::ChaCha20Ietf => Err(LibsodiumError::Unsupported),
            _ => Ok(AeadHandle { cipher: self }),
        }
    }
}

} // verus!
