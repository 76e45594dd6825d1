use vstd::prelude::*;
use crate::cipher::{
    call_outcome, cipher_from_name, cipher_info, cipher_name, decrypt_request, encrypt_request, is_aead,
    CipherCall, Ciphers, AEAD_TAG_LEN, KEY_LEN, NONCE_LEN,
};
use crate::pbkdf::{derive_check, derive_request, memory_cost_max, pbkdf_from_name, pbkdf_info, Pbkdfs, PARALLELISM};
use crate::signer::{
    get_pub_key_request, sign_request, signer_from_name, signer_info, verify_outcome, verify_request, Signers,
    SEC_KEY_LEN,
};
use crate::LibsodiumError;

verus! {

/// A cipher's descriptor carries its registry name, and looking that name up
/// yields the same cipher; a name outside the registry is unsupported.
pub proof fn cipher_info_matches_registry(c: Ciphers, other: Seq<char>)
    ensures
        cipher_info(c).name@ == cipher_name(c),
        cipher_from_name(cipher_name(c)) == Ok::<Ciphers, LibsodiumError>(c),
        cipher_info(c).key_len == KEY_LEN,
        cipher_info(c).nonce_len == NONCE_LEN,
        cipher_info(c).aead_tag_len == (if is_aead(c) { Some(AEAD_TAG_LEN) } else { None }),
        other != "Aes256Gcm"@ && other != "ChaCha20Poly1305Ietf"@ && other != "ChaCha20Ietf"@
            ==> cipher_from_name(other) == Err::<Ciphers, LibsodiumError>(LibsodiumError::Unsupported),
{
    reveal_strlit("Aes256Gcm");
    reveal_strlit("ChaCha20Poly1305Ietf");
    reveal_strlit("ChaCha20Ietf");
    assert("Aes256Gcm"@.len() == 9);
    assert("ChaCha20Poly1305Ietf"@.len() == 20);
    assert("ChaCha20Ietf"@.len() == 12);
}

/// A PBKDF's descriptor carries its registry name, which looks up the same
/// PBKDF; every bound pair brackets its default, the salt length is fixed and
/// the parallelism is exactly one.
pub proof fn pbkdf_info_matches_registry(p: Pbkdfs)
    ensures
        pbkdf_from_name(pbkdf_info(p).name@) == Ok::<Pbkdfs, LibsodiumError>(p),
        pbkdf_info(p).output_len_min <= pbkdf_info(p).output_len_max,
        pbkdf_info(p).password_len_min <= pbkdf_info(p).password_len_max,
        pbkdf_info(p).salt_len_min == pbkdf_info(p).salt_len_max,
        pbkdf_info(p).cpu_cost_min <= pbkdf_info(p).cpu_cost <= pbkdf_info(p).cpu_cost_max,
        pbkdf_info(p).memory_hard_pbkdf_info is Some,
        pbkdf_info(p).memory_hard_pbkdf_info->Some_0.memory_cost_min
            <= pbkdf_info(p).memory_hard_pbkdf_info->Some_0.memory_cost
            <= pbkdf_info(p).memory_hard_pbkdf_info->Some_0.memory_cost_max,
        pbkdf_info(p).memory_hard_pbkdf_info->Some_0.parallelism_min == PARALLELISM,
        pbkdf_info(p).memory_hard_pbkdf_info->Some_0.parallelism == PARALLELISM,
        pbkdf_info(p).memory_hard_pbkdf_info->Some_0.parallelism_max == PARALLELISM,
        memory_cost_max() <= usize::MAX,
{
    reveal_strlit("Argon2iV13");
    reveal_strlit("Argon2idV13");
    assert("Argon2iV13"@.len() == 10);
    assert("Argon2idV13"@.len() == 11);
}

/// The signer's descriptor carries its registry name, which looks up the same
/// signer.
pub proof fn signer_info_matches_registry(s: Signers)
    ensures
        signer_from_name(signer_info(s).name@) == Ok::<Signers, LibsodiumError>(s),
{
}

/// Sealing and then opening the sealed bytes with the same key and nonce:
/// whenever the seal is accepted the open is accepted too, a successful open
/// gives back exactly the plaintext length, and every failure of the
/// backend's authentication check reads as `InvalidData`.
pub proof fn aead_open_accepts_sealed(
    c: Ciphers,
    buf_len: nat,
    plaintext_len: nat,
    key_len: nat,
    nonce_len: nat,
    status: i32,
)
    requires
        is_aead(c),
        buf_len <= usize::MAX,
        encrypt_request(c, buf_len, plaintext_len, key_len, nonce_len) is Ok,
    ensures
        ({
            let sealed_len = (plaintext_len + AEAD_TAG_LEN) as usize;
            let open = CipherCall::Open { cipher: c, ciphertext_len: sealed_len };
            &&& encrypt_request(c, buf_len, plaintext_len, key_len, nonce_len) == Ok::<
                CipherCall,
                LibsodiumError,
            >(CipherCall::Seal { cipher: c, plaintext_len: plaintext_len as usize, sealed_len })
            &&& call_outcome(CipherCall::Seal { cipher: c, plaintext_len: plaintext_len as usize, sealed_len }, 0)
                == Some(Ok::<usize, LibsodiumError>(sealed_len))
            &&& decrypt_request(c, buf_len, sealed_len as nat, key_len, nonce_len) == Ok::<CipherCall, LibsodiumError>(open)
            &&& call_outcome(open, 0) == Some(Ok::<usize, LibsodiumError>(plaintext_len as usize))
            &&& status != 0 ==> call_outcome(open, status) == Some(Err::<usize, LibsodiumError>(LibsodiumError::InvalidData))
        }),
{
}

/// The stream cipher decrypts by encrypting again: both directions are
/// validated alike and ask the backend for the identical transform of the
/// same bytes, whose length comes back unchanged.
pub proof fn stream_decrypt_is_encrypt(c: Ciphers, buf_len: nat, len: nat, key_len: nat, nonce_len: nat)
    requires
        !is_aead(c),
        buf_len <= usize::MAX,
    ensures
        decrypt_request(c, buf_len, len, key_len, nonce_len) == encrypt_request(c, buf_len, len, key_len, nonce_len),
        encrypt_request(c, buf_len, len, key_len, nonce_len) is Ok ==> {
            &&& encrypt_request(c, buf_len, len, key_len, nonce_len) == Ok::<CipherCall, LibsodiumError>(
                CipherCall::Xor { cipher: c, len: len as usize },
            )
            &&& call_outcome(CipherCall::Xor { cipher: c, len: len as usize }, 0) == Some(
                Ok::<usize, LibsodiumError>(len as usize),
            )
            &&& len == len as usize
        },
{
}

/// Every declared bound of a PBKDF is exact: starting from any accepted set of
/// parameters and changing one of them, a value one below its minimum fails
/// with that bound's "too small/short" misuse, one above its maximum with its
/// "too large/long" misuse, and the minimum and maximum themselves are accepted.
pub proof fn derive_bounds_are_exact(
    p: Pbkdfs,
    output_len: nat,
    password_len: nat,
    salt_len: nat,
    cpu_cost: u64,
    memory_cost: u64,
    parallelism: u64,
)
    requires
        derive_check(pbkdf_info(p), output_len, password_len, salt_len, cpu_cost, memory_cost, parallelism) is Ok,
    ensures
        ({
            let i = pbkdf_info(p);
            let m = i.memory_hard_pbkdf_info->Some_0;
            let (o, pw, s, cpu, mem, par) = (output_len, password_len, salt_len, cpu_cost, memory_cost, parallelism);
            &&& i.output_len_min > 0 ==> derive_check(i, (i.output_len_min - 1) as nat, pw, s, cpu, mem, par)
                == Err::<(), LibsodiumError>(LibsodiumError::ApiMisuse("Buffer is too small"))
            &&& derive_check(i, (i.output_len_max + 1) as nat, pw, s, cpu, mem, par)
                == Err::<(), LibsodiumError>(LibsodiumError::ApiMisuse("Buffer is too large"))
            &&& derive_check(i, i.output_len_min as nat, pw, s, cpu, mem, par) is Ok
            &&& derive_check(i, i.output_len_max as nat, pw, s, cpu, mem, par) is Ok
            &&& i.password_len_min > 0 ==> derive_check(i, o, (i.password_len_min - 1) as nat, s, cpu, mem, par)
                == Err::<(), LibsodiumError>(LibsodiumError::ApiMisuse("Password is too short"))
            &&& derive_check(i, o, (i.password_len_max + 1) as nat, s, cpu, mem, par)
                == Err::<(), LibsodiumError>(LibsodiumError::ApiMisuse("Password is too long"))
            &&& derive_check(i, o, i.password_len_min as nat, s, cpu, mem, par) is Ok
            &&& derive_check(i, o, i.password_len_max as nat, s, cpu, mem, par) is Ok
            &&& derive_check(i, o, pw, (i.salt_len_min - 1) as nat, cpu, mem, par)
                == Err::<(), LibsodiumError>(LibsodiumError::ApiMisuse("Salt is too short"))
            &&& derive_check(i, o, pw, (i.salt_len_max + 1) as nat, cpu, mem, par)
                == Err::<(), LibsodiumError>(LibsodiumError::ApiMisuse("Salt is too long"))
            &&& derive_check(i, o, pw, i.salt_len_min as nat, cpu, mem, par) is Ok
            &&& derive_check(i, o, pw, i.salt_len_max as nat, cpu, mem, par) is Ok
            &&& derive_check(i, o, pw, s, (i.cpu_cost_min - 1) as u64, mem, par)
                == Err::<(), LibsodiumError>(LibsodiumError::ApiMisuse("CPU cost is too small"))
            &&& i.cpu_cost_max < u64::MAX ==> derive_check(i, o, pw, s, (i.cpu_cost_max + 1) as u64, mem, par)
                == Err::<(), LibsodiumError>(LibsodiumError::ApiMisuse("CPU cost is too large"))
            &&& derive_check(i, o, pw, s, i.cpu_cost_min, mem, par) is Ok
            &&& derive_check(i, o, pw, s, i.cpu_cost_max, mem, par) is Ok
            &&& derive_check(i, o, pw, s, cpu, (m.memory_cost_min - 1) as u64, par)
                == Err::<(), LibsodiumError>(LibsodiumError::ApiMisuse("Memory cost is too small"))
            &&& derive_check(i, o, pw, s, cpu, (m.memory_cost_max + 1) as u64, par)
                == Err::<(), LibsodiumError>(LibsodiumError::ApiMisuse("Memory cost is too large"))
            &&& derive_check(i, o, pw, s, cpu, m.memory_cost_min, par) is Ok
            &&& derive_check(i, o, pw, s, cpu, m.memory_cost_max, par) is Ok
            &&& derive_check(i, o, pw, s, cpu, mem, (m.parallelism_min - 1) as u64)
                == Err::<(), LibsodiumError>(LibsodiumError::ApiMisuse("Parallelism-degree is too small"))
            &&& derive_check(i, o, pw, s, cpu, mem, (m.parallelism_max + 1) as u64)
                == Err::<(), LibsodiumError>(LibsodiumError::ApiMisuse("Parallelism-degree is too large"))
            &&& derive_check(i, o, pw, s, cpu, mem, m.parallelism_min) is Ok
            &&& derive_check(i, o, pw, s, cpu, mem, m.parallelism_max) is Ok
        }),
{
}

/// The defaults of every PBKDF are accepted for any output, password and salt
/// within bounds and any CPU cost within bounds, so the plain derivation is
/// the memory-hard one at the declared defaults.
pub proof fn derive_defaults_are_valid(p: Pbkdfs, output_len: nat, password_len: nat, salt_len: nat, cpu_cost: u64)
    requires
        pbkdf_info(p).output_len_min <= output_len <= pbkdf_info(p).output_len_max,
        pbkdf_info(p).password_len_min <= password_len <= pbkdf_info(p).password_len_max,
        pbkdf_info(p).salt_len_min <= salt_len <= pbkdf_info(p).salt_len_max,
        pbkdf_info(p).cpu_cost_min <= cpu_cost <= pbkdf_info(p).cpu_cost_max,
    ensures
        derive_request(
            p,
            output_len,
            password_len,
            salt_len,
            cpu_cost,
            pbkdf_info(p).memory_hard_pbkdf_info->Some_0.memory_cost,
            pbkdf_info(p).memory_hard_pbkdf_info->Some_0.parallelism,
        ) is Ok,
{
}

/// A signature as `sign` produces it, checked against a public key as
/// `get_pub_key` produces it, passes verification's length checks; the result
/// is then the backend's verdict alone, and every rejection reads as
/// `InvalidData`.
pub proof fn signature_reaches_verification(sig_buf_len: nat, pub_buf_len: nat, status: i32)
    requires
        sign_request(sig_buf_len, SEC_KEY_LEN as nat) is Ok,
        get_pub_key_request(pub_buf_len, SEC_KEY_LEN as nat) is Ok,
    ensures
        verify_request(
            sign_request(sig_buf_len, SEC_KEY_LEN as nat)->Ok_0 as nat,
            get_pub_key_request(pub_buf_len, SEC_KEY_LEN as nat)->Ok_0 as nat,
        ) == Ok::<(), LibsodiumError>(()),
        status == 0 <==> verify_outcome(status) == Ok::<(), LibsodiumError>(()),
        status != 0 ==> verify_outcome(status) == Err::<(), LibsodiumError>(LibsodiumError::InvalidData),
{
}

} // verus!
