use crypto_api_libsodium::cipher::{CipherCall, CipherInfo};
use crypto_api_libsodium::{Ciphers, LibsodiumError};

const KEY: [u8; 32] = [7u8; 32];
const NONCE: [u8; 12] = [9u8; 12];

#[test]
fn cipher_lookup_by_name() {
    assert_eq!(Ciphers::from_name("Aes256Gcm"), Ok(Ciphers::Aes256Gcm));
    assert_eq!(Ciphers::from_name("ChaCha20Poly1305Ietf"), Ok(Ciphers::ChaCha20Poly1305Ietf));
    assert_eq!(Ciphers::from_name("ChaCha20Ietf"), Ok(Ciphers::ChaCha20Ietf));
    assert_eq!(Ciphers::from_name("aes256gcm"), Err(LibsodiumError::Unsupported));
    assert_eq!(Ciphers::from_name("Aes256Gcm "), Err(LibsodiumError::Unsupported));
    assert_eq!(Ciphers::from_name("ChaCha20"), Err(LibsodiumError::Unsupported));
    assert_eq!(Ciphers::from_name(""), Err(LibsodiumError::Unsupported));
}

#[test]
fn cipher_info_matches_declaration() {
    let expected = [
        (Ciphers::Aes256Gcm, "Aes256Gcm", Some(16)),
        (Ciphers::ChaCha20Poly1305Ietf, "ChaCha20Poly1305Ietf", Some(16)),
        (Ciphers::ChaCha20Ietf, "ChaCha20Ietf", None),
    ];
    for (cipher, name, tag) in expected {
        let info = cipher.cipher().info();
        assert_eq!(info, CipherInfo { name, key_len: 32, nonce_len: 12, aead_tag_len: tag });
        assert_eq!(info, cipher.cipher().info());
        assert_eq!(Ciphers::from_name(info.name), Ok(cipher));
    }
    assert_eq!(Ciphers::Aes256Gcm.aead_cipher().unwrap().info(), Ciphers::Aes256Gcm.cipher().info());
}

#[test]
fn aead_capability_only_for_aead_ciphers() {
    assert_eq!(Ciphers::Aes256Gcm.aead_cipher().unwrap().cipher(), Ciphers::Aes256Gcm);
    assert_eq!(
        Ciphers::ChaCha20Poly1305Ietf.aead_cipher().unwrap().cipher(),
        Ciphers::ChaCha20Poly1305Ietf
    );
    assert_eq!(Ciphers::ChaCha20Ietf.aead_cipher(), Err(LibsodiumError::Unsupported));
}

#[test]
fn encrypted_len_max_adds_tag() {
    assert_eq!(Ciphers::Aes256Gcm.cipher().encrypted_len_max(0), 16);
    assert_eq!(Ciphers::ChaCha20Poly1305Ietf.cipher().encrypted_len_max(100), 116);
    assert_eq!(Ciphers::ChaCha20Ietf.cipher().encrypted_len_max(100), 100);
}

#[test]
fn seal_validates_in_order() {
    let aead = Ciphers::Aes256Gcm.aead_cipher().unwrap();
    let buf = [0u8; 21];
    assert_eq!(aead.seal(&buf, 6, &[0u8; 3], &[0u8; 3]), Err(LibsodiumError::ApiMisuse("Buffer is too small")));
    assert_eq!(aead.seal(&buf, 5, &[0u8; 31], &[0u8; 3]), Err(LibsodiumError::ApiMisuse("Invalid key length")));
    assert_eq!(aead.seal(&buf, 5, &[0u8; 33], &NONCE), Err(LibsodiumError::ApiMisuse("Invalid key length")));
    assert_eq!(aead.seal(&buf, 5, &KEY, &[0u8; 11]), Err(LibsodiumError::ApiMisuse("Invalid nonce length")));
    assert_eq!(aead.seal(&buf, 5, &KEY, &[0u8; 13]), Err(LibsodiumError::ApiMisuse("Invalid nonce length")));
    assert_eq!(
        aead.seal(&buf, 5, &KEY, &NONCE),
        Ok(CipherCall::Seal { cipher: Ciphers::Aes256Gcm, plaintext_len: 5, sealed_len: 21 })
    );
    assert_eq!(
        aead.seal(&buf, usize::MAX, &KEY, &NONCE),
        Err(LibsodiumError::ApiMisuse("Buffer is too small"))
    );
}

#[test]
fn aead_round_trip_lengths() {
    for cipher in [Ciphers::Aes256Gcm, Ciphers::ChaCha20Poly1305Ietf] {
        let aead = cipher.aead_cipher().unwrap();
        let buf = vec![0u8; 64];
        let seal = aead.seal(&buf, 40, &KEY, &NONCE).unwrap();
        let sealed_len = seal.finish(0).unwrap().unwrap();
        assert_eq!(sealed_len, 56);
        assert_eq!(seal.finish(-1), None);
        let open = aead.open(&buf, sealed_len, &KEY, &NONCE).unwrap();
        assert_eq!(open, CipherCall::Open { cipher, ciphertext_len: 56 });
        assert_eq!(open.finish(0), Some(Ok(40)));
        assert_eq!(open.finish(-1), Some(Err(LibsodiumError::InvalidData)));
        // the plain capability behaves as seal/open without associated data
        assert_eq!(cipher.cipher().encrypt(&buf, 40, &KEY, &NONCE), Ok(seal));
        assert_eq!(cipher.cipher().decrypt(&buf, 56, &KEY, &NONCE), Ok(open));
    }
}

#[test]
fn open_rejects_short_or_bad_input() {
    let aead = Ciphers::ChaCha20Poly1305Ietf.aead_cipher().unwrap();
    assert_eq!(aead.open(&[0u8; 10], 11, &KEY, &NONCE), Err(LibsodiumError::ApiMisuse("Buffer is too small")));
    assert_eq!(aead.open(&[0u8; 10], 10, &KEY[..31], &NONCE), Err(LibsodiumError::ApiMisuse("Invalid key length")));
    assert_eq!(aead.open(&[0u8; 10], 10, &KEY, &NONCE[..11]), Err(LibsodiumError::ApiMisuse("Invalid nonce length")));
    // shorter than a tag: never a success, whatever the backend says
    let open = aead.open(&[0u8; 10], 10, &KEY, &NONCE).unwrap();
    assert_eq!(open.finish(0), Some(Err(LibsodiumError::InvalidData)));
    let open = aead.open(&[0u8; 16], 16, &KEY, &NONCE).unwrap();
    assert_eq!(open.finish(0), Some(Ok(0)));
}

#[test]
fn stream_cipher_decrypt_is_encrypt() {
    let stream = Ciphers::ChaCha20Ietf.cipher();
    let buf = [0u8; 10];
    for len in [0usize, 5, 10, 11] {
        for (key, nonce) in [(&KEY[..], &NONCE[..]), (&KEY[..31], &NONCE[..]), (&KEY[..], &NONCE[..1])] {
            assert_eq!(stream.decrypt(&buf, len, key, nonce), stream.encrypt(&buf, len, key, nonce));
        }
    }
    let call = stream.encrypt(&buf, 10, &KEY, &NONCE).unwrap();
    assert_eq!(call, CipherCall::Xor { cipher: Ciphers::ChaCha20Ietf, len: 10 });
    assert_eq!(call.finish(0), Some(Ok(10)));
    assert_eq!(call.finish(1), None);
    assert_eq!(stream.encrypt(&buf, 11, &KEY, &NONCE), Err(LibsodiumError::ApiMisuse("Buffer is too small")));
}
