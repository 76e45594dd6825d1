use crypto_api_libsodium::signer::SignerInfo;
use crypto_api_libsodium::{LibsodiumError, Signers};

#[test]
fn signer_lookup_and_info() {
    assert_eq!(Signers::from_name("Ed25519"), Ok(Signers::Ed25519));
    assert_eq!(Signers::from_name("ed25519"), Err(LibsodiumError::Unsupported));
    assert_eq!(Signers::from_name("Ed448"), Err(LibsodiumError::Unsupported));
    let signer = Signers::Ed25519.signer();
    assert_eq!(signer.info(), SignerInfo { name: "Ed25519", sig_len: 64, sec_key_len: 64, pub_key_len: 32 });
    assert_eq!(signer.info(), signer.info());
    assert_eq!(Signers::from_name(signer.info().name), Ok(Signers::Ed25519));
}

#[test]
fn sign_and_verify_validation() {
    let signer = Signers::Ed25519.signer();
    assert_eq!(signer.sign(&[0u8; 63], &[0u8; 64]), Err(LibsodiumError::ApiMisuse("Buffer is too small")));
    assert_eq!(signer.sign(&[0u8; 64], &[0u8; 32]), Err(LibsodiumError::ApiMisuse("Invalid key length")));
    assert_eq!(signer.sign(&[0u8; 100], &[0u8; 64]), Ok(64));
    assert_eq!(signer.verify(&[0u8; 63], &[0u8; 32]), Err(LibsodiumError::ApiMisuse("Invalid signature length")));
    assert_eq!(signer.verify(&[0u8; 64], &[0u8; 64]), Err(LibsodiumError::ApiMisuse("Invalid key length")));
    assert_eq!(signer.verify(&[0u8; 64], &[0u8; 32]), Ok(()));
    assert_eq!(signer.verify_result(0), Ok(()));
    assert_eq!(signer.verify_result(-1), Err(LibsodiumError::InvalidData));
    assert_eq!(signer.verify_result(3), Err(LibsodiumError::InvalidData));
}

#[test]
fn key_generation_validation() {
    let signer = Signers::Ed25519.signer();
    assert_eq!(signer.new_sec_key(&[0u8; 63]), Err(LibsodiumError::ApiMisuse("Buffer is too small")));
    assert_eq!(signer.new_sec_key(&[0u8; 64]), Ok(64));
    assert_eq!(signer.get_pub_key(&[0u8; 31], &[0u8; 64]), Err(LibsodiumError::ApiMisuse("Buffer is too small")));
    assert_eq!(signer.get_pub_key(&[0u8; 32], &[0u8; 65]), Err(LibsodiumError::ApiMisuse("Invalid key length")));
    assert_eq!(signer.get_pub_key(&[0u8; 32], &[0u8; 64]), Ok(32));
    assert_eq!(signer.get_pub_key(&[0u8; 32], &[0u8; 64]), signer.get_pub_key(&[0u8; 32], &[0u8; 64]));
}
