use filescout::crypto::decrypted_name;
use filescout::crypto::encrypted_name;
use filescout::crypto::AesEncryptor;
use filescout::errors::ExplorerError;

#[test]
fn encrypt_then_decrypt_restores_plaintext() {
    let enc = AesEncryptor::initialize();
    let plaintext = b"attack at dawn".to_vec();
    let frame = enc.encrypt_bytes(&plaintext).unwrap();
    assert_eq!(frame.len(), plaintext.len() + 28);
    let recovered = enc.decrypt_bytes(&frame).unwrap();
    assert_eq!(recovered, plaintext);
}

#[test]
fn encrypt_empty_plaintext_round_trips() {
    let enc = AesEncryptor::initialize();
    let plaintext: Vec<u8> = Vec::new();
    let frame = enc.encrypt_bytes(&plaintext).unwrap();
    assert_eq!(frame.len(), 28);
    let recovered = enc.decrypt_bytes(&frame).unwrap();
    assert_eq!(recovered, plaintext);
}

#[test]
fn two_encryptions_differ_but_both_decrypt() {
    let enc = AesEncryptor::initialize();
    let plaintext = b"same bytes".to_vec();
    let a = enc.encrypt_bytes(&plaintext).unwrap();
    let b = enc.encrypt_bytes(&plaintext).unwrap();
    // Fresh random nonces make the frames differ.
    assert_ne!(a, b);
    assert_eq!(enc.decrypt_bytes(&a).unwrap(), plaintext);
    assert_eq!(enc.decrypt_bytes(&b).unwrap(), plaintext);
}

#[test]
fn tampered_ciphertext_is_rejected() {
    let enc = AesEncryptor::initialize();
    let plaintext = b"do not touch".to_vec();
    let mut frame = enc.encrypt_bytes(&plaintext).unwrap();
    // Flip one bit of one ciphertext byte, past the nonce.
    let idx = frame.len() - 5;
    frame[idx] ^= 0x01;
    assert_eq!(enc.decrypt_bytes(&frame), Err(ExplorerError::CryptoFailure));
}

#[test]
fn tampered_nonce_is_rejected() {
    let enc = AesEncryptor::initialize();
    let plaintext = b"binding".to_vec();
    let mut frame = enc.encrypt_bytes(&plaintext).unwrap();
    frame[0] ^= 0x80;
    assert_eq!(enc.decrypt_bytes(&frame), Err(ExplorerError::CryptoFailure));
}

#[test]
fn wrong_key_is_rejected() {
    let enc = AesEncryptor::initialize();
    let other = AesEncryptor::with_key(vec![7u8; 32]).unwrap();
    let plaintext = b"for one key only".to_vec();
    let frame = enc.encrypt_bytes(&plaintext).unwrap();
    assert_eq!(other.decrypt_bytes(&frame), Err(ExplorerError::CryptoFailure));
}

#[test]
fn short_key_is_refused() {
    assert!(AesEncryptor::with_key(vec![7u8; 16]).is_none());
}

#[test]
fn truncated_frame_is_rejected() {
    let enc = AesEncryptor::initialize();
    assert_eq!(
        enc.decrypt_bytes(&b"too short".to_vec()),
        Err(ExplorerError::CryptoFailure)
    );
}

#[test]
fn encrypted_name_appends_suffix() {
    assert_eq!(encrypted_name(&b"/d/a.txt".to_vec()), b"/d/a.txt.enc".to_vec());
}

#[test]
fn decrypted_name_strips_suffix() {
    assert_eq!(
        decrypted_name(&b"/d/a.txt.enc".to_vec()),
        Some(b"/d/a.txt".to_vec())
    );
}

#[test]
fn decrypted_name_requires_suffix() {
    assert_eq!(decrypted_name(&b"/d/a.txt".to_vec()), None);
    assert_eq!(decrypted_name(&b"enc".to_vec()), None);
    assert_eq!(decrypted_name(&b".enc".to_vec()), Some(b"".to_vec()));
}
