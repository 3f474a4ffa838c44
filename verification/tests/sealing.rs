use sspi::{unwrap_message, wrap_message, ErrorKind, GSS_FLAG_SEALED};

const KEY_USAGE_SEAL: i32 = 24;

fn aes256_key() -> Vec<u8> {
    kerberos_crypto::aes_hmac_sha1::generate_key_from_string(
        "Password",
        "EXAMPLE.COMuser".as_bytes(),
        &kerberos_crypto::AesSizes::Aes256,
    )
}

#[test]
fn a_sealed_message_round_trips() {
    let key = aes256_key();
    let payload = b"This is a message";
    let token = wrap_message(&key, KEY_USAGE_SEAL, GSS_FLAG_SEALED, 0, 28, payload);
    let (header, recovered) = unwrap_message(&key, KEY_USAGE_SEAL, &token).unwrap();
    assert_eq!(recovered, payload);
    assert_eq!(header.flags, GSS_FLAG_SEALED);
    assert_eq!(header.snd_seq, 0);
    assert_eq!(header.rrc, 28);
    assert_eq!(header.ec, 0);
}

#[test]
fn a_hundred_sealed_messages_round_trip_in_sequence() {
    let key = aes256_key();
    for seq in 0..100u64 {
        let payload = vec![seq as u8; 64];
        let token = wrap_message(&key, KEY_USAGE_SEAL, GSS_FLAG_SEALED, seq, 0, &payload);
        let (header, recovered) = unwrap_message(&key, KEY_USAGE_SEAL, &token).unwrap();
        assert_eq!(recovered, payload);
        assert_eq!(header.snd_seq, seq);
    }
}

#[test]
fn an_empty_payload_seals_and_opens() {
    let key = aes256_key();
    let token = wrap_message(&key, KEY_USAGE_SEAL, GSS_FLAG_SEALED, 7, 0, b"");
    let (_, recovered) = unwrap_message(&key, KEY_USAGE_SEAL, &token).unwrap();
    assert!(recovered.is_empty());
}

#[test]
fn tampering_any_byte_of_a_sealed_token_rejects_it() {
    let key = aes256_key();
    let payload = b"This is a message";
    let token = wrap_message(&key, KEY_USAGE_SEAL, GSS_FLAG_SEALED, 3, 0, payload);
    for i in 0..token.len() {
        let mut tampered = token.clone();
        tampered[i] ^= 0x01;
        let err = unwrap_message(&key, KEY_USAGE_SEAL, &tampered)
            .expect_err("a tampered token must be rejected");
        assert!(
            matches!(
                err.error_type,
                ErrorKind::InvalidToken | ErrorKind::DecryptFailure | ErrorKind::MessageAltered
            ),
            "byte {} gave {:?}",
            i,
            err.error_type
        );
    }
}

#[test]
fn a_wrong_key_rejects_a_sealed_token() {
    let key = aes256_key();
    let other_key = kerberos_crypto::aes_hmac_sha1::generate_key_from_string(
        "password",
        "EXAMPLE.COMuser".as_bytes(),
        &kerberos_crypto::AesSizes::Aes256,
    );
    let token = wrap_message(&key, KEY_USAGE_SEAL, GSS_FLAG_SEALED, 3, 12, b"payload");
    let err = unwrap_message(&other_key, KEY_USAGE_SEAL, &token).unwrap_err();
    assert_eq!(err.error_type, ErrorKind::DecryptFailure);
    // A wrong key usage is a different key derivation, so it fails too.
    let err = unwrap_message(&key, KEY_USAGE_SEAL + 1, &token).unwrap_err();
    assert_eq!(err.error_type, ErrorKind::DecryptFailure);
}

#[test]
fn a_truncated_sealed_token_is_invalid() {
    let key = aes256_key();
    let token = wrap_message(&key, KEY_USAGE_SEAL, GSS_FLAG_SEALED, 3, 0, b"payload");
    let err = unwrap_message(&key, KEY_USAGE_SEAL, &token[..15]).unwrap_err();
    assert_eq!(err.error_type, ErrorKind::InvalidToken);
}
