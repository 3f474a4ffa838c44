use sspi::{
    mic_token, nt_owf, verify_mic_token, ErrorKind, MicTokenHeader, GSS_FLAG_ACCEPTOR_SUBKEY,
    KEY_USAGE_ACCEPTOR_MIC, KEY_USAGE_INITIATOR_MIC,
};

#[test]
fn nt_owf_of_the_empty_password_is_the_known_digest() {
    assert_eq!(
        nt_owf(""),
        vec![
            0x31, 0xD6, 0xCF, 0xE0, 0xD1, 0x6A, 0xE9, 0x31, 0xB7, 0x3C, 0x59, 0xD7, 0xE0, 0xC0,
            0x89, 0xC0
        ]
    );
}

#[test]
fn nt_owf_agrees_with_the_crypto_kit() {
    for password in ["", "Password", "p@ssw0rd", "\u{e9}l\u{e8}ve"] {
        assert_eq!(
            nt_owf(password),
            kerberos_crypto::rc4_hmac_md5::generate_key_from_string(password),
            "mismatch for {:?}",
            password
        );
    }
}

fn sample_header() -> MicTokenHeader {
    MicTokenHeader {
        flags: GSS_FLAG_ACCEPTOR_SUBKEY,
        snd_seq: 5,
    }
}

#[test]
fn a_mic_token_verifies_against_its_payload() {
    let key = nt_owf("Password");
    let payload = b"This is a message";
    let header = sample_header();
    let token = mic_token(&key, KEY_USAGE_INITIATOR_MIC, &header, payload);
    assert_eq!(token.len(), 32);
    let accepted = verify_mic_token(&key, KEY_USAGE_INITIATOR_MIC, payload, &token).unwrap();
    assert_eq!(accepted, header);
}

#[test]
fn the_mic_checksum_agrees_with_the_crypto_kit() {
    let key = nt_owf("Password");
    let payload = b"This is a message";
    let header = sample_header();
    let token = mic_token(&key, KEY_USAGE_ACCEPTOR_MIC, &header, payload);
    let mut input = payload.to_vec();
    input.extend_from_slice(&token[..16]);
    let checksum = kerberos_crypto::checksum_hmac_md5(&key, KEY_USAGE_ACCEPTOR_MIC, &input);
    assert_eq!(&token[16..], checksum.as_slice());
}

#[test]
fn a_wrong_key_usage_or_key_rejects_the_token() {
    let key = nt_owf("Password");
    let payload = b"This is a message";
    let token = mic_token(&key, KEY_USAGE_INITIATOR_MIC, &sample_header(), payload);
    let err = verify_mic_token(&key, KEY_USAGE_ACCEPTOR_MIC, payload, &token).unwrap_err();
    assert_eq!(err.error_type, ErrorKind::MessageAltered);
    let other_key = nt_owf("password");
    let err = verify_mic_token(&other_key, KEY_USAGE_INITIATOR_MIC, payload, &token).unwrap_err();
    assert_eq!(err.error_type, ErrorKind::MessageAltered);
}

#[test]
fn tampering_any_byte_of_a_mic_token_rejects_it() {
    let key = nt_owf("Password");
    let payload = b"This is a message";
    let token = mic_token(&key, KEY_USAGE_INITIATOR_MIC, &sample_header(), payload);
    for i in 0..token.len() {
        let mut tampered = token.clone();
        tampered[i] ^= 0x01;
        let err = verify_mic_token(&key, KEY_USAGE_INITIATOR_MIC, payload, &tampered)
            .expect_err("a tampered token must be rejected");
        // A byte of the token id or the filler breaks the header shape; any
        // other byte leaves a well-shaped header whose checksum no longer
        // matches.
        let expected = if i == 0 || i == 1 || (3..8).contains(&i) {
            ErrorKind::InvalidToken
        } else {
            ErrorKind::MessageAltered
        };
        assert_eq!(err.error_type, expected, "byte {}", i);
    }
}

#[test]
fn tampering_the_payload_rejects_the_token() {
    let key = nt_owf("Password");
    let payload = b"This is a message";
    let token = mic_token(&key, KEY_USAGE_INITIATOR_MIC, &sample_header(), payload);
    let err = verify_mic_token(&key, KEY_USAGE_INITIATOR_MIC, b"This is a messagf", &token)
        .unwrap_err();
    assert_eq!(err.error_type, ErrorKind::MessageAltered);
}

#[test]
fn an_empty_payload_still_gets_a_full_integrity_check() {
    let key = nt_owf("Password");
    let header = sample_header();
    let token = mic_token(&key, KEY_USAGE_INITIATOR_MIC, &header, b"");
    // The token is the 16-byte header and the 16-byte checksum, nothing
    // else: an empty payload leaves no ciphertext behind.
    assert_eq!(token.len(), 32);
    let accepted = verify_mic_token(&key, KEY_USAGE_INITIATOR_MIC, b"", &token).unwrap();
    assert_eq!(accepted, header);
    // The empty payload is not interchangeable with another payload.
    let err = verify_mic_token(&key, KEY_USAGE_INITIATOR_MIC, b"x", &token).unwrap_err();
    assert_eq!(err.error_type, ErrorKind::MessageAltered);
}

#[test]
fn a_truncated_mic_token_is_invalid() {
    let key = nt_owf("Password");
    let payload = b"This is a message";
    let token = mic_token(&key, KEY_USAGE_INITIATOR_MIC, &sample_header(), payload);
    let err = verify_mic_token(&key, KEY_USAGE_INITIATOR_MIC, payload, &token[..31]).unwrap_err();
    assert_eq!(err.error_type, ErrorKind::InvalidToken);
    let err = verify_mic_token(&key, KEY_USAGE_INITIATOR_MIC, payload, &[]).unwrap_err();
    assert_eq!(err.error_type, ErrorKind::InvalidToken);
}
