use sspi::{
    utf16le_encode, validate_acquire_arguments, AuthIdentity, AuthIdentityBuffers, CredentialUse,
    ErrorKind, SecurityPackageType,
};

fn std_utf16le(s: &str) -> Vec<u8> {
    let mut bytes = Vec::new();
    for unit in s.encode_utf16() {
        bytes.extend_from_slice(&unit.to_le_bytes());
    }
    bytes
}

#[test]
fn utf16le_of_ascii_interleaves_zero_bytes() {
    assert_eq!(
        utf16le_encode("Password"),
        vec![b'P', 0, b'a', 0, b's', 0, b's', 0, b'w', 0, b'o', 0, b'r', 0, b'd', 0]
    );
    assert_eq!(utf16le_encode(""), Vec::<u8>::new());
}

#[test]
fn utf16le_agrees_with_the_standard_encoder() {
    for s in [
        "",
        "user",
        "Domain\\User",
        "p@ssw0rd!",
        "\u{e9}l\u{e8}ve",
        "\u{4e16}\u{754c}",
        "mixed \u{1F512} lock \u{10348} hwair",
        "\u{10FFFF}\u{FFFD}",
    ] {
        assert_eq!(utf16le_encode(s), std_utf16le(s), "mismatch for {:?}", s);
    }
}

#[test]
fn identity_buffers_carry_the_utf16le_forms() {
    let identity = AuthIdentity {
        username: "User".to_string(),
        password: "Password".to_string(),
        domain: Some("Domain".to_string()),
    };
    let buffers = AuthIdentityBuffers::from_identity(&identity);
    assert_eq!(buffers.user, std_utf16le("User"));
    assert_eq!(buffers.domain, std_utf16le("Domain"));
    assert_eq!(buffers.password, std_utf16le("Password"));

    let bare = AuthIdentity {
        username: "user".to_string(),
        password: "password".to_string(),
        domain: None,
    };
    let buffers = AuthIdentityBuffers::from_identity(&bare);
    assert!(buffers.domain.is_empty());
}

#[test]
fn acquiring_credentials_validates_its_arguments() {
    let identity = AuthIdentity {
        username: "user".to_string(),
        password: "password".to_string(),
        domain: None,
    };
    // NTLM takes an identity without a domain.
    assert!(validate_acquire_arguments(
        &SecurityPackageType::Ntlm,
        CredentialUse::Outbound,
        &identity
    )
    .is_ok());
    // Kerberos requires a realm.
    let err = validate_acquire_arguments(
        &SecurityPackageType::Kerberos,
        CredentialUse::Outbound,
        &identity,
    )
    .unwrap_err();
    assert_eq!(err.error_type, ErrorKind::InvalidParameter);
    let with_realm = AuthIdentity {
        domain: Some("EXAMPLE.COM".to_string()),
        ..identity.clone()
    };
    assert!(validate_acquire_arguments(
        &SecurityPackageType::Kerberos,
        CredentialUse::Inbound,
        &with_realm
    )
    .is_ok());
    // An empty realm is no realm.
    let empty_realm = AuthIdentity {
        domain: Some(String::new()),
        ..identity.clone()
    };
    assert!(validate_acquire_arguments(
        &SecurityPackageType::Kerberos,
        CredentialUse::Inbound,
        &empty_realm
    )
    .is_err());
    // The default credential use is not acceptable.
    let err = validate_acquire_arguments(
        &SecurityPackageType::Ntlm,
        CredentialUse::Default,
        &identity,
    )
    .unwrap_err();
    assert_eq!(err.error_type, ErrorKind::InvalidParameter);
}
