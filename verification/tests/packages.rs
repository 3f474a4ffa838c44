use sspi::{
    enumerate_security_packages, query_security_package_info, validate_token_len, CredentialUse,
    DataRepresentation, ErrorKind, SecurityPackageType, MAX_TOKEN_LEN, PACKAGE_ID_NONE,
};

#[test]
fn query_ntlm_package_info() {
    let info = query_security_package_info(SecurityPackageType::Ntlm).unwrap();
    assert_eq!(info.name.to_string(), "NTLM");
    assert_eq!(info.comment, "NTLM Security Package");
    assert_eq!(info.rpc_id, PACKAGE_ID_NONE);
    assert_eq!(info.max_token_len, MAX_TOKEN_LEN);
}

#[test]
fn query_kerberos_package_info() {
    let info = query_security_package_info(SecurityPackageType::Kerberos).unwrap();
    assert_eq!(info.name.to_string(), "Kerberos");
    assert_eq!(info.comment, "Kerberos Security Package");
    assert_eq!(info.rpc_id, PACKAGE_ID_NONE);
    assert_eq!(info.max_token_len, MAX_TOKEN_LEN);
}

#[test]
fn query_unknown_package_fails() {
    let err =
        query_security_package_info(SecurityPackageType::Other("Schannel".to_string())).unwrap_err();
    assert_eq!(err.error_type, ErrorKind::Unknown);
}

#[test]
fn enumerate_lists_all_three_packages() {
    let packages = enumerate_security_packages().unwrap();
    assert_eq!(packages.len(), 3);
    assert_eq!(packages[0].name.to_string(), "Kerberos");
    assert_eq!(packages[1].name.to_string(), "Negotiate");
    assert_eq!(packages[2].name.to_string(), "NTLM");
}

#[test]
fn package_names_parse_and_print() {
    let ntlm = SecurityPackageType::from_str("NTLM").unwrap();
    assert!(matches!(ntlm, SecurityPackageType::Ntlm));
    let kerberos = SecurityPackageType::from_str("Kerberos").unwrap();
    assert!(matches!(kerberos, SecurityPackageType::Kerberos));
    let other = SecurityPackageType::from_str("CredSSP").unwrap();
    match &other {
        SecurityPackageType::Other(name) => assert_eq!(name, "CredSSP"),
        _ => panic!("an unknown name must parse to Other"),
    }
    // Printing what a name parsed to gives the name back.
    for name in ["NTLM", "Kerberos", "CredSSP", ""] {
        assert_eq!(
            SecurityPackageType::from_str(name).unwrap().to_string(),
            name
        );
    }
}

#[test]
fn max_size_token_is_accepted_and_one_more_byte_is_not() {
    assert!(validate_token_len(65536).is_ok());
    let err = validate_token_len(65537).unwrap_err();
    assert_eq!(err.error_type, ErrorKind::InvalidToken);
    assert!(validate_token_len(0).is_ok());
}

#[test]
fn data_representation_numbers_roundtrip() {
    assert_eq!(DataRepresentation::Network.to_u32(), 0);
    assert_eq!(DataRepresentation::Native.to_u32(), 0x10);
    for r in [DataRepresentation::Network, DataRepresentation::Native] {
        assert_eq!(DataRepresentation::from_u32(r.to_u32()), Some(r));
    }
    assert_eq!(DataRepresentation::from_u32(1), None);
}

#[test]
fn credential_use_numbers_roundtrip() {
    let uses = [
        CredentialUse::Inbound,
        CredentialUse::Outbound,
        CredentialUse::Both,
        CredentialUse::Default,
    ];
    for u in uses {
        assert_eq!(CredentialUse::from_u32(u.to_u32()), Some(u));
    }
    assert_eq!(CredentialUse::Inbound.to_u32(), 1);
    assert_eq!(CredentialUse::Outbound.to_u32(), 2);
    assert_eq!(CredentialUse::from_u32(0), None);
    assert_eq!(CredentialUse::from_u32(5), None);
}
