use sspi::{ErrorKind, SecurityStatus};

#[test]
fn error_kind_numbers_match_the_sspi_taxonomy() {
    assert_eq!(ErrorKind::Unknown.to_u32(), 0);
    assert_eq!(ErrorKind::InvalidHandle.to_u32(), 0x8009_0301);
    assert_eq!(ErrorKind::InvalidToken.to_u32(), 0x8009_0308);
    assert_eq!(ErrorKind::MessageAltered.to_u32(), 0x8009_030F);
    assert_eq!(ErrorKind::OutOfSequence.to_u32(), 0x8009_0310);
    assert_eq!(ErrorKind::TimeSkew.to_u32(), 0x8009_0324);
    assert_eq!(ErrorKind::EncryptFailure.to_u32(), 0x8009_0329);
    assert_eq!(ErrorKind::DecryptFailure.to_u32(), 0x8009_0330);
    assert_eq!(ErrorKind::AlgorithmMismatch.to_u32(), 0x8009_0331);
    assert_eq!(ErrorKind::MutualAuthFailed.to_u32(), 0x8009_0363);
    assert_eq!(ErrorKind::ApplicationProtocolMismatch.to_u32(), 0x8009_0367);
}

#[test]
fn error_kind_number_roundtrip() {
    let kinds = vec![
        ErrorKind::Unknown,
        ErrorKind::InsufficientMemory,
        ErrorKind::TargetUnknown,
        ErrorKind::InternalError,
        ErrorKind::InvalidToken,
        ErrorKind::LogonDenied,
        ErrorKind::NoCredentials,
        ErrorKind::MessageAltered,
        ErrorKind::OutOfSequence,
        ErrorKind::NoAuthenticatingAuthority,
        ErrorKind::BufferTooSmall,
        ErrorKind::TimeSkew,
        ErrorKind::UntrustedRoot,
        ErrorKind::EncryptFailure,
        ErrorKind::DecryptFailure,
        ErrorKind::AlgorithmMismatch,
        ErrorKind::WrongCredentialHandle,
        ErrorKind::DowngradeDetected,
        ErrorKind::InvalidParameter,
        ErrorKind::MutualAuthFailed,
        ErrorKind::ApplicationProtocolMismatch,
    ];
    for kind in kinds {
        assert_eq!(ErrorKind::from_u32(kind.to_u32()), Some(kind));
    }
}

#[test]
fn error_kind_from_unknown_number_is_none() {
    assert_eq!(ErrorKind::from_u32(0xDEAD_BEEF), None);
    assert_eq!(ErrorKind::from_u32(0x8009_0312), None);
    assert_eq!(ErrorKind::from_u32(1), None);
}

#[test]
fn security_status_numbers_match_the_sspi_taxonomy() {
    assert_eq!(SecurityStatus::Success.to_u32(), 0);
    assert_eq!(SecurityStatus::ContinueNeeded.to_u32(), 0x0009_0312);
    assert_eq!(SecurityStatus::CompleteNeeded.to_u32(), 0x0009_0313);
    assert_eq!(SecurityStatus::CompleteAndContinue.to_u32(), 0x0009_0314);
    assert_eq!(SecurityStatus::LocalLogon.to_u32(), 0x0009_0315);
    assert_eq!(SecurityStatus::ContextExpired.to_u32(), 0x0009_0317);
    assert_eq!(SecurityStatus::IncompleteCredentials.to_u32(), 0x0009_0320);
    assert_eq!(SecurityStatus::Renegotiate.to_u32(), 0x0009_0321);
    assert_eq!(SecurityStatus::NoLsaContext.to_u32(), 0x0009_0323);
}

#[test]
fn security_status_number_roundtrip() {
    let statuses = vec![
        SecurityStatus::Success,
        SecurityStatus::ContinueNeeded,
        SecurityStatus::CompleteNeeded,
        SecurityStatus::CompleteAndContinue,
        SecurityStatus::LocalLogon,
        SecurityStatus::ContextExpired,
        SecurityStatus::IncompleteCredentials,
        SecurityStatus::Renegotiate,
        SecurityStatus::NoLsaContext,
    ];
    for status in statuses {
        assert_eq!(SecurityStatus::from_u32(status.to_u32()), Some(status));
    }
    assert_eq!(SecurityStatus::from_u32(0x1234), None);
}

#[test]
fn krb_status_labels_from_codes() {
    assert_eq!(sspi::get_krb_status_from_code(&[0x0]), "KDC_ERR_NONE");
    assert_eq!(
        sspi::get_krb_status_from_code(&[0x6]),
        "Unrecognised Username - KDC_ERR_C_PRINCIPAL_UNKNOWN"
    );
    assert_eq!(
        sspi::get_krb_status_from_code(&[0x18]),
        "Incorrect Credentials - KDC_ERR_PREAUTH_FAILED"
    );
    assert_eq!(sspi::get_krb_status_from_code(&[0x25]), "KRB_AP_ERR_SKEW");
    assert_eq!(
        sspi::get_krb_status_from_code(&[0x44]),
        "Unrecognised Domain - KDC_ERR_WRONG_REALM"
    );
}

#[test]
fn krb_status_labels_for_codes_outside_the_table() {
    // The unlabelled span of KRB-ERROR codes reads MISSING_ERROR.
    assert_eq!(sspi::get_krb_status_from_code(&[0x1C]), "MISSING_ERROR");
    assert_eq!(sspi::get_krb_status_from_code(&[0x2B]), "MISSING_ERROR");
    assert_eq!(sspi::get_krb_status_from_code(&[0x45]), "MISSING_ERROR");
    // So does a code that is not a single byte.
    assert_eq!(sspi::get_krb_status_from_code(&[]), "MISSING_ERROR");
    assert_eq!(sspi::get_krb_status_from_code(&[0x1, 0x2]), "MISSING_ERROR");
}

#[test]
fn krb_error_codes_map_to_sspi_error_kinds() {
    assert_eq!(sspi::krb_error_kind_from_code(6), ErrorKind::TargetUnknown);
    assert_eq!(sspi::krb_error_kind_from_code(24), ErrorKind::LogonDenied);
    assert_eq!(sspi::krb_error_kind_from_code(37), ErrorKind::TimeSkew);
    assert_eq!(
        sspi::krb_error_kind_from_code(68),
        ErrorKind::NoAuthenticatingAuthority
    );
    assert_eq!(sspi::krb_error_kind_from_code(60), ErrorKind::InternalError);
    assert_eq!(sspi::krb_error_kind_from_code(0), ErrorKind::InternalError);
}

#[test]
fn error_new_keeps_kind_and_description() {
    let error = sspi::Error::new(ErrorKind::BufferTooSmall, "too small".to_string());
    assert_eq!(error.error_type, ErrorKind::BufferTooSmall);
    assert_eq!(error.description, "too small");
}
