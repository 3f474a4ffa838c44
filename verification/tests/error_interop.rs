use kerberos_crypto::Error as KerberosCryptoError;
use picky_asn1::date::Date;
use picky_asn1::restricted_string::Ia5String;
use picky_asn1::wrapper::{
    Asn1SequenceOf, ExplicitContextTag0, ExplicitContextTag1, ExplicitContextTag10,
    ExplicitContextTag4, ExplicitContextTag5, ExplicitContextTag6, ExplicitContextTag9,
    GeneralStringAsn1, GeneralizedTimeAsn1, IntegerAsn1, Optional,
};
use picky_asn1_der::Asn1DerError;
use picky_krb::data_types::PrincipalName;
use picky_krb::gss_api::GssApiMessageError;
use picky_krb::messages::{KrbError, KrbErrorInner};
use sspi::{CryptoFailure, ErrorKind, GssApiFailure};

#[test]
fn crypto_decryption_failures_surface_as_decrypt_failure() {
    let err = sspi::error_from_kerberos_crypto(KerberosCryptoError::DecryptionError(
        "hmac mismatch".to_string(),
    ));
    assert_eq!(err.error_type, ErrorKind::DecryptFailure);
    assert_eq!(err.description, "hmac mismatch");
}

#[test]
fn other_crypto_failures_surface_as_internal_errors() {
    let err = sspi::error_from_kerberos_crypto(KerberosCryptoError::UnsupportedAlgorithm(99));
    assert_eq!(err.error_type, ErrorKind::InternalError);
    let err = sspi::error_from_kerberos_crypto(KerberosCryptoError::InvalidKeyCharset);
    assert_eq!(err.error_type, ErrorKind::InternalError);
    assert_eq!(err.description, "invalid key charset");
    let err = sspi::error_from_kerberos_crypto(KerberosCryptoError::InvalidKeyLength(32));
    assert_eq!(err.error_type, ErrorKind::InternalError);
}

#[test]
fn crypto_failure_mirror_maps_exactly() {
    let err = sspi::error_from_crypto_failure(CryptoFailure::Decryption("bad pad".to_string()));
    assert_eq!(err.error_type, ErrorKind::DecryptFailure);
    assert_eq!(err.description, "bad pad");
    let err = sspi::error_from_crypto_failure(CryptoFailure::UnsupportedAlgorithm(3));
    assert_eq!(err.error_type, ErrorKind::InternalError);
    assert_eq!(err.description, "unsupported algorithm");
}

#[test]
fn gss_api_framing_failures_surface_as_invalid_tokens() {
    let err =
        sspi::error_from_gss_api_message_error(&GssApiMessageError::InvalidId([5, 4], [0, 0]));
    assert_eq!(err.error_type, ErrorKind::InvalidToken);
    let err = sspi::error_from_gss_api_message_error(&GssApiMessageError::InvalidWrapFiller(3));
    assert_eq!(err.error_type, ErrorKind::InvalidToken);
    let err = sspi::error_from_gss_api_message_error(&GssApiMessageError::InvalidMicFiller(
        [0, 0, 0, 0, 0],
    ));
    assert_eq!(err.error_type, ErrorKind::InvalidToken);
    let err = sspi::error_from_gss_api_message_error(&GssApiMessageError::Asn1Error(
        Asn1DerError::TruncatedData,
    ));
    assert_eq!(err.error_type, ErrorKind::InvalidToken);
}

#[test]
fn gss_api_io_failures_surface_as_internal_errors() {
    let io_err = std::io::Error::new(std::io::ErrorKind::UnexpectedEof, "cut short");
    let err = sspi::error_from_gss_api_message_error(&GssApiMessageError::IoError(io_err));
    assert_eq!(err.error_type, ErrorKind::InternalError);
    let err = sspi::error_from_gss_api_failure(GssApiFailure::Io);
    assert_eq!(err.error_type, ErrorKind::InternalError);
}

#[test]
fn der_failures_surface_as_invalid_tokens() {
    for e in [
        Asn1DerError::TruncatedData,
        Asn1DerError::InvalidData,
        Asn1DerError::UnsupportedValue,
        Asn1DerError::Message("odd length".to_string()),
    ] {
        let err = sspi::error_from_asn1_der(&e);
        assert_eq!(err.error_type, ErrorKind::InvalidToken);
    }
}

#[test]
fn charset_failures_surface_as_internal_errors() {
    let charset_err = Ia5String::from_string("\u{4e16}".to_string()).unwrap_err();
    let err = sspi::error_from_charset_error(charset_err);
    assert_eq!(err.error_type, ErrorKind::InternalError);
    assert_eq!(err.description, "invalid charset");
}

fn krb_error_with_code(code: u32) -> KrbError {
    let realm = GeneralStringAsn1::from(Ia5String::from_string("EXAMPLE.COM".to_owned()).unwrap());
    KrbError::from(KrbErrorInner {
        pvno: ExplicitContextTag0::from(IntegerAsn1(vec![5])),
        msg_type: ExplicitContextTag1::from(IntegerAsn1(vec![30])),
        ctime: Optional::from(None),
        cusec: Optional::from(None),
        stime: ExplicitContextTag4::from(GeneralizedTimeAsn1::from(
            Date::new(2024, 2, 29, 10, 0, 0).unwrap(),
        )),
        susec: ExplicitContextTag5::from(IntegerAsn1(vec![0])),
        error_code: ExplicitContextTag6::from(code),
        crealm: Optional::from(None),
        cname: Optional::from(None),
        realm: ExplicitContextTag9::from(realm.clone()),
        sname: ExplicitContextTag10::from(PrincipalName {
            name_type: ExplicitContextTag0::from(IntegerAsn1(vec![2])),
            name_string: ExplicitContextTag1::from(Asn1SequenceOf::from(vec![realm])),
        }),
        e_text: Optional::from(None),
        e_data: Optional::from(None),
    })
}

#[test]
fn a_clock_skew_krb_error_surfaces_as_time_skew() {
    let err = sspi::error_from_krb_error(&krb_error_with_code(37));
    assert_eq!(err.error_type, ErrorKind::TimeSkew);
    assert_eq!(err.description, "Got the krb error: KRB_AP_ERR_SKEW");
}

#[test]
fn krb_error_codes_surface_by_the_mapping_table() {
    let err = sspi::error_from_krb_error(&krb_error_with_code(24));
    assert_eq!(err.error_type, ErrorKind::LogonDenied);
    let err = sspi::error_from_krb_error(&krb_error_with_code(6));
    assert_eq!(err.error_type, ErrorKind::TargetUnknown);
    let err = sspi::error_from_krb_error(&krb_error_with_code(68));
    assert_eq!(err.error_type, ErrorKind::NoAuthenticatingAuthority);
    let err = sspi::error_from_krb_error(&krb_error_with_code(60));
    assert_eq!(err.error_type, ErrorKind::InternalError);
    assert_eq!(err.description, "Got the krb error: KRB_ERR_GENERIC");
}

#[test]
fn krb_error_codes_outside_one_byte_read_missing_error() {
    let err = sspi::error_from_krb_error_code(300);
    assert_eq!(err.error_type, ErrorKind::InternalError);
    assert_eq!(err.description, "Got the krb error: MISSING_ERROR");
    let err = sspi::error_from_krb_error_code(0x1C);
    assert_eq!(err.error_type, ErrorKind::InternalError);
    assert_eq!(err.description, "Got the krb error: MISSING_ERROR");
}
