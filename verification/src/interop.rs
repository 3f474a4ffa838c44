//! The boundary where failures of the wire-format and crypto collaborators
//! are remapped to the SSPI error taxonomy.
//!
//! Each outside error type is split into a plain mirror of its variants by
//! a small trusted wrapper; the mapping from the mirror to an `Error` is
//! verified, and states exactly which error kind each variant surfaces as.

use vstd::prelude::*;

use kerberos_crypto::Error as KerberosCryptoError;

use crate::error::{spec_krb_code_label, spec_krb_error_kind, Error, ErrorKind};
use crate::error::{get_krb_status_from_code, krb_error_kind_from_code};

verus! {

#[verifier::external_type_specification]
#[verifier::external_body]
pub struct ExKerberosCryptoError(KerberosCryptoError);

#[verifier::external_type_specification]
#[verifier::external_body]
pub struct ExGssApiMessageError(picky_krb::gss_api::GssApiMessageError);

#[verifier::external_type_specification]
#[verifier::external_body]
pub struct ExAsn1DerError(picky_asn1_der::Asn1DerError);

#[verifier::external_type_specification]
#[verifier::external_body]
pub struct ExCharSetError(picky_asn1::restricted_string::CharSetError);

#[verifier::external_type_specification]
#[verifier::external_body]
#[verifier::reject_recursive_types(V)]
pub struct ExApplicationTag<V: core::fmt::Debug + PartialEq, const T: u8>(
    picky_asn1_der::application_tag::ApplicationTag<V, T>,
);

#[verifier::external_type_specification]
#[verifier::external_body]
pub struct ExKrbErrorInner(picky_krb::messages::KrbErrorInner);

/// A crypto-kit failure, with the payloads its variants carry.
#[derive(Debug, Clone)]
pub enum CryptoFailure {
    /// The data could not be decrypted.
    Decryption(String),
    /// The data is protected with an unsupported crypto algorithm.
    UnsupportedAlgorithm(i32),
    /// A key was written in characters outside its hexadecimal charset.
    InvalidKeyCharset,
    /// A key has the wrong length; the payload is the expected length.
    InvalidKeyLength(usize),
}

/// Relies on the variants of kerberos_crypto::Error: one arm per variant,
/// moving its payload over.
#[verifier::external_body]
fn crypto_failure_of(err: KerberosCryptoError) -> CryptoFailure {
    match err {
        KerberosCryptoError::DecryptionError(description) => CryptoFailure::Decryption(
            description,
        ),
        KerberosCryptoError::UnsupportedAlgorithm(alg) => CryptoFailure::UnsupportedAlgorithm(
            alg,
        ),
        KerberosCryptoError::InvalidKeyCharset => CryptoFailure::InvalidKeyCharset,
        KerberosCryptoError::InvalidKeyLength(len) => CryptoFailure::InvalidKeyLength(len),
    }
}

/// The SSPI error that a crypto-kit failure surfaces as: a decryption
/// failure keeps its description under `DecryptFailure`, and every other
/// failure is an `InternalError`.
pub fn error_from_crypto_failure(failure: CryptoFailure) -> (r: Error)
    ensures
        failure matches CryptoFailure::Decryption(description) ==> r.error_type
            == ErrorKind::DecryptFailure && r.description == description,
        !(failure is Decryption) ==> r.error_type == ErrorKind::InternalError,
        failure is UnsupportedAlgorithm ==> r.description@ == "unsupported algorithm"@,
        failure is InvalidKeyCharset ==> r.description@ == "invalid key charset"@,
        failure is InvalidKeyLength ==> r.description@ == "invalid key length"@,
{
    match failure {
        CryptoFailure::Decryption(description) => Error::new(ErrorKind::DecryptFailure, description),
        CryptoFailure::UnsupportedAlgorithm(_) => Error::new(
            ErrorKind::InternalError,
            String::from_str("unsupported algorithm"),
        ),
        CryptoFailure::InvalidKeyCharset => Error::new(
            ErrorKind::InternalError,
            String::from_str("invalid key charset"),
        ),
        CryptoFailure::InvalidKeyLength(_) => Error::new(
            ErrorKind::InternalError,
            String::from_str("invalid key length"),
        ),
    }
}

/// The SSPI error that a failure of the crypto kit surfaces as: a
/// decryption failure is a `DecryptFailure`, anything else an
/// `InternalError`.
pub fn error_from_kerberos_crypto(err: KerberosCryptoError) -> (r: Error)
    ensures
        r.error_type == ErrorKind::DecryptFailure || r.error_type == ErrorKind::InternalError,
{
    error_from_crypto_failure(crypto_failure_of(err))
}

/// A GSS-API token-framing failure, by variant.
#[derive(Debug, Copy, Clone, Eq, PartialEq, Structural)]
pub enum GssApiFailure {
    /// The token id is not the expected one.
    InvalidId,
    /// The mechanism OID is not the expected one.
    InvalidMechanismOid,
    /// Reading or writing the token failed.
    Io,
    /// The filler bytes of a MIC token are wrong.
    InvalidMicFiller,
    /// The filler byte of a Wrap token is wrong.
    InvalidWrapFiller,
    /// The DER encoding under the token is wrong.
    Asn1,
}

/// Relies on the variants of picky_krb::gss_api::GssApiMessageError: one
/// arm per variant.
#[verifier::external_body]
fn gss_api_failure_of(err: &picky_krb::gss_api::GssApiMessageError) -> GssApiFailure {
    match err {
        picky_krb::gss_api::GssApiMessageError::InvalidId(_, _) => GssApiFailure::InvalidId,
        picky_krb::gss_api::GssApiMessageError::InvalidMechanismOid(_, _) => GssApiFailure::InvalidMechanismOid,
        picky_krb::gss_api::GssApiMessageError::IoError(_) => GssApiFailure::Io,
        picky_krb::gss_api::GssApiMessageError::InvalidMicFiller(_) => GssApiFailure::InvalidMicFiller,
        picky_krb::gss_api::GssApiMessageError::InvalidWrapFiller(_) => GssApiFailure::InvalidWrapFiller,
        picky_krb::gss_api::GssApiMessageError::Asn1Error(_) => GssApiFailure::Asn1,
    }
}

/// The SSPI error that a GSS-API framing failure surfaces as: an I/O
/// failure is an `InternalError`, and every malformed-token failure an
/// `InvalidToken`.
pub fn error_from_gss_api_failure(failure: GssApiFailure) -> (r: Error)
    ensures
        failure is Io ==> r.error_type == ErrorKind::InternalError,
        !(failure is Io) ==> r.error_type == ErrorKind::InvalidToken,
{
    match failure {
        GssApiFailure::InvalidId => Error::new(
            ErrorKind::InvalidToken,
            String::from_str("invalid token id"),
        ),
        GssApiFailure::InvalidMechanismOid => Error::new(
            ErrorKind::InvalidToken,
            String::from_str("invalid mechanism oid"),
        ),
        GssApiFailure::Io => Error::new(
            ErrorKind::InternalError,
            String::from_str("the token could not be read or written"),
        ),
        GssApiFailure::InvalidMicFiller => Error::new(
            ErrorKind::InvalidToken,
            String::from_str("invalid mic token filler"),
        ),
        GssApiFailure::InvalidWrapFiller => Error::new(
            ErrorKind::InvalidToken,
            String::from_str("invalid wrap token filler"),
        ),
        GssApiFailure::Asn1 => Error::new(
            ErrorKind::InvalidToken,
            String::from_str("malformed der under the token"),
        ),
    }
}

/// The SSPI error that a GSS-API framing failure surfaces as.
pub fn error_from_gss_api_message_error(err: &picky_krb::gss_api::GssApiMessageError) -> (r: Error)
    ensures
        r.error_type == ErrorKind::InvalidToken || r.error_type == ErrorKind::InternalError,
{
    error_from_gss_api_failure(gss_api_failure_of(err))
}

/// Relies on picky_asn1_der's Debug rendering of Asn1DerError for the
/// description text.
#[verifier::external_body]
fn asn1_der_error_text(err: &picky_asn1_der::Asn1DerError) -> String {
    format!("ASN1 DER error: {:?}", err)
}

/// The SSPI error that a DER decoding failure surfaces as: always an
/// `InvalidToken`.
pub fn error_from_asn1_der(err: &picky_asn1_der::Asn1DerError) -> (r: Error)
    ensures
        r.error_type == ErrorKind::InvalidToken,
{
    Error::new(ErrorKind::InvalidToken, asn1_der_error_text(err))
}

/// The SSPI error that a restricted-string charset failure surfaces as:
/// always an `InternalError`.
pub fn error_from_charset_error(_err: picky_asn1::restricted_string::CharSetError) -> (r: Error)
    ensures
        r.error_type == ErrorKind::InternalError,
        r.description@ == "invalid charset"@,
{
    Error::new(ErrorKind::InternalError, String::from_str("invalid charset"))
}

/// Relies on the layout of picky_krb's KRB-ERROR: picks the error-code
/// field out of the tagged record.
#[verifier::external_body]
fn krb_error_code(err: &picky_krb::messages::KrbError) -> u32 {
    err.0.error_code.0
}

/// The SSPI error that a KRB-ERROR with the given code surfaces as. The
/// kind follows the code as `krb_error_kind_from_code` maps it, and the
/// description carries the label of the code.
pub fn error_from_krb_error_code(code: u32) -> (r: Error)
    ensures
        r.error_type == spec_krb_error_kind(code),
        code <= 255 ==> r.description@ == "Got the krb error: "@ + spec_krb_code_label(code as u8),
        code > 255 ==> r.description@ == "Got the krb error: "@ + "MISSING_ERROR"@,
{
    let kind = krb_error_kind_from_code(code);
    let label: &'static str = if code <= 255 {
        let code_bytes: Vec<u8> = vec![code as u8];
        get_krb_status_from_code(code_bytes.as_slice())
    } else {
        "MISSING_ERROR"
    };
    let description = String::from_str("Got the krb error: ").concat(label);
    Error::new(kind, description)
}

/// The SSPI error that a KRB-ERROR message surfaces as: the kind that its
/// error code maps to.
pub fn error_from_krb_error(err: &picky_krb::messages::KrbError) -> (r: Error)
    ensures
        r.error_type == ErrorKind::TargetUnknown || r.error_type == ErrorKind::LogonDenied
            || r.error_type == ErrorKind::TimeSkew || r.error_type
            == ErrorKind::NoAuthenticatingAuthority || r.error_type == ErrorKind::InternalError,
{
    error_from_krb_error_code(krb_error_code(err))
}

} // verus!
