//! A platform-independent core for SSPI-style security packages.
//!
//! The crate models the common surface that the NTLM and Kerberos
//! packages share: the security-buffer descriptors passed in and out of
//! every call, the package descriptors, the error taxonomy keyed by the
//! well-known SSPI status numbers, the credential model and its wire byte
//! form, the argument record for accepting a security context, the
//! per-message sequence counters and token layouts, and the
//! classification of a KDC endpoint.
//!
//! Failures of the wire-format and crypto collaborators are remapped to
//! the SSPI taxonomy at the boundary; the collaborators themselves do the
//! DER and cipher work.

mod buffer;
mod builder;
mod credentials;
mod crypto;
mod error;
mod flags;
mod gss_frame;
mod gss_token;
mod interop;
mod kdc;
mod ntlm_wire;
mod package;
mod protection;

pub use buffer::{split_buffer_type_value, SecurityBuffer, SecurityBufferType};
pub use buffer::{spec_buffer_type_from_u32, spec_buffer_type_to_u32};
pub use buffer::{spec_has_buffer, spec_is_first_buffer};
pub use builder::{
    AcceptSecurityContext, AcceptSecurityContextResult, FilledAcceptSecurityContext,
    InitializeSecurityContextResult, Sspi, SspiEx,
};
pub use credentials::{
    spec_utf16le_bytes, utf16le_encode, validate_acquire_arguments, AuthIdentity,
    AuthIdentityBuffers,
};
pub use crypto::{
    mic_token, nt_owf, spec_aes256_decrypt, spec_aes256_encrypt, spec_hmac_md5_checksum,
    spec_is_valid_mic_token, spec_is_valid_wrap_token, spec_md4, spec_mic_checksum_input,
    spec_nt_owf, spec_rrc_zeroed, unwrap_message, verify_mic_token, wrap_message,
    KEY_USAGE_ACCEPTOR_MIC, KEY_USAGE_INITIATOR_MIC,
};
pub use error::{Error, ErrorKind, SecurityStatus};
pub use flags::{
    CertTrustErrorStatus, CertTrustInfoStatus, ClientRequestFlags, ClientResponseFlags,
    DecryptionFlags, EncryptionFlags, PackageCapabilities, ServerRequestFlags, ServerResponseFlags,
};
pub use gss_frame::{
    decode_initial_context_token, encode_initial_context_token, spec_der_length_bytes,
    spec_initial_context_token_bytes, spec_is_initial_context_token, spec_krb5_oid_tlv,
    MAX_INNER_TOKEN_LEN, TOK_ID_AP_REP, TOK_ID_AP_REQ,
};
pub use gss_token::{
    decode_mic_token_header, decode_wrap_token_header, encode_mic_token_header,
    lemma_rotate_right_then_left, rotate_left, rotate_right, spec_rotate_left, spec_rotate_right,
    encode_wrap_token_header, lemma_mic_token_header_bytes_injective,
    lemma_wrap_token_header_bytes_injective, spec_is_mic_token_header, spec_is_wrap_token_header,
    spec_mic_token_header_bytes, spec_wrap_token_header_bytes, MicTokenHeader, WrapTokenHeader,
    GSS_FLAG_ACCEPTOR_SUBKEY, GSS_FLAG_SEALED, GSS_FLAG_SENT_BY_ACCEPTOR,
};
pub use interop::{
    error_from_asn1_der, error_from_charset_error, error_from_crypto_failure,
    error_from_gss_api_failure, error_from_gss_api_message_error, error_from_kerberos_crypto,
    error_from_krb_error, error_from_krb_error_code, CryptoFailure, GssApiFailure,
};
pub use kdc::{
    kdc_type_from_scheme, kdc_url_scheme, normalize_kdc_url, parse_kdc_url, validate_clock_skew,
    KdcType, MAX_CLOCK_SKEW_SECONDS,
};
pub use ntlm_wire::{
    decode_negotiate_message, empty_target_info, encode_negotiate_message, encode_ntlm_header,
    ntlmv2_blob, spec_ntlmv2_blob_bytes, spec_u64_le_bytes,
    lemma_negotiate_message_bytes_injective, negotiate_message, ntlm_message_type,
    spec_has_ntlm_header, spec_is_negotiate_message, spec_negotiate_message_bytes,
    spec_ntlm_field_bytes, spec_ntlm_header_bytes, spec_ntlmssp_marker, spec_u16_le_bytes,
    negotiated_flags, NegotiateMessage, NtlmField, AUTHENTICATE_MESSAGE_TYPE,
    CHALLENGE_MESSAGE_TYPE, DEFAULT_NEGOTIATE_FLAGS, NEGOTIATE_MESSAGE_TYPE,
};
pub use package::{
    enumerate_security_packages, query_security_package_info, validate_token_len, CertTrustStatus,
    ContextNames, ContextSizes, CredentialUse, DataRepresentation, PackageInfo,
    SecurityPackageType, KERBEROS_PKG_NAME, MAX_TOKEN_LEN, NEGOTIATE_PKG_NAME, NTLM_PKG_NAME,
    PACKAGE_ID_NONE,
};
pub use protection::{
    ntlm_signature, spec_ntlm_signature_bytes, spec_u32_le_bytes, u32_le_bytes, MessageSequence,
};
pub use error::{get_krb_status_from_code, krb_error_kind_from_code};
