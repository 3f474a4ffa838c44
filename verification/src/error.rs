//! The SSPI error taxonomy: the closed set of error kinds keyed by the
//! well-known SSPI status numbers, the success statuses, the error value
//! carried by every fallible operation, and the mapping of Kerberos
//! KRB-ERROR codes to labels and to error kinds.

use vstd::prelude::*;

verus! {

/// The kind of an SSPI related error. Enables to specify an error based on its type.
///
/// Each kind corresponds to one of the well-known SSPI HRESULT numbers;
/// `ErrorKind::to_u32` gives that number and `ErrorKind::from_u32` maps it
/// back.
#[derive(Debug, Copy, Clone, Eq, PartialEq, Structural)]
pub enum ErrorKind {
    Unknown,
    InsufficientMemory,
    InvalidHandle,
    UnsupportedFunction,
    TargetUnknown,
    /// May correspond to any internal error (I/O error, server error, etc.).
    InternalError,
    SecurityPackageNotFound,
    NotOwned,
    CannotInstall,
    /// Used in cases when supplied data is missing or invalid.
    InvalidToken,
    CannotPack,
    OperationNotSupported,
    NoImpersonation,
    LogonDenied,
    UnknownCredentials,
    NoCredentials,
    /// Used in contexts of supplying invalid credentials.
    MessageAltered,
    /// Used when a required NTLM state does not correspond to the current.
    OutOfSequence,
    NoAuthenticatingAuthority,
    BadPackageId,
    ContextExpired,
    IncompleteMessage,
    IncompleteCredentials,
    BufferTooSmall,
    WrongPrincipalName,
    TimeSkew,
    UntrustedRoot,
    IllegalMessage,
    CertificateUnknown,
    CertificateExpired,
    EncryptFailure,
    DecryptFailure,
    AlgorithmMismatch,
    SecurityQosFailed,
    UnfinishedContextDeleted,
    NoTgtReply,
    NoIpAddress,
    WrongCredentialHandle,
    CryptoSystemInvalid,
    MaxReferralsExceeded,
    MustBeKdc,
    StrongCryptoNotSupported,
    TooManyPrincipals,
    NoPaData,
    PkInitNameMismatch,
    SmartCardLogonRequired,
    ShutdownInProgress,
    KdcInvalidRequest,
    KdcUnknownEType,
    KdcUnknownEType2,
    UnsupportedPreAuth,
    DelegationRequired,
    BadBindings,
    MultipleAccounts,
    NoKerdKey,
    CertWrongUsage,
    DowngradeDetected,
    SmartCardCertificateRevoked,
    IssuingCAUntrusted,
    RevocationOffline,
    PkInitClientFailure,
    SmartCardCertExpired,
    NoS4uProtSupport,
    CrossRealmDelegationFailure,
    RevocationOfflineKdc,
    IssuingCaUntrustedKdc,
    KdcCertExpired,
    KdcCertRevoked,
    InvalidParameter,
    DelegationPolicy,
    PolicyNtlmOnly,
    NoContext,
    Pku2uCertFailure,
    MutualAuthFailed,
    OnlyHttpsAllowed,
    ApplicationProtocolMismatch,
}

/// The SSPI status number of an error kind.
pub open spec fn spec_error_kind_to_u32(kind: ErrorKind) -> u32 {
    match kind {
        ErrorKind::Unknown => 0,
        ErrorKind::InsufficientMemory => 0x8009_0300,
        ErrorKind::InvalidHandle => 0x8009_0301,
        ErrorKind::UnsupportedFunction => 0x8009_0302,
        ErrorKind::TargetUnknown => 0x8009_0303,
        ErrorKind::InternalError => 0x8009_0304,
        ErrorKind::SecurityPackageNotFound => 0x8009_0305,
        ErrorKind::NotOwned => 0x8009_0306,
        ErrorKind::CannotInstall => 0x8009_0307,
        ErrorKind::InvalidToken => 0x8009_0308,
        ErrorKind::CannotPack => 0x8009_0309,
        ErrorKind::OperationNotSupported => 0x8009_030A,
        ErrorKind::NoImpersonation => 0x8009_030B,
        ErrorKind::LogonDenied => 0x8009_030C,
        ErrorKind::UnknownCredentials => 0x8009_030D,
        ErrorKind::NoCredentials => 0x8009_030E,
        ErrorKind::MessageAltered => 0x8009_030F,
        ErrorKind::OutOfSequence => 0x8009_0310,
        ErrorKind::NoAuthenticatingAuthority => 0x8009_0311,
        ErrorKind::BadPackageId => 0x8009_0316,
        ErrorKind::ContextExpired => 0x8009_0317,
        ErrorKind::IncompleteMessage => 0x8009_0318,
        ErrorKind::IncompleteCredentials => 0x8009_0320,
        ErrorKind::BufferTooSmall => 0x8009_0321,
        ErrorKind::WrongPrincipalName => 0x8009_0322,
        ErrorKind::TimeSkew => 0x8009_0324,
        ErrorKind::UntrustedRoot => 0x8009_0325,
        ErrorKind::IllegalMessage => 0x8009_0326,
        ErrorKind::CertificateUnknown => 0x8009_0327,
        ErrorKind::CertificateExpired => 0x8009_0328,
        ErrorKind::EncryptFailure => 0x8009_0329,
        ErrorKind::DecryptFailure => 0x8009_0330,
        ErrorKind::AlgorithmMismatch => 0x8009_0331,
        ErrorKind::SecurityQosFailed => 0x8009_0332,
        ErrorKind::UnfinishedContextDeleted => 0x8009_0333,
        ErrorKind::NoTgtReply => 0x8009_0334,
        ErrorKind::NoIpAddress => 0x8009_0335,
        ErrorKind::WrongCredentialHandle => 0x8009_0336,
        ErrorKind::CryptoSystemInvalid => 0x8009_0337,
        ErrorKind::MaxReferralsExceeded => 0x8009_0338,
        ErrorKind::MustBeKdc => 0x8009_0339,
        ErrorKind::StrongCryptoNotSupported => 0x8009_033A,
        ErrorKind::TooManyPrincipals => 0x8009_033B,
        ErrorKind::NoPaData => 0x8009_033C,
        ErrorKind::PkInitNameMismatch => 0x8009_033D,
        ErrorKind::SmartCardLogonRequired => 0x8009_033E,
        ErrorKind::ShutdownInProgress => 0x8009_033F,
        ErrorKind::KdcInvalidRequest => 0x8009_0340,
        ErrorKind::KdcUnknownEType => 0x8009_0341,
        ErrorKind::KdcUnknownEType2 => 0x8009_0342,
        ErrorKind::UnsupportedPreAuth => 0x8009_0343,
        ErrorKind::DelegationRequired => 0x8009_0345,
        ErrorKind::BadBindings => 0x8009_0346,
        ErrorKind::MultipleAccounts => 0x8009_0347,
        ErrorKind::NoKerdKey => 0x8009_0348,
        ErrorKind::CertWrongUsage => 0x8009_0349,
        ErrorKind::DowngradeDetected => 0x8009_0350,
        ErrorKind::SmartCardCertificateRevoked => 0x8009_0351,
        ErrorKind::IssuingCAUntrusted => 0x8009_0352,
        ErrorKind::RevocationOffline => 0x8009_0353,
        ErrorKind::PkInitClientFailure => 0x8009_0354,
        ErrorKind::SmartCardCertExpired => 0x8009_0355,
        ErrorKind::NoS4uProtSupport => 0x8009_0356,
        ErrorKind::CrossRealmDelegationFailure => 0x8009_0357,
        ErrorKind::RevocationOfflineKdc => 0x8009_0358,
        ErrorKind::IssuingCaUntrustedKdc => 0x8009_0359,
        ErrorKind::KdcCertExpired => 0x8009_035A,
        ErrorKind::KdcCertRevoked => 0x8009_035B,
        ErrorKind::InvalidParameter => 0x8009_035D,
        ErrorKind::DelegationPolicy => 0x8009_035E,
        ErrorKind::PolicyNtlmOnly => 0x8009_035F,
        ErrorKind::NoContext => 0x8009_0361,
        ErrorKind::Pku2uCertFailure => 0x8009_0362,
        ErrorKind::MutualAuthFailed => 0x8009_0363,
        ErrorKind::OnlyHttpsAllowed => 0x8009_0365,
        ErrorKind::ApplicationProtocolMismatch => 0x8009_0367,
    }
}

/// The error kind keyed by an SSPI status number, if the number is one of
/// the closed set.
pub open spec fn spec_error_kind_from_u32(value: u32) -> Option<ErrorKind> {
    match value {
        0 => Some(ErrorKind::Unknown),
        0x8009_0300u32 => Some(ErrorKind::InsufficientMemory),
        0x8009_0301u32 => Some(ErrorKind::InvalidHandle),
        0x8009_0302u32 => Some(ErrorKind::UnsupportedFunction),
        0x8009_0303u32 => Some(ErrorKind::TargetUnknown),
        0x8009_0304u32 => Some(ErrorKind::InternalError),
        0x8009_0305u32 => Some(ErrorKind::SecurityPackageNotFound),
        0x8009_0306u32 => Some(ErrorKind::NotOwned),
        0x8009_0307u32 => Some(ErrorKind::CannotInstall),
        0x8009_0308u32 => Some(ErrorKind::InvalidToken),
        0x8009_0309u32 => Some(ErrorKind::CannotPack),
        0x8009_030Au32 => Some(ErrorKind::OperationNotSupported),
        0x8009_030Bu32 => Some(ErrorKind::NoImpersonation),
        0x8009_030Cu32 => Some(ErrorKind::LogonDenied),
        0x8009_030Du32 => Some(ErrorKind::UnknownCredentials),
        0x8009_030Eu32 => Some(ErrorKind::NoCredentials),
        0x8009_030Fu32 => Some(ErrorKind::MessageAltered),
        0x8009_0310u32 => Some(ErrorKind::OutOfSequence),
        0x8009_0311u32 => Some(ErrorKind::NoAuthenticatingAuthority),
        0x8009_0316u32 => Some(ErrorKind::BadPackageId),
        0x8009_0317u32 => Some(ErrorKind::ContextExpired),
        0x8009_0318u32 => Some(ErrorKind::IncompleteMessage),
        0x8009_0320u32 => Some(ErrorKind::IncompleteCredentials),
        0x8009_0321u32 => Some(ErrorKind::BufferTooSmall),
        0x8009_0322u32 => Some(ErrorKind::WrongPrincipalName),
        0x8009_0324u32 => Some(ErrorKind::TimeSkew),
        0x8009_0325u32 => Some(ErrorKind::UntrustedRoot),
        0x8009_0326u32 => Some(ErrorKind::IllegalMessage),
        0x8009_0327u32 => Some(ErrorKind::CertificateUnknown),
        0x8009_0328u32 => Some(ErrorKind::CertificateExpired),
        0x8009_0329u32 => Some(ErrorKind::EncryptFailure),
        0x8009_0330u32 => Some(ErrorKind::DecryptFailure),
        0x8009_0331u32 => Some(ErrorKind::AlgorithmMismatch),
        0x8009_0332u32 => Some(ErrorKind::SecurityQosFailed),
        0x8009_0333u32 => Some(ErrorKind::UnfinishedContextDeleted),
        0x8009_0334u32 => Some(ErrorKind::NoTgtReply),
        0x8009_0335u32 => Some(ErrorKind::NoIpAddress),
        0x8009_0336u32 => Some(ErrorKind::WrongCredentialHandle),
        0x8009_0337u32 => Some(ErrorKind::CryptoSystemInvalid),
        0x8009_0338u32 => Some(ErrorKind::MaxReferralsExceeded),
        0x8009_0339u32 => Some(ErrorKind::MustBeKdc),
        0x8009_033Au32 => Some(ErrorKind::StrongCryptoNotSupported),
        0x8009_033Bu32 => Some(ErrorKind::TooManyPrincipals),
        0x8009_033Cu32 => Some(ErrorKind::NoPaData),
        0x8009_033Du32 => Some(ErrorKind::PkInitNameMismatch),
        0x8009_033Eu32 => Some(ErrorKind::SmartCardLogonRequired),
        0x8009_033Fu32 => Some(ErrorKind::ShutdownInProgress),
        0x8009_0340u32 => Some(ErrorKind::KdcInvalidRequest),
        0x8009_0341u32 => Some(ErrorKind::KdcUnknownEType),
        0x8009_0342u32 => Some(ErrorKind::KdcUnknownEType2),
        0x8009_0343u32 => Some(ErrorKind::UnsupportedPreAuth),
        0x8009_0345u32 => Some(ErrorKind::DelegationRequired),
        0x8009_0346u32 => Some(ErrorKind::BadBindings),
        0x8009_0347u32 => Some(ErrorKind::MultipleAccounts),
        0x8009_0348u32 => Some(ErrorKind::NoKerdKey),
        0x8009_0349u32 => Some(ErrorKind::CertWrongUsage),
        0x8009_0350u32 => Some(ErrorKind::DowngradeDetected),
        0x8009_0351u32 => Some(ErrorKind::SmartCardCertificateRevoked),
        0x8009_0352u32 => Some(ErrorKind::IssuingCAUntrusted),
        0x8009_0353u32 => Some(ErrorKind::RevocationOffline),
        0x8009_0354u32 => Some(ErrorKind::PkInitClientFailure),
        0x8009_0355u32 => Some(ErrorKind::SmartCardCertExpired),
        0x8009_0356u32 => Some(ErrorKind::NoS4uProtSupport),
        0x8009_0357u32 => Some(ErrorKind::CrossRealmDelegationFailure),
        0x8009_0358u32 => Some(ErrorKind::RevocationOfflineKdc),
        0x8009_0359u32 => Some(ErrorKind::IssuingCaUntrustedKdc),
        0x8009_035Au32 => Some(ErrorKind::KdcCertExpired),
        0x8009_035Bu32 => Some(ErrorKind::KdcCertRevoked),
        0x8009_035Du32 => Some(ErrorKind::InvalidParameter),
        0x8009_035Eu32 => Some(ErrorKind::DelegationPolicy),
        0x8009_035Fu32 => Some(ErrorKind::PolicyNtlmOnly),
        0x8009_0361u32 => Some(ErrorKind::NoContext),
        0x8009_0362u32 => Some(ErrorKind::Pku2uCertFailure),
        0x8009_0363u32 => Some(ErrorKind::MutualAuthFailed),
        0x8009_0365u32 => Some(ErrorKind::OnlyHttpsAllowed),
        0x8009_0367u32 => Some(ErrorKind::ApplicationProtocolMismatch),
        _ => None,
    }
}

impl ErrorKind {
    /// The SSPI status number of this kind, emitted verbatim on the wire.
    pub fn to_u32(&self) -> (r: u32)
        ensures
            r == spec_error_kind_to_u32(*self),
    {
        match *self {
            ErrorKind::Unknown => 0,
            ErrorKind::InsufficientMemory => 0x8009_0300,
            ErrorKind::InvalidHandle => 0x8009_0301,
            ErrorKind::UnsupportedFunction => 0x8009_0302,
            ErrorKind::TargetUnknown => 0x8009_0303,
            ErrorKind::InternalError => 0x8009_0304,
            ErrorKind::SecurityPackageNotFound => 0x8009_0305,
            ErrorKind::NotOwned => 0x8009_0306,
            ErrorKind::CannotInstall => 0x8009_0307,
            ErrorKind::InvalidToken => 0x8009_0308,
            ErrorKind::CannotPack => 0x8009_0309,
            ErrorKind::OperationNotSupported => 0x8009_030A,
            ErrorKind::NoImpersonation => 0x8009_030B,
            ErrorKind::LogonDenied => 0x8009_030C,
            ErrorKind::UnknownCredentials => 0x8009_030D,
            ErrorKind::NoCredentials => 0x8009_030E,
            ErrorKind::MessageAltered => 0x8009_030F,
            ErrorKind::OutOfSequence => 0x8009_0310,
            ErrorKind::NoAuthenticatingAuthority => 0x8009_0311,
            ErrorKind::BadPackageId => 0x8009_0316,
            ErrorKind::ContextExpired => 0x8009_0317,
            ErrorKind::IncompleteMessage => 0x8009_0318,
            ErrorKind::IncompleteCredentials => 0x8009_0320,
            ErrorKind::BufferTooSmall => 0x8009_0321,
            ErrorKind::WrongPrincipalName => 0x8009_0322,
            ErrorKind::TimeSkew => 0x8009_0324,
            ErrorKind::UntrustedRoot => 0x8009_0325,
            ErrorKind::IllegalMessage => 0x8009_0326,
            ErrorKind::CertificateUnknown => 0x8009_0327,
            ErrorKind::CertificateExpired => 0x8009_0328,
            ErrorKind::EncryptFailure => 0x8009_0329,
            ErrorKind::DecryptFailure => 0x8009_0330,
            ErrorKind::AlgorithmMismatch => 0x8009_0331,
            ErrorKind::SecurityQosFailed => 0x8009_0332,
            ErrorKind::UnfinishedContextDeleted => 0x8009_0333,
            ErrorKind::NoTgtReply => 0x8009_0334,
            ErrorKind::NoIpAddress => 0x8009_0335,
            ErrorKind::WrongCredentialHandle => 0x8009_0336,
            ErrorKind::CryptoSystemInvalid => 0x8009_0337,
            ErrorKind::MaxReferralsExceeded => 0x8009_0338,
            ErrorKind::MustBeKdc => 0x8009_0339,
            ErrorKind::StrongCryptoNotSupported => 0x8009_033A,
            ErrorKind::TooManyPrincipals => 0x8009_033B,
            ErrorKind::NoPaData => 0x8009_033C,
            ErrorKind::PkInitNameMismatch => 0x8009_033D,
            ErrorKind::SmartCardLogonRequired => 0x8009_033E,
            ErrorKind::ShutdownInProgress => 0x8009_033F,
            ErrorKind::KdcInvalidRequest => 0x8009_0340,
            ErrorKind::KdcUnknownEType => 0x8009_0341,
            ErrorKind::KdcUnknownEType2 => 0x8009_0342,
            ErrorKind::UnsupportedPreAuth => 0x8009_0343,
            ErrorKind::DelegationRequired => 0x8009_0345,
            ErrorKind::BadBindings => 0x8009_0346,
            ErrorKind::MultipleAccounts => 0x8009_0347,
            ErrorKind::NoKerdKey => 0x8009_0348,
            ErrorKind::CertWrongUsage => 0x8009_0349,
            ErrorKind::DowngradeDetected => 0x8009_0350,
            ErrorKind::SmartCardCertificateRevoked => 0x8009_0351,
            ErrorKind::IssuingCAUntrusted => 0x8009_0352,
            ErrorKind::RevocationOffline => 0x8009_0353,
            ErrorKind::PkInitClientFailure => 0x8009_0354,
            ErrorKind::SmartCardCertExpired => 0x8009_0355,
            ErrorKind::NoS4uProtSupport => 0x8009_0356,
            ErrorKind::CrossRealmDelegationFailure => 0x8009_0357,
            ErrorKind::RevocationOfflineKdc => 0x8009_0358,
            ErrorKind::IssuingCaUntrustedKdc => 0x8009_0359,
            ErrorKind::KdcCertExpired => 0x8009_035A,
            ErrorKind::KdcCertRevoked => 0x8009_035B,
            ErrorKind::InvalidParameter => 0x8009_035D,
            ErrorKind::DelegationPolicy => 0x8009_035E,
            ErrorKind::PolicyNtlmOnly => 0x8009_035F,
            ErrorKind::NoContext => 0x8009_0361,
            ErrorKind::Pku2uCertFailure => 0x8009_0362,
            ErrorKind::MutualAuthFailed => 0x8009_0363,
            ErrorKind::OnlyHttpsAllowed => 0x8009_0365,
            ErrorKind::ApplicationProtocolMismatch => 0x8009_0367,
        }
    }

    /// The error kind keyed by an SSPI status number, or `None` if the
    /// number belongs to no kind.
    pub fn from_u32(value: u32) -> (r: Option<ErrorKind>)
        ensures
            r == spec_error_kind_from_u32(value),
    {
        match value {
            0 => Some(ErrorKind::Unknown),
            0x8009_0300 => Some(ErrorKind::InsufficientMemory),
            0x8009_0301 => Some(ErrorKind::InvalidHandle),
            0x8009_0302 => Some(ErrorKind::UnsupportedFunction),
            0x8009_0303 => Some(ErrorKind::TargetUnknown),
            0x8009_0304 => Some(ErrorKind::InternalError),
            0x8009_0305 => Some(ErrorKind::SecurityPackageNotFound),
            0x8009_0306 => Some(ErrorKind::NotOwned),
            0x8009_0307 => Some(ErrorKind::CannotInstall),
            0x8009_0308 => Some(ErrorKind::InvalidToken),
            0x8009_0309 => Some(ErrorKind::CannotPack),
            0x8009_030A => Some(ErrorKind::OperationNotSupported),
            0x8009_030B => Some(ErrorKind::NoImpersonation),
            0x8009_030C => Some(ErrorKind::LogonDenied),
            0x8009_030D => Some(ErrorKind::UnknownCredentials),
            0x8009_030E => Some(ErrorKind::NoCredentials),
            0x8009_030F => Some(ErrorKind::MessageAltered),
            0x8009_0310 => Some(ErrorKind::OutOfSequence),
            0x8009_0311 => Some(ErrorKind::NoAuthenticatingAuthority),
            0x8009_0316 => Some(ErrorKind::BadPackageId),
            0x8009_0317 => Some(ErrorKind::ContextExpired),
            0x8009_0318 => Some(ErrorKind::IncompleteMessage),
            0x8009_0320 => Some(ErrorKind::IncompleteCredentials),
            0x8009_0321 => Some(ErrorKind::BufferTooSmall),
            0x8009_0322 => Some(ErrorKind::WrongPrincipalName),
            0x8009_0324 => Some(ErrorKind::TimeSkew),
            0x8009_0325 => Some(ErrorKind::UntrustedRoot),
            0x8009_0326 => Some(ErrorKind::IllegalMessage),
            0x8009_0327 => Some(ErrorKind::CertificateUnknown),
            0x8009_0328 => Some(ErrorKind::CertificateExpired),
            0x8009_0329 => Some(ErrorKind::EncryptFailure),
            0x8009_0330 => Some(ErrorKind::DecryptFailure),
            0x8009_0331 => Some(ErrorKind::AlgorithmMismatch),
            0x8009_0332 => Some(ErrorKind::SecurityQosFailed),
            0x8009_0333 => Some(ErrorKind::UnfinishedContextDeleted),
            0x8009_0334 => Some(ErrorKind::NoTgtReply),
            0x8009_0335 => Some(ErrorKind::NoIpAddress),
            0x8009_0336 => Some(ErrorKind::WrongCredentialHandle),
            0x8009_0337 => Some(ErrorKind::CryptoSystemInvalid),
            0x8009_0338 => Some(ErrorKind::MaxReferralsExceeded),
            0x8009_0339 => Some(ErrorKind::MustBeKdc),
            0x8009_033A => Some(ErrorKind::StrongCryptoNotSupported),
            0x8009_033B => Some(ErrorKind::TooManyPrincipals),
            0x8009_033C => Some(ErrorKind::NoPaData),
            0x8009_033D => Some(ErrorKind::PkInitNameMismatch),
            0x8009_033E => Some(ErrorKind::SmartCardLogonRequired),
            0x8009_033F => Some(ErrorKind::ShutdownInProgress),
            0x8009_0340 => Some(ErrorKind::KdcInvalidRequest),
            0x8009_0341 => Some(ErrorKind::KdcUnknownEType),
            0x8009_0342 => Some(ErrorKind::KdcUnknownEType2),
            0x8009_0343 => Some(ErrorKind::UnsupportedPreAuth),
            0x8009_0345 => Some(ErrorKind::DelegationRequired),
            0x8009_0346 => Some(ErrorKind::BadBindings),
            0x8009_0347 => Some(ErrorKind::MultipleAccounts),
            0x8009_0348 => Some(ErrorKind::NoKerdKey),
            0x8009_0349 => Some(ErrorKind::CertWrongUsage),
            0x8009_0350 => Some(ErrorKind::DowngradeDetected),
            0x8009_0351 => Some(ErrorKind::SmartCardCertificateRevoked),
            0x8009_0352 => Some(ErrorKind::IssuingCAUntrusted),
            0x8009_0353 => Some(ErrorKind::RevocationOffline),
            0x8009_0354 => Some(ErrorKind::PkInitClientFailure),
            0x8009_0355 => Some(ErrorKind::SmartCardCertExpired),
            0x8009_0356 => Some(ErrorKind::NoS4uProtSupport),
            0x8009_0357 => Some(ErrorKind::CrossRealmDelegationFailure),
            0x8009_0358 => Some(ErrorKind::RevocationOfflineKdc),
            0x8009_0359 => Some(ErrorKind::IssuingCaUntrustedKdc),
            0x8009_035A => Some(ErrorKind::KdcCertExpired),
            0x8009_035B => Some(ErrorKind::KdcCertRevoked),
            0x8009_035D => Some(ErrorKind::InvalidParameter),
            0x8009_035E => Some(ErrorKind::DelegationPolicy),
            0x8009_035F => Some(ErrorKind::PolicyNtlmOnly),
            0x8009_0361 => Some(ErrorKind::NoContext),
            0x8009_0362 => Some(ErrorKind::Pku2uCertFailure),
            0x8009_0363 => Some(ErrorKind::MutualAuthFailed),
            0x8009_0365 => Some(ErrorKind::OnlyHttpsAllowed),
            0x8009_0367 => Some(ErrorKind::ApplicationProtocolMismatch),
            _ => None,
        }
    }
}

/// The status number keys the kinds: mapping a kind to its number and the
/// number back gives the kind again, for every kind.
pub proof fn lemma_error_kind_code_roundtrip(kind: ErrorKind)
    ensures
        spec_error_kind_from_u32(spec_error_kind_to_u32(kind)) == Some(kind),
{
}

/// The success status of SSPI-related operation.
#[derive(Debug, Copy, Clone, Eq, PartialEq, Structural)]
pub enum SecurityStatus {
    Success,
    ContinueNeeded,
    CompleteNeeded,
    CompleteAndContinue,
    LocalLogon,
    ContextExpired,
    IncompleteCredentials,
    Renegotiate,
    NoLsaContext,
}

/// The SSPI status number of a success status.
pub open spec fn spec_security_status_to_u32(status: SecurityStatus) -> u32 {
    match status {
        SecurityStatus::Success => 0,
        SecurityStatus::ContinueNeeded => 0x0009_0312,
        SecurityStatus::CompleteNeeded => 0x0009_0313,
        SecurityStatus::CompleteAndContinue => 0x0009_0314,
        SecurityStatus::LocalLogon => 0x0009_0315,
        SecurityStatus::ContextExpired => 0x0009_0317,
        SecurityStatus::IncompleteCredentials => 0x0009_0320,
        SecurityStatus::Renegotiate => 0x0009_0321,
        SecurityStatus::NoLsaContext => 0x0009_0323,
    }
}

/// The success status keyed by an SSPI status number, if the number is one
/// of the closed set.
pub open spec fn spec_security_status_from_u32(value: u32) -> Option<SecurityStatus> {
    match value {
        0 => Some(SecurityStatus::Success),
        0x0009_0312u32 => Some(SecurityStatus::ContinueNeeded),
        0x0009_0313u32 => Some(SecurityStatus::CompleteNeeded),
        0x0009_0314u32 => Some(SecurityStatus::CompleteAndContinue),
        0x0009_0315u32 => Some(SecurityStatus::LocalLogon),
        0x0009_0317u32 => Some(SecurityStatus::ContextExpired),
        0x0009_0320u32 => Some(SecurityStatus::IncompleteCredentials),
        0x0009_0321u32 => Some(SecurityStatus::Renegotiate),
        0x0009_0323u32 => Some(SecurityStatus::NoLsaContext),
        _ => None,
    }
}

impl SecurityStatus {
    /// The SSPI status number of this status, emitted verbatim.
    pub fn to_u32(&self) -> (r: u32)
        ensures
            r == spec_security_status_to_u32(*self),
    {
        match *self {
            SecurityStatus::Success => 0,
            SecurityStatus::ContinueNeeded => 0x0009_0312,
            SecurityStatus::CompleteNeeded => 0x0009_0313,
            SecurityStatus::CompleteAndContinue => 0x0009_0314,
            SecurityStatus::LocalLogon => 0x0009_0315,
            SecurityStatus::ContextExpired => 0x0009_0317,
            SecurityStatus::IncompleteCredentials => 0x0009_0320,
            SecurityStatus::Renegotiate => 0x0009_0321,
            SecurityStatus::NoLsaContext => 0x0009_0323,
        }
    }

    /// The success status keyed by an SSPI status number, or `None` if the
    /// number belongs to no status.
    pub fn from_u32(value: u32) -> (r: Option<SecurityStatus>)
        ensures
            r == spec_security_status_from_u32(value),
    {
        match value {
            0 => Some(SecurityStatus::Success),
            0x0009_0312 => Some(SecurityStatus::ContinueNeeded),
            0x0009_0313 => Some(SecurityStatus::CompleteNeeded),
            0x0009_0314 => Some(SecurityStatus::CompleteAndContinue),
            0x0009_0315 => Some(SecurityStatus::LocalLogon),
            0x0009_0317 => Some(SecurityStatus::ContextExpired),
            0x0009_0320 => Some(SecurityStatus::IncompleteCredentials),
            0x0009_0321 => Some(SecurityStatus::Renegotiate),
            0x0009_0323 => Some(SecurityStatus::NoLsaContext),
            _ => None,
        }
    }
}

/// The status number keys the statuses: mapping a status to its number and
/// the number back gives the status again, for every status.
pub proof fn lemma_security_status_code_roundtrip(status: SecurityStatus)
    ensures
        spec_security_status_from_u32(spec_security_status_to_u32(status)) == Some(status),
{
}

/// Holds the `ErrorKind` and the description of the SSPI-related error.
#[derive(Debug, Clone)]
pub struct Error {
    pub error_type: ErrorKind,
    pub description: String,
}

impl Error {
    /// Allows to fill a new error easily, supplying it with a coherent description.
    pub fn new(error_type: ErrorKind, error: String) -> (r: Error)
        ensures
            r.error_type == error_type,
            r.description == error,
    {
        Error { error_type, description: error }
    }
}

/// The label of a Kerberos KRB-ERROR code given as its unsigned big-endian
/// bytes. A code outside the table reads `MISSING_ERROR`.
pub open spec fn spec_krb_status(code: Seq<u8>) -> Seq<char> {
    if code.len() == 1 {
        spec_krb_code_label(code[0])
    } else {
        "MISSING_ERROR"@
    }
}

/// The label of a single-byte KRB-ERROR code.
pub open spec fn spec_krb_code_label(code: u8) -> Seq<char> {
    match code {
        0x0u8 => "KDC_ERR_NONE"@,
        0x1u8 => "KDC_ERR_NAME_EXP"@,
        0x2u8 => "KDC_ERR_SERVICE_EXP"@,
        0x3u8 => "KDC_ERR_BAD_PVNO"@,
        0x4u8 => "KDC_ERR_C_OLD_MAST_KVNO"@,
        0x5u8 => "KDC_ERR_S_OLD_MAST_KVNO"@,
        0x6u8 => "Unrecognised Username - KDC_ERR_C_PRINCIPAL_UNKNOWN"@,
        0x7u8 => "Unrecognised Server - KDC_ERR_S_PRINCIPAL_UNKNOWN"@,
        0x8u8 => "KDC_ERR_PRINCIPAL_NOT_UNIQUE"@,
        0x9u8 => "KDC_ERR_NULL_KEY"@,
        0xAu8 => "KDC_ERR_CANNOT_POSTDATE"@,
        0xBu8 => "KDC_ERR_NEVER_VALID"@,
        0xCu8 => "KDC_ERR_POLICY"@,
        0xDu8 => "KDC_ERR_BADOPTION"@,
        0xEu8 => "KDC_ERR_ETYPE_NOTSUPP"@,
        0xFu8 => "KDC_ERR_SUMTYPE_NOSUPP"@,
        0x10u8 => "KDC_ERR_PADATA_TYPE_NOSUPP"@,
        0x11u8 => "KDC_ERR_TRTYPE_NO_SUPP"@,
        0x12u8 => "KDC_ERR_CLIENT_REVOKED"@,
        0x13u8 => "KDC_ERR_SERVICE_REVOKED"@,
        0x14u8 => "KDC_ERR_TGT_REVOKED"@,
        0x15u8 => "KDC_ERR_CLIENT_NOTYET"@,
        0x16u8 => "KDC_ERR_SERVICE_NOTYET"@,
        0x17u8 => "Credentials Expired - KDC_ERR_KEY_EXPIRED"@,
        0x18u8 => "Incorrect Credentials - KDC_ERR_PREAUTH_FAILED"@,
        0x19u8 => "KDC_ERR_PREAUTH_REQUIRED"@,
        0x1Au8 => "KDC_ERR_SERVER_NOMATCH"@,
        0x1Bu8 => "KDC_ERR_SVC_UNAVAILABLE"@,
        0x1Fu8 => "KRB_AP_ERR_BAD_INTEGRITY"@,
        0x20u8 => "KRB_AP_ERR_TKT_EXPIRED"@,
        0x21u8 => "KRB_AP_ERR_TKT_NYV"@,
        0x22u8 => "KRB_AP_ERR_REPEAT"@,
        0x23u8 => "KRB_AP_ERR_NOT_US"@,
        0x24u8 => "KRB_AP_ERR_BADMATCH"@,
        0x25u8 => "KRB_AP_ERR_SKEW"@,
        0x26u8 => "KRB_AP_ERR_BADADDR"@,
        0x27u8 => "KRB_AP_ERR_BADVERSION"@,
        0x28u8 => "KRB_AP_ERR_MSG_TYPE"@,
        0x29u8 => "KRB_AP_ERR_MODIFIED"@,
        0x2Au8 => "KRB_AP_ERR_BADORDER"@,
        0x2Cu8 => "KRB_AP_ERR_BADKEYVER"@,
        0x2Du8 => "KRB_AP_ERR_NOKEY"@,
        0x2Eu8 => "KRB_AP_ERR_MUT_FAIL"@,
        0x2Fu8 => "KRB_AP_ERR_BADDIRECTION"@,
        0x30u8 => "KRB_AP_ERR_METHOD"@,
        0x31u8 => "KRB_AP_ERR_BADSEQ"@,
        0x32u8 => "KRB_AP_ERR_INAPP_CKSUM"@,
        0x33u8 => "KRB_AP_PATH_NOT_ACCEPTED"@,
        0x34u8 => "KRB_ERR_RESPONSE_TOO_BIG"@,
        0x3Cu8 => "KRB_ERR_GENERIC"@,
        0x3Du8 => "KRB_ERR_FIELD_TOOLONG"@,
        0x3Eu8 => "KDC_ERR_CLIENT_NOT_TRUSTED"@,
        0x3Fu8 => "KDC_ERR_KDC_NOT_TRUSTED"@,
        0x40u8 => "KDC_ERR_INVALID_SIG"@,
        0x41u8 => "KDC_ERR_KEY_TOO_WEAK"@,
        0x42u8 => "KRB_AP_ERR_USER_TO_USER_REQUIRED"@,
        0x43u8 => "KRB_AP_ERR_NO_TGT"@,
        0x44u8 => "Unrecognised Domain - KDC_ERR_WRONG_REALM"@,
        _ => "MISSING_ERROR"@,
    }
}

/// The label of a Kerberos KRB-ERROR code, given as the unsigned big-endian
/// bytes of the code. Codes absent from the table, among them the unlabelled
/// span between the AS/TGS codes and the AP codes, read `MISSING_ERROR`.
pub fn get_krb_status_from_code(error_code: &[u8]) -> (r: &'static str)
    ensures
        r@ == spec_krb_status(error_code@),
{
    if error_code.len() == 1 {
        match error_code[0] {
            0x0 => "KDC_ERR_NONE",
            0x1 => "KDC_ERR_NAME_EXP",
            0x2 => "KDC_ERR_SERVICE_EXP",
            0x3 => "KDC_ERR_BAD_PVNO",
            0x4 => "KDC_ERR_C_OLD_MAST_KVNO",
            0x5 => "KDC_ERR_S_OLD_MAST_KVNO",
            0x6 => "Unrecognised Username - KDC_ERR_C_PRINCIPAL_UNKNOWN",
            0x7 => "Unrecognised Server - KDC_ERR_S_PRINCIPAL_UNKNOWN",
            0x8 => "KDC_ERR_PRINCIPAL_NOT_UNIQUE",
            0x9 => "KDC_ERR_NULL_KEY",
            0xA => "KDC_ERR_CANNOT_POSTDATE",
            0xB => "KDC_ERR_NEVER_VALID",
            0xC => "KDC_ERR_POLICY",
            0xD => "KDC_ERR_BADOPTION",
            0xE => "KDC_ERR_ETYPE_NOTSUPP",
            0xF => "KDC_ERR_SUMTYPE_NOSUPP",
            0x10 => "KDC_ERR_PADATA_TYPE_NOSUPP",
            0x11 => "KDC_ERR_TRTYPE_NO_SUPP",
            0x12 => "KDC_ERR_CLIENT_REVOKED",
            0x13 => "KDC_ERR_SERVICE_REVOKED",
            0x14 => "KDC_ERR_TGT_REVOKED",
            0x15 => "KDC_ERR_CLIENT_NOTYET",
            0x16 => "KDC_ERR_SERVICE_NOTYET",
            0x17 => "Credentials Expired - KDC_ERR_KEY_EXPIRED",
            0x18 => "Incorrect Credentials - KDC_ERR_PREAUTH_FAILED",
            0x19 => "KDC_ERR_PREAUTH_REQUIRED",
            0x1A => "KDC_ERR_SERVER_NOMATCH",
            0x1B => "KDC_ERR_SVC_UNAVAILABLE",
            0x1F => "KRB_AP_ERR_BAD_INTEGRITY",
            0x20 => "KRB_AP_ERR_TKT_EXPIRED",
            0x21 => "KRB_AP_ERR_TKT_NYV",
            0x22 => "KRB_AP_ERR_REPEAT",
            0x23 => "KRB_AP_ERR_NOT_US",
            0x24 => "KRB_AP_ERR_BADMATCH",
            0x25 => "KRB_AP_ERR_SKEW",
            0x26 => "KRB_AP_ERR_BADADDR",
            0x27 => "KRB_AP_ERR_BADVERSION",
            0x28 => "KRB_AP_ERR_MSG_TYPE",
            0x29 => "KRB_AP_ERR_MODIFIED",
            0x2A => "KRB_AP_ERR_BADORDER",
            0x2C => "KRB_AP_ERR_BADKEYVER",
            0x2D => "KRB_AP_ERR_NOKEY",
            0x2E => "KRB_AP_ERR_MUT_FAIL",
            0x2F => "KRB_AP_ERR_BADDIRECTION",
            0x30 => "KRB_AP_ERR_METHOD",
            0x31 => "KRB_AP_ERR_BADSEQ",
            0x32 => "KRB_AP_ERR_INAPP_CKSUM",
            0x33 => "KRB_AP_PATH_NOT_ACCEPTED",
            0x34 => "KRB_ERR_RESPONSE_TOO_BIG",
            0x3C => "KRB_ERR_GENERIC",
            0x3D => "KRB_ERR_FIELD_TOOLONG",
            0x3E => "KDC_ERR_CLIENT_NOT_TRUSTED",
            0x3F => "KDC_ERR_KDC_NOT_TRUSTED",
            0x40 => "KDC_ERR_INVALID_SIG",
            0x41 => "KDC_ERR_KEY_TOO_WEAK",
            0x42 => "KRB_AP_ERR_USER_TO_USER_REQUIRED",
            0x43 => "KRB_AP_ERR_NO_TGT",
            0x44 => "Unrecognised Domain - KDC_ERR_WRONG_REALM",
            _ => "MISSING_ERROR",
        }
    } else {
        "MISSING_ERROR"
    }
}

/// The error kind that a Kerberos KRB-ERROR code maps to at the SSPI
/// boundary.
pub open spec fn spec_krb_error_kind(code: u32) -> ErrorKind {
    if code == 6 {
        ErrorKind::TargetUnknown
    } else if code == 24 {
        ErrorKind::LogonDenied
    } else if code == 37 {
        ErrorKind::TimeSkew
    } else if code == 68 {
        ErrorKind::NoAuthenticatingAuthority
    } else {
        ErrorKind::InternalError
    }
}

/// Maps a Kerberos KRB-ERROR code to the SSPI error kind it surfaces as:
/// an unknown principal denotes an unknown target, a failed
/// pre-authentication a denied logon, a clock skew a time skew, a wrong
/// realm a missing authenticating authority; every other code surfaces as
/// an internal error.
pub fn krb_error_kind_from_code(code: u32) -> (r: ErrorKind)
    ensures
        r == spec_krb_error_kind(code),
{
    if code == 6 {
        ErrorKind::TargetUnknown
    } else if code == 24 {
        ErrorKind::LogonDenied
    } else if code == 37 {
        ErrorKind::TimeSkew
    } else if code == 68 {
        ErrorKind::NoAuthenticatingAuthority
    } else {
        ErrorKind::InternalError
    }
}

} // verus!
