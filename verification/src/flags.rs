//! The bit-flag value sets of the SSPI surface: context requirements and
//! attributes on each side, per-message quality-of-protection flags,
//! package capabilities, and certificate trust statuses.
//!
//! Each set is a wrapper over its `u32` bit pattern with the named bits as
//! associated constants; the set operations state their result bit-exactly.

use vstd::prelude::*;

verus! {

/// Indicate the quality of protection. Used in the `encrypt_message` method.
#[derive(Debug, Copy, Clone, Eq, PartialEq, Structural)]
pub struct EncryptionFlags {
    pub bits: u32,
}

impl EncryptionFlags {
    pub const WRAP_OOB_DATA: u32 = 0x4000_0000;
    pub const WRAP_NO_ENCRYPT: u32 = 0x8000_0001;

    /// The set with no bit raised.
    pub fn empty() -> (r: EncryptionFlags)
        ensures
            r.bits == 0,
    {
        EncryptionFlags { bits: 0 }
    }

    /// The set over the given bit pattern, kept verbatim.
    pub fn from_bits(bits: u32) -> (r: EncryptionFlags)
        ensures
            r.bits == bits,
    {
        EncryptionFlags { bits }
    }

    /// The bit pattern of the set.
    pub fn bits(&self) -> (r: u32)
        ensures
            r == self.bits,
    {
        self.bits
    }

    /// Whether every bit of `other` is raised in `self`.
    pub fn contains(&self, other: EncryptionFlags) -> (r: bool)
        ensures
            r == (self.bits & other.bits == other.bits),
    {
        self.bits & other.bits == other.bits
    }

    /// Whether some bit is raised in both sets.
    pub fn intersects(&self, other: EncryptionFlags) -> (r: bool)
        ensures
            r == (self.bits & other.bits != 0),
    {
        self.bits & other.bits != 0
    }

    /// The set with the bits of both sets raised.
    pub fn union(self, other: EncryptionFlags) -> (r: EncryptionFlags)
        ensures
            r.bits == (self.bits | other.bits),
    {
        EncryptionFlags { bits: self.bits | other.bits }
    }

    /// The set with exactly the bits raised in both sets.
    pub fn intersection(self, other: EncryptionFlags) -> (r: EncryptionFlags)
        ensures
            r.bits == (self.bits & other.bits),
    {
        EncryptionFlags { bits: self.bits & other.bits }
    }
}

/// Indicate the quality of protection. Returned by the `decrypt_message` method.
#[derive(Debug, Copy, Clone, Eq, PartialEq, Structural)]
pub struct DecryptionFlags {
    pub bits: u32,
}

impl DecryptionFlags {
    pub const SIGN_ONLY: u32 = 0x8000_0000;
    pub const WRAP_NO_ENCRYPT: u32 = 0x8000_0001;

    /// The set with no bit raised.
    pub fn empty() -> (r: DecryptionFlags)
        ensures
            r.bits == 0,
    {
        DecryptionFlags { bits: 0 }
    }

    /// The set over the given bit pattern, kept verbatim.
    pub fn from_bits(bits: u32) -> (r: DecryptionFlags)
        ensures
            r.bits == bits,
    {
        DecryptionFlags { bits }
    }

    /// The bit pattern of the set.
    pub fn bits(&self) -> (r: u32)
        ensures
            r == self.bits,
    {
        self.bits
    }

    /// Whether every bit of `other` is raised in `self`.
    pub fn contains(&self, other: DecryptionFlags) -> (r: bool)
        ensures
            r == (self.bits & other.bits == other.bits),
    {
        self.bits & other.bits == other.bits
    }

    /// Whether some bit is raised in both sets.
    pub fn intersects(&self, other: DecryptionFlags) -> (r: bool)
        ensures
            r == (self.bits & other.bits != 0),
    {
        self.bits & other.bits != 0
    }

    /// The set with the bits of both sets raised.
    pub fn union(self, other: DecryptionFlags) -> (r: DecryptionFlags)
        ensures
            r.bits == (self.bits | other.bits),
    {
        DecryptionFlags { bits: self.bits | other.bits }
    }

    /// The set with exactly the bits raised in both sets.
    pub fn intersection(self, other: DecryptionFlags) -> (r: DecryptionFlags)
        ensures
            r.bits == (self.bits & other.bits),
    {
        DecryptionFlags { bits: self.bits & other.bits }
    }
}

/// Indicate requests for the context by the client. Not all packages can support all requirements.
#[derive(Debug, Copy, Clone, Eq, PartialEq, Structural)]
pub struct ClientRequestFlags {
    pub bits: u32,
}

impl ClientRequestFlags {
    pub const DELEGATE: u32 = 0x1;
    pub const MUTUAL_AUTH: u32 = 0x2;
    pub const REPLAY_DETECT: u32 = 0x4;
    pub const SEQUENCE_DETECT: u32 = 0x8;
    pub const CONFIDENTIALITY: u32 = 0x10;
    pub const USE_SESSION_KEY: u32 = 0x20;
    pub const PROMPT_FOR_CREDS: u32 = 0x40;
    pub const USE_SUPPLIED_CREDS: u32 = 0x80;
    pub const ALLOCATE_MEMORY: u32 = 0x100;
    pub const USE_DCE_STYLE: u32 = 0x200;
    pub const DATAGRAM: u32 = 0x400;
    pub const CONNECTION: u32 = 0x800;
    pub const CALL_LEVEL: u32 = 0x1000;
    pub const FRAGMENT_SUPPLIED: u32 = 0x2000;
    pub const EXTENDED_ERROR: u32 = 0x4000;
    pub const STREAM: u32 = 0x8000;
    pub const INTEGRITY: u32 = 0x0001_0000;
    pub const IDENTIFY: u32 = 0x0002_0000;
    pub const NULL_SESSION: u32 = 0x0004_0000;
    pub const MANUAL_CRED_VALIDATION: u32 = 0x0008_0000;
    pub const RESERVED1: u32 = 0x0010_0000;
    pub const FRAGMENT_TO_FIT: u32 = 0x0020_0000;
    pub const FORWARD_CREDENTIALS: u32 = 0x0040_0000;
    pub const NO_INTEGRITY: u32 = 0x0080_0000;
    pub const USE_HTTP_STYLE: u32 = 0x100_0000;
    pub const UNVERIFIED_TARGET_NAME: u32 = 0x2000_0000;
    pub const CONFIDENTIALITY_ONLY: u32 = 0x4000_0000;

    /// The set with no bit raised.
    pub fn empty() -> (r: ClientRequestFlags)
        ensures
            r.bits == 0,
    {
        ClientRequestFlags { bits: 0 }
    }

    /// The set over the given bit pattern, kept verbatim.
    pub fn from_bits(bits: u32) -> (r: ClientRequestFlags)
        ensures
            r.bits == bits,
    {
        ClientRequestFlags { bits }
    }

    /// The bit pattern of the set.
    pub fn bits(&self) -> (r: u32)
        ensures
            r == self.bits,
    {
        self.bits
    }

    /// Whether every bit of `other` is raised in `self`.
    pub fn contains(&self, other: ClientRequestFlags) -> (r: bool)
        ensures
            r == (self.bits & other.bits == other.bits),
    {
        self.bits & other.bits == other.bits
    }

    /// Whether some bit is raised in both sets.
    pub fn intersects(&self, other: ClientRequestFlags) -> (r: bool)
        ensures
            r == (self.bits & other.bits != 0),
    {
        self.bits & other.bits != 0
    }

    /// The set with the bits of both sets raised.
    pub fn union(self, other: ClientRequestFlags) -> (r: ClientRequestFlags)
        ensures
            r.bits == (self.bits | other.bits),
    {
        ClientRequestFlags { bits: self.bits | other.bits }
    }

    /// The set with exactly the bits raised in both sets.
    pub fn intersection(self, other: ClientRequestFlags) -> (r: ClientRequestFlags)
        ensures
            r.bits == (self.bits & other.bits),
    {
        ClientRequestFlags { bits: self.bits & other.bits }
    }
}

/// Specify the attributes required by the server to establish the context.
#[derive(Debug, Copy, Clone, Eq, PartialEq, Structural)]
pub struct ServerRequestFlags {
    pub bits: u32,
}

impl ServerRequestFlags {
    pub const DELEGATE: u32 = 0x1;
    pub const MUTUAL_AUTH: u32 = 0x2;
    pub const REPLAY_DETECT: u32 = 0x4;
    pub const SEQUENCE_DETECT: u32 = 0x8;
    pub const CONFIDENTIALITY: u32 = 0x10;
    pub const USE_SESSION_KEY: u32 = 0x20;
    pub const SESSION_TICKET: u32 = 0x40;
    pub const ALLOCATE_MEMORY: u32 = 0x100;
    pub const USE_DCE_STYLE: u32 = 0x200;
    pub const DATAGRAM: u32 = 0x400;
    pub const CONNECTION: u32 = 0x800;
    pub const CALL_LEVEL: u32 = 0x1000;
    pub const FRAGMENT_SUPPLIED: u32 = 0x2000;
    pub const EXTENDED_ERROR: u32 = 0x8000;
    pub const STREAM: u32 = 0x0001_0000;
    pub const INTEGRITY: u32 = 0x0002_0000;
    pub const LICENSING: u32 = 0x0004_0000;
    pub const IDENTIFY: u32 = 0x0008_0000;
    pub const ALLOW_NULL_SESSION: u32 = 0x0010_0000;
    pub const ALLOW_NON_USER_LOGONS: u32 = 0x0020_0000;
    pub const ALLOW_CONTEXT_REPLAY: u32 = 0x0040_0000;
    pub const FRAGMENT_TO_FIT: u32 = 0x80_0000;
    pub const NO_TOKEN: u32 = 0x100_0000;
    pub const PROXY_BINDINGS: u32 = 0x400_0000;
    pub const ALLOW_MISSING_BINDINGS: u32 = 0x1000_0000;

    /// The set with no bit raised.
    pub fn empty() -> (r: ServerRequestFlags)
        ensures
            r.bits == 0,
    {
        ServerRequestFlags { bits: 0 }
    }

    /// The set over the given bit pattern, kept verbatim.
    pub fn from_bits(bits: u32) -> (r: ServerRequestFlags)
        ensures
            r.bits == bits,
    {
        ServerRequestFlags { bits }
    }

    /// The bit pattern of the set.
    pub fn bits(&self) -> (r: u32)
        ensures
            r == self.bits,
    {
        self.bits
    }

    /// Whether every bit of `other` is raised in `self`.
    pub fn contains(&self, other: ServerRequestFlags) -> (r: bool)
        ensures
            r == (self.bits & other.bits == other.bits),
    {
        self.bits & other.bits == other.bits
    }

    /// Whether some bit is raised in both sets.
    pub fn intersects(&self, other: ServerRequestFlags) -> (r: bool)
        ensures
            r == (self.bits & other.bits != 0),
    {
        self.bits & other.bits != 0
    }

    /// The set with the bits of both sets raised.
    pub fn union(self, other: ServerRequestFlags) -> (r: ServerRequestFlags)
        ensures
            r.bits == (self.bits | other.bits),
    {
        ServerRequestFlags { bits: self.bits | other.bits }
    }

    /// The set with exactly the bits raised in both sets.
    pub fn intersection(self, other: ServerRequestFlags) -> (r: ServerRequestFlags)
        ensures
            r.bits == (self.bits & other.bits),
    {
        ServerRequestFlags { bits: self.bits & other.bits }
    }
}

/// Indicate the attributes of the established context, on the client side.
#[derive(Debug, Copy, Clone, Eq, PartialEq, Structural)]
pub struct ClientResponseFlags {
    pub bits: u32,
}

impl ClientResponseFlags {
    pub const DELEGATE: u32 = 0x1;
    pub const MUTUAL_AUTH: u32 = 0x2;
    pub const REPLAY_DETECT: u32 = 0x4;
    pub const SEQUENCE_DETECT: u32 = 0x8;
    pub const CONFIDENTIALITY: u32 = 0x10;
    pub const USE_SESSION_KEY: u32 = 0x20;
    pub const USED_COLLECTED_CREDS: u32 = 0x40;
    pub const USED_SUPPLIED_CREDS: u32 = 0x80;
    pub const ALLOCATED_MEMORY: u32 = 0x100;
    pub const USED_DCE_STYLE: u32 = 0x200;
    pub const DATAGRAM: u32 = 0x400;
    pub const CONNECTION: u32 = 0x800;
    pub const INTERMEDIATE_RETURN: u32 = 0x1000;
    pub const CALL_LEVEL: u32 = 0x2000;
    pub const EXTENDED_ERROR: u32 = 0x4000;
    pub const STREAM: u32 = 0x8000;
    pub const INTEGRITY: u32 = 0x0001_0000;
    pub const IDENTIFY: u32 = 0x0002_0000;
    pub const NULL_SESSION: u32 = 0x0004_0000;
    pub const MANUAL_CRED_VALIDATION: u32 = 0x0008_0000;
    pub const RESERVED1: u32 = 0x10_0000;
    pub const FRAGMENT_ONLY: u32 = 0x0020_0000;
    pub const FORWARD_CREDENTIALS: u32 = 0x0040_0000;
    pub const USED_HTTP_STYLE: u32 = 0x100_0000;
    pub const NO_ADDITIONAL_TOKEN: u32 = 0x200_0000;
    pub const REAUTHENTICATION: u32 = 0x800_0000;
    pub const CONFIDENTIALITY_ONLY: u32 = 0x4000_0000;

    /// The set with no bit raised.
    pub fn empty() -> (r: ClientResponseFlags)
        ensures
            r.bits == 0,
    {
        ClientResponseFlags { bits: 0 }
    }

    /// The set over the given bit pattern, kept verbatim.
    pub fn from_bits(bits: u32) -> (r: ClientResponseFlags)
        ensures
            r.bits == bits,
    {
        ClientResponseFlags { bits }
    }

    /// The bit pattern of the set.
    pub fn bits(&self) -> (r: u32)
        ensures
            r == self.bits,
    {
        self.bits
    }

    /// Whether every bit of `other` is raised in `self`.
    pub fn contains(&self, other: ClientResponseFlags) -> (r: bool)
        ensures
            r == (self.bits & other.bits == other.bits),
    {
        self.bits & other.bits == other.bits
    }

    /// Whether some bit is raised in both sets.
    pub fn intersects(&self, other: ClientResponseFlags) -> (r: bool)
        ensures
            r == (self.bits & other.bits != 0),
    {
        self.bits & other.bits != 0
    }

    /// The set with the bits of both sets raised.
    pub fn union(self, other: ClientResponseFlags) -> (r: ClientResponseFlags)
        ensures
            r.bits == (self.bits | other.bits),
    {
        ClientResponseFlags { bits: self.bits | other.bits }
    }

    /// The set with exactly the bits raised in both sets.
    pub fn intersection(self, other: ClientResponseFlags) -> (r: ClientResponseFlags)
        ensures
            r.bits == (self.bits & other.bits),
    {
        ClientResponseFlags { bits: self.bits & other.bits }
    }
}

/// Indicate the attributes of the established context, on the server side.
#[derive(Debug, Copy, Clone, Eq, PartialEq, Structural)]
pub struct ServerResponseFlags {
    pub bits: u32,
}

impl ServerResponseFlags {
    pub const DELEGATE: u32 = 0x1;
    pub const MUTUAL_AUTH: u32 = 0x2;
    pub const REPLAY_DETECT: u32 = 0x4;
    pub const SEQUENCE_DETECT: u32 = 0x8;
    pub const CONFIDENTIALITY: u32 = 0x10;
    pub const USE_SESSION_KEY: u32 = 0x20;
    pub const SESSION_TICKET: u32 = 0x40;
    pub const ALLOCATED_MEMORY: u32 = 0x100;
    pub const USED_DCE_STYLE: u32 = 0x200;
    pub const DATAGRAM: u32 = 0x400;
    pub const CONNECTION: u32 = 0x800;
    pub const CALL_LEVEL: u32 = 0x2000;
    pub const THIRD_LEG_FAILED: u32 = 0x4000;
    pub const EXTENDED_ERROR: u32 = 0x8000;
    pub const STREAM: u32 = 0x0001_0000;
    pub const INTEGRITY: u32 = 0x0002_0000;
    pub const LICENSING: u32 = 0x0004_0000;
    pub const IDENTIFY: u32 = 0x0008_0000;
    pub const NULL_SESSION: u32 = 0x0010_0000;
    pub const ALLOW_NON_USER_LOGONS: u32 = 0x0020_0000;
    pub const ALLOW_CONTEXT_REPLAY: u32 = 0x0040_0000;
    pub const FRAGMENT_ONLY: u32 = 0x0080_0000;
    pub const NO_TOKEN: u32 = 0x100_0000;
    pub const NO_ADDITIONAL_TOKEN: u32 = 0x200_0000;

    /// The set with no bit raised.
    pub fn empty() -> (r: ServerResponseFlags)
        ensures
            r.bits == 0,
    {
        ServerResponseFlags { bits: 0 }
    }

    /// The set over the given bit pattern, kept verbatim.
    pub fn from_bits(bits: u32) -> (r: ServerResponseFlags)
        ensures
            r.bits == bits,
    {
        ServerResponseFlags { bits }
    }

    /// The bit pattern of the set.
    pub fn bits(&self) -> (r: u32)
        ensures
            r == self.bits,
    {
        self.bits
    }

    /// Whether every bit of `other` is raised in `self`.
    pub fn contains(&self, other: ServerResponseFlags) -> (r: bool)
        ensures
            r == (self.bits & other.bits == other.bits),
    {
        self.bits & other.bits == other.bits
    }

    /// Whether some bit is raised in both sets.
    pub fn intersects(&self, other: ServerResponseFlags) -> (r: bool)
        ensures
            r == (self.bits & other.bits != 0),
    {
        self.bits & other.bits != 0
    }

    /// The set with the bits of both sets raised.
    pub fn union(self, other: ServerResponseFlags) -> (r: ServerResponseFlags)
        ensures
            r.bits == (self.bits | other.bits),
    {
        ServerResponseFlags { bits: self.bits | other.bits }
    }

    /// The set with exactly the bits raised in both sets.
    pub fn intersection(self, other: ServerResponseFlags) -> (r: ServerResponseFlags)
        ensures
            r.bits == (self.bits & other.bits),
    {
        ServerResponseFlags { bits: self.bits & other.bits }
    }
}

/// Set of bit flags that describes the capabilities of the security package.
#[derive(Debug, Copy, Clone, Eq, PartialEq, Structural)]
pub struct PackageCapabilities {
    pub bits: u32,
}

impl PackageCapabilities {
    pub const INTEGRITY: u32 = 0x1;
    pub const PRIVACY: u32 = 0x2;
    pub const TOKEN_ONLY: u32 = 0x4;
    pub const DATAGRAM: u32 = 0x8;
    pub const CONNECTION: u32 = 0x10;
    pub const MULTI_REQUIRED: u32 = 0x20;
    pub const CLIENT_ONLY: u32 = 0x40;
    pub const EXTENDED_ERROR: u32 = 0x80;
    pub const IMPERSONATION: u32 = 0x100;
    pub const ACCEPT_WIN32_NAME: u32 = 0x200;
    pub const STREAM: u32 = 0x400;
    pub const NEGOTIABLE: u32 = 0x800;
    pub const GSS_COMPATIBLE: u32 = 0x1000;
    pub const LOGON: u32 = 0x2000;
    pub const ASCII_BUFFERS: u32 = 0x4000;
    pub const FRAGMENT: u32 = 0x8000;
    pub const MUTUAL_AUTH: u32 = 0x1_0000;
    pub const DELEGATION: u32 = 0x2_0000;
    pub const READONLY_WITH_CHECKSUM: u32 = 0x4_0000;
    pub const RESTRICTED_TOKENS: u32 = 0x8_0000;
    pub const NEGO_EXTENDER: u32 = 0x10_0000;
    pub const NEGOTIABLE2: u32 = 0x20_0000;
    pub const APP_CONTAINER_PASSTHROUGH: u32 = 0x40_0000;
    pub const APP_CONTAINER_CHECKS: u32 = 0x80_0000;

    /// The set with no bit raised.
    pub fn empty() -> (r: PackageCapabilities)
        ensures
            r.bits == 0,
    {
        PackageCapabilities { bits: 0 }
    }

    /// The set over the given bit pattern, kept verbatim.
    pub fn from_bits(bits: u32) -> (r: PackageCapabilities)
        ensures
            r.bits == bits,
    {
        PackageCapabilities { bits }
    }

    /// The bit pattern of the set.
    pub fn bits(&self) -> (r: u32)
        ensures
            r == self.bits,
    {
        self.bits
    }

    /// Whether every bit of `other` is raised in `self`.
    pub fn contains(&self, other: PackageCapabilities) -> (r: bool)
        ensures
            r == (self.bits & other.bits == other.bits),
    {
        self.bits & other.bits == other.bits
    }

    /// Whether some bit is raised in both sets.
    pub fn intersects(&self, other: PackageCapabilities) -> (r: bool)
        ensures
            r == (self.bits & other.bits != 0),
    {
        self.bits & other.bits != 0
    }

    /// The set with the bits of both sets raised.
    pub fn union(self, other: PackageCapabilities) -> (r: PackageCapabilities)
        ensures
            r.bits == (self.bits | other.bits),
    {
        PackageCapabilities { bits: self.bits | other.bits }
    }

    /// The set with exactly the bits raised in both sets.
    pub fn intersection(self, other: PackageCapabilities) -> (r: PackageCapabilities)
        ensures
            r.bits == (self.bits & other.bits),
    {
        PackageCapabilities { bits: self.bits & other.bits }
    }
}

/// Flags representing the error status codes used in `CertTrustStatus`.
#[derive(Debug, Copy, Clone, Eq, PartialEq, Structural)]
pub struct CertTrustErrorStatus {
    pub bits: u32,
}

impl CertTrustErrorStatus {
    pub const NO_ERROR: u32 = 0x0;
    pub const IS_NOT_TIME_VALID: u32 = 0x1;
    pub const IS_NOT_TIME_NESTED: u32 = 0x2;
    pub const IS_REVOKED: u32 = 0x4;
    pub const IS_NOT_SIGNATURE_VALID: u32 = 0x8;
    pub const IS_NOT_VALID_FOR_USAGE: u32 = 0x10;
    pub const IS_UNTRUSTED_ROOT: u32 = 0x20;
    pub const REVOCATION_STATUS_UNKNOWN: u32 = 0x40;
    pub const IS_CYCLIC: u32 = 0x80;
    pub const INVALID_EXTENSION: u32 = 0x100;
    pub const INVALID_POLICY_CONSTRAINTS: u32 = 0x200;
    pub const INVALID_BASIC_CONSTRAINTS: u32 = 0x400;
    pub const INVALID_NAME_CONSTRAINTS: u32 = 0x800;
    pub const HAS_NOT_SUPPORTED_NAME_CONSTRAINT: u32 = 0x1000;
    pub const HAS_NOT_DEFINED_NAME_CONSTRAINT: u32 = 0x2000;
    pub const HAS_NOT_PERMITTED_NAME_CONSTRAINT: u32 = 0x4000;
    pub const HAS_EXCLUDED_NAME_CONSTRAINT: u32 = 0x8000;
    pub const IS_PARTIAL_CHAIN: u32 = 0x0001_0000;
    pub const CTL_IS_NOT_TIME_VALID: u32 = 0x0002_0000;
    pub const CTL_IS_NOT_SIGNATURE_VALID: u32 = 0x0004_0000;
    pub const CTL_IS_NOT_VALID_FOR_USAGE: u32 = 0x0008_0000;
    pub const IS_OFFLINE_REVOCATION: u32 = 0x100_0000;
    pub const NO_ISSUANCE_CHAIN_POLICY: u32 = 0x200_0000;

    /// The set with no bit raised.
    pub fn empty() -> (r: CertTrustErrorStatus)
        ensures
            r.bits == 0,
    {
        CertTrustErrorStatus { bits: 0 }
    }

    /// The set over the given bit pattern, kept verbatim.
    pub fn from_bits(bits: u32) -> (r: CertTrustErrorStatus)
        ensures
            r.bits == bits,
    {
        CertTrustErrorStatus { bits }
    }

    /// The bit pattern of the set.
    pub fn bits(&self) -> (r: u32)
        ensures
            r == self.bits,
    {
        self.bits
    }

    /// Whether every bit of `other` is raised in `self`.
    pub fn contains(&self, other: CertTrustErrorStatus) -> (r: bool)
        ensures
            r == (self.bits & other.bits == other.bits),
    {
        self.bits & other.bits == other.bits
    }

    /// Whether some bit is raised in both sets.
    pub fn intersects(&self, other: CertTrustErrorStatus) -> (r: bool)
        ensures
            r == (self.bits & other.bits != 0),
    {
        self.bits & other.bits != 0
    }

    /// The set with the bits of both sets raised.
    pub fn union(self, other: CertTrustErrorStatus) -> (r: CertTrustErrorStatus)
        ensures
            r.bits == (self.bits | other.bits),
    {
        CertTrustErrorStatus { bits: self.bits | other.bits }
    }

    /// The set with exactly the bits raised in both sets.
    pub fn intersection(self, other: CertTrustErrorStatus) -> (r: CertTrustErrorStatus)
        ensures
            r.bits == (self.bits & other.bits),
    {
        CertTrustErrorStatus { bits: self.bits & other.bits }
    }
}

/// Flags representing the info status codes used in `CertTrustStatus`.
#[derive(Debug, Copy, Clone, Eq, PartialEq, Structural)]
pub struct CertTrustInfoStatus {
    pub bits: u32,
}

impl CertTrustInfoStatus {
    pub const HAS_EXACT_MATCH_ISSUER: u32 = 0x1;
    pub const HAS_KEY_MATCH_ISSUER: u32 = 0x2;
    pub const HAS_NAME_MATCH_ISSUER: u32 = 0x4;
    pub const IS_SELF_SIGNED: u32 = 0x8;
    pub const AUTO_UPDATE_CA_REVOCATION: u32 = 0x10;
    pub const AUTO_UPDATE_END_REVOCATION: u32 = 0x20;
    pub const NO_OCSP_FAILOVER_TO_CRL: u32 = 0x40;
    pub const IS_KEY_ROLLOVER: u32 = 0x80;
    pub const HAS_PREFERRED_ISSUER: u32 = 0x100;
    pub const HAS_ISSUANCE_CHAIN_POLICY: u32 = 0x200;
    pub const HAS_VALID_NAME_CONSTRAINTS: u32 = 0x400;
    pub const IS_PEER_TRUSTED: u32 = 0x800;
    pub const HAS_CRL_VALIDITY_EXTENDED: u32 = 0x1000;
    pub const IS_FROM_EXCLUSIVE_TRUST_STORE: u32 = 0x2000;
    pub const IS_CA_TRUSTED: u32 = 0x4000;
    pub const HAS_AUTO_UPDATE_WEAK_SIGNATURE: u32 = 0x8000;
    pub const SSL_HANDSHAKE_OCSP: u32 = 0x0004_0000;
    pub const SSL_TIME_VALID_OCSP: u32 = 0x0008_0000;
    pub const SSL_RECONNECT_OCSP: u32 = 0x0010_0000;
    pub const IS_COMPLEX_CHAIN: u32 = 0x0001_0000;
    pub const HAS_ALLOW_WEAK_SIGNATURE: u32 = 0x0002_0000;
    pub const SSL_TIME_VALID: u32 = 0x100_0000;
    pub const NO_TIME_CHECK: u32 = 0x200_0000;

    /// The set with no bit raised.
    pub fn empty() -> (r: CertTrustInfoStatus)
        ensures
            r.bits == 0,
    {
        CertTrustInfoStatus { bits: 0 }
    }

    /// The set over the given bit pattern, kept verbatim.
    pub fn from_bits(bits: u32) -> (r: CertTrustInfoStatus)
        ensures
            r.bits == bits,
    {
        CertTrustInfoStatus { bits }
    }

    /// The bit pattern of the set.
    pub fn bits(&self) -> (r: u32)
        ensures
            r == self.bits,
    {
        self.bits
    }

    /// Whether every bit of `other` is raised in `self`.
    pub fn contains(&self, other: CertTrustInfoStatus) -> (r: bool)
        ensures
            r == (self.bits & other.bits == other.bits),
    {
        self.bits & other.bits == other.bits
    }

    /// Whether some bit is raised in both sets.
    pub fn intersects(&self, other: CertTrustInfoStatus) -> (r: bool)
        ensures
            r == (self.bits & other.bits != 0),
    {
        self.bits & other.bits != 0
    }

    /// The set with the bits of both sets raised.
    pub fn union(self, other: CertTrustInfoStatus) -> (r: CertTrustInfoStatus)
        ensures
            r.bits == (self.bits | other.bits),
    {
        CertTrustInfoStatus { bits: self.bits | other.bits }
    }

    /// The set with exactly the bits raised in both sets.
    pub fn intersection(self, other: CertTrustInfoStatus) -> (r: CertTrustInfoStatus)
        ensures
            r.bits == (self.bits & other.bits),
    {
        CertTrustInfoStatus { bits: self.bits & other.bits }
    }
}

} // verus!