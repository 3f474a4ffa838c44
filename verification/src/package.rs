//! The security packages and their descriptors: the package names, the
//! per-package `PackageInfo` records returned by the queries, the plain
//! value records returned by the context queries, and the bound on token
//! sizes that every package enforces.

use vstd::prelude::*;

use crate::error::{Error, ErrorKind};
use crate::flags::{CertTrustErrorStatus, CertTrustInfoStatus, PackageCapabilities};

verus! {

/// The RPC identifier of a package that is not tied to an RPC transport.
pub const PACKAGE_ID_NONE: u16 = 0xFFFF;

/// The largest token or message, in bytes, that either package accepts.
pub const MAX_TOKEN_LEN: u32 = 65536;

/// The name of the NTLM package.
pub const NTLM_PKG_NAME: &'static str = "NTLM";

/// The name of the Kerberos package.
pub const KERBEROS_PKG_NAME: &'static str = "Kerberos";

/// The name of the Negotiate pseudo-package descriptor.
pub const NEGOTIATE_PKG_NAME: &'static str = "Negotiate";

/// The capabilities announced by the NTLM package.
pub const NTLM_CAPABILITIES: u32 = PackageCapabilities::INTEGRITY | PackageCapabilities::PRIVACY
    | PackageCapabilities::TOKEN_ONLY | PackageCapabilities::CONNECTION
    | PackageCapabilities::MULTI_REQUIRED | PackageCapabilities::IMPERSONATION
    | PackageCapabilities::ACCEPT_WIN32_NAME | PackageCapabilities::NEGOTIABLE
    | PackageCapabilities::LOGON | PackageCapabilities::RESTRICTED_TOKENS;

/// The capabilities announced by the Kerberos package.
pub const KERBEROS_CAPABILITIES: u32 = PackageCapabilities::INTEGRITY
    | PackageCapabilities::PRIVACY | PackageCapabilities::TOKEN_ONLY
    | PackageCapabilities::DATAGRAM | PackageCapabilities::CONNECTION
    | PackageCapabilities::MULTI_REQUIRED | PackageCapabilities::EXTENDED_ERROR
    | PackageCapabilities::IMPERSONATION | PackageCapabilities::ACCEPT_WIN32_NAME
    | PackageCapabilities::NEGOTIABLE | PackageCapabilities::GSS_COMPATIBLE
    | PackageCapabilities::LOGON | PackageCapabilities::MUTUAL_AUTH
    | PackageCapabilities::DELEGATION | PackageCapabilities::READONLY_WITH_CHECKSUM
    | PackageCapabilities::RESTRICTED_TOKENS;

/// The capabilities announced by the Negotiate descriptor.
pub const NEGOTIATE_CAPABILITIES: u32 = PackageCapabilities::INTEGRITY
    | PackageCapabilities::PRIVACY | PackageCapabilities::CONNECTION
    | PackageCapabilities::MULTI_REQUIRED | PackageCapabilities::EXTENDED_ERROR
    | PackageCapabilities::IMPERSONATION | PackageCapabilities::ACCEPT_WIN32_NAME
    | PackageCapabilities::NEGOTIABLE | PackageCapabilities::GSS_COMPATIBLE
    | PackageCapabilities::LOGON | PackageCapabilities::RESTRICTED_TOKENS;

/// Represents the security principal in use.
#[derive(Debug, Clone)]
pub enum SecurityPackageType {
    Ntlm,
    Kerberos,
    Other(String),
}

/// The name under which a package is addressed.
pub open spec fn spec_package_type_name(p: SecurityPackageType) -> Seq<char> {
    match p {
        SecurityPackageType::Ntlm => "NTLM"@,
        SecurityPackageType::Kerberos => "Kerberos"@,
        SecurityPackageType::Other(name) => name@,
    }
}

/// Whether `p` is the package that the name `n` addresses: the two known
/// names give their package, and every other name gives `Other` carrying
/// the name verbatim.
pub open spec fn spec_is_package_type_of_name(n: Seq<char>, p: SecurityPackageType) -> bool {
    if n == "NTLM"@ {
        p == SecurityPackageType::Ntlm
    } else if n == "Kerberos"@ {
        p == SecurityPackageType::Kerberos
    } else {
        p matches SecurityPackageType::Other(name) && name@ == n
    }
}

impl SecurityPackageType {
    /// The name under which this package is addressed.
    pub fn to_string(&self) -> (r: String)
        ensures
            r@ == spec_package_type_name(*self),
    {
        match self {
            SecurityPackageType::Ntlm => String::from_str(NTLM_PKG_NAME),
            SecurityPackageType::Kerberos => String::from_str(KERBEROS_PKG_NAME),
            SecurityPackageType::Other(name) => name.clone(),
        }
    }

    /// The package that a name addresses. Every name parses: an unknown
    /// one becomes `Other` carrying the name verbatim.
    pub fn from_str(s: &str) -> (r: Result<SecurityPackageType, Error>)
        ensures
            r matches Ok(p) && spec_is_package_type_of_name(s@, p),
    {
        let owned = s.to_owned();
        if owned == String::from_str(NTLM_PKG_NAME) {
            Ok(SecurityPackageType::Ntlm)
        } else if owned == String::from_str(KERBEROS_PKG_NAME) {
            Ok(SecurityPackageType::Kerberos)
        } else {
            Ok(SecurityPackageType::Other(owned))
        }
    }
}

/// Printing the package that a name parsed to gives the name back, for
/// every name.
pub proof fn lemma_package_name_parse_print(n: Seq<char>, p: SecurityPackageType)
    requires
        spec_is_package_type_of_name(n, p),
    ensures
        spec_package_type_name(p) == n,
{
}

/// Parsing the printed name of a package gives the package back, for every
/// package but an `Other` that carries one of the two reserved names.
pub proof fn lemma_package_name_print_parse(p: SecurityPackageType, q: SecurityPackageType)
    requires
        spec_is_package_type_of_name(spec_package_type_name(p), q),
        p matches SecurityPackageType::Other(name) ==> name@ != "NTLM"@ && name@ != "Kerberos"@,
    ensures
        p is Ntlm <==> q is Ntlm,
        p is Kerberos <==> q is Kerberos,
        spec_package_type_name(q) == spec_package_type_name(p),
{
    reveal_strlit("NTLM");
    reveal_strlit("Kerberos");
    assert("NTLM"@.len() == 4);
    assert("Kerberos"@.len() == 8);
    assert("NTLM"@ != "Kerberos"@);
}

/// General security principal information
///
/// Provides general information about a security package, such as its name
/// and capabilities. Returned by `query_security_package_info`.
#[derive(Debug, Clone)]
pub struct PackageInfo {
    pub capabilities: PackageCapabilities,
    pub rpc_id: u16,
    pub max_token_len: u32,
    pub name: SecurityPackageType,
    pub comment: String,
}

/// Whether `info` is the descriptor of the NTLM package.
pub open spec fn spec_is_ntlm_package_info(info: PackageInfo) -> bool {
    &&& info.capabilities.bits == NTLM_CAPABILITIES
    &&& info.rpc_id == PACKAGE_ID_NONE
    &&& info.max_token_len == MAX_TOKEN_LEN
    &&& info.name is Ntlm
    &&& info.comment@ == "NTLM Security Package"@
}

/// Whether `info` is the descriptor of the Kerberos package.
pub open spec fn spec_is_kerberos_package_info(info: PackageInfo) -> bool {
    &&& info.capabilities.bits == KERBEROS_CAPABILITIES
    &&& info.rpc_id == PACKAGE_ID_NONE
    &&& info.max_token_len == MAX_TOKEN_LEN
    &&& info.name is Kerberos
    &&& info.comment@ == "Kerberos Security Package"@
}

/// Whether `info` is the descriptor of the Negotiate pseudo-package.
pub open spec fn spec_is_negotiate_package_info(info: PackageInfo) -> bool {
    &&& info.capabilities.bits == NEGOTIATE_CAPABILITIES
    &&& info.rpc_id == PACKAGE_ID_NONE
    &&& info.max_token_len == MAX_TOKEN_LEN
    &&& info.name matches SecurityPackageType::Other(name) && name@ == "Negotiate"@
    &&& info.comment@ == "Microsoft Package Negotiator"@
}

fn ntlm_package_info() -> (r: PackageInfo)
    ensures
        spec_is_ntlm_package_info(r),
{
    PackageInfo {
        capabilities: PackageCapabilities::from_bits(NTLM_CAPABILITIES),
        rpc_id: PACKAGE_ID_NONE,
        max_token_len: MAX_TOKEN_LEN,
        name: SecurityPackageType::Ntlm,
        comment: String::from_str("NTLM Security Package"),
    }
}

fn kerberos_package_info() -> (r: PackageInfo)
    ensures
        spec_is_kerberos_package_info(r),
{
    PackageInfo {
        capabilities: PackageCapabilities::from_bits(KERBEROS_CAPABILITIES),
        rpc_id: PACKAGE_ID_NONE,
        max_token_len: MAX_TOKEN_LEN,
        name: SecurityPackageType::Kerberos,
        comment: String::from_str("Kerberos Security Package"),
    }
}

fn negotiate_package_info() -> (r: PackageInfo)
    ensures
        spec_is_negotiate_package_info(r),
{
    PackageInfo {
        capabilities: PackageCapabilities::from_bits(NEGOTIATE_CAPABILITIES),
        rpc_id: PACKAGE_ID_NONE,
        max_token_len: MAX_TOKEN_LEN,
        name: SecurityPackageType::Other(String::from_str("Negotiate")),
        comment: String::from_str("Microsoft Package Negotiator"),
    }
}

/// Retrieves information about a specified security package. This
/// information includes credentials and contexts.
///
/// The two known packages give their descriptor; querying any other name
/// gives an `Unknown` error.
pub fn query_security_package_info(package_type: SecurityPackageType) -> (r: Result<
    PackageInfo,
    Error,
>)
    ensures
        package_type is Ntlm ==> (r matches Ok(info) && spec_is_ntlm_package_info(info)),
        package_type is Kerberos ==> (r matches Ok(info) && spec_is_kerberos_package_info(info)),
        package_type matches SecurityPackageType::Other(_) ==> (r matches Err(e) && e.error_type
            == ErrorKind::Unknown),
{
    match package_type {
        SecurityPackageType::Ntlm => Ok(ntlm_package_info()),
        SecurityPackageType::Kerberos => Ok(kerberos_package_info()),
        SecurityPackageType::Other(_) => Err(
            Error::new(
                ErrorKind::Unknown,
                String::from_str("queried info about an unknown package"),
            ),
        ),
    }
}

/// Returns the `PackageInfo` descriptors of the security packages
/// available to the client: Kerberos, the Negotiate descriptor, and NTLM,
/// in that order.
pub fn enumerate_security_packages() -> (r: Result<Vec<PackageInfo>, Error>)
    ensures
        r matches Ok(packages) && {
            &&& packages@.len() == 3
            &&& spec_is_kerberos_package_info(packages@[0])
            &&& spec_is_negotiate_package_info(packages@[1])
            &&& spec_is_ntlm_package_info(packages@[2])
        },
{
    let mut packages: Vec<PackageInfo> = Vec::new();
    packages.push(kerberos_package_info());
    packages.push(negotiate_package_info());
    packages.push(ntlm_package_info());
    Ok(packages)
}

/// Rejects a token or message longer than `MAX_TOKEN_LEN` bytes with an
/// `InvalidToken` error, and accepts every shorter or equal length.
pub fn validate_token_len(len: u64) -> (r: Result<(), Error>)
    ensures
        r is Ok <==> len <= MAX_TOKEN_LEN,
        r matches Err(e) ==> e.error_type == ErrorKind::InvalidToken,
{
    if len <= MAX_TOKEN_LEN as u64 {
        Ok(())
    } else {
        Err(Error::new(ErrorKind::InvalidToken, String::from_str("the token exceeds the largest accepted size")))
    }
}

/// Indicates the sizes of important structures used in the message support
/// functions. The `query_context_sizes` operation returns this structure.
#[derive(Debug, Copy, Clone, Eq, PartialEq, Structural)]
pub struct ContextSizes {
    pub max_token: u32,
    pub max_signature: u32,
    pub block: u32,
    pub security_trailer: u32,
}

/// Indicates the name of the user associated with a security context. The
/// `query_context_names` operation returns this structure.
#[derive(Debug, Clone)]
pub struct ContextNames {
    pub username: String,
    pub domain: Option<String>,
}

/// Contains trust information about a certificate in a certificate chain.
/// The `query_context_cert_trust_status` operation returns this structure.
#[derive(Debug, Copy, Clone, Eq, PartialEq, Structural)]
pub struct CertTrustStatus {
    pub error_status: CertTrustErrorStatus,
    pub info_status: CertTrustInfoStatus,
}

/// The data representation, such as byte ordering, on the target.
#[derive(Debug, Copy, Clone, Eq, PartialEq, Structural)]
pub enum DataRepresentation {
    Network,
    Native,
}

/// The wire number of a data representation.
pub open spec fn spec_data_representation_to_u32(r: DataRepresentation) -> u32 {
    match r {
        DataRepresentation::Network => 0,
        DataRepresentation::Native => 0x10,
    }
}

/// The data representation keyed by a wire number, if the number is one of
/// the two.
pub open spec fn spec_data_representation_from_u32(value: u32) -> Option<DataRepresentation> {
    match value {
        0u32 => Some(DataRepresentation::Network),
        0x10u32 => Some(DataRepresentation::Native),
        _ => None,
    }
}

impl DataRepresentation {
    /// The wire number of this representation.
    pub fn to_u32(&self) -> (r: u32)
        ensures
            r == spec_data_representation_to_u32(*self),
    {
        match *self {
            DataRepresentation::Network => 0,
            DataRepresentation::Native => 0x10,
        }
    }

    /// The representation keyed by a wire number, or `None`.
    pub fn from_u32(value: u32) -> (r: Option<DataRepresentation>)
        ensures
            r == spec_data_representation_from_u32(value),
    {
        match value {
            0 => Some(DataRepresentation::Network),
            0x10 => Some(DataRepresentation::Native),
            _ => None,
        }
    }
}

/// The wire number keys the representations.
pub proof fn lemma_data_representation_code_roundtrip(r: DataRepresentation)
    ensures
        spec_data_representation_from_u32(spec_data_representation_to_u32(r)) == Some(r),
{
}

/// A flag that indicates how the credentials are used.
#[derive(Debug, Copy, Clone, Eq, PartialEq, Structural)]
pub enum CredentialUse {
    Inbound,
    Outbound,
    Both,
    Default,
}

/// The wire number of a credential use.
pub open spec fn spec_credential_use_to_u32(u: CredentialUse) -> u32 {
    match u {
        CredentialUse::Inbound => 1,
        CredentialUse::Outbound => 2,
        CredentialUse::Both => 3,
        CredentialUse::Default => 4,
    }
}

/// The credential use keyed by a wire number, if the number is one of the
/// closed set.
pub open spec fn spec_credential_use_from_u32(value: u32) -> Option<CredentialUse> {
    match value {
        1u32 => Some(CredentialUse::Inbound),
        2u32 => Some(CredentialUse::Outbound),
        3u32 => Some(CredentialUse::Both),
        4u32 => Some(CredentialUse::Default),
        _ => None,
    }
}

impl CredentialUse {
    /// The wire number of this credential use.
    pub fn to_u32(&self) -> (r: u32)
        ensures
            r == spec_credential_use_to_u32(*self),
    {
        match *self {
            CredentialUse::Inbound => 1,
            CredentialUse::Outbound => 2,
            CredentialUse::Both => 3,
            CredentialUse::Default => 4,
        }
    }

    /// The credential use keyed by a wire number, or `None`.
    pub fn from_u32(value: u32) -> (r: Option<CredentialUse>)
        ensures
            r == spec_credential_use_from_u32(value),
    {
        match value {
            1 => Some(CredentialUse::Inbound),
            2 => Some(CredentialUse::Outbound),
            3 => Some(CredentialUse::Both),
            4 => Some(CredentialUse::Default),
            _ => None,
        }
    }
}

/// The wire number keys the credential uses.
pub proof fn lemma_credential_use_code_roundtrip(u: CredentialUse)
    ensures
        spec_credential_use_from_u32(spec_credential_use_to_u32(u)) == Some(u),
{
}

} // verus!
