//! The credential model: the username/domain/password triple a caller
//! supplies, its Unicode byte form used on the wire, and the validation
//! that credential acquisition performs on its arguments.

use vstd::prelude::*;

use crate::error::{Error, ErrorKind};
use crate::package::{CredentialUse, SecurityPackageType};

verus! {

/// A username/domain/password triple. The domain is optional for NTLM; for
/// Kerberos it names the realm and must be present.
#[derive(Debug, Clone)]
pub struct AuthIdentity {
    pub username: String,
    pub password: String,
    pub domain: Option<String>,
}

/// The UTF-16 code units of one character: a single unit below the
/// supplementary planes, a surrogate pair above them.
pub open spec fn spec_utf16_code_units(c: char) -> Seq<u16> {
    if (c as int) < 0x10000 {
        seq![(c as int) as u16]
    } else {
        seq![
            (0xD800 + ((c as int) - 0x10000) / 0x400) as u16,
            (0xDC00 + ((c as int) - 0x10000) % 0x400) as u16,
        ]
    }
}

/// The two little-endian bytes of one UTF-16 code unit.
pub open spec fn spec_utf16le_unit_bytes(u: u16) -> Seq<u8> {
    seq![(u & 0xFF) as u8, (u >> 8) as u8]
}

/// The little-endian bytes of one character's UTF-16 code units.
pub open spec fn spec_utf16le_char_bytes(c: char) -> Seq<u8> {
    let units = spec_utf16_code_units(c);
    if units.len() == 1 {
        spec_utf16le_unit_bytes(units[0])
    } else {
        spec_utf16le_unit_bytes(units[0]) + spec_utf16le_unit_bytes(units[1])
    }
}

/// The UTF-16LE byte form of a text, character by character.
pub open spec fn spec_utf16le_bytes(s: Seq<char>) -> Seq<u8>
    decreases s.len(),
{
    if s.len() == 0 {
        Seq::empty()
    } else {
        spec_utf16le_bytes(s.drop_last()) + spec_utf16le_char_bytes(s.last())
    }
}

/// Encodes a text as UTF-16LE, the byte form that the wire formats carry
/// names and passwords in.
pub fn utf16le_encode(s: &str) -> (r: Vec<u8>)
    ensures
        r@ == spec_utf16le_bytes(s@),
{
    let n = s.unicode_len();
    let mut bytes: Vec<u8> = Vec::new();
    let mut i: usize = 0;
    while i < n
        invariant
            n == s@.len(),
            i <= n,
            bytes@ == spec_utf16le_bytes(s@.subrange(0, i as int)),
        decreases n - i,
    {
        let c = s.get_char(i);
        let code = c as u32;
        if code < 0x10000 {
            let unit = code as u16;
            bytes.push((unit & 0xFF) as u8);
            bytes.push((unit >> 8) as u8);
        } else {
            let v = code - 0x10000;
            let high = (0xD800 + v / 0x400) as u16;
            let low = (0xDC00 + v % 0x400) as u16;
            bytes.push((high & 0xFF) as u8);
            bytes.push((high >> 8) as u8);
            bytes.push((low & 0xFF) as u8);
            bytes.push((low >> 8) as u8);
        }
        proof {
            assert(s@.subrange(0, i + 1).drop_last() =~= s@.subrange(0, i as int));
            assert(s@.subrange(0, i + 1).last() == s@[i as int]);
            assert(bytes@ =~= spec_utf16le_bytes(s@.subrange(0, i + 1)));
        }
        i = i + 1;
    }
    proof {
        assert(s@.subrange(0, n as int) =~= s@);
    }
    bytes
}

/// The credential triple in its UTF-16LE byte form. An absent domain is an
/// empty byte sequence.
#[derive(Debug, Clone)]
pub struct AuthIdentityBuffers {
    pub user: Vec<u8>,
    pub domain: Vec<u8>,
    pub password: Vec<u8>,
}

impl AuthIdentityBuffers {
    /// The byte form of a credential triple.
    pub fn from_identity(identity: &AuthIdentity) -> (r: AuthIdentityBuffers)
        ensures
            r.user@ == spec_utf16le_bytes(identity.username@),
            identity.domain matches Some(domain) ==> r.domain@ == spec_utf16le_bytes(domain@),
            identity.domain is None ==> r.domain@ == Seq::<u8>::empty(),
            r.password@ == spec_utf16le_bytes(identity.password@),
    {
        let domain = match &identity.domain {
            Some(domain) => utf16le_encode(domain.as_str()),
            None => Vec::new(),
        };
        AuthIdentityBuffers {
            user: utf16le_encode(identity.username.as_str()),
            domain,
            password: utf16le_encode(identity.password.as_str()),
        }
    }
}

/// Whether an identity is well-formed for a package: Kerberos requires a
/// realm, given as a non-empty domain; the other packages take any triple.
pub open spec fn spec_identity_well_formed(
    package_type: SecurityPackageType,
    identity: AuthIdentity,
) -> bool {
    package_type is Kerberos ==> (identity.domain matches Some(domain) && domain@.len() > 0)
}

/// Validates the arguments of credential acquisition: the use must be one
/// of `Inbound`, `Outbound` and `Both`, and the identity must be
/// well-formed for the package. A failure is an `InvalidParameter` error.
pub fn validate_acquire_arguments(
    package_type: &SecurityPackageType,
    credential_use: CredentialUse,
    identity: &AuthIdentity,
) -> (r: Result<(), Error>)
    ensures
        r is Ok <==> !(credential_use is Default) && spec_identity_well_formed(
            *package_type,
            *identity,
        ),
        r matches Err(e) ==> e.error_type == ErrorKind::InvalidParameter,
{
    if matches!(credential_use, CredentialUse::Default) {
        return Err(
            Error::new(
                ErrorKind::InvalidParameter,
                String::from_str("credentials must be acquired for inbound or outbound use"),
            ),
        );
    }
    if matches!(package_type, SecurityPackageType::Kerberos) {
        let realm_present = match &identity.domain {
            Some(domain) => !domain.as_str().is_empty(),
            None => false,
        };
        if !realm_present {
            return Err(
                Error::new(
                    ErrorKind::InvalidParameter,
                    String::from_str("Kerberos requires a realm as the identity's domain"),
                ),
            );
        }
    }
    Ok(())
}

} // verus!
