//! The fixed part of the NTLM wire format: every message opens with the
//! eight marker bytes `NTLMSSP\0` and a little-endian message type, and
//! the NEGOTIATE message adds the negotiate flags and the two name-field
//! descriptors.
//!
//! All multi-byte integers are little-endian. Decoding accepts exactly
//! the well-shaped messages and gives the bytes back verbatim when
//! re-encoded.

use vstd::prelude::*;

use crate::error::{Error, ErrorKind};
use crate::protection::{spec_u32_le_bytes, u32_le_bytes};

verus! {

/// The message type of a NEGOTIATE message.
pub const NEGOTIATE_MESSAGE_TYPE: u32 = 1;

/// The message type of a CHALLENGE message.
pub const CHALLENGE_MESSAGE_TYPE: u32 = 2;

/// The message type of an AUTHENTICATE message.
pub const AUTHENTICATE_MESSAGE_TYPE: u32 = 3;

/// The eight marker bytes `NTLMSSP\0` that open every NTLM message.
pub open spec fn spec_ntlmssp_marker() -> Seq<u8> {
    seq![0x4Eu8, 0x54u8, 0x4Cu8, 0x4Du8, 0x53u8, 0x53u8, 0x50u8, 0x00u8]
}

/// The twelve fixed bytes that open an NTLM message of the given type:
/// the marker and the type in little-endian.
pub open spec fn spec_ntlm_header_bytes(message_type: u32) -> Seq<u8> {
    spec_ntlmssp_marker() + spec_u32_le_bytes(message_type)
}

/// Whether the bytes open with the NTLM marker and carry a message type.
pub open spec fn spec_has_ntlm_header(bytes: Seq<u8>) -> bool {
    bytes.len() >= 12 && bytes.subrange(0, 8) == spec_ntlmssp_marker()
}

/// Equal little-endian bytes come from equal 32-bit values.
pub proof fn lemma_u32_le_bytes_injective(a: u32, b: u32)
    requires
        spec_u32_le_bytes(a) == spec_u32_le_bytes(b),
    ensures
        a == b,
{
    assert(spec_u32_le_bytes(a)[0] == spec_u32_le_bytes(b)[0]);
    assert(spec_u32_le_bytes(a)[1] == spec_u32_le_bytes(b)[1]);
    assert(spec_u32_le_bytes(a)[2] == spec_u32_le_bytes(b)[2]);
    assert(spec_u32_le_bytes(a)[3] == spec_u32_le_bytes(b)[3]);
    assert(a == b) by (bit_vector)
        requires
            a as u8 == b as u8 && (a >> 8) as u8 == (b >> 8) as u8 && (a >> 16) as u8 == (b >> 16)
                as u8 && (a >> 24) as u8 == (b >> 24) as u8,
    ;
}

/// Composing a 32-bit value from four little-endian bytes and taking its
/// bytes gives the bytes back.
proof fn lemma_le32_recompose(b0: u8, b1: u8, b2: u8, b3: u8)
    ensures
        spec_u32_le_bytes(
            (b0 as u32) | ((b1 as u32) << 8) | ((b2 as u32) << 16) | ((b3 as u32) << 24),
        ) =~= seq![b0, b1, b2, b3],
{
    let v = (b0 as u32) | ((b1 as u32) << 8) | ((b2 as u32) << 16) | ((b3 as u32) << 24);
    assert(v as u8 == b0 && (v >> 8) as u8 == b1 && (v >> 16) as u8 == b2 && (v >> 24) as u8 == b3)
        by (bit_vector)
        requires
            v == (b0 as u32) | ((b1 as u32) << 8) | ((b2 as u32) << 16) | ((b3 as u32) << 24),
    ;
}

/// Writes the twelve fixed bytes that open an NTLM message of the given
/// type.
pub fn encode_ntlm_header(message_type: u32) -> (r: Vec<u8>)
    ensures
        r@ == spec_ntlm_header_bytes(message_type),
{
    let mut bytes: Vec<u8> = Vec::new();
    bytes.push(0x4E);
    bytes.push(0x54);
    bytes.push(0x4C);
    bytes.push(0x4D);
    bytes.push(0x53);
    bytes.push(0x53);
    bytes.push(0x50);
    bytes.push(0x00);
    let mut message_type_bytes = u32_le_bytes(message_type);
    bytes.append(&mut message_type_bytes);
    proof {
        assert(bytes@ =~= spec_ntlm_header_bytes(message_type));
    }
    bytes
}

/// Reads the message type off an NTLM message. Exactly the messages that
/// open with the marker and are long enough to carry a type are accepted;
/// anything else is an `InvalidToken` error.
pub fn ntlm_message_type(bytes: &[u8]) -> (r: Result<u32, Error>)
    ensures
        r is Ok <==> spec_has_ntlm_header(bytes@),
        r matches Ok(t) ==> spec_u32_le_bytes(t) == bytes@.subrange(8, 12),
        r matches Err(e) ==> e.error_type == ErrorKind::InvalidToken,
{
    if bytes.len() < 12 {
        return Err(
            Error::new(
                ErrorKind::InvalidToken,
                String::from_str("an ntlm message opens with twelve fixed bytes"),
            ),
        );
    }
    if bytes[0] != 0x4E || bytes[1] != 0x54 || bytes[2] != 0x4C || bytes[3] != 0x4D || bytes[4]
        != 0x53 || bytes[5] != 0x53 || bytes[6] != 0x50 || bytes[7] != 0x00 {
        proof {
            assert(bytes@.subrange(0, 8) != spec_ntlmssp_marker());
        }
        return Err(
            Error::new(ErrorKind::InvalidToken, String::from_str("not an ntlm message marker")),
        );
    }
    let message_type = (bytes[8] as u32) | ((bytes[9] as u32) << 8) | ((bytes[10] as u32) << 16) | (
    (bytes[11] as u32) << 24);
    proof {
        assert(bytes@.subrange(0, 8) =~= spec_ntlmssp_marker());
        lemma_le32_recompose(bytes@[8], bytes@[9], bytes@[10], bytes@[11]);
        assert(spec_u32_le_bytes(message_type) =~= bytes@.subrange(8, 12));
    }
    Ok(message_type)
}

/// A length/capacity/offset descriptor that points a variable-length
/// field of an NTLM message into its payload.
#[derive(Debug, Copy, Clone, Eq, PartialEq, Structural)]
pub struct NtlmField {
    pub len: u16,
    pub max_len: u16,
    pub offset: u32,
}

/// The two little-endian bytes of a 16-bit field.
pub open spec fn spec_u16_le_bytes(v: u16) -> Seq<u8> {
    seq![v as u8, (v >> 8) as u8]
}

/// The eight bytes of a field descriptor: length, capacity and offset in
/// little-endian.
pub open spec fn spec_ntlm_field_bytes(f: NtlmField) -> Seq<u8> {
    spec_u16_le_bytes(f.len) + spec_u16_le_bytes(f.max_len) + spec_u32_le_bytes(f.offset)
}

/// Equal little-endian bytes come from equal 16-bit values.
pub proof fn lemma_u16_le_bytes_injective(a: u16, b: u16)
    requires
        spec_u16_le_bytes(a) == spec_u16_le_bytes(b),
    ensures
        a == b,
{
    assert(spec_u16_le_bytes(a)[0] == spec_u16_le_bytes(b)[0]);
    assert(spec_u16_le_bytes(a)[1] == spec_u16_le_bytes(b)[1]);
    assert(a == b) by (bit_vector)
        requires
            a as u8 == b as u8 && (a >> 8) as u8 == (b >> 8) as u8,
    ;
}

/// Composing a 16-bit value from two little-endian bytes and taking its
/// bytes gives the bytes back.
proof fn lemma_le16_recompose(b0: u8, b1: u8)
    ensures
        spec_u16_le_bytes((b0 as u16) | ((b1 as u16) << 8)) =~= seq![b0, b1],
{
    let v = (b0 as u16) | ((b1 as u16) << 8);
    assert(v as u8 == b0 && (v >> 8) as u8 == b1) by (bit_vector)
        requires
            v == (b0 as u16) | ((b1 as u16) << 8),
    ;
}

/// The fixed part of a NEGOTIATE message: the negotiate flags and the
/// descriptors of the domain and workstation names.
#[derive(Debug, Copy, Clone, Eq, PartialEq, Structural)]
pub struct NegotiateMessage {
    pub flags: u32,
    pub domain: NtlmField,
    pub workstation: NtlmField,
}

/// The 32 bytes of a NEGOTIATE message without payload: the header, the
/// flags, and the two name-field descriptors, all little-endian.
pub open spec fn spec_negotiate_message_bytes(m: NegotiateMessage) -> Seq<u8> {
    spec_ntlm_header_bytes(NEGOTIATE_MESSAGE_TYPE) + spec_u32_le_bytes(m.flags)
        + spec_ntlm_field_bytes(m.domain) + spec_ntlm_field_bytes(m.workstation)
}

/// Whether the bytes have the shape of a payload-free NEGOTIATE message:
/// the marker, the type, and the 32-byte length.
pub open spec fn spec_is_negotiate_message(bytes: Seq<u8>) -> bool {
    &&& bytes.len() == 32
    &&& spec_has_ntlm_header(bytes)
    &&& bytes.subrange(8, 12) == spec_u32_le_bytes(NEGOTIATE_MESSAGE_TYPE)
}

/// Equal message bytes come from equal NEGOTIATE messages: the 32 bytes
/// determine the message.
pub proof fn lemma_negotiate_message_bytes_injective(m1: NegotiateMessage, m2: NegotiateMessage)
    requires
        spec_negotiate_message_bytes(m1) == spec_negotiate_message_bytes(m2),
    ensures
        m1 == m2,
{
    let b1 = spec_negotiate_message_bytes(m1);
    let b2 = spec_negotiate_message_bytes(m2);
    assert(spec_u32_le_bytes(m1.flags) =~= spec_u32_le_bytes(m2.flags)) by {
        assert forall|i: int| 0 <= i < 4 implies spec_u32_le_bytes(m1.flags)[i] == spec_u32_le_bytes(
            m2.flags,
        )[i] by {
            assert(spec_u32_le_bytes(m1.flags)[i] == b1[12 + i]);
            assert(spec_u32_le_bytes(m2.flags)[i] == b2[12 + i]);
        }
    }
    lemma_u32_le_bytes_injective(m1.flags, m2.flags);
    assert(b1.subrange(16, 24) =~= spec_ntlm_field_bytes(m1.domain));
    assert(b2.subrange(16, 24) =~= spec_ntlm_field_bytes(m2.domain));
    assert(b1.subrange(24, 32) =~= spec_ntlm_field_bytes(m1.workstation));
    assert(b2.subrange(24, 32) =~= spec_ntlm_field_bytes(m2.workstation));
    lemma_ntlm_field_bytes_from(b1, m1.domain, 16);
    lemma_ntlm_field_bytes_from(b2, m2.domain, 16);
    lemma_ntlm_field_bytes_from(b1, m1.workstation, 24);
    lemma_ntlm_field_bytes_from(b2, m2.workstation, 24);
    lemma_ntlm_field_determined(m1.domain, m2.domain);
    lemma_ntlm_field_determined(m1.workstation, m2.workstation);
}

/// Helps read a field descriptor's bytes out of the whole message.
proof fn lemma_ntlm_field_bytes_from(bytes: Seq<u8>, f: NtlmField, at: int)
    requires
        0 <= at,
        at + 8 <= bytes.len(),
        bytes.subrange(at, at + 8) == spec_ntlm_field_bytes(f),
    ensures
        spec_u16_le_bytes(f.len) == seq![bytes[at], bytes[at + 1]],
        spec_u16_le_bytes(f.max_len) == seq![bytes[at + 2], bytes[at + 3]],
        spec_u32_le_bytes(f.offset) == seq![bytes[at + 4], bytes[at + 5], bytes[at + 6], bytes[at + 7]],
{
    assert(spec_u16_le_bytes(f.len) =~= seq![bytes[at], bytes[at + 1]]) by {
        assert forall|i: int| 0 <= i < 2 implies spec_u16_le_bytes(f.len)[i] == bytes[at + i] by {
            assert(bytes.subrange(at, at + 8)[i] == bytes[at + i]);
        }
    }
    assert(spec_u16_le_bytes(f.max_len) =~= seq![bytes[at + 2], bytes[at + 3]]) by {
        assert forall|i: int| 0 <= i < 2 implies spec_u16_le_bytes(f.max_len)[i] == bytes[at + 2 + i] by {
            assert(bytes.subrange(at, at + 8)[2 + i] == bytes[at + 2 + i]);
        }
    }
    assert(spec_u32_le_bytes(f.offset) =~= seq![bytes[at + 4], bytes[at + 5], bytes[at + 6], bytes[at + 7]]) by {
        assert forall|i: int| 0 <= i < 4 implies spec_u32_le_bytes(f.offset)[i] == bytes[at + 4 + i] by {
            assert(bytes.subrange(at, at + 8)[4 + i] == bytes[at + 4 + i]);
        }
    }
}

/// Two field descriptors with the same bytes are the same.
proof fn lemma_ntlm_field_determined(f1: NtlmField, f2: NtlmField)
    requires
        spec_u16_le_bytes(f1.len) == spec_u16_le_bytes(f2.len),
        spec_u16_le_bytes(f1.max_len) == spec_u16_le_bytes(f2.max_len),
        spec_u32_le_bytes(f1.offset) == spec_u32_le_bytes(f2.offset),
    ensures
        f1 == f2,
{
    lemma_u16_le_bytes_injective(f1.len, f2.len);
    lemma_u16_le_bytes_injective(f1.max_len, f2.max_len);
    lemma_u32_le_bytes_injective(f1.offset, f2.offset);
}

/// The NEGOTIATE message a client opens with: the given flags and empty
/// domain and workstation names, whose descriptors point at the end of
/// the fixed part.
pub fn negotiate_message(flags: u32) -> (r: NegotiateMessage)
    ensures
        r.flags == flags,
        r.domain == (NtlmField { len: 0, max_len: 0, offset: 32 }),
        r.workstation == (NtlmField { len: 0, max_len: 0, offset: 32 }),
{
    NegotiateMessage {
        flags,
        domain: NtlmField { len: 0, max_len: 0, offset: 32 },
        workstation: NtlmField { len: 0, max_len: 0, offset: 32 },
    }
}

fn push_ntlm_field(bytes: &mut Vec<u8>, field: &NtlmField)
    ensures
        final(bytes)@ == old(bytes)@ + spec_ntlm_field_bytes(*field),
{
    bytes.push(field.len as u8);
    bytes.push((field.len >> 8) as u8);
    bytes.push(field.max_len as u8);
    bytes.push((field.max_len >> 8) as u8);
    let mut offset_bytes = u32_le_bytes(field.offset);
    bytes.append(&mut offset_bytes);
    proof {
        assert(bytes@ =~= old(bytes)@ + spec_ntlm_field_bytes(*field));
    }
}

/// Writes a NEGOTIATE message as its 32 bytes.
pub fn encode_negotiate_message(message: &NegotiateMessage) -> (r: Vec<u8>)
    ensures
        r@ == spec_negotiate_message_bytes(*message),
        spec_is_negotiate_message(r@),
{
    let mut bytes = encode_ntlm_header(NEGOTIATE_MESSAGE_TYPE);
    let mut flag_bytes = u32_le_bytes(message.flags);
    bytes.append(&mut flag_bytes);
    push_ntlm_field(&mut bytes, &message.domain);
    push_ntlm_field(&mut bytes, &message.workstation);
    proof {
        assert(bytes@ =~= spec_negotiate_message_bytes(*message));
        assert(bytes@.subrange(0, 8) =~= spec_ntlmssp_marker());
        assert(bytes@.subrange(8, 12) =~= spec_u32_le_bytes(NEGOTIATE_MESSAGE_TYPE));
    }
    bytes
}

/// Reads a NEGOTIATE message back from its bytes. Exactly the well-shaped
/// 32-byte messages are accepted, whatever flags and descriptors they
/// carry; anything else is an `InvalidToken` error. What is accepted
/// re-encodes to the same bytes.
pub fn decode_negotiate_message(bytes: &[u8]) -> (r: Result<NegotiateMessage, Error>)
    ensures
        r is Ok <==> spec_is_negotiate_message(bytes@),
        r matches Ok(m) ==> spec_negotiate_message_bytes(m) == bytes@,
        r matches Err(e) ==> e.error_type == ErrorKind::InvalidToken,
{
    if bytes.len() != 32 {
        return Err(
            Error::new(
                ErrorKind::InvalidToken,
                String::from_str("a payload-free negotiate message is 32 bytes"),
            ),
        );
    }
    let message_type = match ntlm_message_type(bytes) {
        Ok(message_type) => message_type,
        Err(e) => {
            return Err(e);
        },
    };
    if message_type != NEGOTIATE_MESSAGE_TYPE {
        proof {
            if bytes@.subrange(8, 12) == spec_u32_le_bytes(NEGOTIATE_MESSAGE_TYPE) {
                lemma_u32_le_bytes_injective(message_type, NEGOTIATE_MESSAGE_TYPE);
            }
        }
        return Err(
            Error::new(ErrorKind::InvalidToken, String::from_str("not a negotiate message")),
        );
    }
    let flags = (bytes[12] as u32) | ((bytes[13] as u32) << 8) | ((bytes[14] as u32) << 16) | ((
    bytes[15] as u32) << 24);
    let domain = read_ntlm_field(bytes, 16);
    let workstation = read_ntlm_field(bytes, 24);
    let message = NegotiateMessage { flags, domain, workstation };
    proof {
        lemma_le32_recompose(bytes@[12], bytes@[13], bytes@[14], bytes@[15]);
        assert(spec_negotiate_message_bytes(message) =~= bytes@);
    }
    Ok(message)
}

fn read_ntlm_field(bytes: &[u8], at: usize) -> (r: NtlmField)
    requires
        at + 8 <= bytes@.len(),
    ensures
        spec_ntlm_field_bytes(r) == bytes@.subrange(at as int, at + 8),
{
    let len = (bytes[at] as u16) | ((bytes[at + 1] as u16) << 8);
    let max_len = (bytes[at + 2] as u16) | ((bytes[at + 3] as u16) << 8);
    let offset = (bytes[at + 4] as u32) | ((bytes[at + 5] as u32) << 8) | ((bytes[at + 6] as u32)
        << 16) | ((bytes[at + 7] as u32) << 24);
    let field = NtlmField { len, max_len, offset };
    proof {
        lemma_le16_recompose(bytes@[at as int], bytes@[at + 1]);
        lemma_le16_recompose(bytes@[at + 2], bytes@[at + 3]);
        lemma_le32_recompose(bytes@[at + 4], bytes@[at + 5], bytes@[at + 6], bytes@[at + 7]);
        assert(spec_ntlm_field_bytes(field) =~= bytes@.subrange(at as int, at + 8));
    }
    field
}

/// The eight little-endian bytes of a 64-bit field, as the NTLMv2 blob
/// carries its timestamp.
pub open spec fn spec_u64_le_bytes(v: u64) -> Seq<u8> {
    seq![
        v as u8,
        (v >> 8) as u8,
        (v >> 16) as u8,
        (v >> 24) as u8,
        (v >> 32) as u8,
        (v >> 40) as u8,
        (v >> 48) as u8,
        (v >> 56) as u8,
    ]
}

/// The empty target-info list: the terminating attribute-value pair
/// alone, an id of zero and a length of zero. A server without target
/// info supplies this.
pub fn empty_target_info() -> (r: Vec<u8>)
    ensures
        r@ == seq![0u8, 0u8, 0u8, 0u8],
{
    let mut bytes: Vec<u8> = Vec::new();
    bytes.push(0);
    bytes.push(0);
    bytes.push(0);
    bytes.push(0);
    proof {
        assert(bytes@ =~= seq![0u8, 0u8, 0u8, 0u8]);
    }
    bytes
}

/// The bytes of an NTLMv2 blob: the version words, the timestamp in
/// little-endian, the eight client challenge bytes, four reserved zero
/// bytes, the target info, and four trailing zero bytes.
pub open spec fn spec_ntlmv2_blob_bytes(
    timestamp: u64,
    client_challenge: Seq<u8>,
    target_info: Seq<u8>,
) -> Seq<u8> {
    seq![0x01u8, 0x01u8, 0u8, 0u8, 0u8, 0u8, 0u8, 0u8] + spec_u64_le_bytes(timestamp)
        + client_challenge + seq![0u8, 0u8, 0u8, 0u8] + target_info + seq![0u8, 0u8, 0u8, 0u8]
}

/// Lays out the NTLMv2 blob over which the NT proof is computed: the
/// version words, the timestamp, the client challenge, the target info,
/// and the reserved and trailing zero words.
pub fn ntlmv2_blob(timestamp: u64, client_challenge: &[u8], target_info: &[u8]) -> (r: Vec<u8>)
    requires
        client_challenge@.len() == 8,
    ensures
        r@ == spec_ntlmv2_blob_bytes(timestamp, client_challenge@, target_info@),
        r@.len() == 32 + target_info@.len(),
{
    let mut blob: Vec<u8> = Vec::new();
    blob.push(0x01);
    blob.push(0x01);
    blob.push(0);
    blob.push(0);
    blob.push(0);
    blob.push(0);
    blob.push(0);
    blob.push(0);
    blob.push(timestamp as u8);
    blob.push((timestamp >> 8) as u8);
    blob.push((timestamp >> 16) as u8);
    blob.push((timestamp >> 24) as u8);
    blob.push((timestamp >> 32) as u8);
    blob.push((timestamp >> 40) as u8);
    blob.push((timestamp >> 48) as u8);
    blob.push((timestamp >> 56) as u8);
    blob.extend_from_slice(client_challenge);
    blob.push(0);
    blob.push(0);
    blob.push(0);
    blob.push(0);
    blob.extend_from_slice(target_info);
    blob.push(0);
    blob.push(0);
    blob.push(0);
    blob.push(0);
    proof {
        assert(spec_u64_le_bytes(timestamp) =~= seq![
            timestamp as u8,
            (timestamp >> 8) as u8,
            (timestamp >> 16) as u8,
            (timestamp >> 24) as u8,
            (timestamp >> 32) as u8,
            (timestamp >> 40) as u8,
            (timestamp >> 48) as u8,
            (timestamp >> 56) as u8,
        ]);
        assert(blob@ =~= spec_ntlmv2_blob_bytes(timestamp, client_challenge@, target_info@));
    }
    blob
}

/// The negotiate-flag bit for Unicode (UTF-16LE) strings.
pub const NEGOTIATE_UNICODE: u32 = 0x0000_0001;

/// The negotiate-flag bit that asks the server to name its target.
pub const NEGOTIATE_REQUEST_TARGET: u32 = 0x0000_0004;

/// The negotiate-flag bit for message signing.
pub const NEGOTIATE_SIGN: u32 = 0x0000_0010;

/// The negotiate-flag bit for message sealing.
pub const NEGOTIATE_SEAL: u32 = 0x0000_0020;

/// The negotiate-flag bit for the NTLM protocol proper.
pub const NEGOTIATE_NTLM: u32 = 0x0000_0200;

/// The negotiate-flag bit that signs all messages of the exchange.
pub const NEGOTIATE_ALWAYS_SIGN: u32 = 0x0000_8000;

/// The negotiate-flag bit for extended session security.
pub const NEGOTIATE_EXTENDED_SESSION_SECURITY: u32 = 0x0008_0000;

/// The negotiate-flag bit for 128-bit session keys.
pub const NEGOTIATE_128: u32 = 0x2000_0000;

/// The negotiate-flag bit for explicit key exchange.
pub const NEGOTIATE_KEY_EXCH: u32 = 0x4000_0000;

/// The flags a client opens its NEGOTIATE message with: Unicode strings,
/// NTLM with extended session security, signing and sealing with 128-bit
/// keys and explicit key exchange, and a request for the target name.
pub const DEFAULT_NEGOTIATE_FLAGS: u32 = NEGOTIATE_UNICODE | NEGOTIATE_REQUEST_TARGET
    | NEGOTIATE_SIGN | NEGOTIATE_SEAL | NEGOTIATE_NTLM | NEGOTIATE_ALWAYS_SIGN
    | NEGOTIATE_EXTENDED_SESSION_SECURITY | NEGOTIATE_128 | NEGOTIATE_KEY_EXCH;

/// The flags two peers agree on: the bits raised on both sides. Unknown
/// bits fall out of the intersection; none is a reason to reject.
pub fn negotiated_flags(ours: u32, theirs: u32) -> (r: u32)
    ensures
        r == (ours & theirs),
{
    ours & theirs
}

} // verus!
