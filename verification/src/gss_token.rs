//! The fixed 16-byte headers of the per-message GSS-API tokens: the Wrap
//! token that carries a protected message and the MIC token that carries a
//! bare integrity check.
//!
//! The header layout is bit-exact: a two-byte token id, a flag byte,
//! filler bytes, and the extra-count, rotation-count and sequence-number
//! fields in big-endian. Decoding accepts exactly the well-shaped headers
//! and gives the bytes back verbatim when re-encoded.

use vstd::prelude::*;

use crate::error::{Error, ErrorKind};

verus! {

/// The flag bit that marks a token sent by the acceptor.
pub const GSS_FLAG_SENT_BY_ACCEPTOR: u8 = 0x01;

/// The flag bit that marks a sealed (confidentiality-protected) token.
pub const GSS_FLAG_SEALED: u8 = 0x02;

/// The flag bit that marks protection under the acceptor-asserted subkey.
pub const GSS_FLAG_ACCEPTOR_SUBKEY: u8 = 0x04;

/// The two big-endian bytes of a 16-bit field.
pub open spec fn spec_u16_be_bytes(v: u16) -> Seq<u8> {
    seq![(v >> 8) as u8, v as u8]
}

/// The eight big-endian bytes of a 64-bit field.
pub open spec fn spec_u64_be_bytes(v: u64) -> Seq<u8> {
    seq![
        (v >> 56) as u8,
        (v >> 48) as u8,
        (v >> 40) as u8,
        (v >> 32) as u8,
        (v >> 24) as u8,
        (v >> 16) as u8,
        (v >> 8) as u8,
        v as u8,
    ]
}

/// Equal big-endian bytes come from equal 16-bit fields.
pub proof fn lemma_u16_be_bytes_injective(a: u16, b: u16)
    requires
        spec_u16_be_bytes(a) == spec_u16_be_bytes(b),
    ensures
        a == b,
{
    assert(spec_u16_be_bytes(a)[0] == spec_u16_be_bytes(b)[0]);
    assert(spec_u16_be_bytes(a)[1] == spec_u16_be_bytes(b)[1]);
    assert(a == b) by (bit_vector)
        requires
            (a >> 8) as u8 == (b >> 8) as u8 && a as u8 == b as u8,
    ;
}

/// Equal big-endian bytes come from equal 64-bit fields.
pub proof fn lemma_u64_be_bytes_injective(a: u64, b: u64)
    requires
        spec_u64_be_bytes(a) == spec_u64_be_bytes(b),
    ensures
        a == b,
{
    assert(spec_u64_be_bytes(a)[0] == spec_u64_be_bytes(b)[0]);
    assert(spec_u64_be_bytes(a)[1] == spec_u64_be_bytes(b)[1]);
    assert(spec_u64_be_bytes(a)[2] == spec_u64_be_bytes(b)[2]);
    assert(spec_u64_be_bytes(a)[3] == spec_u64_be_bytes(b)[3]);
    assert(spec_u64_be_bytes(a)[4] == spec_u64_be_bytes(b)[4]);
    assert(spec_u64_be_bytes(a)[5] == spec_u64_be_bytes(b)[5]);
    assert(spec_u64_be_bytes(a)[6] == spec_u64_be_bytes(b)[6]);
    assert(spec_u64_be_bytes(a)[7] == spec_u64_be_bytes(b)[7]);
    assert(a == b) by (bit_vector)
        requires
            (a >> 56) as u8 == (b >> 56) as u8 && (a >> 48) as u8 == (b >> 48) as u8 && (a >> 40)
                as u8 == (b >> 40) as u8 && (a >> 32) as u8 == (b >> 32) as u8 && (a >> 24) as u8
                == (b >> 24) as u8 && (a >> 16) as u8 == (b >> 16) as u8 && (a >> 8) as u8 == (b
                >> 8) as u8 && a as u8 == b as u8,
    ;
}

/// The header of a Wrap token: the flag byte, the extra count, the
/// rotation count, and the sequence number of the message it protects.
#[derive(Debug, Copy, Clone, Eq, PartialEq, Structural)]
pub struct WrapTokenHeader {
    pub flags: u8,
    pub ec: u16,
    pub rrc: u16,
    pub snd_seq: u64,
}

/// The 16 bytes of a Wrap token header: the token id `05 04`, the flags,
/// the filler `FF`, and the three fields in big-endian.
pub open spec fn spec_wrap_token_header_bytes(h: WrapTokenHeader) -> Seq<u8> {
    seq![0x05u8, 0x04u8, h.flags, 0xFFu8] + spec_u16_be_bytes(h.ec) + spec_u16_be_bytes(h.rrc)
        + spec_u64_be_bytes(h.snd_seq)
}

/// Whether the bytes have the shape of a Wrap token header: the length,
/// the token id and the filler byte.
pub open spec fn spec_is_wrap_token_header(bytes: Seq<u8>) -> bool {
    bytes.len() == 16 && bytes[0] == 0x05 && bytes[1] == 0x04 && bytes[3] == 0xFF
}

/// Equal header bytes come from equal headers: the 16 bytes determine the
/// header.
pub proof fn lemma_wrap_token_header_bytes_injective(h1: WrapTokenHeader, h2: WrapTokenHeader)
    requires
        spec_wrap_token_header_bytes(h1) == spec_wrap_token_header_bytes(h2),
    ensures
        h1 == h2,
{
    let b1 = spec_wrap_token_header_bytes(h1);
    let b2 = spec_wrap_token_header_bytes(h2);
    assert(h1.flags == b1[2] && h2.flags == b2[2]);
    assert(spec_u16_be_bytes(h1.ec) =~= spec_u16_be_bytes(h2.ec)) by {
        assert(spec_u16_be_bytes(h1.ec)[0] == b1[4] && spec_u16_be_bytes(h1.ec)[1] == b1[5]);
        assert(spec_u16_be_bytes(h2.ec)[0] == b2[4] && spec_u16_be_bytes(h2.ec)[1] == b2[5]);
    }
    lemma_u16_be_bytes_injective(h1.ec, h2.ec);
    assert(spec_u16_be_bytes(h1.rrc) =~= spec_u16_be_bytes(h2.rrc)) by {
        assert(spec_u16_be_bytes(h1.rrc)[0] == b1[6] && spec_u16_be_bytes(h1.rrc)[1] == b1[7]);
        assert(spec_u16_be_bytes(h2.rrc)[0] == b2[6] && spec_u16_be_bytes(h2.rrc)[1] == b2[7]);
    }
    lemma_u16_be_bytes_injective(h1.rrc, h2.rrc);
    assert(spec_u64_be_bytes(h1.snd_seq) =~= spec_u64_be_bytes(h2.snd_seq)) by {
        assert forall|i: int| 0 <= i < 8 implies spec_u64_be_bytes(h1.snd_seq)[i] == spec_u64_be_bytes(
            h2.snd_seq,
        )[i] by {
            assert(spec_u64_be_bytes(h1.snd_seq)[i] == b1[8 + i]);
            assert(spec_u64_be_bytes(h2.snd_seq)[i] == b2[8 + i]);
        }
    }
    lemma_u64_be_bytes_injective(h1.snd_seq, h2.snd_seq);
}

/// Writes a Wrap token header as its 16 bytes.
pub fn encode_wrap_token_header(header: &WrapTokenHeader) -> (r: Vec<u8>)
    ensures
        r@ == spec_wrap_token_header_bytes(*header),
        spec_is_wrap_token_header(r@),
{
    let mut bytes: Vec<u8> = Vec::new();
    bytes.push(0x05);
    bytes.push(0x04);
    bytes.push(header.flags);
    bytes.push(0xFF);
    bytes.push((header.ec >> 8) as u8);
    bytes.push(header.ec as u8);
    bytes.push((header.rrc >> 8) as u8);
    bytes.push(header.rrc as u8);
    bytes.push((header.snd_seq >> 56) as u8);
    bytes.push((header.snd_seq >> 48) as u8);
    bytes.push((header.snd_seq >> 40) as u8);
    bytes.push((header.snd_seq >> 32) as u8);
    bytes.push((header.snd_seq >> 24) as u8);
    bytes.push((header.snd_seq >> 16) as u8);
    bytes.push((header.snd_seq >> 8) as u8);
    bytes.push(header.snd_seq as u8);
    proof {
        assert(bytes@ =~= spec_wrap_token_header_bytes(*header));
    }
    bytes
}

/// Reads a Wrap token header back from its bytes. Exactly the well-shaped
/// 16-byte headers are accepted; anything else is an `InvalidToken`
/// error. What is accepted re-encodes to the same bytes.
pub fn decode_wrap_token_header(bytes: &[u8]) -> (r: Result<WrapTokenHeader, Error>)
    ensures
        r is Ok <==> spec_is_wrap_token_header(bytes@),
        r matches Ok(h) ==> spec_wrap_token_header_bytes(h) == bytes@,
        r matches Err(e) ==> e.error_type == ErrorKind::InvalidToken,
{
    if bytes.len() != 16 {
        return Err(
            Error::new(ErrorKind::InvalidToken, String::from_str("a wrap token header is 16 bytes")),
        );
    }
    if bytes[0] != 0x05 || bytes[1] != 0x04 {
        return Err(
            Error::new(ErrorKind::InvalidToken, String::from_str("not a wrap token id")),
        );
    }
    if bytes[3] != 0xFF {
        return Err(
            Error::new(ErrorKind::InvalidToken, String::from_str("bad wrap token filler")),
        );
    }
    let flags = bytes[2];
    let ec = ((bytes[4] as u16) << 8) | (bytes[5] as u16);
    let rrc = ((bytes[6] as u16) << 8) | (bytes[7] as u16);
    let snd_seq = ((bytes[8] as u64) << 56) | ((bytes[9] as u64) << 48) | ((bytes[10] as u64) << 40)
        | ((bytes[11] as u64) << 32) | ((bytes[12] as u64) << 24) | ((bytes[13] as u64) << 16) | ((
    bytes[14] as u64) << 8) | (bytes[15] as u64);
    let header = WrapTokenHeader { flags, ec, rrc, snd_seq };
    proof {
        lemma_be16_recompose(bytes@[4], bytes@[5]);
        lemma_be16_recompose(bytes@[6], bytes@[7]);
        lemma_be64_recompose(
            bytes@[8],
            bytes@[9],
            bytes@[10],
            bytes@[11],
            bytes@[12],
            bytes@[13],
            bytes@[14],
            bytes@[15],
        );
        assert(spec_wrap_token_header_bytes(header) =~= bytes@);
    }
    Ok(header)
}

/// Composing a 16-bit field from two bytes and taking its bytes gives the
/// bytes back.
proof fn lemma_be16_recompose(hi: u8, lo: u8)
    ensures
        spec_u16_be_bytes(((hi as u16) << 8) | (lo as u16)) =~= seq![hi, lo],
{
    let v = ((hi as u16) << 8) | (lo as u16);
    assert((v >> 8) as u8 == hi && v as u8 == lo) by (bit_vector)
        requires
            v == ((hi as u16) << 8) | (lo as u16),
    ;
}

/// Composing a 64-bit field from eight bytes and taking its bytes gives
/// the bytes back.
proof fn lemma_be64_recompose(b0: u8, b1: u8, b2: u8, b3: u8, b4: u8, b5: u8, b6: u8, b7: u8)
    ensures
        spec_u64_be_bytes(
            ((b0 as u64) << 56) | ((b1 as u64) << 48) | ((b2 as u64) << 40) | ((b3 as u64) << 32)
                | ((b4 as u64) << 24) | ((b5 as u64) << 16) | ((b6 as u64) << 8) | (b7 as u64),
        ) =~= seq![b0, b1, b2, b3, b4, b5, b6, b7],
{
    let v = ((b0 as u64) << 56) | ((b1 as u64) << 48) | ((b2 as u64) << 40) | ((b3 as u64) << 32)
        | ((b4 as u64) << 24) | ((b5 as u64) << 16) | ((b6 as u64) << 8) | (b7 as u64);
    assert((v >> 56) as u8 == b0 && (v >> 48) as u8 == b1 && (v >> 40) as u8 == b2 && (v >> 32)
        as u8 == b3 && (v >> 24) as u8 == b4 && (v >> 16) as u8 == b5 && (v >> 8) as u8 == b6 && v
        as u8 == b7) by (bit_vector)
        requires
            v == ((b0 as u64) << 56) | ((b1 as u64) << 48) | ((b2 as u64) << 40) | ((b3 as u64)
                << 32) | ((b4 as u64) << 24) | ((b5 as u64) << 16) | ((b6 as u64) << 8) | (b7
                as u64),
    ;
}

/// The bytes rotated right by `count` places: the last `count % len`
/// bytes move to the front. The rotation a Wrap token's RRC field calls
/// for.
pub open spec fn spec_rotate_right(s: Seq<u8>, count: int) -> Seq<u8> {
    if s.len() == 0 {
        s
    } else {
        let shift = count % s.len() as int;
        s.subrange(s.len() - shift, s.len() as int) + s.subrange(0, s.len() - shift)
    }
}

/// The bytes rotated left by `count` places: the first `count % len`
/// bytes move to the end.
pub open spec fn spec_rotate_left(s: Seq<u8>, count: int) -> Seq<u8> {
    if s.len() == 0 {
        s
    } else {
        let shift = count % s.len() as int;
        s.subrange(shift, s.len() as int) + s.subrange(0, shift)
    }
}

/// Rotating left undoes rotating right by the same count: the shuffle that
/// the RRC field prescribes loses nothing.
pub proof fn lemma_rotate_right_then_left(s: Seq<u8>, count: int)
    requires
        count >= 0,
    ensures
        spec_rotate_left(spec_rotate_right(s, count), count) == s,
{
    if s.len() > 0 {
        let n = s.len() as int;
        let shift = count % n;
        let rotated = spec_rotate_right(s, count);
        assert(rotated.len() == n);
        assert(spec_rotate_left(rotated, count) =~= s);
    } else {
        assert(spec_rotate_left(spec_rotate_right(s, count), count) =~= s);
    }
}

/// Rotates the bytes right by `count` places, as a Wrap token's RRC field
/// prescribes.
pub fn rotate_right(data: &[u8], count: usize) -> (r: Vec<u8>)
    ensures
        r@ == spec_rotate_right(data@, count as int),
{
    let n = data.len();
    if n == 0 {
        return Vec::new();
    }
    let shift = count % n;
    let mut out: Vec<u8> = Vec::new();
    let mut i: usize = n - shift;
    while i < n
        invariant
            n == data@.len(),
            0 < n,
            shift == count as int % n as int,
            shift < n,
            n - shift <= i <= n,
            out@ == data@.subrange(n - shift, i as int),
        decreases n - i,
    {
        out.push(data[i]);
        proof {
            assert(out@ =~= data@.subrange(n - shift, i + 1));
        }
        i = i + 1;
    }
    let mut j: usize = 0;
    while j < n - shift
        invariant
            n == data@.len(),
            0 < n,
            shift == count as int % n as int,
            shift < n,
            j <= n - shift,
            out@ == data@.subrange(n - shift, n as int) + data@.subrange(0, j as int),
        decreases n - shift - j,
    {
        out.push(data[j]);
        proof {
            assert(out@ =~= data@.subrange(n - shift, n as int) + data@.subrange(0, j + 1));
        }
        j = j + 1;
    }
    proof {
        assert(out@ =~= spec_rotate_right(data@, count as int));
    }
    out
}

/// Rotates the bytes left by `count` places, undoing `rotate_right` of
/// the same count.
pub fn rotate_left(data: &[u8], count: usize) -> (r: Vec<u8>)
    ensures
        r@ == spec_rotate_left(data@, count as int),
{
    let n = data.len();
    if n == 0 {
        return Vec::new();
    }
    let shift = count % n;
    let mut out: Vec<u8> = Vec::new();
    let mut i: usize = shift;
    while i < n
        invariant
            n == data@.len(),
            0 < n,
            shift == count as int % n as int,
            shift < n,
            shift <= i <= n,
            out@ == data@.subrange(shift as int, i as int),
        decreases n - i,
    {
        out.push(data[i]);
        proof {
            assert(out@ =~= data@.subrange(shift as int, i + 1));
        }
        i = i + 1;
    }
    let mut j: usize = 0;
    while j < shift
        invariant
            n == data@.len(),
            0 < n,
            shift == count as int % n as int,
            shift < n,
            j <= shift,
            out@ == data@.subrange(shift as int, n as int) + data@.subrange(0, j as int),
        decreases shift - j,
    {
        out.push(data[j]);
        proof {
            assert(out@ =~= data@.subrange(shift as int, n as int) + data@.subrange(0, j + 1));
        }
        j = j + 1;
    }
    proof {
        assert(out@ =~= spec_rotate_left(data@, count as int));
    }
    out
}

/// The header of a MIC token: the flag byte and the sequence number of
/// the message whose integrity check it carries.
#[derive(Debug, Copy, Clone, Eq, PartialEq, Structural)]
pub struct MicTokenHeader {
    pub flags: u8,
    pub snd_seq: u64,
}

/// The 16 bytes of a MIC token header: the token id `04 04`, the flags,
/// five filler bytes `FF`, and the sequence number in big-endian.
pub open spec fn spec_mic_token_header_bytes(h: MicTokenHeader) -> Seq<u8> {
    seq![0x04u8, 0x04u8, h.flags, 0xFFu8, 0xFFu8, 0xFFu8, 0xFFu8, 0xFFu8] + spec_u64_be_bytes(
        h.snd_seq,
    )
}

/// Whether the bytes have the shape of a MIC token header.
pub open spec fn spec_is_mic_token_header(bytes: Seq<u8>) -> bool {
    bytes.len() == 16 && bytes[0] == 0x04 && bytes[1] == 0x04 && bytes[3] == 0xFF && bytes[4]
        == 0xFF && bytes[5] == 0xFF && bytes[6] == 0xFF && bytes[7] == 0xFF
}

/// Equal header bytes come from equal MIC headers.
pub proof fn lemma_mic_token_header_bytes_injective(h1: MicTokenHeader, h2: MicTokenHeader)
    requires
        spec_mic_token_header_bytes(h1) == spec_mic_token_header_bytes(h2),
    ensures
        h1 == h2,
{
    let b1 = spec_mic_token_header_bytes(h1);
    let b2 = spec_mic_token_header_bytes(h2);
    assert(h1.flags == b1[2] && h2.flags == b2[2]);
    assert(spec_u64_be_bytes(h1.snd_seq) =~= spec_u64_be_bytes(h2.snd_seq)) by {
        assert forall|i: int| 0 <= i < 8 implies spec_u64_be_bytes(h1.snd_seq)[i] == spec_u64_be_bytes(
            h2.snd_seq,
        )[i] by {
            assert(spec_u64_be_bytes(h1.snd_seq)[i] == b1[8 + i]);
            assert(spec_u64_be_bytes(h2.snd_seq)[i] == b2[8 + i]);
        }
    }
    lemma_u64_be_bytes_injective(h1.snd_seq, h2.snd_seq);
}

/// Writes a MIC token header as its 16 bytes.
pub fn encode_mic_token_header(header: &MicTokenHeader) -> (r: Vec<u8>)
    ensures
        r@ == spec_mic_token_header_bytes(*header),
        spec_is_mic_token_header(r@),
{
    let mut bytes: Vec<u8> = Vec::new();
    bytes.push(0x04);
    bytes.push(0x04);
    bytes.push(header.flags);
    bytes.push(0xFF);
    bytes.push(0xFF);
    bytes.push(0xFF);
    bytes.push(0xFF);
    bytes.push(0xFF);
    bytes.push((header.snd_seq >> 56) as u8);
    bytes.push((header.snd_seq >> 48) as u8);
    bytes.push((header.snd_seq >> 40) as u8);
    bytes.push((header.snd_seq >> 32) as u8);
    bytes.push((header.snd_seq >> 24) as u8);
    bytes.push((header.snd_seq >> 16) as u8);
    bytes.push((header.snd_seq >> 8) as u8);
    bytes.push(header.snd_seq as u8);
    proof {
        assert(bytes@ =~= spec_mic_token_header_bytes(*header));
    }
    bytes
}

/// Reads a MIC token header back from its bytes. Exactly the well-shaped
/// 16-byte headers are accepted; anything else is an `InvalidToken`
/// error. What is accepted re-encodes to the same bytes.
pub fn decode_mic_token_header(bytes: &[u8]) -> (r: Result<MicTokenHeader, Error>)
    ensures
        r is Ok <==> spec_is_mic_token_header(bytes@),
        r matches Ok(h) ==> spec_mic_token_header_bytes(h) == bytes@,
        r matches Err(e) ==> e.error_type == ErrorKind::InvalidToken,
{
    if bytes.len() != 16 {
        return Err(
            Error::new(ErrorKind::InvalidToken, String::from_str("a mic token header is 16 bytes")),
        );
    }
    if bytes[0] != 0x04 || bytes[1] != 0x04 {
        return Err(Error::new(ErrorKind::InvalidToken, String::from_str("not a mic token id")));
    }
    if bytes[3] != 0xFF || bytes[4] != 0xFF || bytes[5] != 0xFF || bytes[6] != 0xFF || bytes[7]
        != 0xFF {
        return Err(
            Error::new(ErrorKind::InvalidToken, String::from_str("bad mic token filler")),
        );
    }
    let flags = bytes[2];
    let snd_seq = ((bytes[8] as u64) << 56) | ((bytes[9] as u64) << 48) | ((bytes[10] as u64) << 40)
        | ((bytes[11] as u64) << 32) | ((bytes[12] as u64) << 24) | ((bytes[13] as u64) << 16) | ((
    bytes[14] as u64) << 8) | (bytes[15] as u64);
    let header = MicTokenHeader { flags, snd_seq };
    proof {
        lemma_be64_recompose(
            bytes@[8],
            bytes@[9],
            bytes@[10],
            bytes@[11],
            bytes@[12],
            bytes@[13],
            bytes@[14],
            bytes@[15],
        );
        assert(spec_mic_token_header_bytes(header) =~= bytes@);
    }
    Ok(header)
}

} // verus!
