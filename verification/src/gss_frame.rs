//! The GSS-API framing of a context-establishment token: the
//! InitialContextToken that wraps each Kerberos handshake message in an
//! application-tagged envelope holding the Kerberos mechanism OID, a
//! two-byte token id, and the inner token.
//!
//! The envelope length is in definite DER form. The tokens this crate
//! frames never outgrow the 64 KiB token bound, so the one-, two- and
//! three-byte length forms suffice; decoding accepts exactly the minimal
//! encodings and gives the bytes back verbatim when re-encoded.

use vstd::prelude::*;

use vstd::arithmetic::div_mod::{lemma_fundamental_div_mod, lemma_fundamental_div_mod_converse};

use crate::error::{Error, ErrorKind};
use crate::gss_token::spec_u16_be_bytes;

verus! {

/// The token id of an AP-REQ carried in an InitialContextToken.
pub const TOK_ID_AP_REQ: u16 = 0x0100;

/// The token id of an AP-REP carried in an InitialContextToken.
pub const TOK_ID_AP_REP: u16 = 0x0200;

/// The largest inner token that the framing accepts, imposed by the
/// 64 KiB token bound: one tag byte, at most three length bytes, the
/// eleven OID bytes and the two token-id bytes leave 65519 for the inner
/// token.
pub const MAX_INNER_TOKEN_LEN: usize = 65519;

/// The eleven bytes of the DER-encoded Kerberos V5 mechanism OID
/// 1.2.840.113554.1.2.2, tag and length included.
pub open spec fn spec_krb5_oid_tlv() -> Seq<u8> {
    seq![
        0x06u8,
        0x09u8,
        0x2Au8,
        0x86u8,
        0x48u8,
        0x86u8,
        0xF7u8,
        0x12u8,
        0x01u8,
        0x02u8,
        0x02u8,
    ]
}

/// The minimal definite DER form of a length below 2^16: one byte below
/// 128, and the one- or two-byte long form above.
pub open spec fn spec_der_length_bytes(n: int) -> Seq<u8> {
    if n < 0x80 {
        seq![n as u8]
    } else if n < 0x100 {
        seq![0x81u8, n as u8]
    } else {
        seq![0x82u8, ((n / 0x100) % 0x100) as u8, (n % 0x100) as u8]
    }
}

/// The bytes of an InitialContextToken: the application tag, the DER
/// length of what follows, the Kerberos mechanism OID, the token id in
/// big-endian, and the inner token.
pub open spec fn spec_initial_context_token_bytes(tok_id: u16, inner: Seq<u8>) -> Seq<u8> {
    seq![0x60u8] + spec_der_length_bytes(13 + inner.len() as int) + spec_krb5_oid_tlv()
        + spec_u16_be_bytes(tok_id) + inner
}

/// Whether the bytes are an InitialContextToken of some token id and some
/// inner token within the accepted bound.
pub open spec fn spec_is_initial_context_token(bytes: Seq<u8>) -> bool {
    exists|tok_id: u16, inner: Seq<u8>|
        inner.len() <= MAX_INNER_TOKEN_LEN && bytes == spec_initial_context_token_bytes(
            tok_id,
            inner,
        )
}

/// Writes the minimal definite DER form of a length below 2^16.
fn der_length_bytes(n: u32) -> (r: Vec<u8>)
    requires
        n < 0x10000,
    ensures
        r@ == spec_der_length_bytes(n as int),
{
    let mut bytes: Vec<u8> = Vec::new();
    if n < 0x80 {
        bytes.push(n as u8);
    } else if n < 0x100 {
        bytes.push(0x81);
        bytes.push(n as u8);
    } else {
        bytes.push(0x82);
        bytes.push(((n / 0x100) % 0x100) as u8);
        bytes.push((n % 0x100) as u8);
    }
    proof {
        assert(bytes@ =~= spec_der_length_bytes(n as int));
    }
    bytes
}

fn push_krb5_oid_tlv(bytes: &mut Vec<u8>)
    ensures
        final(bytes)@ == old(bytes)@ + spec_krb5_oid_tlv(),
{
    bytes.push(0x06);
    bytes.push(0x09);
    bytes.push(0x2A);
    bytes.push(0x86);
    bytes.push(0x48);
    bytes.push(0x86);
    bytes.push(0xF7);
    bytes.push(0x12);
    bytes.push(0x01);
    bytes.push(0x02);
    bytes.push(0x02);
    proof {
        assert(bytes@ =~= old(bytes)@ + spec_krb5_oid_tlv());
    }
}

/// Wraps an inner token in an InitialContextToken under the given token
/// id. What it wraps, `decode_initial_context_token` unwraps.
pub fn encode_initial_context_token(tok_id: u16, inner: &[u8]) -> (r: Vec<u8>)
    requires
        inner@.len() <= MAX_INNER_TOKEN_LEN,
    ensures
        r@ == spec_initial_context_token_bytes(tok_id, inner@),
        spec_is_initial_context_token(r@),
{
    let mut bytes: Vec<u8> = Vec::new();
    bytes.push(0x60);
    let mut length_bytes = der_length_bytes(13 + inner.len() as u32);
    bytes.append(&mut length_bytes);
    push_krb5_oid_tlv(&mut bytes);
    bytes.push((tok_id >> 8) as u8);
    bytes.push(tok_id as u8);
    let mut inner_bytes: Vec<u8> = Vec::new();
    inner_bytes.extend_from_slice(inner);
    bytes.append(&mut inner_bytes);
    proof {
        assert(bytes@ =~= spec_initial_context_token_bytes(tok_id, inner@));
    }
    bytes
}

/// Reads the minimal DER length that opens `bytes`, with how many bytes
/// it took. Exactly the minimal one-, two- and three-byte forms of a
/// length below 2^16 are accepted.
fn read_der_length(bytes: &[u8]) -> (r: Option<(u32, usize)>)
    ensures
        r matches Some(p) ==> {
            &&& p.0 < 0x10000
            &&& 1 <= p.1 <= 3
            &&& p.1 <= bytes@.len()
            &&& bytes@.subrange(0, p.1 as int) == spec_der_length_bytes(p.0 as int)
        },
        r is None ==> forall|n: int|
            0 <= n < 0x10000 ==> !(spec_der_length_bytes(n).len() <= bytes@.len()
                && bytes@.subrange(0, spec_der_length_bytes(n).len() as int)
                == spec_der_length_bytes(n)),
{
    if bytes.len() == 0 {
        return None;
    }
    let first = bytes[0];
    if first < 0x80 {
        proof {
            assert(bytes@.subrange(0, 1) =~= spec_der_length_bytes(first as int));
        }
        return Some((first as u32, 1));
    }
    if first == 0x81 {
        if bytes.len() < 2 {
            proof {
                assert forall|n: int| 0 <= n < 0x10000 implies !(spec_der_length_bytes(n).len()
                    <= bytes@.len() && bytes@.subrange(0, spec_der_length_bytes(n).len() as int)
                    == spec_der_length_bytes(n)) by {
                    if spec_der_length_bytes(n).len() <= bytes@.len() && bytes@.subrange(
                        0,
                        spec_der_length_bytes(n).len() as int,
                    ) == spec_der_length_bytes(n) {
                        assert(spec_der_length_bytes(n)[0] == bytes@[0]);
                    }
                }
            }
            return None;
        }
        let value = bytes[1];
        if value < 0x80 {
            proof {
                assert forall|n: int| 0 <= n < 0x10000 implies !(spec_der_length_bytes(n).len()
                    <= bytes@.len() && bytes@.subrange(0, spec_der_length_bytes(n).len() as int)
                    == spec_der_length_bytes(n)) by {
                    if spec_der_length_bytes(n).len() <= bytes@.len() && bytes@.subrange(
                        0,
                        spec_der_length_bytes(n).len() as int,
                    ) == spec_der_length_bytes(n) {
                        assert(spec_der_length_bytes(n)[0] == bytes@[0]);
                        if 0x80 <= n < 0x100 {
                            assert(spec_der_length_bytes(n)[1] == bytes@[1]);
                        }
                    }
                }
            }
            return None;
        }
        proof {
            assert(bytes@.subrange(0, 2) =~= spec_der_length_bytes(value as int));
        }
        return Some((value as u32, 2));
    }
    if first == 0x82 {
        if bytes.len() < 3 {
            proof {
                assert forall|n: int| 0 <= n < 0x10000 implies !(spec_der_length_bytes(n).len()
                    <= bytes@.len() && bytes@.subrange(0, spec_der_length_bytes(n).len() as int)
                    == spec_der_length_bytes(n)) by {
                    if spec_der_length_bytes(n).len() <= bytes@.len() && bytes@.subrange(
                        0,
                        spec_der_length_bytes(n).len() as int,
                    ) == spec_der_length_bytes(n) {
                        assert(spec_der_length_bytes(n)[0] == bytes@[0]);
                    }
                }
            }
            return None;
        }
        let high = bytes[1];
        let low = bytes[2];
        let value = (high as u32) * 0x100 + (low as u32);
        if value < 0x100 {
            proof {
                assert forall|n: int| 0 <= n < 0x10000 implies !(spec_der_length_bytes(n).len()
                    <= bytes@.len() && bytes@.subrange(0, spec_der_length_bytes(n).len() as int)
                    == spec_der_length_bytes(n)) by {
                    if spec_der_length_bytes(n).len() <= bytes@.len() && bytes@.subrange(
                        0,
                        spec_der_length_bytes(n).len() as int,
                    ) == spec_der_length_bytes(n) {
                        assert(spec_der_length_bytes(n)[0] == bytes@[0]);
                        if 0x100 <= n < 0x10000 {
                            assert(spec_der_length_bytes(n)[1] == bytes@[1]);
                            assert(spec_der_length_bytes(n)[2] == bytes@[2]);
                            assert(n == (n / 0x100) * 0x100 + n % 0x100);
                        }
                    }
                }
            }
            return None;
        }
        proof {
            lemma_fundamental_div_mod_converse(value as int, 0x100, high as int, low as int);
            assert(bytes@.subrange(0, 3) =~= spec_der_length_bytes(value as int));
        }
        return Some((value, 3));
    }
    proof {
        assert forall|n: int| 0 <= n < 0x10000 implies !(spec_der_length_bytes(n).len()
            <= bytes@.len() && bytes@.subrange(0, spec_der_length_bytes(n).len() as int)
            == spec_der_length_bytes(n)) by {
            if spec_der_length_bytes(n).len() <= bytes@.len() && bytes@.subrange(
                0,
                spec_der_length_bytes(n).len() as int,
            ) == spec_der_length_bytes(n) {
                assert(spec_der_length_bytes(n)[0] == bytes@[0]);
            }
        }
    }
    None
}

/// Two minimal DER lengths that open the same bytes are the same length.
proof fn lemma_der_length_unique(a: int, b: int, s: Seq<u8>)
    requires
        0 <= a < 0x10000,
        0 <= b < 0x10000,
        spec_der_length_bytes(a).len() <= s.len(),
        spec_der_length_bytes(b).len() <= s.len(),
        s.subrange(0, spec_der_length_bytes(a).len() as int) == spec_der_length_bytes(a),
        s.subrange(0, spec_der_length_bytes(b).len() as int) == spec_der_length_bytes(b),
    ensures
        a == b,
        spec_der_length_bytes(a) == spec_der_length_bytes(b),
{
    assert(spec_der_length_bytes(a)[0] == s[0]);
    assert(spec_der_length_bytes(b)[0] == s[0]);
    if a < 0x80 && b < 0x80 {
        assert(a == s[0] && b == s[0]);
    } else if 0x80 <= a < 0x100 && 0x80 <= b < 0x100 {
        assert(spec_der_length_bytes(a)[1] == s[1] && spec_der_length_bytes(b)[1] == s[1]);
        assert(a as u8 == b as u8);
    } else if 0x100 <= a && 0x100 <= b {
        assert(spec_der_length_bytes(a)[1] == s[1] && spec_der_length_bytes(b)[1] == s[1]);
        assert(spec_der_length_bytes(a)[2] == s[2] && spec_der_length_bytes(b)[2] == s[2]);
        assert(a / 0x100 < 0x100 && b / 0x100 < 0x100);
        assert((a / 0x100) % 0x100 == a / 0x100 && (b / 0x100) % 0x100 == b / 0x100);
        assert(a / 0x100 == b / 0x100 && a % 0x100 == b % 0x100);
        lemma_fundamental_div_mod(a, 0x100);
        lemma_fundamental_div_mod(b, 0x100);
    } else {
        // The first byte tells the three forms apart: below 0x80, 0x81,
        // and 0x82.
        assert(false);
    }
}

/// How an InitialContextToken of the given inner token is laid out: where
/// each part stands in the whole.
proof fn lemma_initial_context_token_parts(tok_id: u16, inner: Seq<u8>)
    requires
        inner.len() <= MAX_INNER_TOKEN_LEN,
    ensures
        ({
            let token = spec_initial_context_token_bytes(tok_id, inner);
            let der = spec_der_length_bytes(13 + inner.len() as int);
            let header_len = 1 + der.len() as int;
            &&& token.len() == header_len + 13 + inner.len()
            &&& token[0] == 0x60
            &&& token.subrange(1, 1 + der.len() as int) == der
            &&& token.subrange(header_len, header_len + 11) == spec_krb5_oid_tlv()
            &&& token.subrange(header_len + 11, header_len + 13) == spec_u16_be_bytes(tok_id)
            &&& token.subrange(header_len + 13, token.len() as int) == inner
        }),
{
    let token = spec_initial_context_token_bytes(tok_id, inner);
    let der = spec_der_length_bytes(13 + inner.len() as int);
    let header_len = 1 + der.len() as int;
    assert(token.subrange(1, 1 + der.len() as int) =~= der);
    assert(token.subrange(header_len, header_len + 11) =~= spec_krb5_oid_tlv());
    assert(token.subrange(header_len + 11, header_len + 13) =~= spec_u16_be_bytes(tok_id));
    assert(token.subrange(header_len + 13, token.len() as int) =~= inner);
}

/// Unwraps an InitialContextToken into its token id and inner token.
/// Exactly the tokens that `encode_initial_context_token` produces are
/// accepted; anything else (a wrong tag, a non-minimal or lying length,
/// a foreign mechanism OID) is an `InvalidToken` error.
#[verifier::rlimit(100)]
pub fn decode_initial_context_token(bytes: &[u8]) -> (r: Result<(u16, Vec<u8>), Error>)
    ensures
        r is Ok <==> spec_is_initial_context_token(bytes@),
        r matches Ok(p) ==> bytes@ == spec_initial_context_token_bytes(p.0, p.1@)
            && p.1@.len() <= MAX_INNER_TOKEN_LEN,
        r matches Err(e) ==> e.error_type == ErrorKind::InvalidToken,
{
    if bytes.len() < 1 || bytes[0] != 0x60 {
        proof {
            assert forall|tok_id: u16, inner: Seq<u8>|
                inner.len() <= MAX_INNER_TOKEN_LEN implies bytes@
                != spec_initial_context_token_bytes(tok_id, inner) by {
                lemma_initial_context_token_parts(tok_id, inner);
            }
        }
        return Err(
            Error::new(
                ErrorKind::InvalidToken,
                String::from_str("not a gss-api initial context token"),
            ),
        );
    }
    let tail = &bytes[1..bytes.len()];
    let length = read_der_length(tail);
    let (payload_len, length_len) = match length {
        Some(p) => p,
        None => {
            proof {
                assert forall|tok_id: u16, inner: Seq<u8>|
                    inner.len() <= MAX_INNER_TOKEN_LEN implies bytes@
                    != spec_initial_context_token_bytes(tok_id, inner) by {
                    lemma_initial_context_token_parts(tok_id, inner);
                    if bytes@ == spec_initial_context_token_bytes(tok_id, inner) {
                        let der = spec_der_length_bytes(13 + inner.len() as int);
                        assert(tail@.subrange(0, der.len() as int) =~= bytes@.subrange(
                            1,
                            1 + der.len() as int,
                        ));
                    }
                }
            }
            return Err(
                Error::new(
                    ErrorKind::InvalidToken,
                    String::from_str("not a gss-api initial context token"),
                ),
            );
        },
    };
    let header_len = 1 + length_len;
    proof {
        assert(tail@.subrange(0, length_len as int) =~= bytes@.subrange(1, header_len as int));
    }
    if payload_len < 13 || payload_len > 65532 || (bytes.len() - header_len) as u64 != payload_len
        as u64 {
        proof {
            assert forall|tok_id: u16, inner: Seq<u8>|
                inner.len() <= MAX_INNER_TOKEN_LEN implies bytes@
                != spec_initial_context_token_bytes(tok_id, inner) by {
                lemma_initial_context_token_parts(tok_id, inner);
                if bytes@ == spec_initial_context_token_bytes(tok_id, inner) {
                    let der = spec_der_length_bytes(13 + inner.len() as int);
                    assert(bytes@.subrange(1, 1 + der.len() as int) == der);
                    lemma_der_length_unique(
                        payload_len as int,
                        13 + inner.len() as int,
                        bytes@.subrange(1, bytes@.len() as int),
                    );
                }
            }
        }
        return Err(
            Error::new(
                ErrorKind::InvalidToken,
                String::from_str("the token length does not match the token"),
            ),
        );
    }
    let oid_ok = bytes[header_len] == 0x06 && bytes[header_len + 1] == 0x09 && bytes[header_len
        + 2] == 0x2A && bytes[header_len + 3] == 0x86 && bytes[header_len + 4] == 0x48
        && bytes[header_len + 5] == 0x86 && bytes[header_len + 6] == 0xF7 && bytes[header_len + 7]
        == 0x12 && bytes[header_len + 8] == 0x01 && bytes[header_len + 9] == 0x02 && bytes[header_len
        + 10] == 0x02;
    if !oid_ok {
        proof {
            assert forall|tok_id: u16, inner: Seq<u8>|
                inner.len() <= MAX_INNER_TOKEN_LEN implies bytes@
                != spec_initial_context_token_bytes(tok_id, inner) by {
                lemma_initial_context_token_parts(tok_id, inner);
                if bytes@ == spec_initial_context_token_bytes(tok_id, inner) {
                    let der = spec_der_length_bytes(13 + inner.len() as int);
                    assert(bytes@.subrange(1, 1 + der.len() as int) == der);
                    lemma_der_length_unique(
                        payload_len as int,
                        13 + inner.len() as int,
                        bytes@.subrange(1, bytes@.len() as int),
                    );
                    let h = 1 + der.len() as int;
                    assert(bytes@.subrange(h, h + 11) == spec_krb5_oid_tlv());
                    assert forall|i: int| 0 <= i < 11 implies bytes@[h + i]
                        == spec_krb5_oid_tlv()[i] by {
                        assert(bytes@.subrange(h, h + 11)[i] == bytes@[h + i]);
                    }
                }
            }
        }
        return Err(
            Error::new(
                ErrorKind::InvalidToken,
                String::from_str("not the kerberos mechanism oid"),
            ),
        );
    }
    let tok_id = ((bytes[header_len + 11] as u16) << 8) | (bytes[header_len + 12] as u16);
    let mut inner: Vec<u8> = Vec::new();
    inner.extend_from_slice(&bytes[header_len + 13..bytes.len()]);
    proof {
        let high = bytes@[header_len + 11];
        let low = bytes@[header_len + 12];
        assert((tok_id >> 8) as u8 == high && tok_id as u8 == low) by (bit_vector)
            requires
                tok_id == ((high as u16) << 8) | (low as u16),
        ;
        assert(bytes@ =~= spec_initial_context_token_bytes(tok_id, inner@));
    }
    Ok((tok_id, inner))
}

} // verus!
