//! The slice of the crypto kit that the core consumes directly: the MD4
//! one-way function of a password and the keyed HMAC-MD5 checksum, both
//! named and computed by the crypto collaborator, and the complete MIC
//! token built over them.
//!
//! A MIC token is the 16-byte header followed by the keyed checksum over
//! the payload and the header. Verification accepts exactly the tokens of
//! that shape: tampering with any byte of a token makes it invalid.

use vstd::prelude::*;

use kerberos_crypto::Error as KerberosCryptoError;

use crate::credentials::{spec_utf16le_bytes, utf16le_encode};
use crate::error::{Error, ErrorKind};
use crate::gss_token::{
    decode_mic_token_header, decode_wrap_token_header, encode_mic_token_header,
    encode_wrap_token_header, lemma_wrap_token_header_bytes_injective, rotate_left, rotate_right,
    spec_is_mic_token_header, spec_is_wrap_token_header, spec_mic_token_header_bytes,
    spec_rotate_left, spec_rotate_right, spec_wrap_token_header_bytes, MicTokenHeader,
    WrapTokenHeader,
};
use crate::interop::error_from_kerberos_crypto;

verus! {

/// The key usage under which the initiator checksums per-message tokens.
pub const KEY_USAGE_INITIATOR_MIC: i32 = 22;

/// The key usage under which the acceptor checksums per-message tokens.
pub const KEY_USAGE_ACCEPTOR_MIC: i32 = 23;

/// The MD4 digest of a byte sequence.
pub uninterp spec fn spec_md4(data: Seq<u8>) -> Seq<u8>;

/// Relies on kerberos_crypto::rc4_hmac_md5::generate_key: the result is
/// the MD4 digest of the secret, 16 bytes, a function of the secret alone.
#[verifier::external_body]
fn md4_digest(secret: &[u8]) -> (r: Vec<u8>)
    ensures
        r@ == spec_md4(secret@),
        r@.len() == 16,
{
    kerberos_crypto::rc4_hmac_md5::generate_key(secret)
}

/// The NT one-way function of a password: the MD4 digest of its UTF-16LE
/// form. It keys the NTLM responses and the RC4-HMAC Kerberos profile.
pub open spec fn spec_nt_owf(password: Seq<char>) -> Seq<u8> {
    spec_md4(spec_utf16le_bytes(password))
}

/// The NT one-way function of a password: the MD4 digest of its UTF-16LE
/// form, 16 bytes.
pub fn nt_owf(password: &str) -> (r: Vec<u8>)
    ensures
        r@ == spec_nt_owf(password@),
        r@.len() == 16,
{
    let password_bytes = utf16le_encode(password);
    md4_digest(password_bytes.as_slice())
}

/// The keyed HMAC-MD5 checksum of a byte sequence under a key usage.
pub uninterp spec fn spec_hmac_md5_checksum(key: Seq<u8>, key_usage: i32, data: Seq<u8>) -> Seq<u8>;

/// Relies on kerberos_crypto::checksum_hmac_md5: the keyed HMAC-MD5
/// checksum under the given key usage, 16 bytes, a function of its
/// arguments alone.
#[verifier::external_body]
fn hmac_md5_checksum(key: &[u8], key_usage: i32, data: &[u8]) -> (r: Vec<u8>)
    ensures
        r@ == spec_hmac_md5_checksum(key@, key_usage, data@),
        r@.len() == 16,
{
    kerberos_crypto::checksum_hmac_md5(key, key_usage, data)
}

/// The bytes that a MIC token's checksum covers: the payload followed by
/// the 16 header bytes.
pub open spec fn spec_mic_checksum_input(h: MicTokenHeader, payload: Seq<u8>) -> Seq<u8> {
    payload + spec_mic_token_header_bytes(h)
}

/// Whether `token` is the well-formed MIC token over `payload` under the
/// given key and key usage: the 16-byte header shape followed by the
/// matching checksum.
pub open spec fn spec_is_valid_mic_token(
    key: Seq<u8>,
    key_usage: i32,
    payload: Seq<u8>,
    token: Seq<u8>,
) -> bool {
    &&& token.len() == 32
    &&& spec_is_mic_token_header(token.subrange(0, 16))
    &&& token.subrange(16, 32) == spec_hmac_md5_checksum(key, key_usage, payload + token.subrange(0, 16))
}

/// Builds the MIC token that carries the integrity check of a payload:
/// the 16 header bytes followed by the keyed checksum over the payload
/// and the header. What it builds, `verify_mic_token` accepts.
pub fn mic_token(key: &[u8], key_usage: i32, header: &MicTokenHeader, payload: &[u8]) -> (r: Vec<
    u8,
>)
    ensures
        r@ == spec_mic_token_header_bytes(*header) + spec_hmac_md5_checksum(
            key@,
            key_usage,
            spec_mic_checksum_input(*header, payload@),
        ),
        r@.len() == 32,
        spec_is_valid_mic_token(key@, key_usage, payload@, r@),
{
    let mut token = encode_mic_token_header(header);
    let mut input: Vec<u8> = Vec::new();
    input.extend_from_slice(payload);
    let header_bytes = encode_mic_token_header(header);
    input.extend_from_slice(header_bytes.as_slice());
    let mut checksum = hmac_md5_checksum(key, key_usage, input.as_slice());
    token.append(&mut checksum);
    proof {
        assert(input@ =~= spec_mic_checksum_input(*header, payload@));
        assert(token@ =~= spec_mic_token_header_bytes(*header) + spec_hmac_md5_checksum(
            key@,
            key_usage,
            spec_mic_checksum_input(*header, payload@),
        ));
        assert(token@.subrange(0, 16) =~= spec_mic_token_header_bytes(*header));
        assert(token@.subrange(16, 32) =~= spec_hmac_md5_checksum(
            key@,
            key_usage,
            spec_mic_checksum_input(*header, payload@),
        ));
    }
    token
}

/// Whether two byte slices of one length hold the same bytes, read in
/// full: the comparison accumulates a difference word over every position
/// instead of leaving at the first mismatch, so checksums are compared in
/// constant time. The lengths it compares are public.
fn bytes_equal(a: &[u8], b: &[u8]) -> (r: bool)
    ensures
        r == (a@ == b@),
{
    if a.len() != b.len() {
        return false;
    }
    let n = a.len();
    let mut difference: u8 = 0;
    let mut i: usize = 0;
    while i < n
        invariant
            n == a@.len(),
            n == b@.len(),
            i <= n,
            (difference == 0) <==> (forall|j: int| 0 <= j < i ==> a@[j] == b@[j]),
        decreases n - i,
    {
        let ghost pre = difference;
        let unequal_bits = a[i] ^ b[i];
        difference = difference | unequal_bits;
        proof {
            assert((pre | unequal_bits == 0) == (pre == 0 && unequal_bits == 0)) by (bit_vector);
            let x = a@[i as int];
            let y = b@[i as int];
            assert((x ^ y == 0) == (x == y)) by (bit_vector);
        }
        i = i + 1;
    }
    if difference == 0 {
        proof {
            assert(a@ =~= b@);
        }
        true
    } else {
        false
    }
}

/// Checks a MIC token against a payload. Exactly the tokens that are the
/// well-formed header followed by the matching checksum are accepted, and
/// the header is handed back. A token without the header shape is an
/// `InvalidToken` error; one whose checksum does not match is a
/// `MessageAltered` error.
pub fn verify_mic_token(key: &[u8], key_usage: i32, payload: &[u8], token: &[u8]) -> (r: Result<
    MicTokenHeader,
    Error,
>)
    ensures
        r is Ok <==> spec_is_valid_mic_token(key@, key_usage, payload@, token@),
        r matches Ok(h) ==> spec_mic_token_header_bytes(h) == token@.subrange(0, 16),
        !(token@.len() == 32 && spec_is_mic_token_header(token@.subrange(0, 16))) ==> (
        r matches Err(e) && e.error_type == ErrorKind::InvalidToken),
        token@.len() == 32 && spec_is_mic_token_header(token@.subrange(0, 16))
            && !spec_is_valid_mic_token(key@, key_usage, payload@, token@) ==> (
        r matches Err(e) && e.error_type == ErrorKind::MessageAltered),
{
    if token.len() != 32 {
        return Err(
            Error::new(
                ErrorKind::InvalidToken,
                String::from_str("a mic token is 32 bytes"),
            ),
        );
    }
    let header_bytes = &token[0..16];
    let header = match decode_mic_token_header(header_bytes) {
        Ok(header) => header,
        Err(e) => {
            return Err(e);
        },
    };
    let mut input: Vec<u8> = Vec::new();
    input.extend_from_slice(payload);
    input.extend_from_slice(header_bytes);
    let expected = hmac_md5_checksum(key, key_usage, input.as_slice());
    let actual = &token[16..32];
    if bytes_equal(expected.as_slice(), actual) {
        proof {
            assert(input@ =~= payload@ + token@.subrange(0, 16));
            assert(token@.subrange(16, 32) =~= actual@);
        }
        Ok(header)
    } else {
        proof {
            assert(input@ =~= payload@ + token@.subrange(0, 16));
            assert(token@.subrange(16, 32) =~= actual@);
        }
        Err(
            Error::new(
                ErrorKind::MessageAltered,
                String::from_str("the mic token checksum does not match the payload"),
            ),
        )
    }
}

/// The AES-256-CTS-HMAC-SHA1 sealing of a byte sequence under a key and
/// key usage. The sequence opens with the random confounder block.
pub uninterp spec fn spec_aes256_encrypt(key: Seq<u8>, key_usage: i32, data: Seq<u8>) -> Seq<u8>;

/// Relies on kerberos_crypto::aes_hmac_sha1::encrypt with the AES-256
/// sizes: the result is a function of the key, the key usage, and the
/// confounder and plaintext bytes alone, which it seals as one sequence.
/// The kit builds the cipher from the key without checking its length and
/// aborts on any length but the 32 bytes of an AES-256 key, so shorter and
/// longer keys are left out.
#[verifier::external_body]
fn aes256_encrypt(key: &[u8], key_usage: i32, plaintext: &[u8], confounder: &[u8]) -> (r: Vec<u8>)
    requires
        key@.len() == 32,
    ensures
        r@ == spec_aes256_encrypt(key@, key_usage, confounder@ + plaintext@),
{
    kerberos_crypto::aes_hmac_sha1::encrypt(
        key,
        key_usage,
        plaintext,
        confounder,
        &kerberos_crypto::AesSizes::Aes256,
    )
}

/// What AES-256-CTS-HMAC-SHA1 unsealing recovers from a ciphertext under
/// a key and key usage, with the confounder block already stripped;
/// nothing, where the ciphertext or its integrity check is bad.
pub uninterp spec fn spec_aes256_decrypt(key: Seq<u8>, key_usage: i32, ciphertext: Seq<u8>) -> Option<
    Seq<u8>,
>;

/// Relies on kerberos_crypto::aes_hmac_sha1::decrypt with the AES-256
/// sizes: whether unsealing succeeds and what it recovers is a function
/// of the key, the key usage and the ciphertext alone; the confounder is
/// stripped from what it recovers. The kit derives its subkeys before any
/// length check and aborts on any key length but the 32 bytes of an
/// AES-256 key, so shorter and longer keys are left out.
#[verifier::external_body]
fn aes256_decrypt(key: &[u8], key_usage: i32, ciphertext: &[u8]) -> (r: Result<
    Vec<u8>,
    KerberosCryptoError,
>)
    requires
        key@.len() == 32,
    ensures
        r matches Ok(p) ==> Some(p@) == spec_aes256_decrypt(key@, key_usage, ciphertext@),
        r is Err ==> spec_aes256_decrypt(key@, key_usage, ciphertext@) is None,
{
    kerberos_crypto::aes_hmac_sha1::decrypt(
        key,
        key_usage,
        ciphertext,
        &kerberos_crypto::AesSizes::Aes256,
    )
}

/// Relies on kerberos_crypto::aes_hmac_sha1::generate_preamble: a fresh
/// random confounder of one AES block; only its length holds of every
/// outcome.
#[verifier::external_body]
fn aes256_confounder() -> (r: Vec<u8>)
    ensures
        r@.len() == 16,
{
    kerberos_crypto::aes_hmac_sha1::generate_preamble(&kerberos_crypto::AesSizes::Aes256)
}

/// The header as it stands inside the sealed bytes: the rotation count is
/// zero there, and only the outer header carries the real count.
pub open spec fn spec_rrc_zeroed(h: WrapTokenHeader) -> WrapTokenHeader {
    WrapTokenHeader { flags: h.flags, ec: h.ec, rrc: 0, snd_seq: h.snd_seq }
}

/// Whether `token` is a well-formed sealed Wrap token under the key and
/// key usage: the header shape, and a body that, unrotated by the
/// header's rotation count, unseals to some payload followed by the
/// header as it was sealed.
pub open spec fn spec_is_valid_wrap_token(key: Seq<u8>, key_usage: i32, token: Seq<u8>) -> bool {
    &&& token.len() >= 16
    &&& spec_is_wrap_token_header(token.subrange(0, 16))
    &&& exists|h: WrapTokenHeader|
        spec_wrap_token_header_bytes(h) == token.subrange(0, 16) && (match spec_aes256_decrypt(
            key,
            key_usage,
            spec_rotate_left(token.subrange(16, token.len() as int), h.rrc as int),
        ) {
            Some(recovered) => recovered.len() >= 16 && recovered.subrange(
                recovered.len() - 16,
                recovered.len() as int,
            ) == spec_wrap_token_header_bytes(spec_rrc_zeroed(h)),
            None => false,
        })
}

/// Seals a payload into a Wrap token with confidentiality: the payload
/// and the header are sealed together under a fresh confounder, the
/// sealed bytes are rotated right by the given rotation count, and the
/// header, carrying that count, is prepended. `unwrap_message` is its
/// counterpart. The key is an AES-256 key: 32 bytes.
pub fn wrap_message(
    key: &[u8],
    key_usage: i32,
    flags: u8,
    snd_seq: u64,
    rrc: u16,
    payload: &[u8],
) -> (r: Vec<u8>)
    requires
        key@.len() == 32,
    ensures
        r@.len() >= 16,
        r@.subrange(0, 16) == spec_wrap_token_header_bytes(
            WrapTokenHeader { flags, ec: 0, rrc, snd_seq },
        ),
        exists|confounder: Seq<u8>|
            confounder.len() == 16 && r@.subrange(16, r@.len() as int) == spec_rotate_right(
                spec_aes256_encrypt(
                    key@,
                    key_usage,
                    confounder + payload@ + spec_wrap_token_header_bytes(
                        WrapTokenHeader { flags, ec: 0, rrc: 0, snd_seq },
                    ),
                ),
                rrc as int,
            ),
{
    let header = WrapTokenHeader { flags, ec: 0, rrc, snd_seq };
    let sealed_header = WrapTokenHeader { flags, ec: 0, rrc: 0, snd_seq };
    let sealed_header_bytes = encode_wrap_token_header(&sealed_header);
    let mut to_seal: Vec<u8> = Vec::new();
    to_seal.extend_from_slice(payload);
    to_seal.extend_from_slice(sealed_header_bytes.as_slice());
    let confounder = aes256_confounder();
    let ciphertext = aes256_encrypt(key, key_usage, to_seal.as_slice(), confounder.as_slice());
    let mut body = rotate_right(ciphertext.as_slice(), rrc as usize);
    let mut token = encode_wrap_token_header(&header);
    token.append(&mut body);
    proof {
        assert(confounder@ + to_seal@ =~= confounder@ + payload@ + spec_wrap_token_header_bytes(
            sealed_header,
        ));
        assert(token@.subrange(0, 16) =~= spec_wrap_token_header_bytes(header));
        assert(token@.subrange(16, token@.len() as int) =~= spec_rotate_right(
            spec_aes256_encrypt(
                key@,
                key_usage,
                confounder@ + payload@ + spec_wrap_token_header_bytes(sealed_header),
            ),
            rrc as int,
        ));
    }
    token
}

/// Opens a sealed Wrap token against a key and key usage. Exactly the
/// well-formed sealed tokens are accepted, and the header and the payload
/// are handed back. A token without the header shape is an
/// `InvalidToken` error; one whose body does not unseal is a
/// `DecryptFailure`; one that unseals but does not carry its own header
/// inside is a `MessageAltered` error. The key is an AES-256 key: 32
/// bytes.
#[verifier::rlimit(50)]
pub fn unwrap_message(key: &[u8], key_usage: i32, token: &[u8]) -> (r: Result<
    (WrapTokenHeader, Vec<u8>),
    Error,
>)
    requires
        key@.len() == 32,
    ensures
        r is Ok <==> spec_is_valid_wrap_token(key@, key_usage, token@),
        r matches Ok(p) ==> {
            &&& spec_wrap_token_header_bytes(p.0) == token@.subrange(0, 16)
            &&& spec_aes256_decrypt(
                key@,
                key_usage,
                spec_rotate_left(token@.subrange(16, token@.len() as int), p.0.rrc as int),
            ) == Some(p.1@ + spec_wrap_token_header_bytes(spec_rrc_zeroed(p.0)))
        },
        r matches Err(e) ==> e.error_type == ErrorKind::InvalidToken || e.error_type
            == ErrorKind::DecryptFailure || e.error_type == ErrorKind::InternalError
            || e.error_type == ErrorKind::MessageAltered,
{
    if token.len() < 16 {
        return Err(
            Error::new(
                ErrorKind::InvalidToken,
                String::from_str("a wrap token opens with its 16 header bytes"),
            ),
        );
    }
    let header = match decode_wrap_token_header(&token[0..16]) {
        Ok(header) => header,
        Err(e) => {
            return Err(e);
        },
    };
    let body = &token[16..token.len()];
    let unrotated = rotate_left(body, header.rrc as usize);
    let recovered = match aes256_decrypt(key, key_usage, unrotated.as_slice()) {
        Ok(recovered) => recovered,
        Err(crypto_error) => {
            proof {
                lemma_wrap_token_determines_header(key@, key_usage, token@, header);
            }
            return Err(error_from_kerberos_crypto(crypto_error));
        },
    };
    if recovered.len() < 16 {
        proof {
            lemma_wrap_token_determines_header(key@, key_usage, token@, header);
        }
        return Err(
            Error::new(
                ErrorKind::MessageAltered,
                String::from_str("the sealed bytes are shorter than the header they must carry"),
            ),
        );
    }
    let split = recovered.len() - 16;
    let sealed_header_bytes = encode_wrap_token_header(
        &WrapTokenHeader { flags: header.flags, ec: header.ec, rrc: 0, snd_seq: header.snd_seq },
    );
    let embedded = &recovered.as_slice()[split..recovered.len()];
    if !bytes_equal(embedded, sealed_header_bytes.as_slice()) {
        proof {
            lemma_wrap_token_determines_header(key@, key_usage, token@, header);
            assert(recovered@.subrange(split as int, recovered@.len() as int) =~= embedded@);
        }
        return Err(
            Error::new(
                ErrorKind::MessageAltered,
                String::from_str("the sealed bytes do not carry the token's own header"),
            ),
        );
    }
    let mut payload: Vec<u8> = Vec::new();
    payload.extend_from_slice(&recovered.as_slice()[0..split]);
    proof {
        assert(recovered@.subrange(split as int, recovered@.len() as int) =~= embedded@);
        assert(recovered@ =~= payload@ + spec_wrap_token_header_bytes(spec_rrc_zeroed(header)));
    }
    Ok((header, payload))
}

/// In a token whose first 16 bytes are a header's bytes, that header is
/// the one every witness of well-formedness speaks of.
proof fn lemma_wrap_token_determines_header(
    key: Seq<u8>,
    key_usage: i32,
    token: Seq<u8>,
    header: WrapTokenHeader,
)
    requires
        token.len() >= 16,
        spec_wrap_token_header_bytes(header) == token.subrange(0, 16),
    ensures
        spec_is_valid_wrap_token(key, key_usage, token) ==> (match spec_aes256_decrypt(
            key,
            key_usage,
            spec_rotate_left(token.subrange(16, token.len() as int), header.rrc as int),
        ) {
            Some(recovered) => recovered.len() >= 16 && recovered.subrange(
                recovered.len() - 16,
                recovered.len() as int,
            ) == spec_wrap_token_header_bytes(spec_rrc_zeroed(header)),
            None => false,
        }),
{
    if spec_is_valid_wrap_token(key, key_usage, token) {
        let h = choose|h: WrapTokenHeader|
            spec_wrap_token_header_bytes(h) == token.subrange(0, 16) && (
            match spec_aes256_decrypt(
                key,
                key_usage,
                spec_rotate_left(token.subrange(16, token.len() as int), h.rrc as int),
            ) {
                Some(recovered) => recovered.len() >= 16 && recovered.subrange(
                    recovered.len() - 16,
                    recovered.len() as int,
                ) == spec_wrap_token_header_bytes(spec_rrc_zeroed(h)),
                None => false,
            });
        lemma_wrap_token_header_bytes_injective(h, header);
    }
}

} // verus!
