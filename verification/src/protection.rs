//! The ordering half of per-message protection: the per-direction sequence
//! counter that numbers protected messages, and the fixed layout of the
//! NTLM per-message signature.
//!
//! Each direction of a protected channel owns one counter. It starts at
//! zero, advances by one per message, and wraps modulo 2^32; a received
//! message whose number is not the one expected next is rejected as
//! `OutOfSequence`, so an already-accepted message cannot be accepted
//! again.

use vstd::prelude::*;

use crate::error::{Error, ErrorKind};

verus! {

/// The sequence number that follows `n`, modulo 2^32.
pub open spec fn spec_next_sequence_number(n: u32) -> u32 {
    if n == 0xFFFF_FFFF {
        0
    } else {
        (n + 1) as u32
    }
}

/// Advancing a sequence number is the wrap at 2^32: the successor is the
/// plain successor modulo 2^32.
pub proof fn lemma_sequence_wrap_is_modulo(n: u32)
    ensures
        spec_next_sequence_number(n) as int == (n as int + 1) % 0x1_0000_0000,
{
}

/// An already-used sequence number is never the one expected next again.
pub proof fn lemma_sequence_number_never_repeats_next(n: u32)
    ensures
        spec_next_sequence_number(n) != n,
{
}

/// One direction's sequence counter: the number that the next protected
/// message carries.
#[derive(Debug, Copy, Clone, Eq, PartialEq, Structural)]
pub struct MessageSequence {
    pub next: u32,
}

impl MessageSequence {
    /// A fresh counter. Both peers of a channel start each direction at
    /// zero.
    pub fn new() -> (r: MessageSequence)
        ensures
            r.next == 0,
    {
        MessageSequence { next: 0 }
    }

    /// Takes the number for the next outgoing message and advances the
    /// counter, modulo 2^32.
    pub fn advance(&mut self) -> (seq: u32)
        ensures
            seq == old(self).next,
            final(self).next == spec_next_sequence_number(old(self).next),
    {
        let seq = self.next;
        self.next = if self.next == 0xFFFF_FFFF {
            0
        } else {
            self.next + 1
        };
        seq
    }

    /// Accepts an incoming message's number if and only if it is the one
    /// expected next, and then advances the counter; any other number,
    /// a replayed one included, is rejected as `OutOfSequence` and leaves
    /// the counter unchanged.
    pub fn accept(&mut self, sequence_number: u32) -> (r: Result<(), Error>)
        ensures
            r is Ok <==> sequence_number == old(self).next,
            r is Ok ==> final(self).next == spec_next_sequence_number(old(self).next),
            r matches Err(e) ==> *final(self) == *old(self) && e.error_type
                == ErrorKind::OutOfSequence,
    {
        if sequence_number == self.next {
            self.next = if self.next == 0xFFFF_FFFF {
                0
            } else {
                self.next + 1
            };
            Ok(())
        } else {
            Err(
                Error::new(
                    ErrorKind::OutOfSequence,
                    String::from_str("the message does not carry the expected sequence number"),
                ),
            )
        }
    }
}

/// Two counters that have exchanged the same number of messages expect the
/// same number next: numbering stays in step between an encrypting sender
/// and a decrypting receiver.
pub proof fn lemma_peers_stay_in_step(sender: MessageSequence, receiver: MessageSequence)
    requires
        sender.next == receiver.next,
    ensures
        spec_next_sequence_number(sender.next) == spec_next_sequence_number(receiver.next),
{
}

/// The four little-endian bytes of a sequence number.
pub open spec fn spec_u32_le_bytes(v: u32) -> Seq<u8> {
    seq![v as u8, (v >> 8) as u8, (v >> 16) as u8, (v >> 24) as u8]
}

/// Writes a sequence number as its four little-endian bytes, the form the
/// NTLM signature carries it in.
pub fn u32_le_bytes(v: u32) -> (r: Vec<u8>)
    ensures
        r@ == spec_u32_le_bytes(v),
{
    let mut bytes: Vec<u8> = Vec::new();
    bytes.push(v as u8);
    bytes.push((v >> 8) as u8);
    bytes.push((v >> 16) as u8);
    bytes.push((v >> 24) as u8);
    proof {
        assert(bytes@ =~= spec_u32_le_bytes(v));
    }
    bytes
}

/// The 16 bytes of an NTLM per-message signature: the version word
/// `01 00 00 00`, the eight sealed checksum bytes, and the sequence
/// number in little-endian.
pub open spec fn spec_ntlm_signature_bytes(checksum: Seq<u8>, sequence_number: u32) -> Seq<u8> {
    seq![1u8, 0u8, 0u8, 0u8] + checksum + spec_u32_le_bytes(sequence_number)
}

/// Lays out an NTLM per-message signature over the sealed checksum and the
/// sequence number. The result is always 16 bytes.
pub fn ntlm_signature(checksum: &[u8], sequence_number: u32) -> (r: Vec<u8>)
    requires
        checksum@.len() == 8,
    ensures
        r@ == spec_ntlm_signature_bytes(checksum@, sequence_number),
        r@.len() == 16,
{
    let mut signature: Vec<u8> = Vec::new();
    signature.push(1);
    signature.push(0);
    signature.push(0);
    signature.push(0);
    let mut i: usize = 0;
    while i < 8
        invariant
            checksum@.len() == 8,
            i <= 8,
            signature@ == seq![1u8, 0u8, 0u8, 0u8] + checksum@.subrange(0, i as int),
        decreases 8 - i,
    {
        signature.push(checksum[i]);
        proof {
            assert(checksum@.subrange(0, i + 1) =~= checksum@.subrange(0, i as int).push(
                checksum@[i as int],
            ));
            assert(signature@ =~= seq![1u8, 0u8, 0u8, 0u8] + checksum@.subrange(0, i + 1));
        }
        i = i + 1;
    }
    let mut sequence_bytes = u32_le_bytes(sequence_number);
    signature.append(&mut sequence_bytes);
    proof {
        assert(checksum@.subrange(0, 8) =~= checksum@);
        assert(signature@ =~= spec_ntlm_signature_bytes(checksum@, sequence_number));
    }
    signature
}

} // verus!
