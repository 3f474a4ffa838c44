//! Security buffers: the typed byte segments that a transport application
//! hands to a security package on every call, and the lookup of a buffer
//! of a wanted type inside the caller-supplied array.

use vstd::prelude::*;

use crate::error::{Error, ErrorKind};

verus! {

/// Bit flags that indicate the type of buffer.
///
/// The trailing three variants are the mask-like sentinel values that mark
/// read-only buffers; they occupy the attribute bits above the plain kinds.
#[derive(Debug, Copy, Clone, Eq, PartialEq, Structural)]
pub enum SecurityBufferType {
    Empty,
    /// The buffer contains common data. The security package can read and write this data, for example, to encrypt some or all of it.
    Data,
    /// The buffer contains the security token portion of the message. This is read-only for input parameters or read/write for output parameters.
    Token,
    TransportToPackageParameters,
    /// The security package uses this value to indicate the number of missing bytes in a particular message.
    Missing,
    /// The security package uses this value to indicate the number of extra or unprocessed bytes in a message.
    Extra,
    /// The buffer contains a protocol-specific trailer for a particular record. It is not usually of interest to callers.
    StreamTrailer,
    /// The buffer contains a protocol-specific header for a particular record. It is not usually of interest to callers.
    StreamHeader,
    NegotiationInfo,
    Padding,
    Stream,
    ObjectIdsList,
    ObjectIdsListSignature,
    /// This value is reserved.
    Target,
    /// The buffer contains channel binding information.
    ChannelBindings,
    /// The buffer contains a domain-password information record.
    ChangePasswordResponse,
    /// The buffer specifies the service principal name of the target.
    TargetHost,
    /// The buffer contains an alert message.
    Alert,
    /// The buffer contains a list of application protocol IDs, one list per application protocol negotiation extension type to be enabled.
    ApplicationProtocol,
    /// The buffer contains a bitmask for a `ReadOnly` buffer.
    AttributeMark,
    /// The buffer is read-only with no checksum. The package can read this buffer, but cannot modify it.
    ReadOnly,
    /// The buffer is read-only with a checksum.
    ReadOnlyWithChecksum,
}

/// The wire number of a buffer type.
pub open spec fn spec_buffer_type_to_u32(t: SecurityBufferType) -> u32 {
    match t {
        SecurityBufferType::Empty => 0,
        SecurityBufferType::Data => 1,
        SecurityBufferType::Token => 2,
        SecurityBufferType::TransportToPackageParameters => 3,
        SecurityBufferType::Missing => 4,
        SecurityBufferType::Extra => 5,
        SecurityBufferType::StreamTrailer => 6,
        SecurityBufferType::StreamHeader => 7,
        SecurityBufferType::NegotiationInfo => 8,
        SecurityBufferType::Padding => 9,
        SecurityBufferType::Stream => 10,
        SecurityBufferType::ObjectIdsList => 11,
        SecurityBufferType::ObjectIdsListSignature => 12,
        SecurityBufferType::Target => 13,
        SecurityBufferType::ChannelBindings => 14,
        SecurityBufferType::ChangePasswordResponse => 15,
        SecurityBufferType::TargetHost => 16,
        SecurityBufferType::Alert => 17,
        SecurityBufferType::ApplicationProtocol => 18,
        SecurityBufferType::AttributeMark => 0xF000_0000,
        SecurityBufferType::ReadOnly => 0x8000_0000,
        SecurityBufferType::ReadOnlyWithChecksum => 0x1000_0000,
    }
}

/// The buffer type keyed by a wire number, if the number is one of the
/// closed set.
pub open spec fn spec_buffer_type_from_u32(value: u32) -> Option<SecurityBufferType> {
    match value {
        0u32 => Some(SecurityBufferType::Empty),
        1u32 => Some(SecurityBufferType::Data),
        2u32 => Some(SecurityBufferType::Token),
        3u32 => Some(SecurityBufferType::TransportToPackageParameters),
        4u32 => Some(SecurityBufferType::Missing),
        5u32 => Some(SecurityBufferType::Extra),
        6u32 => Some(SecurityBufferType::StreamTrailer),
        7u32 => Some(SecurityBufferType::StreamHeader),
        8u32 => Some(SecurityBufferType::NegotiationInfo),
        9u32 => Some(SecurityBufferType::Padding),
        10u32 => Some(SecurityBufferType::Stream),
        11u32 => Some(SecurityBufferType::ObjectIdsList),
        12u32 => Some(SecurityBufferType::ObjectIdsListSignature),
        13u32 => Some(SecurityBufferType::Target),
        14u32 => Some(SecurityBufferType::ChannelBindings),
        15u32 => Some(SecurityBufferType::ChangePasswordResponse),
        16u32 => Some(SecurityBufferType::TargetHost),
        17u32 => Some(SecurityBufferType::Alert),
        18u32 => Some(SecurityBufferType::ApplicationProtocol),
        0xF000_0000u32 => Some(SecurityBufferType::AttributeMark),
        0x8000_0000u32 => Some(SecurityBufferType::ReadOnly),
        0x1000_0000u32 => Some(SecurityBufferType::ReadOnlyWithChecksum),
        _ => None,
    }
}

impl SecurityBufferType {
    /// The wire number of this buffer type.
    pub fn to_u32(&self) -> (r: u32)
        ensures
            r == spec_buffer_type_to_u32(*self),
    {
        match *self {
            SecurityBufferType::Empty => 0,
            SecurityBufferType::Data => 1,
            SecurityBufferType::Token => 2,
            SecurityBufferType::TransportToPackageParameters => 3,
            SecurityBufferType::Missing => 4,
            SecurityBufferType::Extra => 5,
            SecurityBufferType::StreamTrailer => 6,
            SecurityBufferType::StreamHeader => 7,
            SecurityBufferType::NegotiationInfo => 8,
            SecurityBufferType::Padding => 9,
            SecurityBufferType::Stream => 10,
            SecurityBufferType::ObjectIdsList => 11,
            SecurityBufferType::ObjectIdsListSignature => 12,
            SecurityBufferType::Target => 13,
            SecurityBufferType::ChannelBindings => 14,
            SecurityBufferType::ChangePasswordResponse => 15,
            SecurityBufferType::TargetHost => 16,
            SecurityBufferType::Alert => 17,
            SecurityBufferType::ApplicationProtocol => 18,
            SecurityBufferType::AttributeMark => 0xF000_0000,
            SecurityBufferType::ReadOnly => 0x8000_0000,
            SecurityBufferType::ReadOnlyWithChecksum => 0x1000_0000,
        }
    }

    /// The buffer type keyed by a wire number, or `None` if the number
    /// belongs to no type.
    pub fn from_u32(value: u32) -> (r: Option<SecurityBufferType>)
        ensures
            r == spec_buffer_type_from_u32(value),
    {
        match value {
            0 => Some(SecurityBufferType::Empty),
            1 => Some(SecurityBufferType::Data),
            2 => Some(SecurityBufferType::Token),
            3 => Some(SecurityBufferType::TransportToPackageParameters),
            4 => Some(SecurityBufferType::Missing),
            5 => Some(SecurityBufferType::Extra),
            6 => Some(SecurityBufferType::StreamTrailer),
            7 => Some(SecurityBufferType::StreamHeader),
            8 => Some(SecurityBufferType::NegotiationInfo),
            9 => Some(SecurityBufferType::Padding),
            10 => Some(SecurityBufferType::Stream),
            11 => Some(SecurityBufferType::ObjectIdsList),
            12 => Some(SecurityBufferType::ObjectIdsListSignature),
            13 => Some(SecurityBufferType::Target),
            14 => Some(SecurityBufferType::ChannelBindings),
            15 => Some(SecurityBufferType::ChangePasswordResponse),
            16 => Some(SecurityBufferType::TargetHost),
            17 => Some(SecurityBufferType::Alert),
            18 => Some(SecurityBufferType::ApplicationProtocol),
            0xF000_0000 => Some(SecurityBufferType::AttributeMark),
            0x8000_0000 => Some(SecurityBufferType::ReadOnly),
            0x1000_0000 => Some(SecurityBufferType::ReadOnlyWithChecksum),
            _ => None,
        }
    }
}

/// The wire number keys the buffer types: mapping a type to its number and
/// the number back gives the type again, for every type.
pub proof fn lemma_buffer_type_code_roundtrip(t: SecurityBufferType)
    ensures
        spec_buffer_type_from_u32(spec_buffer_type_to_u32(t)) == Some(t),
{
}

/// Splits a raw buffer-type word into its two orthogonal fields: the
/// buffer kind in the low bits, and the read-only attribute mask in the
/// four top bits.
pub fn split_buffer_type_value(value: u32) -> (r: (u32, u32))
    ensures
        r.0 == value & 0x0FFF_FFFF,
        r.1 == value & 0xF000_0000,
        r.0 | r.1 == value,
{
    let kind = value & 0x0FFF_FFFF;
    let attributes = value & 0xF000_0000;
    proof {
        assert((value & 0x0FFF_FFFF) | (value & 0xF000_0000) == value) by (bit_vector);
    }
    (kind, attributes)
}

/// Describes a buffer allocated by a transport application to pass to a
/// security package. The package may resize or overwrite the payload.
#[derive(Debug, Clone)]
pub struct SecurityBuffer {
    pub buffer: Vec<u8>,
    pub buffer_type: SecurityBufferType,
}

/// Whether some buffer of the wanted type stands in the array.
pub open spec fn spec_has_buffer(buffers: Seq<SecurityBuffer>, t: SecurityBufferType) -> bool {
    exists|i: int| 0 <= i < buffers.len() && buffers[i].buffer_type == t
}

/// Whether `i` points at the first buffer of the wanted type.
pub open spec fn spec_is_first_buffer(
    buffers: Seq<SecurityBuffer>,
    t: SecurityBufferType,
    i: int,
) -> bool {
    &&& 0 <= i < buffers.len()
    &&& buffers[i].buffer_type == t
    &&& forall|j: int| 0 <= j < i ==> buffers[j].buffer_type != t
}

impl SecurityBuffer {
    /// A buffer over the given payload, marked with the given type.
    pub fn new(buffer: Vec<u8>, buffer_type: SecurityBufferType) -> (r: SecurityBuffer)
        ensures
            r.buffer == buffer,
            r.buffer_type == buffer_type,
    {
        SecurityBuffer { buffer, buffer_type }
    }

    /// The first buffer of the wanted type in the caller-supplied array, or
    /// an `InvalidToken` error when the array holds none.
    pub fn find_buffer<'a>(
        buffers: &'a [SecurityBuffer],
        buffer_type: SecurityBufferType,
    ) -> (r: Result<&'a SecurityBuffer, Error>)
        ensures
            r is Ok <==> spec_has_buffer(buffers@, buffer_type),
            r matches Ok(b) ==> exists|i: int|
                spec_is_first_buffer(buffers@, buffer_type, i) && *b == buffers@[i],
            r matches Err(e) ==> e.error_type == ErrorKind::InvalidToken,
    {
        let n = buffers.len();
        let mut i: usize = 0;
        while i < n
            invariant
                n == buffers@.len(),
                i <= n,
                forall|j: int| 0 <= j < i ==> buffers@[j].buffer_type != buffer_type,
            decreases n - i,
        {
            if buffers[i].buffer_type == buffer_type {
                return Ok(&buffers[i]);
            }
            i = i + 1;
        }
        Err(Error::new(
            ErrorKind::InvalidToken,
            String::from_str("no buffer was provided with the queried type"),
        ))
    }

    /// The first buffer of the wanted type in the caller-supplied array,
    /// borrowed mutably so that the caller can resize or overwrite its
    /// payload, or an `InvalidToken` error when the array holds none.
    pub fn find_buffer_mut<'a>(
        buffers: &'a mut Vec<SecurityBuffer>,
        buffer_type: SecurityBufferType,
    ) -> (r: Result<&'a mut SecurityBuffer, Error>)
        ensures
            r is Ok <==> spec_has_buffer(old(buffers)@, buffer_type),
            r matches Ok(b) ==> exists|i: int|
                spec_is_first_buffer(old(buffers)@, buffer_type, i) && *b == old(buffers)@[i]
                    && final(buffers)@ == old(buffers)@.update(i, *final(b)),
            r matches Err(e) ==> e.error_type == ErrorKind::InvalidToken && final(buffers)@ == old(
                buffers,
            )@,
    {
        let n = buffers.len();
        let mut i: usize = 0;
        while i < n
            invariant
                buffers@ == old(buffers)@,
                n == buffers@.len(),
                i <= n,
                forall|j: int| 0 <= j < i ==> buffers@[j].buffer_type != buffer_type,
            decreases n - i,
        {
            if buffers[i].buffer_type == buffer_type {
                return Ok(&mut buffers[i]);
            }
            i = i + 1;
        }
        Err(Error::new(
            ErrorKind::InvalidToken,
            String::from_str("no buffer was provided with the queried type"),
        ))
    }
}

} // verus!
