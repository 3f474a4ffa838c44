use sspi::{
    decode_mic_token_header, decode_wrap_token_header, encode_mic_token_header,
    encode_wrap_token_header, ErrorKind, MicTokenHeader, WrapTokenHeader, GSS_FLAG_ACCEPTOR_SUBKEY,
    GSS_FLAG_SEALED, GSS_FLAG_SENT_BY_ACCEPTOR,
};

#[test]
fn wrap_token_header_layout_is_bit_exact() {
    let header = WrapTokenHeader {
        flags: GSS_FLAG_SEALED | GSS_FLAG_ACCEPTOR_SUBKEY,
        ec: 0,
        rrc: 28,
        snd_seq: 0,
    };
    let bytes = encode_wrap_token_header(&header);
    assert_eq!(
        bytes,
        vec![0x05, 0x04, 0x06, 0xFF, 0x00, 0x00, 0x00, 0x1C, 0, 0, 0, 0, 0, 0, 0, 0]
    );
}

#[test]
fn wrap_token_header_roundtrips() {
    let headers = [
        WrapTokenHeader { flags: 0, ec: 0, rrc: 0, snd_seq: 0 },
        WrapTokenHeader {
            flags: GSS_FLAG_SENT_BY_ACCEPTOR,
            ec: 16,
            rrc: 28,
            snd_seq: 1,
        },
        WrapTokenHeader {
            flags: GSS_FLAG_SEALED,
            ec: 0xBEEF,
            rrc: 0x0102,
            snd_seq: 0x0102_0304_0506_0708,
        },
        WrapTokenHeader {
            flags: 0xFF,
            ec: u16::MAX,
            rrc: u16::MAX,
            snd_seq: u64::MAX,
        },
    ];
    for header in headers {
        let bytes = encode_wrap_token_header(&header);
        assert_eq!(bytes.len(), 16);
        let decoded = decode_wrap_token_header(&bytes).unwrap();
        assert_eq!(decoded, header);
        // Re-encoding what was decoded gives the bytes back verbatim.
        assert_eq!(encode_wrap_token_header(&decoded), bytes);
    }
}

#[test]
fn malformed_wrap_token_headers_are_invalid_tokens() {
    // Wrong length.
    let err = decode_wrap_token_header(&[0x05, 0x04]).unwrap_err();
    assert_eq!(err.error_type, ErrorKind::InvalidToken);
    // Wrong token id.
    let mut bytes = encode_wrap_token_header(&WrapTokenHeader {
        flags: 0,
        ec: 0,
        rrc: 0,
        snd_seq: 0,
    });
    bytes[1] = 0x05;
    assert_eq!(
        decode_wrap_token_header(&bytes).unwrap_err().error_type,
        ErrorKind::InvalidToken
    );
    // Wrong filler.
    bytes[1] = 0x04;
    bytes[3] = 0x00;
    assert_eq!(
        decode_wrap_token_header(&bytes).unwrap_err().error_type,
        ErrorKind::InvalidToken
    );
}

#[test]
fn mic_token_header_roundtrips() {
    let headers = [
        MicTokenHeader { flags: 0, snd_seq: 0 },
        MicTokenHeader {
            flags: GSS_FLAG_SENT_BY_ACCEPTOR | GSS_FLAG_ACCEPTOR_SUBKEY,
            snd_seq: 42,
        },
        MicTokenHeader { flags: 0xFF, snd_seq: u64::MAX },
    ];
    for header in headers {
        let bytes = encode_mic_token_header(&header);
        assert_eq!(bytes.len(), 16);
        assert_eq!(&bytes[0..2], &[0x04, 0x04]);
        assert_eq!(&bytes[3..8], &[0xFF; 5]);
        let decoded = decode_mic_token_header(&bytes).unwrap();
        assert_eq!(decoded, header);
        assert_eq!(encode_mic_token_header(&decoded), bytes);
    }
}

#[test]
fn malformed_mic_token_headers_are_invalid_tokens() {
    let bytes = encode_wrap_token_header(&WrapTokenHeader {
        flags: 0,
        ec: 0,
        rrc: 0,
        snd_seq: 0,
    });
    // A wrap token is not a mic token.
    assert_eq!(
        decode_mic_token_header(&bytes).unwrap_err().error_type,
        ErrorKind::InvalidToken
    );
    let mut mic = encode_mic_token_header(&MicTokenHeader { flags: 0, snd_seq: 7 });
    mic[6] = 0;
    assert_eq!(
        decode_mic_token_header(&mic).unwrap_err().error_type,
        ErrorKind::InvalidToken
    );
}

#[test]
fn the_rrc_rotation_moves_the_tail_to_the_front() {
    let data = b"This is a message";
    assert_eq!(sspi::rotate_right(data, 0), data);
    assert_eq!(sspi::rotate_right(b"abcdef", 2), b"efabcd");
    assert_eq!(sspi::rotate_left(b"efabcd", 2), b"abcdef");
    // The count is taken modulo the length.
    assert_eq!(sspi::rotate_right(b"abcdef", 8), b"efabcd");
    assert_eq!(sspi::rotate_right(b"", 5), b"");
}

#[test]
fn the_rrc_shuffle_round_trips_bit_identically() {
    // A wrapped message at sequence number zero: rotating by the RRC count
    // and rotating back loses nothing.
    let message = b"This is a message";
    let header = WrapTokenHeader {
        flags: GSS_FLAG_SEALED,
        ec: 0,
        rrc: 28,
        snd_seq: 0,
    };
    let mut token = encode_wrap_token_header(&header);
    token.extend_from_slice(message);
    let shuffled = sspi::rotate_right(&token[16..], header.rrc as usize);
    let unshuffled = sspi::rotate_left(&shuffled, header.rrc as usize);
    assert_eq!(unshuffled.as_slice(), &token[16..]);
    assert_eq!(&unshuffled, message);
}

#[test]
fn big_endian_sequence_number_in_wrap_token() {
    let header = WrapTokenHeader {
        flags: 0,
        ec: 0,
        rrc: 0,
        snd_seq: 0x0102_0304_0506_0708,
    };
    let bytes = encode_wrap_token_header(&header);
    assert_eq!(&bytes[8..], &[0x01, 0x02, 0x03, 0x04, 0x05, 0x06, 0x07, 0x08]);
}
