use sspi::{ntlm_signature, u32_le_bytes, ErrorKind, MessageSequence};

#[test]
fn sequence_numbers_start_at_zero_and_advance_by_one() {
    let mut sender = MessageSequence::new();
    assert_eq!(sender.advance(), 0);
    assert_eq!(sender.advance(), 1);
    assert_eq!(sender.advance(), 2);
    assert_eq!(sender.next, 3);
}

#[test]
fn sender_and_receiver_stay_in_step() {
    let mut sender = MessageSequence::new();
    let mut receiver = MessageSequence::new();
    for _ in 0..100 {
        let seq = sender.advance();
        assert!(receiver.accept(seq).is_ok());
        assert_eq!(receiver.next, sender.next);
    }
}

#[test]
fn a_replayed_message_is_out_of_sequence() {
    let mut sender = MessageSequence::new();
    let mut receiver = MessageSequence::new();
    let seq = sender.advance();
    assert!(receiver.accept(seq).is_ok());
    // Replaying the accepted number fails and leaves the counter alone.
    let err = receiver.accept(seq).unwrap_err();
    assert_eq!(err.error_type, ErrorKind::OutOfSequence);
    assert_eq!(receiver.next, 1);
}

#[test]
fn a_gap_is_out_of_sequence() {
    let mut receiver = MessageSequence::new();
    let err = receiver.accept(5).unwrap_err();
    assert_eq!(err.error_type, ErrorKind::OutOfSequence);
    assert_eq!(receiver.next, 0);
}

#[test]
fn the_sequence_number_wraps_modulo_two_to_the_thirty_two() {
    let mut sender = MessageSequence { next: u32::MAX };
    let mut receiver = MessageSequence { next: u32::MAX };
    assert_eq!(sender.advance(), u32::MAX);
    assert_eq!(sender.next, 0);
    // The peer agrees on the wrap.
    assert!(receiver.accept(u32::MAX).is_ok());
    assert_eq!(receiver.next, 0);
    assert_eq!(sender.advance(), 0);
    assert_eq!(sender.next, 1);
}

#[test]
fn sequence_numbers_are_written_little_endian() {
    assert_eq!(u32_le_bytes(0), vec![0, 0, 0, 0]);
    assert_eq!(u32_le_bytes(1), vec![1, 0, 0, 0]);
    assert_eq!(u32_le_bytes(0x12345678), vec![0x78, 0x56, 0x34, 0x12]);
    assert_eq!(u32_le_bytes(u32::MAX), vec![0xFF, 0xFF, 0xFF, 0xFF]);
}

#[test]
fn the_ntlm_signature_layout_matches_the_reference() {
    // The sealed checksum of the reference message, laid out with the
    // version word and sequence number zero.
    let checksum = [0x7F, 0xB3, 0x8E, 0xC5, 0xC5, 0x5D, 0x49, 0x76];
    let signature = ntlm_signature(&checksum, 0);
    assert_eq!(
        signature,
        vec![
            0x01, 0x00, 0x00, 0x00, 0x7F, 0xB3, 0x8E, 0xC5, 0xC5, 0x5D, 0x49, 0x76, 0x00, 0x00,
            0x00, 0x00
        ]
    );
    assert_eq!(signature.len(), 16);
}

#[test]
fn the_ntlm_signature_carries_the_sequence_number() {
    let checksum = [0u8; 8];
    let signature = ntlm_signature(&checksum, 0x0A0B0C0D);
    assert_eq!(&signature[12..], &[0x0D, 0x0C, 0x0B, 0x0A]);
    assert_eq!(&signature[..4], &[0x01, 0x00, 0x00, 0x00]);
}
