use sspi::{ClientRequestFlags, EncryptionFlags, PackageCapabilities, ServerRequestFlags};

#[test]
fn empty_flag_sets_have_no_bits() {
    assert_eq!(EncryptionFlags::empty().bits(), 0);
    assert_eq!(ServerRequestFlags::empty().bits(), 0);
    assert!(ClientRequestFlags::empty()
        .contains(ClientRequestFlags::empty()));
}

#[test]
fn flag_bits_match_the_wire_values() {
    assert_eq!(EncryptionFlags::WRAP_OOB_DATA, 0x4000_0000);
    assert_eq!(EncryptionFlags::WRAP_NO_ENCRYPT, 0x8000_0001);
    assert_eq!(ClientRequestFlags::CONFIDENTIALITY, 0x10);
    assert_eq!(ClientRequestFlags::ALLOCATE_MEMORY, 0x100);
    assert_eq!(ClientRequestFlags::INTEGRITY, 0x0001_0000);
    assert_eq!(ServerRequestFlags::MUTUAL_AUTH, 0x2);
    assert_eq!(PackageCapabilities::PRIVACY, 0x2);
    assert_eq!(PackageCapabilities::NEGOTIABLE, 0x800);
}

#[test]
fn union_and_intersection_are_bitwise() {
    let requirements = ClientRequestFlags::from_bits(ClientRequestFlags::CONFIDENTIALITY)
        .union(ClientRequestFlags::from_bits(ClientRequestFlags::ALLOCATE_MEMORY));
    assert_eq!(requirements.bits(), 0x110);
    assert!(requirements.contains(ClientRequestFlags::from_bits(0x10)));
    assert!(requirements.contains(ClientRequestFlags::from_bits(0x110)));
    assert!(!requirements.contains(ClientRequestFlags::from_bits(0x111)));
    assert!(requirements.intersects(ClientRequestFlags::from_bits(0x100)));
    assert!(!requirements.intersects(ClientRequestFlags::from_bits(0x1)));
    let only_confidentiality = requirements.intersection(ClientRequestFlags::from_bits(0x10));
    assert_eq!(only_confidentiality.bits(), 0x10);
}
