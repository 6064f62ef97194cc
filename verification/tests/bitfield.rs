use validation::attestation_validation::bytes_for_bits;
use validation::bitfield::Bitfield;

#[test]
fn bytes_for_bits_is_the_ceiling_of_an_eighth() {
    assert_eq!(bytes_for_bits(0), 0);
    assert_eq!(bytes_for_bits(1), 1);
    assert_eq!(bytes_for_bits(7), 1);
    assert_eq!(bytes_for_bits(8), 1);
    assert_eq!(bytes_for_bits(9), 2);
    assert_eq!(bytes_for_bits(16), 2);
    assert_eq!(bytes_for_bits(17), 3);
    assert_eq!(bytes_for_bits(64), 8);
    assert_eq!(bytes_for_bits(65), 9);
}

#[test]
fn bytes_for_bits_of_the_largest_count() {
    assert_eq!(bytes_for_bits(usize::MAX), usize::MAX / 8 + 1);
    assert_eq!(bytes_for_bits(usize::MAX - 7), usize::MAX / 8);
}

#[test]
fn empty_bitfield_has_no_length() {
    let b = Bitfield::from_bytes(vec![]);
    assert_eq!(b.num_bytes(), 0);
    assert_eq!(b.len(), 0);
    assert!(!b.get_bit(0));
}

#[test]
fn zero_bytes_have_no_logical_length() {
    let b = Bitfield::from_bytes(vec![0, 0, 0]);
    assert_eq!(b.num_bytes(), 3);
    assert_eq!(b.len(), 0);
    for i in 0..32 {
        assert!(!b.get_bit(i));
    }
}

#[test]
fn logical_length_is_one_past_the_highest_set_bit() {
    assert_eq!(Bitfield::from_bytes(vec![0b0000_0001]).len(), 1);
    assert_eq!(Bitfield::from_bytes(vec![0b0000_0101]).len(), 3);
    assert_eq!(Bitfield::from_bytes(vec![0b0000_1000]).len(), 4);
    assert_eq!(Bitfield::from_bytes(vec![0b1000_0000]).len(), 8);
    assert_eq!(Bitfield::from_bytes(vec![0b1111_1111]).len(), 8);
    assert_eq!(Bitfield::from_bytes(vec![0, 0b0000_0001]).len(), 9);
    assert_eq!(Bitfield::from_bytes(vec![0xff, 0b0100_0000]).len(), 15);
    assert_eq!(Bitfield::from_bytes(vec![0, 0, 0b1000_0000]).len(), 24);
}

#[test]
fn trailing_zero_bytes_do_not_add_to_the_logical_length() {
    let b = Bitfield::from_bytes(vec![0b0000_0110, 0, 0]);
    assert_eq!(b.num_bytes(), 3);
    assert_eq!(b.len(), 3);
}

#[test]
fn bits_are_addressed_from_the_least_significant() {
    let b = Bitfield::from_bytes(vec![0b0000_0101, 0b1000_0010]);
    let set: Vec<usize> = (0..20).filter(|i| b.get_bit(*i)).collect();
    assert_eq!(set, vec![0, 2, 9, 15]);
    assert_eq!(b.len(), 16);
}

#[test]
fn bits_past_the_last_byte_are_clear() {
    let b = Bitfield::from_bytes(vec![0xff]);
    assert!(b.get_bit(7));
    assert!(!b.get_bit(8));
    assert!(!b.get_bit(usize::MAX));
}

#[test]
fn bitfield_keeps_its_bytes() {
    let b = Bitfield::from_bytes(vec![1, 2, 3]);
    assert_eq!(b.as_bytes(), &vec![1u8, 2, 3]);
    let c = b.clone();
    assert_eq!(c, b);
    assert_eq!(c.len(), 18);
    assert_eq!(c.as_bytes(), &vec![1u8, 2, 3]);
}

#[test]
fn bitfields_with_other_bytes_differ() {
    assert_ne!(Bitfield::from_bytes(vec![1]), Bitfield::from_bytes(vec![1, 0]));
    assert_ne!(Bitfield::from_bytes(vec![1]), Bitfield::from_bytes(vec![2]));
}
