use rawler::bitarray::{BitArray16, BitArray32, BitArray8};
use std::cmp::Ordering;

#[test]
fn check_storage() {
    assert_eq!(BitArray16::from_lsb(3, 0b110).storage(), 0b1100_0000_0000_0000);
    assert_eq!(BitArray16::from_msb(3, 0b110 << u16::BITS - 3).storage(), 0b1100_0000_0000_0000);
}

#[test]
fn push_check_storage() {
    let mut bits = BitArray8::new();
    bits.push(true);
    assert_eq!(bits.len(), 1);
    assert_eq!(bits.storage(), 0b1000_0000);
}

#[test]
fn ppo_check_storage() {
    let mut bits = BitArray8::new();
    bits.push(true);
    bits.push(false);
    bits.push(true);
    assert_eq!(bits.len(), 3);
    assert_eq!(bits.storage(), 0b1010_0000);
    assert_eq!(bits.pop(), true);
    assert_eq!(bits.storage(), 0b1000_0000);
    assert_eq!(bits.pop(), false);
    assert_eq!(bits.storage(), 0b1000_0000);
    assert_eq!(bits.pop(), true);
    assert_eq!(bits.storage(), 0b0000_0000);
    assert!(bits.is_empty());
}

#[test]
fn bitvec_compare() {
    assert!(BitArray8::from_lsb(1, 0b1) > BitArray8::from_lsb(1, 0b0));
    assert!(BitArray8::from_lsb(2, 0b00) > BitArray8::from_lsb(1, 0b0));
    assert!(BitArray8::from_lsb(2, 0b11) < BitArray8::from_lsb(3, 0b000));
    assert!(BitArray8::from_lsb(3, 0b101) == BitArray8::from_lsb(3, 0b101));
    assert!(BitArray8::from_lsb(3, 0b101) != BitArray8::from_lsb(3, 0b111));

    assert_eq!(10u8.cmp(&20u8), Ordering::Less);
    assert_eq!(BitArray8::from_lsb(1, 0b0).cmp(&BitArray8::from_lsb(1, 0b1)), Ordering::Less);
    assert_eq!(BitArray8::from_lsb(1, 0b1).cmp(&BitArray8::from_lsb(1, 0b0)), Ordering::Greater);
    assert_eq!(BitArray8::from_lsb(1, 0b1).cmp(&BitArray8::from_lsb(1, 0b1)), Ordering::Equal);
    assert_eq!(BitArray8::from_lsb(1, 0b0).cmp(&BitArray8::from_lsb(2, 0b1)), Ordering::Less);
    assert_eq!(BitArray8::from_lsb(1, 0b1).cmp(&BitArray8::from_lsb(2, 0b0)), Ordering::Less);
    assert_eq!(BitArray8::from_lsb(1, 0b1).cmp(&BitArray8::from_lsb(2, 0b1)), Ordering::Less);
}

#[test]
fn compare_orders_by_length_then_storage() {
    assert_eq!(BitArray8::from_lsb(1, 0b1).compare(&BitArray8::from_lsb(2, 0b0)), Ordering::Less);
    assert_eq!(BitArray8::from_lsb(2, 0b10).compare(&BitArray8::from_lsb(2, 0b01)), Ordering::Greater);
    assert_eq!(BitArray8::from_lsb(3, 0b101).compare(&BitArray8::from_lsb(3, 0b101)), Ordering::Equal);
}

#[test]
fn push_then_pop_restores() {
    let mut bits = BitArray32::from_lsb(5, 0b10110);
    let before = bits.storage();
    bits.push(true);
    assert_eq!(bits.len(), 6);
    assert_eq!(bits.pop(), true);
    assert_eq!(bits.len(), 5);
    assert_eq!(bits.storage(), before);
}

#[test]
fn from_lsb_get_lsb_roundtrip() {
    assert_eq!(BitArray32::from_lsb(7, 0b1011001).get_lsb(), 0b1011001);
    assert_eq!(BitArray8::from_lsb(8, 0xA5).get_lsb(), 0xA5);
    assert_eq!(BitArray16::from_msb(4, 0xF000).get_msb(), 0xF000);
}

#[test]
fn full_and_empty() {
    let mut bits = BitArray8::new();
    assert!(bits.is_empty());
    for _ in 0..8 {
        bits.push(false);
    }
    assert!(bits.is_full());
    assert_eq!(bits.storage(), 0);
}

#[test]
fn bitarray_default_and_copy() {
    let a = BitArray16::default();
    assert_eq!(a.len(), 0);
    let mut b = BitArray16::from_lsb(3, 5);
    let c = b;
    let d = b.clone();
    b.push(true);
    assert_eq!(c.len(), 3);
    assert_eq!(d.get_lsb(), 5);
    assert_eq!(b.len(), 4);
}
