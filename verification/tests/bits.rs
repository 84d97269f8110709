use rawler::bits::{
    clamp, clampbits, extend_binary_floating_point, log2ceil, BEi32, BEu16, BEu32, Endian, FloatFormat, LEi32, LEu16,
    LEu32, LookupTable,
};

#[test]
fn test_convert() {
    let binary16 = FloatFormat::binary16();
    let binary24 = FloatFormat::binary24();
    let binary32 = FloatFormat::binary32();

    assert_eq!(binary16.precision(), 11);
    assert_eq!(binary16.exponent_max(), 15);
    assert_eq!(binary16.exponent_pos(), 10);
    assert_eq!(binary16.sign_bit_pos(), 15);
    assert_eq!(binary16.storage_bytes(), 2);

    assert_eq!(binary24.precision(), 17);
    assert_eq!(binary24.exponent_max(), 63);
    assert_eq!(binary24.exponent_pos(), 16);
    assert_eq!(binary24.sign_bit_pos(), 23);
    assert_eq!(binary24.storage_bytes(), 3);

    assert_eq!(binary32.precision(), 24);
    assert_eq!(binary32.exponent_max(), 127);
    assert_eq!(binary32.exponent_pos(), 23);
    assert_eq!(binary32.sign_bit_pos(), 31);
    assert_eq!(binary32.storage_bytes(), 4);
}

#[test]
fn extend_half_precision_values() {
    let h = FloatFormat::binary16();
    let s = FloatFormat::binary32();
    assert_eq!(extend_binary_floating_point(&h, &s, 0x3C00), 0x3F80_0000); // 1.0
    assert_eq!(extend_binary_floating_point(&h, &s, 0xC000), 0xC000_0000); // -2.0
    assert_eq!(extend_binary_floating_point(&h, &s, 0x0000), 0x0000_0000); // +0
    assert_eq!(extend_binary_floating_point(&h, &s, 0x8000), 0x8000_0000); // -0
    assert_eq!(extend_binary_floating_point(&h, &s, 0x7C00), 0x7F80_0000); // inf
    assert_eq!(extend_binary_floating_point(&h, &s, 0x7E00), 0x7FC0_0000); // NaN
    assert_eq!(extend_binary_floating_point(&h, &s, 0x0001), 0x3380_0000); // smallest subnormal 2^-24
    assert_eq!(extend_binary_floating_point(&h, &s, 0x0200), 0x3800_0000); // subnormal 2^-15
    assert_eq!(f32::from_bits(extend_binary_floating_point(&h, &s, 0x3555)), 0.33325195);
}

#[test]
fn extend_binary24_values() {
    let n = FloatFormat::binary24();
    let s = FloatFormat::binary32();
    assert_eq!(extend_binary_floating_point(&n, &s, 0x3F_0000), 0x3F80_0000); // 1.0
    assert_eq!(extend_binary_floating_point(&n, &s, 0x7F_0000), 0x7F80_0000); // inf
    assert_eq!(extend_binary_floating_point(&n, &s, 0x00_0001), 0x1880_0000); // 2^-78
}

#[test]
fn clamp_helpers() {
    assert_eq!(clampbits(-5, 12), 0);
    assert_eq!(clampbits(5000, 12), 4095);
    assert_eq!(clampbits(1234, 12), 1234);
    assert_eq!(clampbits(70000, 20), (70000u32 % 65536) as u16);
    assert_eq!(clamp(-3, 0, 10), 0);
    assert_eq!(clamp(13, 0, 10), 10);
    assert_eq!(clamp(7, 0, 10), 7);
    assert_eq!(clamp(7, 10, 0), 0);
}

#[test]
fn log2ceil_counts_bits() {
    assert_eq!(log2ceil(0), 0);
    assert_eq!(log2ceil(1), 1);
    assert_eq!(log2ceil(2), 1);
    assert_eq!(log2ceil(3), 2);
    assert_eq!(log2ceil(4), 2);
    assert_eq!(log2ceil(5), 3);
    assert_eq!(log2ceil(256), 8);
    assert_eq!(log2ceil(257), 9);
    assert_eq!(log2ceil(usize::MAX), usize::BITS as usize);
}

#[test]
fn byte_order_readers() {
    let buf = [0x12u8, 0x34, 0x56, 0x78, 0xFF, 0xFE];
    assert_eq!(BEu16(&buf, 0), 0x1234);
    assert_eq!(LEu16(&buf, 0), 0x3412);
    assert_eq!(BEu32(&buf, 1), 0x3456_78FF);
    assert_eq!(LEu32(&buf, 0), 0x7856_3412);
    assert_eq!(BEi32(&buf, 2), 0x5678_FFFEu32 as i32);
    assert_eq!(LEi32(&buf, 2), 0xFEFF_7856u32 as i32);
    let e = Endian::Big;
    assert!(e.big() && !e.little());
    assert_eq!(e.read_u16(&buf, 4), 0xFFFE);
    assert_eq!(e.read_i16(&buf, 4), -2);
    assert_eq!(Endian::Little.read_i16(&buf, 4), -257);
    assert_eq!(e.read_u8(&buf, 5), 0xFE);
    assert_eq!(e.read_i8(&buf, 5), -2);
    assert_eq!(Endian::Little.read_u32(&buf, 0), 0x7856_3412);
    assert_eq!(Endian::Big.read_i32(&buf, 0), 0x1234_5678);
    assert_eq!(Endian::default(), Endian::Little);
}

#[test]
fn write_then_read_u16() {
    for e in [Endian::Big, Endian::Little] {
        let mut buf = [0u8; 4];
        e.write_u16(&mut buf, 0xBEEF);
        assert_eq!(e.read_u16(&buf, 0), 0xBEEF);
        assert_eq!(&buf[2..], &[0, 0]);
    }
    let mut buf = [0u8; 2];
    Endian::Big.write_u16(&mut buf, 0x0102);
    assert_eq!(buf, [1, 2]);
}

#[test]
fn lookup_table_dither() {
    let table = LookupTable::new(&[0, 10, 20, 30]);
    let mut rand: u32 = 0;
    // entry 1: center 10, base 10 - (20 - 0 + 2) / 4 = 5, delta 20
    assert_eq!(table.dither(1, &mut rand), 5);
    assert_eq!(rand, 0);
    let mut rand: u32 = 2047;
    assert_eq!(table.dither(1, &mut rand), 5 + ((20 * 2047 + 1024) >> 12));
    assert_eq!(rand, 15700 * 2047);
    let expanded = LookupTable::new_with_bits(&[0, 10], 3);
    let mut rand: u32 = 0;
    assert_eq!(expanded.dither(7, &mut rand), 10);
}

#[test]
fn widening_is_exact() {
    let h = FloatFormat::binary16();
    let s = FloatFormat::binary32();
    let w = |v: u32| f32::from_bits(extend_binary_floating_point(&h, &s, v));
    // the smallest subnormal, the largest subnormal, one, the largest normal
    assert_eq!(w(0x0001), 2f32.powi(-24));
    assert_eq!(w(0x03ff), 1023.0 * 2f32.powi(-24));
    assert_eq!(w(0x3c00), 1.0);
    assert_eq!(w(0x7bff), 65504.0);
    assert_eq!(w(0xc000), -2.0);
    assert!(w(0x7c00).is_infinite() && w(0x7c00) > 0.0);
    assert!(w(0x7c01).is_nan());
    let t = FloatFormat::binary24();
    assert_eq!(f32::from_bits(extend_binary_floating_point(&t, &s, 0x3f0000)), 1.0);
    assert_eq!(f32::from_bits(extend_binary_floating_point(&t, &s, 0x000001)), 2f32.powi(-78));
}
