use rawler::decoders::rw2::v4decompressor::{decode_panasonic_v4_rows, BitPumpPanasonic};
use rawler::decoders::rw2::v6decompressor::{decode_panasonic_v6, panasonic_v6_block_pixels, v6_format, v6_unpack_block};
use rawler::decoders::rw2::v8decompressor::{
    calc_gamma, make_gammatable, read_counted_pairs, read_counted_u16s, read_counted_u32s, CF2Params, CF2Tags,
    CoeffBase, HuffmanDecoder, State, StripLineOffset,
};

fn params(points: Vec<u32>, slopes: Vec<u32>, clip: u16, huf_table: Vec<(u16, u16)>) -> CF2Params {
    CF2Params {
        strip_height: 0,
        strip_width: 0,
        gamma_point: points,
        gamma_slope: slopes,
        gamma_clip_val: clip,
        huf_init_val0: 10,
        huf_init_val1: 20,
        huf_init_val2: 30,
        huf_init_val3: 40,
        huf_table,
        huf_shift_down: vec![0; 17],
        num_of_strips_h: 1,
        num_of_strips_v: 1,
        strip_byte_offsets: vec![0],
        strip_line_offsets: vec![StripLineOffset { cols: 0, rows: 0 }],
        strip_data_size: vec![0],
        strip_widths: vec![0],
        strip_heights: vec![0],
    }
}

fn curve() -> CF2Params {
    params(
        vec![0, 2, 0x11, 15, 31, 0],
        vec![0x0000_0000, 0x0100_1000, 0x0200_2000, 0x0300_3000, 0x0400_4000, 0x0500_8000],
        0x3FFF,
        vec![(2, 1), (3, 5)],
    )
}

#[test]
fn gamma_segments() {
    let p = curve();
    // segment 0: identity
    assert_eq!(calc_gamma(&p, 0), 0);
    assert_eq!(calc_gamma(&p, 5), 5);
    assert_eq!(calc_gamma(&p, 0x0fff), 4095);
    // segment 1: divided by 4, rounding, on base 0x100
    assert_eq!(calc_gamma(&p, 0x1000), 256);
    assert_eq!(calc_gamma(&p, 0x1001), 256);
    assert_eq!(calc_gamma(&p, 0x1003), 257);
    // segment 2: doubled, on base 0x200
    assert_eq!(calc_gamma(&p, 0x2001), 514);
    assert_eq!(calc_gamma(&p, 0x2fff), 8702);
    // segment 3: flat at its base
    assert_eq!(calc_gamma(&p, 0x3555), 768);
    // segment 4: flat at the next base
    assert_eq!(calc_gamma(&p, 0x7fff), 1280);
    // segment 5: identity on base 0x500, clipped
    assert_eq!(calc_gamma(&p, 0x8010), 1296);
    assert_eq!(calc_gamma(&p, 0xffff), 0x3FFF);
    // bit 16 saturates the input
    assert_eq!(calc_gamma(&p, 0x10000), 0x3FFF);
}

#[test]
fn gamma_table() {
    let p = curve();
    let table = make_gammatable(&p).expect("a curve that is not the identity has a table");
    assert_eq!(table.len(), 0x10000);
    assert_eq!(table[0x1003], 257);
    assert_eq!(table[0x2fff], 8702);
    let linear = params(vec![65536; 6], vec![0; 6], 0xFFFF, vec![]);
    assert!(make_gammatable(&linear).is_none());
}

#[test]
fn huffman_lookup() {
    let dec = HuffmanDecoder::new(&[2, 3], &[0b01, 0b101]);
    assert_eq!(dec.huff_symbols.len(), 17);
    assert_eq!(dec.huff_symbols[0].symbol, 0x4000);
    assert_eq!(dec.huff_symbols[0].mask, 0xC000);
    assert_eq!(dec.huff_symbols[1].symbol, 0xA000);
    assert_eq!(dec.huff_symbols[1].mask, 0xE000);
    assert_eq!(dec.cache.len(), 0x10000);
    assert_eq!(dec.cache[0x4000], Some((2, 0)));
    assert_eq!(dec.cache[0x7fff], Some((2, 0)));
    assert_eq!(dec.cache[0xA000], Some((3, 1)));
    assert_eq!(dec.cache[0xBFFF], Some((3, 1)));
    // no code matches: the first unused entry matches everything
    assert_eq!(dec.cache[0x0000], Some((0, 2)));
    assert_eq!(HuffmanDecoder::slow_lookup(&dec.huff_symbols, 0xA123), Some(1));
}

#[test]
fn huffman_full_table() {
    // 17 codes of 16 bits: the inputs 0..=16 only
    let lens = [16u8; 17];
    let codes: Vec<u16> = (0..17).collect();
    let dec = HuffmanDecoder::new(&lens, &codes);
    assert_eq!(dec.cache[3], Some((16, 3)));
    assert_eq!(dec.cache[16], Some((16, 16)));
    assert_eq!(dec.cache[17], None);
    assert_eq!(HuffmanDecoder::slow_lookup(&dec.huff_symbols, 0xffff), None);
}

#[test]
fn counted_lists() {
    assert_eq!(read_counted_u16s(&[2, 0, 0x34, 0x12, 0x78, 0x56]), vec![0x1234, 0x5678]);
    assert_eq!(read_counted_u32s(&[1, 0, 1, 2, 3, 4, 9]), vec![0x04030201]);
    assert_eq!(read_counted_pairs(&[1, 0, 1, 0, 2, 0]), vec![(1, 2)]);
    assert_eq!(read_counted_u16s(&[0, 0]), Vec::<u16>::new());
}

#[test]
fn cf2_params_from_tags() {
    let tags = CF2Tags {
        strip_height: 8,
        strip_width: 16,
        gamma_clip_val: 0x3fff,
        huf_init_val0: 1,
        huf_init_val1: 2,
        huf_init_val2: 3,
        huf_init_val3: 4,
        num_of_strips_h: 1,
        num_of_strips_v: 2,
        gamma_point: vec![1, 0, 0, 0, 1, 0],
        gamma_slope: vec![1, 0, 0xff, 0, 0, 0],
        huf_table: vec![1, 0, 2, 0, 1, 0],
        huf_shift_down: vec![1, 0, 0, 0],
        strip_byte_offsets: vec![2, 0, 0, 1, 0, 0, 0, 2, 0, 0],
        strip_line_offsets: vec![1, 0, 4, 0, 6, 0],
        strip_data_size: vec![1, 0, 0x10, 0, 0, 0],
        strip_widths: vec![1, 0, 16, 0],
        strip_heights: vec![1, 0, 8, 0],
    };
    let p = CF2Params::new(&tags);
    assert_eq!(p.gamma_point, vec![0x0001_0000]);
    assert_eq!(p.gamma_slope, vec![0xff]);
    assert_eq!(p.huf_table, vec![(2, 1)]);
    assert_eq!(p.huf_shift_down, vec![0]);
    assert_eq!(p.strip_byte_offsets, vec![0x100, 0x200]);
    assert_eq!(p.strip_line_offsets.len(), 1);
    assert_eq!(p.strip_line_offsets[0].cols, 4);
    assert_eq!(p.strip_line_offsets[0].rows, 6);
    assert_eq!(p.strip_data_size, vec![0x10]);
    assert_eq!(p.strip_widths, vec![16]);
    assert_eq!(p.strip_heights, vec![8]);
    assert_eq!(p.num_of_strips_v, 2);
}

#[test]
fn strip_state() {
    let linear = params(vec![65536; 6], vec![0; 6], 0x0fff, vec![(2, 1), (3, 5)]);
    let st = State::new(&linear);
    assert!(st.gamma_table.is_none());
    assert_eq!(st.datamax, 0x0fff);
    assert_eq!(st.line_base.coeff, [10, 20, 30, 40]);
    assert_eq!(st.current_base.coeff, [10, 20, 30, 40]);
    assert_eq!(st.huffdec.cache[0x4000], Some((2, 0)));
    let st2 = State::new(&curve());
    assert_eq!(st2.gamma_table.unwrap()[0x1003], 257);
}

#[test]
fn coeff_base_update() {
    let mut base = CoeffBase::new([0, 0, 0, 0]);
    base.update(&[5, 6, 7, 8, 9]);
    assert_eq!(base.coeff, [5, 6, 7, 8]);
}

#[test]
fn panasonic_pump_reads_blocks_backwards() {
    let buf: Vec<u8> = (0..0x4000usize).map(|i| (i % 256) as u8).collect();
    let mut pump = BitPumpPanasonic::new(&buf, false);
    assert_eq!(pump.peek_bits(8), 15);
    assert_eq!(pump.peek_bits(8), 15);
    assert_eq!(pump.get_bits(8), 15);
    assert_eq!(pump.get_bits(8), 14);
    // 4-bit reads take the high half of a byte first
    assert_eq!(pump.get_bits(4), 0);
    assert_eq!(pump.get_bits(4), 13);
    assert_eq!(pump.get_bits(0), 0);
    for expect in (0..13u32).rev() {
        assert_eq!(pump.get_bits(8), expect);
    }
    // then the next group of 16 bytes, again from its end
    assert_eq!(pump.get_bits(8), 31);
}

#[test]
fn panasonic_pump_split_blocks() {
    let buf: Vec<u8> = (0..0x4000usize).map(|i| (i % 256) as u8).collect();
    let mut pump = BitPumpPanasonic::new(&buf, true);
    // byte 15 of the block lives at 15 + 0x4000 - 0x2008
    assert_eq!(pump.get_bits(8), 0x07);
    let mut pump16 = BitPumpPanasonic::new(&buf, false);
    assert_eq!(pump16.get_bits(16), 0x0f0e);
}

fn v4_data() -> Vec<u8> {
    (0..0x8000usize).map(|i| ((i * 37 + 11) % 256) as u8).collect()
}

#[test]
fn panasonic_v4_rows() {
    let buf = v4_data();
    assert_eq!(
        decode_panasonic_v4_rows(&buf, 30, 0, 30, false),
        Some(vec![
            865, 492, 481, 2204, 3921, 2210, 3761, 2430, 3701, 2074, 4077, 1902, 3757, 1434, 2150, 316, 2117, 391,
            2043, 547, 1743, 943, 1507, 667, 1963, 815, 1963, 667, 0, 0
        ])
    );
    assert_eq!(
        decode_panasonic_v4_rows(&buf, 30, 3, 30, false),
        Some(vec![
            897, 1006, 609, 2334, 4049, 2404, 3955, 2176, 4311, 2240, 4083, 2359, 4165, 2404, 2182, 830, 2157, 913,
            2091, 1073, 1923, 573, 2359, 717, 2211, 660, 2117, 785, 0, 0
        ])
    );
    assert_eq!(
        decode_panasonic_v4_rows(&buf, 30, 3, 30, true),
        Some(vec![
            270, 3014, 534, 3466, 390, 522, 3558, 2250, 3637, 2256, 3634, 2335, 3676, 2340, 1539, 2838, 3187, 806,
            2531, 715, 2614, 716, 2713, 742, 2666, 645, 2788, 730, 0, 0
        ])
    );
    // the first word of the row lies past the end of a short buffer
    assert_eq!(decode_panasonic_v4_rows(&buf[..10], 30, 0, 30, false), None);
}

#[test]
fn panasonic_v4_run_of_rows() {
    // three rows of 14 pixels and three more pixels, decoded in one run from row 5
    let buf = v4_data();
    assert_eq!(
        decode_panasonic_v4_rows(&buf, 14, 5, 45, false),
        Some(vec![
            3178, 380, 3106, 524, 2960, 572, 2676, 984, 2504, 516, 2768, 920, 3024, 1028, 367, 460, 635, 36, 587,
            2068, 1003, 3780, 911, 3392, 1255, 3092, 807, 3520, 1636, 284, 3572, 1196, 2916, 1202, 2839, 1299, 2827,
            991, 3251, 1011, 3123, 735, 0, 0, 0
        ])
    );
}

#[test]
fn panasonic_v6_blocks() {
    let pb14 = [1000u16, 2000, 1, 300, 0, 12, 3, 900, 700, 5, 2, 11, 13, 40, 0, 0, 0, 0];
    assert_eq!(
        panasonic_v6_block_pixels(&pb14, 14),
        Some(vec![985, 1985, 585, 961, 9, 14385, 11185, 65, 9181, 37, 7293])
    );
    let pb12 = [100u16, 0, 2, 30, 40, 50, 0, 7, 0, 9, 3, 255, 254, 1, 1, 3, 4, 5];
    assert_eq!(
        panasonic_v6_block_pixels(&pb12, 12),
        Some(vec![85, 16369, 105, 25, 185, 16376, 57, 16378, 4065, 4049, 1, 3799, 16377, 3553])
    );
    // zero values: 0 - 15 kept to 14 bits
    assert_eq!(panasonic_v6_block_pixels(&[0u16; 18], 12), Some(vec![16369; 14]));
    // a scaled value that leaves 16 bits
    let big = [1u16, 1, 2, 0xffff, 0, 0, 0, 0, 0, 0, 0, 0, 0, 0, 0, 0, 0, 0];
    assert_eq!(panasonic_v6_block_pixels(&big, 14), None);
    assert_eq!(v6_format(12).pixels_per_block, 14);
    assert_eq!(v6_format(14).pixels_per_block, 11);
}

#[test]
fn panasonic_v6_unpack_and_decode() {
    let buf: Vec<u8> = (0..64u32).map(|i| ((i * 37 + 11) % 256) as u8).collect();
    assert_eq!(v6_unpack_block(&buf, 0, 14), vec![3460, 7884, 1, 930, 501, 387, 0, 782, 935, 73, 3, 890, 340, 768, 0, 0, 0, 0]);
    assert_eq!(v6_unpack_block(&buf, 0, 12), vec![865, 492, 3, 30, 137, 245, 1, 131, 48, 238, 2, 113, 39, 222, 2, 85, 48, 11]);
    // 28 x 2 pixels of 12 bits: two blocks per row
    assert_eq!(
        decode_panasonic_v6(&buf, 28, 2, 12),
        Some(vec![
            850, 477, 465, 2177, 3905, 2183, 3745, 2403, 3685, 2047, 4061, 1875, 3741, 1407, 2135, 301, 2102, 376,
            2028, 529, 1728, 925, 1492, 649, 1948, 797, 1948, 649, 3420, 381, 3478, 141, 3460, 2241, 913, 3697,
            757, 3245, 1037, 3713, 1357, 3885, 593, 461, 969, 277, 1181, 279, 1116, 388, 1040, 125, 1400, 261,
            1016, 989
        ])
    );
    assert_eq!(
        decode_panasonic_v6(&buf, 11, 2, 14),
        Some(vec![3445, 7869, 4281, 7847, 4031, 8117, 4454, 7678, 14225, 5425, 12273, 8585, 5042, 9581, 5662, 9853, 6012, 9569, 5834, 15505, 10577, 65])
    );
}
