use rawler::decoders::raf::dbp::decode_dbp;
use rawler::cfa::CFAColor;
use rawler::decoders::raf::fuji_decompressor::{CompressedBlock, Strip};
use rawler::decoders::raf::fuji_decompressor::{
    bayer_index, bit_diff, fuji_decode_interpolation_even, fuji_extend_blue, fuji_extend_generic, fuji_extend_green,
    fuji_extend_red, Header, Params, QTable, XT_LINE_TOTAL,
};

fn header_bytes(lossless: u8, raw_type: u8) -> Vec<u8> {
    let mut b = Vec::new();
    b.extend_from_slice(&0x4953u16.to_be_bytes());
    b.push(lossless);
    b.push(raw_type);
    b.push(14);
    b.extend_from_slice(&4032u16.to_be_bytes());
    b.extend_from_slice(&6144u16.to_be_bytes());
    b.extend_from_slice(&6048u16.to_be_bytes());
    b.extend_from_slice(&0x300u16.to_be_bytes());
    b.push(8);
    b.extend_from_slice(&672u16.to_be_bytes());
    b
}

#[test]
fn fuji_header_read_and_valid() {
    let h = Header::read(&header_bytes(1, 16));
    assert_eq!(h.signature, 0x4953);
    assert_eq!(h.raw_bits, 14);
    assert_eq!(h.raw_height, 4032);
    assert_eq!(h.raw_rounded_width, 6144);
    assert_eq!(h.raw_width, 6048);
    assert_eq!(h.block_size, 0x300);
    assert_eq!(h.blocks_in_row, 8);
    assert_eq!(h.total_lines, 672);
    assert!(h.is_lossless());
    assert!(h.is_valid());
    let mut bad = h;
    bad.signature = 0x4954;
    assert!(!bad.is_valid());
    let mut bad_lines = h;
    bad_lines.total_lines = 671;
    assert!(!bad_lines.is_valid());
    let mut bad_bits = h;
    bad_bits.raw_bits = 10;
    assert!(!bad_bits.is_valid());
}

#[test]
fn fuji_lossless_params() {
    let h = Header::read(&header_bytes(1, 16));
    let p = Params::new(&h);
    assert_eq!(p.min_value, 0x40);
    assert_eq!(p.max_value, 16383);
    assert_eq!(p.max_bits, 56);
    assert_eq!(p.line_width, 512);
    assert_eq!(p.qtables.len(), 1);
    let t = &p.qtables[0];
    assert_eq!(t.q_base, 0);
    assert_eq!(t.total_values, 16384);
    assert_eq!(t.raw_bits, 14);
    assert_eq!(t.q_gradient_multi, 9);
    assert_eq!(t.q_table.len(), 32768);
    assert_eq!(t.q_table[16383], 0);
    assert_eq!(t.q_table[16384], 1);
    assert_eq!(t.q_table[16382], -1);
    assert_eq!(t.q_table[16383 + 0x12], 2);
    assert_eq!(t.q_table[16383 - 0x12], -2);
    assert_eq!(t.q_table[0], -4);
    assert_eq!(t.q_table[32766], 4);
    assert_eq!(t.q_table[32767], 0);
}

#[test]
fn fuji_lossy_params() {
    let h = Header::read(&header_bytes(0, 0));
    let p = Params::new(&h);
    assert_eq!(p.line_width, 384);
    assert_eq!(p.qtables.len(), 4);
    assert_eq!(p.qtables[0].q_base, -1);
    assert_eq!(p.qtables[1].total_values, 16384);
    assert_eq!(p.qtables[1].raw_bits, 14);
    assert_eq!(p.qtables[1].max_grad, 5);
    assert_eq!(p.qtables[2].total_values, 5462);
    assert_eq!(p.qtables[2].raw_bits, 13);
    assert_eq!(p.qtables[3].total_values, 3278);
    assert_eq!(p.qtables[3].raw_bits, 12);
    assert_eq!(p.qtables[3].q_table[16383 + 0x18], 2);
}

#[test]
fn fuji_main_qtable() {
    let h = Header::read(&header_bytes(0, 0));
    let t = Params::new_main_qtable(&h, 16383, 5);
    assert_eq!(t.q_base, 5);
    assert_eq!(t.total_values, 1491);
    assert_eq!(t.raw_bits, 11);
    // points 5, 33, 92, 311
    assert_eq!(t.q_table[16383 + 5], 0);
    assert_eq!(t.q_table[16383 + 6], 1);
    assert_eq!(t.q_table[16383 + 33], 2);
    assert_eq!(t.q_table[16383 + 311], 4);
    assert_eq!(t.q_table[16383 - 311], -4);
    let qp = [0, 1, 2, 3, 4];
    let small = QTable::build_table(&h, &qp);
    assert_eq!(&small[..10], &[-4, -4, -3, -2, 0, 2, 3, 4, 4, 0]);
}

#[test]
fn fuji_bit_diff() {
    assert_eq!(bit_diff(10, 20), 0);
    assert_eq!(bit_diff(20, 3), 3);
    assert_eq!(bit_diff(1_000_000, 1), 15);
    assert_eq!(bit_diff(5, -1), 15);
}

fn linebuf(width: usize) -> Vec<Vec<u16>> {
    (0..XT_LINE_TOTAL).map(|l| (0..width + 2).map(|i| (l * 100 + i) as u16).collect()).collect()
}

#[test]
fn fuji_extend_lines() {
    let mut lb = linebuf(4);
    fuji_extend_generic(&mut lb, 4, 3, 4);
    // line 3 borders from line 2's first and last samples
    assert_eq!(lb[3][0], 201);
    assert_eq!(lb[3][5], 204);
    assert_eq!(lb[4][0], 301);
    assert_eq!(lb[4][5], 304);
    // the rest is kept
    assert_eq!(lb[3][1], 301);
    assert_eq!(lb[5][0], 500);
    assert_eq!(lb[2][0], 200);
    let mut r = linebuf(4);
    fuji_extend_red(&mut r, 4);
    assert_eq!(r[2][0], 101);
    assert_eq!(r[5][0], 500);
    let mut g = linebuf(4);
    fuji_extend_green(&mut g, 4);
    assert_eq!(g[7][5], 604);
    assert_eq!(g[12][0], 1101);
    let mut b = linebuf(4);
    fuji_extend_blue(&mut b, 4);
    assert_eq!(b[15][0], 1401);
    assert_eq!(b[17][5], 1604);
}

#[test]
fn fuji_interpolation() {
    let mut lb = vec![vec![0u16; 6]; 3];
    // above left c, above b, above right d, two above f
    lb[1][0] = 100; // c
    lb[1][1] = 10; // b
    lb[1][2] = 12; // d
    lb[0][1] = 14; // f
    let mut pos = 0usize;
    fuji_decode_interpolation_even(&mut lb, 2, &mut pos);
    // c differs most from b: mean of f, d and twice b
    assert_eq!(lb[2][1], (14 + 12 + 2 * 10) / 4);
    assert_eq!(pos, 2);
    let mut lb2 = vec![vec![0u16; 6]; 3];
    lb2[1][0] = 11;
    lb2[1][1] = 10;
    lb2[1][2] = 90;
    lb2[0][1] = 14;
    let mut pos2 = 0usize;
    fuji_decode_interpolation_even(&mut lb2, 2, &mut pos2);
    // d differs most: mean of f, c and twice b
    assert_eq!(lb2[2][1], (14 + 11 + 2 * 10) / 4);
    assert_eq!(bayer_index(7), 3);
}

#[test]
fn fuji_strip_geometry() {
    let header = Header::read(&header_bytes(1, 16));
    let strip = |n| Strip { offset: 0, size: 0, n, header, cfa: [[CFAColor::GREEN; 6]; 6] };
    assert_eq!(strip(0).width(), 0x300);
    assert_eq!(strip(2).offset_x(), 0x600);
    // the last of 8 strips holds what is left of 6048 pixels
    assert_eq!(strip(7).width(), 6048 - 7 * 0x300);
    assert_eq!(strip(7).offset_y(3), 18);
    assert_eq!(strip(0).height(), 672);
    assert_eq!(Strip::line_height(), 6);
}

#[test]
fn fuji_compressed_block_start() {
    let h = Header::read(&header_bytes(1, 16));
    let p = Params::new(&h);
    let b = CompressedBlock::new(&h, &p);
    assert_eq!(b.linebuf.len(), 18);
    assert_eq!(b.linebuf[5].len(), 514);
    // (16384 + 0x20) >> 6
    assert_eq!(b.grad_even[0].lossless_grads[40], (256, 1));
    assert_eq!(b.grad_odd[2].lossless_grads[0], (256, 1));
    assert_eq!(b.grad_even[1].lossy_grads[0][4], (0, 0));
    let hl = Header::read(&header_bytes(0, 0));
    let pl = Params::new(&hl);
    let bl = CompressedBlock::new(&hl, &pl);
    assert_eq!(bl.grad_even[0].lossless_grads[0], (0, 0));
    // tables coding 16384, 5462 and 3278 values
    assert_eq!(bl.grad_even[0].lossy_grads[0][0], (256, 1));
    assert_eq!(bl.grad_odd[1].lossy_grads[1][3], (85, 1));
    assert_eq!(bl.grad_even[2].lossy_grads[2][2], (51, 1));
}

#[test]
fn fuji_gradient_lookup() {
    let h = Header::read(&header_bytes(1, 16));
    let p = Params::new(&h);
    let t = &p.qtables[0];
    // classes 2 (difference 0x12) and -1 (difference -1), multiplier 9
    assert_eq!(t.lookup_gradient(&p, 0x12, -1), 9 * 2 - 1);
    assert_eq!(t.lookup_gradient(&p, 0, 0), 0);
}

#[test]
fn dbp_tiles_are_laid_side_by_side() {
    // 17 x 2 image: eight tiles of 2 x 2 samples, sample i holds i
    let buf: Vec<u8> = (0..32u16).flat_map(|i| i.to_be_bytes()).collect();
    let out = decode_dbp(&buf, 17, 2).unwrap();
    assert_eq!(out.len(), 34);
    assert_eq!(&out[..17], &[0, 1, 4, 5, 8, 9, 12, 13, 16, 17, 20, 21, 24, 25, 28, 29, 0]);
    assert_eq!(&out[17..], &[2, 3, 6, 7, 10, 11, 14, 15, 18, 19, 22, 23, 26, 27, 30, 31, 0]);
    assert!(decode_dbp(&buf[..63], 17, 2).is_none());
}
