use rawler::decoders::pef::huffman::{pef_default_huffman, pef_huffman_from_makernote};

fn entry(depth_word: u16, codes: &[u16], lens: &[u8]) -> Vec<u8> {
    let mut b = depth_word.to_be_bytes().to_vec();
    b.extend_from_slice(&[0; 12]);
    for c in codes {
        b.extend_from_slice(&c.to_be_bytes());
    }
    b.extend_from_slice(lens);
    b
}

#[test]
fn pef_table_from_makernote() {
    // three symbols: codes 2 (length 2), 1 (length 2) and 6 (length 3)
    let m = entry(7, &[0x800, 0x400, 0xc00], &[2, 2, 3]);
    let t = pef_huffman_from_makernote(&m, true).unwrap();
    assert_eq!(t.huffval, vec![1, 0, 2]);
    assert_eq!(t.bits.len(), 17);
    assert_eq!(t.bits[2], 2);
    assert_eq!(t.bits[3], 1);
    assert_eq!(t.bits.iter().sum::<u32>(), 3);
}

#[test]
fn pef_table_ties_and_errors() {
    // equal codes: the larger symbol comes first
    let m = entry(6, &[0x400, 0x400], &[2, 2]);
    assert_eq!(pef_huffman_from_makernote(&m, true).unwrap().huffval, vec![1, 0]);
    // little-endian words
    let mut le = 7u16.to_le_bytes().to_vec();
    le.extend_from_slice(&[0; 12]);
    for c in [0x800u16, 0x400, 0xc00] {
        le.extend_from_slice(&c.to_le_bytes());
    }
    le.extend_from_slice(&[2, 2, 3]);
    assert_eq!(pef_huffman_from_makernote(&le, false).unwrap().huffval, vec![1, 0, 2]);
    // a code longer than 12 bits
    assert!(pef_huffman_from_makernote(&entry(6, &[0x400, 0x400], &[2, 13]), true).is_none());
    // too short
    assert!(pef_huffman_from_makernote(&m[..m.len() - 1], true).is_none());
    assert!(pef_huffman_from_makernote(&[1], true).is_none());
    // no symbols at all
    let t = pef_huffman_from_makernote(&entry(4, &[], &[]), true).unwrap();
    assert!(t.huffval.is_empty());
}

#[test]
fn pef_standard_table() {
    let t = pef_default_huffman();
    assert_eq!(t.bits, vec![0, 0, 2, 3, 1, 1, 1, 1, 1, 1, 2, 0, 0, 0, 0, 0, 0]);
    assert_eq!(t.huffval, vec![3, 4, 2, 5, 1, 6, 0, 7, 8, 9, 10, 11, 12]);
}
