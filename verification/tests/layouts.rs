use rawler::decoders::cr2::layout::{cr2_raw_layout, Cr2Error, Cr2Facts};
use rawler::decoders::cr3::{cr3_raw_layout, Cr3Error, Cr3Facts};
use rawler::decoders::raf::layout::{raf_raw_layout, RafDecoding, RafError, RafFacts};
use rawler::decoders::unwrapped::{unwrapped_header, UnwrappedError};

fn cr2(super_h: usize) -> Cr2Facts {
    Cr2Facts {
        cr2id_offset: None,
        cfa_offset: Some(100),
        old_offset: Some(7),
        ljpeg_width: 300,
        ljpeg_height: 50,
        super_h,
        super_v: 1,
        linearization: false,
        stated_size: None,
        double_line: false,
        stripes: Some((2, 100, 100)),
    }
}

#[test]
fn cr2_layouts() {
    let l = cr2_raw_layout(&cr2(1)).unwrap();
    assert_eq!((l.offset, l.cpp, l.width, l.height, l.yuv), (100, 1, 300, 50, false));
    assert_eq!(l.stripes, Some((2, 100, 100)));
    let s = cr2_raw_layout(&Cr2Facts { cr2id_offset: Some(5), stated_size: Some((90, 60)), stripes: Some((0, 1, 1)), ..cr2(2) }).unwrap();
    assert_eq!((s.offset, s.cpp, s.width, s.height, s.yuv, s.stripes), (5, 3, 270, 60, true, None));
    let d = cr2_raw_layout(&Cr2Facts { double_line: true, cfa_offset: None, ..cr2(1) }).unwrap();
    assert_eq!((d.offset, d.width, d.height), (7, 150, 100));
    assert_eq!(cr2_raw_layout(&Cr2Facts { cfa_offset: None, old_offset: None, ..cr2(1) }), Err(Cr2Error::NoRawInfo));
}

fn raf() -> RafFacts {
    RafFacts {
        full_size: Some((6000, 4000)),
        raf_sizes: Some((1, 2)),
        bps: Some(14),
        src_len: 6000 * 4000 * 2,
        double_width: false,
        jpeg32: false,
        rotation: false,
        dbp: false,
        little_endian: true,
    }
}

#[test]
fn raf_layouts() {
    let l = raf_raw_layout(&raf()).unwrap();
    assert_eq!((l.width, l.height, l.bps, l.decoding), (6000, 4000, 14, RafDecoding::Le14Unpacked));
    let c = raf_raw_layout(&RafFacts { src_len: 1000, ..raf() }).unwrap();
    assert_eq!(c.decoding, RafDecoding::Compressed);
    let s = raf_raw_layout(&RafFacts { full_size: None, raf_sizes: Some((2000, 3000)), bps: None, src_len: 12_000_000, little_endian: false, ..raf() }).unwrap();
    assert_eq!((s.width, s.height, s.bps, s.decoding), (3000, 2000, 16, RafDecoding::Be16));
    assert_eq!(raf_raw_layout(&RafFacts { jpeg32: true, ..raf() }).unwrap().decoding, RafDecoding::Be14Msb32);
    assert_eq!(raf_raw_layout(&RafFacts { jpeg32: true, bps: Some(16), ..raf() }), Err(RafError::UnsupportedBps(16)));
    assert_eq!(raf_raw_layout(&RafFacts { dbp: true, bps: None, ..raf() }).unwrap().decoding, RafDecoding::Dbp);
    assert_eq!(raf_raw_layout(&RafFacts { double_width: true, ..raf() }).unwrap().decoding, RafDecoding::Le16SkipLines);
    assert_eq!(raf_raw_layout(&RafFacts { full_size: None, raf_sizes: None, ..raf() }), Err(RafError::NoRafData));
    assert_eq!(raf_raw_layout(&RafFacts { bps: Some(10), ..raf() }), Err(RafError::UnsupportedBps(10)));
}

fn cr3() -> Cr3Facts {
    Cr3Facts {
        image_index: 0,
        image_count: 1,
        override_trak: None,
        crx_trak: Some(3),
        sample: Some((1000, 5000)),
        stated_whitelevel: None,
        bps: Some(14),
        has_wb: true,
        crm_raw_type: None,
        iad1: Some((true, (10, 20, 99, 199), (4, 6, 500, 205))),
        width: 120,
        height: 220,
    }
}

#[test]
fn cr3_layouts() {
    let l = cr3_raw_layout(&cr3()).unwrap();
    assert_eq!((l.trak, l.offset, l.size, l.whitelevel, l.neutral_wb), (3, 1000, 5000, 16383, false));
    assert_eq!(l.areas, Some(((10, 20, 100, 200), (4, 6, 120, 204))));
    let m = cr3_raw_layout(&Cr3Facts { override_trak: Some(1), crm_raw_type: Some(130), iad1: None, ..cr3() }).unwrap();
    assert_eq!((m.trak, m.neutral_wb, m.areas), (1, true, None));
    assert_eq!(cr3_raw_layout(&Cr3Facts { image_index: 1, ..cr3() }), Err(Cr3Error::IndexOutOfRange(1, 1)));
    assert_eq!(cr3_raw_layout(&Cr3Facts { crx_trak: None, ..cr3() }), Err(Cr3Error::NoRawTrak));
    assert_eq!(cr3_raw_layout(&Cr3Facts { sample: None, ..cr3() }), Err(Cr3Error::NoSample));
}

#[test]
fn unwrapped_headers() {
    let h = unwrapped_header(&[3, 0, 10, 0, 20, 0, 9, 9]).unwrap();
    assert_eq!((h.decoder, h.width, h.height), (3, 10, 20));
    assert_eq!(unwrapped_header(&[3, 0, 10, 0, 20]), Err(UnwrappedError::TooSmall));
    assert_eq!(unwrapped_header(&[3, 0, 65, 0, 20, 0]), Err(UnwrappedError::TooLarge(65, 20)));
    assert_eq!(unwrapped_header(&[3, 0, 0, 0, 20, 0]), Err(UnwrappedError::ZeroDimension(0, 20)));
    assert_eq!(unwrapped_header(&[47, 0, 1, 0, 1, 0]), Err(UnwrappedError::NoSuchDecoder(47)));
    assert_eq!(unwrapped_header(&[53, 0, 1, 0, 1, 0]), Err(UnwrappedError::NoSuchDecoder(53)));
    assert!(unwrapped_header(&[52, 0, 64, 0, 64, 0]).is_ok());
}
