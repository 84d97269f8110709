//! The white balance of NEF files: the color balance record of the
//! makernote, which from version 0x204 on is "encrypted" with the camera's
//! serial number and shutter count key.

use vstd::prelude::*;
use crate::bits::{be_u16, BEu16};

verus! {

pub const WB_SERIALMAP: [u8; 256] = [
    0xc1, 0xbf, 0x6d, 0x0d, 0x59, 0xc5, 0x13, 0x9d, 0x83, 0x61, 0x6b, 0x4f, 0xc7, 0x7f, 0x3d, 0x3d,
    0x53, 0x59, 0xe3, 0xc7, 0xe9, 0x2f, 0x95, 0xa7, 0x95, 0x1f, 0xdf, 0x7f, 0x2b, 0x29, 0xc7, 0x0d,
    0xdf, 0x07, 0xef, 0x71, 0x89, 0x3d, 0x13, 0x3d, 0x3b, 0x13, 0xfb, 0x0d, 0x89, 0xc1, 0x65, 0x1f,
    0xb3, 0x0d, 0x6b, 0x29, 0xe3, 0xfb, 0xef, 0xa3, 0x6b, 0x47, 0x7f, 0x95, 0x35, 0xa7, 0x47, 0x4f,
    0xc7, 0xf1, 0x59, 0x95, 0x35, 0x11, 0x29, 0x61, 0xf1, 0x3d, 0xb3, 0x2b, 0x0d, 0x43, 0x89, 0xc1,
    0x9d, 0x9d, 0x89, 0x65, 0xf1, 0xe9, 0xdf, 0xbf, 0x3d, 0x7f, 0x53, 0x97, 0xe5, 0xe9, 0x95, 0x17,
    0x1d, 0x3d, 0x8b, 0xfb, 0xc7, 0xe3, 0x67, 0xa7, 0x07, 0xf1, 0x71, 0xa7, 0x53, 0xb5, 0x29, 0x89,
    0xe5, 0x2b, 0xa7, 0x17, 0x29, 0xe9, 0x4f, 0xc5, 0x65, 0x6d, 0x6b, 0xef, 0x0d, 0x89, 0x49, 0x2f,
    0xb3, 0x43, 0x53, 0x65, 0x1d, 0x49, 0xa3, 0x13, 0x89, 0x59, 0xef, 0x6b, 0xef, 0x65, 0x1d, 0x0b,
    0x59, 0x13, 0xe3, 0x4f, 0x9d, 0xb3, 0x29, 0x43, 0x2b, 0x07, 0x1d, 0x95, 0x59, 0x59, 0x47, 0xfb,
    0xe5, 0xe9, 0x61, 0x47, 0x2f, 0x35, 0x7f, 0x17, 0x7f, 0xef, 0x7f, 0x95, 0x95, 0x71, 0xd3, 0xa3,
    0x0b, 0x71, 0xa3, 0xad, 0x0b, 0x3b, 0xb5, 0xfb, 0xa3, 0xbf, 0x4f, 0x83, 0x1d, 0xad, 0xe9, 0x2f,
    0x71, 0x65, 0xa3, 0xe5, 0x07, 0x35, 0x3d, 0x0d, 0xb5, 0xe9, 0xe5, 0x47, 0x3b, 0x9d, 0xef, 0x35,
    0xa3, 0xbf, 0xb3, 0xdf, 0x53, 0xd3, 0x97, 0x53, 0x49, 0x71, 0x07, 0x35, 0x61, 0x71, 0x2f, 0x43,
    0x2f, 0x11, 0xdf, 0x17, 0x97, 0xfb, 0x95, 0x3b, 0x7f, 0x6b, 0xd3, 0x25, 0xbf, 0xad, 0xc7, 0xc5,
    0xc5, 0xb5, 0x8b, 0xef, 0x2f, 0xd3, 0x07, 0x6b, 0x25, 0x49, 0x95, 0x25, 0x49, 0x6d, 0x71, 0xc7,
];

pub const WB_KEYMAP: [u8; 256] = [
    0xa7, 0xbc, 0xc9, 0xad, 0x91, 0xdf, 0x85, 0xe5, 0xd4, 0x78, 0xd5, 0x17, 0x46, 0x7c, 0x29, 0x4c,
    0x4d, 0x03, 0xe9, 0x25, 0x68, 0x11, 0x86, 0xb3, 0xbd, 0xf7, 0x6f, 0x61, 0x22, 0xa2, 0x26, 0x34,
    0x2a, 0xbe, 0x1e, 0x46, 0x14, 0x68, 0x9d, 0x44, 0x18, 0xc2, 0x40, 0xf4, 0x7e, 0x5f, 0x1b, 0xad,
    0x0b, 0x94, 0xb6, 0x67, 0xb4, 0x0b, 0xe1, 0xea, 0x95, 0x9c, 0x66, 0xdc, 0xe7, 0x5d, 0x6c, 0x05,
    0xda, 0xd5, 0xdf, 0x7a, 0xef, 0xf6, 0xdb, 0x1f, 0x82, 0x4c, 0xc0, 0x68, 0x47, 0xa1, 0xbd, 0xee,
    0x39, 0x50, 0x56, 0x4a, 0xdd, 0xdf, 0xa5, 0xf8, 0xc6, 0xda, 0xca, 0x90, 0xca, 0x01, 0x42, 0x9d,
    0x8b, 0x0c, 0x73, 0x43, 0x75, 0x05, 0x94, 0xde, 0x24, 0xb3, 0x80, 0x34, 0xe5, 0x2c, 0xdc, 0x9b,
    0x3f, 0xca, 0x33, 0x45, 0xd0, 0xdb, 0x5f, 0xf5, 0x52, 0xc3, 0x21, 0xda, 0xe2, 0x22, 0x72, 0x6b,
    0x3e, 0xd0, 0x5b, 0xa8, 0x87, 0x8c, 0x06, 0x5d, 0x0f, 0xdd, 0x09, 0x19, 0x93, 0xd0, 0xb9, 0xfc,
    0x8b, 0x0f, 0x84, 0x60, 0x33, 0x1c, 0x9b, 0x45, 0xf1, 0xf0, 0xa3, 0x94, 0x3a, 0x12, 0x77, 0x33,
    0x4d, 0x44, 0x78, 0x28, 0x3c, 0x9e, 0xfd, 0x65, 0x57, 0x16, 0x94, 0x6b, 0xfb, 0x59, 0xd0, 0xc8,
    0x22, 0x36, 0xdb, 0xd2, 0x63, 0x98, 0x43, 0xa1, 0x04, 0x87, 0x86, 0xf7, 0xa6, 0x26, 0xbb, 0xd6,
    0x59, 0x4d, 0xbf, 0x6a, 0x2e, 0xaa, 0x2b, 0xef, 0xe6, 0x78, 0xb6, 0x4e, 0xe0, 0x2f, 0xdc, 0x7c,
    0xbe, 0x57, 0x19, 0x32, 0x7e, 0x2a, 0xd0, 0xb8, 0xba, 0x29, 0x00, 0x3c, 0x52, 0x7d, 0xa8, 0x49,
    0x3b, 0x2d, 0xeb, 0x25, 0x49, 0xfa, 0xa3, 0xaa, 0x39, 0xa7, 0xc5, 0xa7, 0x50, 0x11, 0x36, 0xfb,
    0xc6, 0x67, 0x4a, 0xf5, 0xa5, 0x12, 0x65, 0x7e, 0xb0, 0xdf, 0xaf, 0x4e, 0xb3, 0x61, 0x7f, 0x2f,
];

/// Why the color balance cannot be read.
#[derive(Debug, Copy, Clone, PartialEq, Eq, Structural)]
pub enum NefWbError {
    /// A record ends before a value that is read.
    Truncated,
    /// A version character lies below `0`.
    BadVersion,
    /// The serial number does not fit in a `usize`.
    SerialOverflow,
    /// The color balance version is not known.
    UnknownVersion(u32),
}

/// The value of a serial number character: its digit, or for any other
/// character its value modulo 10.
pub open spec fn serial_digit(b: u8) -> int {
    if 48 <= b <= 57 { b - 48 } else { (b % 10) as int }
}

/// The first `k` characters of a serial number read as decimal digits.
pub open spec fn serial_value(d: Seq<u8>, k: int) -> int
    decreases k,
{
    if k <= 0 { 0 } else { serial_value(d, k - 1) * 10 + serial_digit(d[k - 1]) }
}

/// Where the serial number ends: at its first zero byte, or at its end.
pub open spec fn serial_end(d: Seq<u8>, i: int) -> int
    decreases d.len() - i,
{
    if i >= d.len() {
        d.len() as int
    } else if d[i] == 0 {
        i
    } else {
        serial_end(d, i + 1)
    }
}

/// The serial number of the makernote text `d`.
pub open spec fn spec_serial_number(d: Seq<u8>) -> int {
    serial_value(d, serial_end(d, 0))
}

proof fn lemma_serial_end_bounds(d: Seq<u8>, i: int)
    requires
        0 <= i <= d.len(),
    ensures
        i <= serial_end(d, i) <= d.len(),
        forall|j: int| i <= j < serial_end(d, i) ==> d[j] != 0,
        serial_end(d, i) < d.len() ==> d[serial_end(d, i)] == 0,
    decreases d.len() - i,
{
    if i < d.len() && d[i] != 0 {
        lemma_serial_end_bounds(d, i + 1);
    }
}

proof fn lemma_serial_nonneg(d: Seq<u8>, k: int)
    ensures
        0 <= serial_value(d, k),
    decreases k,
{
    if k > 0 {
        lemma_serial_nonneg(d, k - 1);
    }
}

proof fn lemma_serial_grows(d: Seq<u8>, j: int, k: int)
    requires
        0 <= j <= k,
    ensures
        0 <= serial_value(d, j) <= serial_value(d, k),
    decreases k - j,
{
    lemma_serial_nonneg(d, j);
    if j < k {
        lemma_serial_grows(d, j, k - 1);
        lemma_serial_nonneg(d, k - 1);
    }
}

/// The serial number of the makernote text `d`, where it fits in a `usize`.
pub fn serial_number(d: &[u8]) -> (r: Option<usize>)
    ensures
        r matches Some(v) ==> v as int == spec_serial_number(d@),
        r is None ==> spec_serial_number(d@) > usize::MAX,
{
    proof {
        lemma_serial_end_bounds(d@, 0);
    }
    let mut serialno: usize = 0;
    let n = d.len();
    let mut i: usize = 0;
    while i < n
        invariant
            n == d@.len(),
            i <= serial_end(d@, 0),
            serial_end(d@, 0) <= n,
            forall|j: int| 0 <= j < serial_end(d@, 0) ==> d@[j] != 0,
            serial_end(d@, 0) < n ==> d@[serial_end(d@, 0)] == 0,
            serialno as int == serial_value(d@, i as int),
        ensures
            i == serial_end(d@, 0),
            serialno as int == serial_value(d@, i as int),
        decreases n - i,
    {
        let b = d[i];
        if b == 0 {
            break;
        }
        let digit: usize = if b >= 48 && b <= 57 { (b - 48) as usize } else { (b % 10) as usize };
        if serialno > (usize::MAX - digit) / 10 {
            proof {
                lemma_serial_grows(d@, i + 1, serial_end(d@, 0));
                assert(serial_value(d@, i + 1) > usize::MAX) by (nonlinear_arith)
                    requires
                        serial_value(d@, i + 1) == serialno * 10 + digit,
                        serialno > (usize::MAX - digit) / 10,
                        digit <= 9,
                ;
            }
            return None;
        }
        serialno = serialno * 10 + digit;
        i = i + 1;
    }
    Some(serialno)
}

/// The key number of the shutter count key: the xor of its bytes.
pub open spec fn spec_key_number(key: u32) -> u32 {
    (key & 0xff) ^ ((key >> 8u32) & 0xff) ^ ((key >> 16u32) & 0xff) ^ (key >> 24u32)
}

pub fn key_number(key: u32) -> (r: u32)
    ensures
        r == spec_key_number(key),
{
    (key & 0xff) ^ ((key >> 8u32) & 0xff) ^ ((key >> 16u32) & 0xff) ^ (key >> 24u32)
}

/// The sum `0x60 + (0x60 + 1) + ...` of the first `i` steps of the key
/// stream.
pub open spec fn key_sum(i: int) -> int
    decreases i,
{
    if i <= 0 { 0 } else { key_sum(i - 1) + 0x60 + (i - 1) }
}

/// Byte `i` of the decrypted color balance: the byte of `src` xored with
/// the low byte of the key stream seeded by the serial and key numbers.
pub open spec fn wb_decrypted_byte(src: Seq<u8>, start: int, serialno: int, keyno: int, i: int) -> u8 {
    let ci = WB_SERIALMAP@[serialno % 256] as int;
    let cj = WB_KEYMAP@[keyno % 256] as int + ci * key_sum(i + 1);
    (src[start + i] ^ ((cj % 256) as u8)) as u8
}

/// Decrypt the 280 bytes of `src` from `start` on.
pub fn wb_decrypt(src: &[u8], start: usize, serialno: usize, keyno: usize) -> (buf: Vec<u8>)
    requires
        start + 280 <= src@.len(),
    ensures
        buf@.len() == 280,
        forall|i: int| 0 <= i < 280 ==> #[trigger] buf@[i] == wb_decrypted_byte(src@, start as int, serialno as int, keyno as int, i),
{
    let serialmap = WB_SERIALMAP;
    let keymap = WB_KEYMAP;
    let ci = serialmap[serialno % 256] as u32;
    let mut cj = keymap[keyno % 256] as u32;
    let mut ck: u32 = 0x60;
    let mut buf: Vec<u8> = Vec::new();
    let slen = src.len();
    for i in 0..280usize
        invariant
            start + 280 <= src@.len(),
            slen == src@.len(),
            serialmap@ == WB_SERIALMAP@,
            keymap@ == WB_KEYMAP@,
            ci == WB_SERIALMAP@[serialno as int % 256],
            ck == 0x60 + i,
            cj as int == WB_KEYMAP@[keyno as int % 256] as int + ci * key_sum(i as int),
            0 <= key_sum(i as int) <= 376 * i,
            buf@.len() == i,
            forall|j: int| 0 <= j < i ==> #[trigger] buf@[j] == wb_decrypted_byte(src@, start as int, serialno as int, keyno as int, j),
    {
        assert(ci * ck <= 255 * 376 && ci * key_sum(i as int) <= 255 * (376 * 280)) by (nonlinear_arith)
            requires
                ci <= 255,
                ck <= 376,
                0 <= key_sum(i as int) <= 376 * i,
                i < 280,
        ;
        assert(ci * key_sum(i + 1) == ci * key_sum(i as int) + ci * ck) by (nonlinear_arith)
            requires
                key_sum(i + 1) == key_sum(i as int) + ck,
        ;
        cj = cj + ci * ck;
        ck = ck + 1;
        buf.push(src[start + i] ^ ((cj % 256) as u8));
    }
    buf
}

/// The version of a color balance record: its first four characters read
/// as hexadecimal digits counted from `0`.
pub open spec fn wb_version(d: Seq<u8>) -> int {
    (d[0] - 48) * 0x1000 + (d[1] - 48) * 0x100 + (d[2] - 48) * 0x10 + (d[3] - 48)
}

/// Four big-endian words of `b` at `off`, `off + 2`, `off + 2` and `off + 4`
/// as red, green, green and blue where `dup` says the green is doubled.
pub open spec fn be4(b: Seq<u8>, o0: int, o1: int, o2: int, o3: int) -> (u16, u16, u16, u16) {
    (be_u16(b, o0) as u16, be_u16(b, o1) as u16, be_u16(b, o2) as u16, be_u16(b, o3) as u16)
}

/// The white balance of the color balance record `d`, given the makernote's
/// serial number text and shutter count key.
pub open spec fn spec_nef_wb1(d: Seq<u8>, serial: Seq<u8>, key: u32) -> Result<(u16, u16, u16, u16), NefWbError> {
    if d.len() < 4 {
        Err(NefWbError::Truncated)
    } else if d[0] < 48 || d[1] < 48 || d[2] < 48 || d[3] < 48 {
        Err(NefWbError::BadVersion)
    } else {
        let v = wb_version(d);
        if v == 0x100 {
            if d.len() < 78 { Err(NefWbError::Truncated) } else { Ok(be4(d, 72, 76, 76, 74)) }
        } else if v == 0x102 {
            if d.len() < 18 { Err(NefWbError::Truncated) } else { Ok(be4(d, 10, 12, 12, 16)) }
        } else if v == 0x103 {
            if d.len() < 26 { Err(NefWbError::Truncated) } else { Ok(be4(d, 20, 22, 22, 24)) }
        } else if v == 0x204 || v == 0x205 {
            let sn = spec_serial_number(serial);
            let start: int = if v == 0x204 { 284 } else { 4 };
            let off: int = if v == 0x204 { 6 } else { 14 };
            if sn > usize::MAX {
                Err(NefWbError::SerialOverflow)
            } else if d.len() < start + 280 {
                Err(NefWbError::Truncated)
            } else {
                let kn = spec_key_number(key) as int;
                let buf = Seq::new(280, |i: int| wb_decrypted_byte(d, start, sn, kn, i));
                Ok(be4(buf, off, off + 2, off + 4, off + 6))
            }
        } else {
            Err(NefWbError::UnknownVersion(v as u32))
        }
    }
}

fn read4(b: &[u8], o0: usize, o1: usize, o2: usize, o3: usize) -> (r: (u16, u16, u16, u16))
    requires
        o0 + 2 <= b@.len(),
        o1 + 2 <= b@.len(),
        o2 + 2 <= b@.len(),
        o3 + 2 <= b@.len(),
    ensures
        r == be4(b@, o0 as int, o1 as int, o2 as int, o3 as int),
{
    (BEu16(b, o0), BEu16(b, o1), BEu16(b, o2), BEu16(b, o3))
}

/// The white balance of a color balance record (see `spec_nef_wb1`).
pub fn nef_wb1(d: &[u8], serial: &[u8], key: u32) -> (r: Result<(u16, u16, u16, u16), NefWbError>)
    ensures
        r == spec_nef_wb1(d@, serial@, key),
{
    let n = d.len();
    if n < 4 {
        return Err(NefWbError::Truncated);
    }
    if d[0] < 48 || d[1] < 48 || d[2] < 48 || d[3] < 48 {
        return Err(NefWbError::BadVersion);
    }
    let mut version: u32 = 0;
    for i in 0..4usize
        invariant
            n == d@.len(),
            n >= 4,
            forall|j: int| 0 <= j < 4 ==> d@[j] >= 48,
            i == 0 ==> version == 0,
            i == 1 ==> version == d@[0] - 48,
            i == 2 ==> version == (d@[0] - 48) * 0x10 + (d@[1] - 48),
            i == 3 ==> version == (d@[0] - 48) * 0x100 + (d@[1] - 48) * 0x10 + (d@[2] - 48),
            i == 4 ==> version == wb_version(d@),
    {
        version = version * 16 + (d[i] - 48) as u32;
    }
    if version == 0x100 {
        if n < 78 {
            return Err(NefWbError::Truncated);
        }
        Ok(read4(d, 72, 76, 76, 74))
    } else if version == 0x102 {
        if n < 18 {
            return Err(NefWbError::Truncated);
        }
        Ok(read4(d, 10, 12, 12, 16))
    } else if version == 0x103 {
        if n < 26 {
            return Err(NefWbError::Truncated);
        }
        Ok(read4(d, 20, 22, 22, 24))
    } else if version == 0x204 || version == 0x205 {
        let serialno = match serial_number(serial) {
            Some(s) => s,
            None => {
                return Err(NefWbError::SerialOverflow);
            },
        };
        let start: usize = if version == 0x204 { 284 } else { 4 };
        let off: usize = if version == 0x204 { 6 } else { 14 };
        if n < start + 280 {
            return Err(NefWbError::Truncated);
        }
        let keyno = key_number(key) as usize;
        let buf = wb_decrypt(d, start, serialno, keyno);
        assert(buf@ =~= Seq::new(280, |i: int| wb_decrypted_byte(d@, start as int, serialno as int, keyno as int, i)));
        Ok(read4(buf.as_slice(), off, off + 2, off + 4, off + 6))
    } else {
        Err(NefWbError::UnknownVersion(version))
    }
}

/// The record's first four characters spell `v3 v2 v1 v0` in decimal digits.
pub open spec fn version_chars(d: Seq<u8>, c0: u8, c1: u8, c2: u8, c3: u8) -> bool {
    d.len() >= 4 && d[0] == c0 && d[1] == c1 && d[2] == c2 && d[3] == c3
}

/// The big-endian 16-bit word at byte `o` of `d`, as the record stores it.
pub open spec fn word16(d: Seq<u8>, o: int) -> u16 {
    (d[o] as int * 256 + d[o + 1] as int) as u16
}

/// Where the white balance of each plain record version lies: version
/// 0x100 holds red, green and blue in words 36, 38 and 37; version 0x102 in
/// words 5, 6 and 8; version 0x103 in words 10, 11 and 12. Green is given
/// twice. The serial number and key play no part.
pub proof fn lemma_nef_wb1_plain_records(d: Seq<u8>, serial: Seq<u8>, key: u32)
    ensures
        version_chars(d, 48, 49, 48, 48) && d.len() >= 78 ==> spec_nef_wb1(d, serial, key) == Ok::<
            (u16, u16, u16, u16),
            NefWbError,
        >((word16(d, 72), word16(d, 76), word16(d, 76), word16(d, 74))),
        version_chars(d, 48, 49, 48, 50) && d.len() >= 18 ==> spec_nef_wb1(d, serial, key) == Ok::<
            (u16, u16, u16, u16),
            NefWbError,
        >((word16(d, 10), word16(d, 12), word16(d, 12), word16(d, 16))),
        version_chars(d, 48, 49, 48, 51) && d.len() >= 26 ==> spec_nef_wb1(d, serial, key) == Ok::<
            (u16, u16, u16, u16),
            NefWbError,
        >((word16(d, 20), word16(d, 22), word16(d, 22), word16(d, 24))),
        version_chars(d, 48, 51, 48, 48) ==> spec_nef_wb1(d, serial, key) == Err::<(u16, u16, u16, u16), NefWbError>(
            NefWbError::UnknownVersion(0x300),
        ),
{
}

/// The encrypted records (versions 0x204 and 0x205) give the words 3 to 6
/// (0x204, decrypted from byte 284 on) or 7 to 10 (0x205, decrypted from
/// byte 4 on) of the decrypted data, where the serial number fits.
pub proof fn lemma_nef_wb1_encrypted_records(d: Seq<u8>, serial: Seq<u8>, key: u32)
    requires
        spec_serial_number(serial) <= usize::MAX,
    ensures
        ({
            let sn = spec_serial_number(serial);
            let kn = spec_key_number(key) as int;
            let dec = |start: int, i: int| wb_decrypted_byte(d, start, sn, kn, i);
            &&& version_chars(d, 48, 50, 48, 52) && d.len() >= 564 ==> spec_nef_wb1(d, serial, key) == Ok::<
                (u16, u16, u16, u16),
                NefWbError,
            >(
                (
                    (dec(284, 6) as int * 256 + dec(284, 7) as int) as u16,
                    (dec(284, 8) as int * 256 + dec(284, 9) as int) as u16,
                    (dec(284, 10) as int * 256 + dec(284, 11) as int) as u16,
                    (dec(284, 12) as int * 256 + dec(284, 13) as int) as u16,
                ),
            )
            &&& version_chars(d, 48, 50, 48, 53) && d.len() >= 284 ==> spec_nef_wb1(d, serial, key) == Ok::<
                (u16, u16, u16, u16),
                NefWbError,
            >(
                (
                    (dec(4, 14) as int * 256 + dec(4, 15) as int) as u16,
                    (dec(4, 16) as int * 256 + dec(4, 17) as int) as u16,
                    (dec(4, 18) as int * 256 + dec(4, 19) as int) as u16,
                    (dec(4, 20) as int * 256 + dec(4, 21) as int) as u16,
                ),
            )
        }),
{
}

} // verus!
