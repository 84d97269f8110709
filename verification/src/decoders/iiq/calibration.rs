//! The sensor calibration of an IIQ file: a table of tagged entries, each
//! pointing at its data relative to the start of the calibration block.
//! Floating-point values are kept as their raw IEEE 754 bits.

use vstd::prelude::*;
use crate::bits::{le_u16, le_u32, LEu16, LEu32};

verus! {

/// A sensor defect.
#[derive(Debug, Copy, Clone, PartialEq, Eq, Structural)]
pub struct Defect {
    pub col: usize,
    pub row: usize,
    pub typ: u16,
    pub reserved: u16,
}

/// The samples of a flat field: `f32` bits (tag 0x401) or 16-bit fixed
/// point values in units of 1/32768.
#[derive(Debug, Clone)]
pub enum FlatFieldData {
    Floats(Vec<u32>),
    Fixed(Vec<u16>),
}

/// A flat field correction: its tag, its eight header words and its data.
#[derive(Debug, Clone)]
pub struct FlatField {
    pub typ: u32,
    pub head: Vec<u16>,
    pub data: FlatFieldData,
}

/// The calibration data found in the entries.
#[derive(Debug, Clone)]
pub struct SensorCalibration {
    /// Eight `f32` (as bits).
    pub poly_curve_half: Option<Vec<u32>>,
    /// Four `f32` (as bits).
    pub poly_curve_full: Option<Vec<u32>>,
    /// 64 control points, four quadrants of 16.
    pub quadrant_linearization: Option<Vec<u16>>,
    /// 19 `f32` (as bits).
    pub quadrant_multipliers: Option<Vec<u32>>,
    /// Seven x coordinates and 28 y coordinates.
    pub quadrant_combined: Option<(Vec<usize>, Vec<usize>)>,
    pub defects: Option<Vec<Defect>>,
    pub flats: Vec<FlatField>,
}

/// Why the calibration block cannot be read.
#[derive(Debug, Copy, Clone, PartialEq, Eq, Structural)]
pub enum CalibrationError {
    /// The data ends before a value that is read.
    Truncated,
    /// The length of the entry with this tag does not fit its kind.
    Malformed(u32),
}

/// The data of a flat field, by value.
pub enum FlatDataView {
    Floats(Seq<u32>),
    Fixed(Seq<u16>),
}

pub struct FlatFieldView {
    pub typ: u32,
    pub head: Seq<u16>,
    pub data: FlatDataView,
}

/// The calibration data, by value.
pub struct CalibrationView {
    pub poly_curve_half: Option<Seq<u32>>,
    pub poly_curve_full: Option<Seq<u32>>,
    pub quadrant_linearization: Option<Seq<u16>>,
    pub quadrant_multipliers: Option<Seq<u32>>,
    pub quadrant_combined: Option<(Seq<usize>, Seq<usize>)>,
    pub defects: Option<Seq<Defect>>,
    pub flats: Seq<FlatFieldView>,
}

pub open spec fn opt_view<T>(o: Option<Vec<T>>) -> Option<Seq<T>> {
    match o {
        Some(v) => Some(v@),
        None => None,
    }
}

impl FlatField {
    pub open spec fn view(&self) -> FlatFieldView {
        FlatFieldView {
            typ: self.typ,
            head: self.head@,
            data: match self.data {
                FlatFieldData::Floats(v) => FlatDataView::Floats(v@),
                FlatFieldData::Fixed(v) => FlatDataView::Fixed(v@),
            },
        }
    }
}

impl SensorCalibration {
    pub open spec fn view(&self) -> CalibrationView {
        CalibrationView {
            poly_curve_half: opt_view(self.poly_curve_half),
            poly_curve_full: opt_view(self.poly_curve_full),
            quadrant_linearization: opt_view(self.quadrant_linearization),
            quadrant_multipliers: opt_view(self.quadrant_multipliers),
            quadrant_combined: match self.quadrant_combined {
                Some((x, y)) => Some((x@, y@)),
                None => None,
            },
            defects: opt_view(self.defects),
            flats: Seq::new(self.flats@.len(), |i: int| self.flats@[i].view()),
        }
    }
}

/// `n` little-endian 32-bit words from `pos` on.
pub open spec fn u32s_at(b: Seq<u8>, pos: int, n: nat) -> Seq<u32> {
    Seq::new(n, |k: int| le_u32(b, pos + 4 * k) as u32)
}

/// `n` little-endian 16-bit words from `pos` on.
pub open spec fn u16s_at(b: Seq<u8>, pos: int, n: nat) -> Seq<u16> {
    Seq::new(n, |k: int| le_u16(b, pos + 2 * k) as u16)
}

/// `n` defects of eight bytes each from `pos` on: column, row, type and a
/// reserved word.
pub open spec fn defects_at(b: Seq<u8>, pos: int, n: nat) -> Seq<Defect> {
    Seq::new(
        n,
        |k: int|
            Defect {
                col: le_u16(b, pos + 8 * k) as usize,
                row: le_u16(b, pos + 8 * k + 2) as usize,
                typ: le_u16(b, pos + 8 * k + 4) as u16,
                reserved: le_u16(b, pos + 8 * k + 6) as u16,
            },
    )
}

pub open spec fn is_flat_tag(tag: u32) -> bool {
    tag == 0x401 || tag == 0x410 || tag == 0x416 || tag == 0x40b
}

/// The number of samples of a flat field whose entry is `len` bytes long:
/// one per `step` bytes after the eight header words, the last one partial.
pub open spec fn flat_count(len: int, step: int) -> nat {
    if len > 8 {
        ((len - 8 + step - 1) / step) as nat
    } else {
        0
    }
}

/// The calibration data `cal` after the entry with tag `tag`, length `len`
/// and data at `offset + toff` is read.
#[verifier::opaque]
pub open spec fn apply_entry(b: Seq<u8>, offset: int, tag: u32, len: u32, toff: u32, cal: CalibrationView) -> Result<
    CalibrationView,
    CalibrationError,
> {
    let d = offset + toff;
    if tag == 0x400 {
        if len % 4 != 0 {
            Err(CalibrationError::Malformed(tag))
        } else if d + 2 * len > b.len() {
            Err(CalibrationError::Truncated)
        } else {
            Ok(CalibrationView { defects: Some(defects_at(b, d, (len / 4) as nat)), ..cal })
        }
    } else if is_flat_tag(tag) {
        let step: int = if tag == 0x401 { 4 } else { 2 };
        let n = flat_count(len as int, step);
        if d + 16 + n * step > b.len() {
            Err(CalibrationError::Truncated)
        } else {
            let data = if tag == 0x401 {
                FlatDataView::Floats(u32s_at(b, d + 16, n))
            } else {
                FlatDataView::Fixed(u16s_at(b, d + 16, n))
            };
            Ok(
                CalibrationView {
                    flats: cal.flats.push(FlatFieldView { typ: tag, head: u16s_at(b, d, 8), data }),
                    ..cal
                },
            )
        }
    } else if tag == 0x419 {
        if len < 32 {
            Err(CalibrationError::Malformed(tag))
        } else if d + 32 > b.len() {
            Err(CalibrationError::Truncated)
        } else {
            Ok(CalibrationView { poly_curve_half: Some(u32s_at(b, d, 8)), ..cal })
        }
    } else if tag == 0x41a {
        if len != 16 {
            Err(CalibrationError::Malformed(tag))
        } else if d + 16 > b.len() {
            Err(CalibrationError::Truncated)
        } else {
            Ok(CalibrationView { poly_curve_full: Some(u32s_at(b, d, 4)), ..cal })
        }
    } else if tag == 0x41f {
        if len != 260 {
            Err(CalibrationError::Malformed(tag))
        } else if d + 256 > b.len() {
            Err(CalibrationError::Truncated)
        } else {
            Ok(
                CalibrationView {
                    quadrant_linearization: Some(u32s_at(b, d, 64).map_values(|x: u32| x as u16)),
                    ..cal
                },
            )
        }
    } else if tag == 0x41e {
        if d + 76 > b.len() {
            Err(CalibrationError::Truncated)
        } else {
            Ok(CalibrationView { quadrant_multipliers: Some(u32s_at(b, d, 19)), ..cal })
        }
    } else if tag == 0x431 {
        if d + 140 > b.len() {
            Err(CalibrationError::Truncated)
        } else {
            Ok(
                CalibrationView {
                    quadrant_combined: Some(
                        (
                            u32s_at(b, d, 7).map_values(|x: u32| x as usize),
                            u32s_at(b, d + 28, 28).map_values(|x: u32| x as usize),
                        ),
                    ),
                    ..cal
                },
            )
        }
    } else {
        Ok(cal)
    }
}

pub open spec fn empty_calibration() -> CalibrationView {
    CalibrationView {
        poly_curve_half: None,
        poly_curve_full: None,
        quadrant_linearization: None,
        quadrant_multipliers: None,
        quadrant_combined: None,
        defects: None,
        flats: Seq::empty(),
    }
}

/// The calibration data after the first `i` entries of the table at `t0`,
/// each 12 bytes: tag, length and data offset.
pub open spec fn calibration_from(b: Seq<u8>, offset: int, t0: int, i: nat) -> Result<CalibrationView, CalibrationError>
    decreases i,
{
    if i == 0 {
        Ok(empty_calibration())
    } else {
        match calibration_from(b, offset, t0, (i - 1) as nat) {
            Err(e) => Err(e),
            Ok(cal) => {
                let p = t0 + 12 * (i - 1);
                if p + 12 > b.len() {
                    Err(CalibrationError::Truncated)
                } else {
                    apply_entry(b, offset, le_u32(b, p) as u32, le_u32(b, p + 4) as u32, le_u32(b, p + 8) as u32, cal)
                }
            },
        }
    }
}

/// The calibration block at `offset`: the word at `offset + 8` locates the
/// entry count, which the entries follow after four more bytes.
pub open spec fn spec_sensor_calibration(b: Seq<u8>, offset: int) -> Result<CalibrationView, CalibrationError> {
    if offset + 12 > b.len() {
        Err(CalibrationError::Truncated)
    } else {
        let pos = offset + le_u32(b, offset + 8);
        if pos + 4 > b.len() {
            Err(CalibrationError::Truncated)
        } else {
            calibration_from(b, offset, pos + 8, le_u32(b, pos) as nat)
        }
    }
}


fn read_u32s(buf: &[u8], pos: usize, n: usize) -> (r: Vec<u32>)
    requires
        pos + 4 * n <= buf@.len(),
    ensures
        r@ == u32s_at(buf@, pos as int, n as nat),
{
    let mut v: Vec<u32> = Vec::new();
    let bl = buf.len();
    for k in 0..n
        invariant
            pos + 4 * n <= buf@.len(),
            bl == buf@.len(),
            v@ =~= u32s_at(buf@, pos as int, k as nat),
    {
        v.push(LEu32(buf, pos + 4 * k));
        proof {
            assert(v@ =~= u32s_at(buf@, pos as int, (k + 1) as nat));
        }
    }
    v
}

fn read_u16s(buf: &[u8], pos: usize, n: usize) -> (r: Vec<u16>)
    requires
        pos + 2 * n <= buf@.len(),
    ensures
        r@ == u16s_at(buf@, pos as int, n as nat),
{
    let mut v: Vec<u16> = Vec::new();
    let bl = buf.len();
    for k in 0..n
        invariant
            pos + 2 * n <= buf@.len(),
            bl == buf@.len(),
            v@ =~= u16s_at(buf@, pos as int, k as nat),
    {
        v.push(LEu16(buf, pos + 2 * k));
        proof {
            assert(v@ =~= u16s_at(buf@, pos as int, (k + 1) as nat));
        }
    }
    v
}

fn read_defects(buf: &[u8], pos: usize, n: usize) -> (r: Vec<Defect>)
    requires
        pos + 8 * n <= buf@.len(),
    ensures
        r@ == defects_at(buf@, pos as int, n as nat),
{
    let mut v: Vec<Defect> = Vec::new();
    let bl = buf.len();
    for k in 0..n
        invariant
            pos + 8 * n <= buf@.len(),
            bl == buf@.len(),
            v@ =~= defects_at(buf@, pos as int, k as nat),
    {
        let at = pos + 8 * k;
        let col = LEu16(buf, at) as usize;
        let row = LEu16(buf, at + 2) as usize;
        let typ = LEu16(buf, at + 4);
        let reserved = LEu16(buf, at + 6);
        v.push(Defect { col, row, typ, reserved });
        proof {
            assert(v@ =~= defects_at(buf@, pos as int, (k + 1) as nat));
        }
    }
    v
}

fn to_u16s(v: &Vec<u32>) -> (r: Vec<u16>)
    ensures
        r@ == v@.map_values(|x: u32| x as u16),
{
    let mut out: Vec<u16> = Vec::new();
    for k in 0..v.len()
        invariant
            out@ =~= v@.subrange(0, k as int).map_values(|x: u32| x as u16),
    {
        out.push(v[k] as u16);
        proof {
            assert(v@.subrange(0, k + 1) =~= v@.subrange(0, k as int).push(v@[k as int]));
            assert(out@ =~= v@.subrange(0, k + 1).map_values(|x: u32| x as u16));
        }
    }
    proof {
        assert(v@.subrange(0, v@.len() as int) =~= v@);
    }
    out
}

fn to_usizes(v: &Vec<u32>) -> (r: Vec<usize>)
    ensures
        r@ == v@.map_values(|x: u32| x as usize),
{
    let mut out: Vec<usize> = Vec::new();
    for k in 0..v.len()
        invariant
            out@ =~= v@.subrange(0, k as int).map_values(|x: u32| x as usize),
    {
        out.push(v[k] as usize);
        proof {
            assert(v@.subrange(0, k + 1) =~= v@.subrange(0, k as int).push(v@[k as int]));
            assert(out@ =~= v@.subrange(0, k + 1).map_values(|x: u32| x as usize));
        }
    }
    proof {
        assert(v@.subrange(0, v@.len() as int) =~= v@);
    }
    out
}

/// `calibration_result` by value.
pub open spec fn calibration_result(r: Result<SensorCalibration, CalibrationError>) -> Result<CalibrationView, CalibrationError> {
    match r {
        Ok(c) => Ok(c.view()),
        Err(e) => Err(e),
    }
}

pub open spec fn unit_result(r: Result<(), CalibrationError>, cal: SensorCalibration) -> Result<CalibrationView, CalibrationError> {
    match r {
        Ok(_) => Ok(cal.view()),
        Err(e) => Err(e),
    }
}

/// Read the entry with tag `tag`, length `len` and data at `offset + toff`
/// into `cal`.
fn read_entry(buf: &[u8], offset: usize, tag: u32, len: u32, toff: u32, cal: &mut SensorCalibration) -> (r: Result<(), CalibrationError>)
    ensures
        unit_result(r, *final(cal)) == apply_entry(buf@, offset as int, tag, len, toff, old(cal).view()),
{
    reveal(apply_entry);
    let blen = buf.len() as u128;
    let d: u128 = offset as u128 + toff as u128;
    let ghost old_view = cal.view();
    if tag == 0x400 {
        if len % 4 != 0 {
            return Err(CalibrationError::Malformed(tag));
        }
        if d + 2 * (len as u128) > blen {
            return Err(CalibrationError::Truncated);
        }
        let defects = read_defects(buf, d as usize, (len / 4) as usize);
        cal.defects = Some(defects);
        proof {
            assert(cal.view().flats =~= old_view.flats);
        }
        Ok(())
    } else if tag == 0x401 || tag == 0x410 || tag == 0x416 || tag == 0x40b {
        let step: u32 = if tag == 0x401 { 4 } else { 2 };
        let n: u32 = if len > 8 { (len - 8 + step - 1) / step } else { 0 };
        assert(n == flat_count(len as int, step as int));
        if d + 16 + (n as u128) * (step as u128) > blen {
            return Err(CalibrationError::Truncated);
        }
        let head = read_u16s(buf, d as usize, 8);
        let data = if tag == 0x401 {
            FlatFieldData::Floats(read_u32s(buf, (d + 16) as usize, n as usize))
        } else {
            FlatFieldData::Fixed(read_u16s(buf, (d + 16) as usize, n as usize))
        };
        let ghost old_flats = cal.flats@;
        cal.flats.push(FlatField { typ: tag, head, data });
        proof {
            assert(cal.view().flats =~= old_view.flats.push(cal.flats@[old_flats.len() as int].view()));
        }
        Ok(())
    } else if tag == 0x419 {
        if len < 32 {
            return Err(CalibrationError::Malformed(tag));
        }
        if d + 32 > blen {
            return Err(CalibrationError::Truncated);
        }
        cal.poly_curve_half = Some(read_u32s(buf, d as usize, 8));
        proof {
            assert(cal.view().flats =~= old_view.flats);
        }
        Ok(())
    } else if tag == 0x41a {
        if len != 16 {
            return Err(CalibrationError::Malformed(tag));
        }
        if d + 16 > blen {
            return Err(CalibrationError::Truncated);
        }
        cal.poly_curve_full = Some(read_u32s(buf, d as usize, 4));
        proof {
            assert(cal.view().flats =~= old_view.flats);
        }
        Ok(())
    } else if tag == 0x41f {
        if len != 260 {
            return Err(CalibrationError::Malformed(tag));
        }
        if d + 256 > blen {
            return Err(CalibrationError::Truncated);
        }
        let words = read_u32s(buf, d as usize, 64);
        cal.quadrant_linearization = Some(to_u16s(&words));
        proof {
            assert(cal.view().flats =~= old_view.flats);
        }
        Ok(())
    } else if tag == 0x41e {
        if d + 76 > blen {
            return Err(CalibrationError::Truncated);
        }
        cal.quadrant_multipliers = Some(read_u32s(buf, d as usize, 19));
        proof {
            assert(cal.view().flats =~= old_view.flats);
        }
        Ok(())
    } else if tag == 0x431 {
        if d + 140 > blen {
            return Err(CalibrationError::Truncated);
        }
        let xs = read_u32s(buf, d as usize, 7);
        let ys = read_u32s(buf, (d + 28) as usize, 28);
        cal.quadrant_combined = Some((to_usizes(&xs), to_usizes(&ys)));
        proof {
            assert(cal.view().flats =~= old_view.flats);
        }
        Ok(())
    } else {
        Ok(())
    }
}

/// Once an entry fails, the whole table does.
proof fn lemma_error_sticks(b: Seq<u8>, offset: int, t0: int, i: nat, j: nat)
    requires
        i <= j,
        calibration_from(b, offset, t0, i) is Err,
    ensures
        calibration_from(b, offset, t0, j) == calibration_from(b, offset, t0, i),
    decreases j - i,
{
    if i < j {
        lemma_error_sticks(b, offset, t0, i, (j - 1) as nat);
    }
}

/// Read the sensor calibration block at `offset` of `buf` (see
/// `spec_sensor_calibration`).
pub fn parse_sensor_calibration(buf: &[u8], offset: usize) -> (r: Result<SensorCalibration, CalibrationError>)
    ensures
        calibration_result(r) == spec_sensor_calibration(buf@, offset as int),
{
    let blen = buf.len() as u128;
    if offset as u128 + 12 > blen {
        return Err(CalibrationError::Truncated);
    }
    let pos: u128 = offset as u128 + LEu32(buf, offset + 8) as u128;
    if pos + 4 > blen {
        return Err(CalibrationError::Truncated);
    }
    let count = LEu32(buf, pos as usize);
    let t0: u128 = pos + 8;
    let mut cal = SensorCalibration {
        poly_curve_half: None,
        poly_curve_full: None,
        quadrant_linearization: None,
        quadrant_multipliers: None,
        quadrant_combined: None,
        defects: None,
        flats: Vec::new(),
    };
    proof {
        assert(cal.view().flats =~= Seq::<FlatFieldView>::empty());
    }
    for i in 0..count
        invariant
            blen == buf@.len(),
            blen <= usize::MAX,
            t0 == offset + le_u32(buf@, offset + 8) + 8,
            t0 <= blen + 8,
            spec_sensor_calibration(buf@, offset as int) == calibration_from(buf@, offset as int, t0 as int, count as nat),
            calibration_from(buf@, offset as int, t0 as int, i as nat) == Ok::<CalibrationView, CalibrationError>(
                cal.view(),
            ),
    {
        let p: u128 = t0 + 12 * (i as u128);
        if p + 12 > blen {
            proof {
                lemma_error_sticks(buf@, offset as int, t0 as int, (i + 1) as nat, count as nat);
            }
            return Err(CalibrationError::Truncated);
        }
        let tag = LEu32(buf, p as usize);
        let len = LEu32(buf, (p + 4) as usize);
        let toff = LEu32(buf, (p + 8) as usize);
        let ghost before = cal.view();
        proof {
            assert(calibration_from(buf@, offset as int, t0 as int, (i + 1) as nat) == apply_entry(
                buf@,
                offset as int,
                tag,
                len,
                toff,
                before,
            ));
        }
        let res = read_entry(buf, offset, tag, len, toff, &mut cal);
        match res {
            Err(e) => {
                proof {
                    lemma_error_sticks(buf@, offset as int, t0 as int, (i + 1) as nat, count as nat);
                }
                return Err(e);
            },
            Ok(_) => {},
        }
    }
    Ok(cal)
}

} // verus!
