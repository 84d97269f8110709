//! The makernote of an IIQ file: a table of 16-byte entries (tag, type,
//! byte count, data) whose values are numbers or, for type 1, text stored
//! elsewhere in the file.

use vstd::prelude::*;
use std::collections::HashMap;
use crate::bits::{as_signed16, le_u16, le_u32, Endian, LEu32};
use super::{spec_iiq_compression, IiqCompression};
use super::calibration::{
    calibration_result, parse_sensor_calibration, spec_sensor_calibration, CalibrationError, CalibrationView,
    SensorCalibration,
};

verus! {

broadcast use vstd::std_specs::hash::group_hash_axioms;

/// Tags of the IIQ makernote.
pub const IIQ_WHITE_BALANCE: u32 = 0x107;
pub const IIQ_WIDTH: u32 = 0x108;
pub const IIQ_HEIGHT: u32 = 0x109;
pub const IIQ_MARGIN_LEFT: u32 = 0x10a;
pub const IIQ_MARGIN_TOP: u32 = 0x10b;
pub const IIQ_FORMAT: u32 = 0x10e;
pub const IIQ_DATA_OFFSET: u32 = 0x10f;
pub const IIQ_SENSOR_CORRECTION: u32 = 0x110;
pub const IIQ_SENSOR_TEMPERATURE1: u32 = 0x210;
pub const IIQ_STRIP_OFFSET: u32 = 0x21c;
pub const IIQ_BLACK_LEVEL: u32 = 0x21d;
pub const IIQ_SPLIT_COL: u32 = 0x222;
pub const IIQ_BLACK_COL: u32 = 0x223;
pub const IIQ_SPLIT_ROW: u32 = 0x224;
pub const IIQ_BLACK_ROW: u32 = 0x225;
pub const IIQ_CAMERA_MODEL: u32 = 0x410;
pub const IIQ_LENS_MODEL: u32 = 0x412;

/// The value of a makernote entry.
#[derive(Debug, Clone, PartialEq, Eq)]
pub enum IiqValue {
    Long(u32),
    /// The bytes of a text.
    Ascii(Vec<u8>),
}

/// The value of an entry by value.
pub enum IiqValueView {
    Long(u32),
    Ascii(Seq<u8>),
}

impl IiqValue {
    pub open spec fn view(&self) -> IiqValueView {
        match self {
            IiqValue::Long(x) => IiqValueView::Long(*x),
            IiqValue::Ascii(v) => IiqValueView::Ascii(v@),
        }
    }
}

/// Why a makernote cannot be read or lacks what is asked of it.
#[derive(Debug, Copy, Clone, PartialEq, Eq, Structural)]
pub enum IiqError {
    /// The data ends before a value that is read.
    Truncated,
    /// The sensor correction offset does not fit in 32 bits.
    OffsetOverflow,
    /// The makernote has no numeric entry with this tag.
    Missing(u32),
    /// The format code names no known compression.
    UnsupportedFormat(u32),
    /// The sensor calibration block cannot be read.
    Calibration(CalibrationError),
}

/// The makernote entries by tag: the byte count and the value.
pub struct IiqMakernotes {
    pub entries: HashMap<u32, (usize, IiqValue)>,
}

pub open spec fn entries_view(m: Map<u32, (usize, IiqValue)>) -> Map<u32, (usize, IiqValueView)> {
    Map::new(|k: u32| m.contains_key(k), |k: u32| (m[k].0, m[k].1.view()))
}

impl IiqMakernotes {
    pub open spec fn view(&self) -> Map<u32, (usize, IiqValueView)> {
        entries_view(self.entries@)
    }
}

/// The map after entry `i` of the table at `t0` (16 bytes each) is read:
/// text for type 1 (but the sensor correction, whose offset is made
/// absolute by `moffset`), numbers for types 2 and 4, nothing for others.
pub open spec fn apply_makernote_entry(b: Seq<u8>, moffset: int, t0: int, i: int, m: Map<u32, (usize, IiqValueView)>) -> Result<
    Map<u32, (usize, IiqValueView)>,
    IiqError,
> {
    let p = t0 + 16 * i;
    let tag = le_u32(b, p) as u32;
    let typ = le_u32(b, p + 4);
    let count = le_u32(b, p + 8);
    let data = le_u32(b, p + 12);
    if typ == 1 && tag == IIQ_SENSOR_CORRECTION {
        if data + moffset > u32::MAX {
            Err(IiqError::OffsetOverflow)
        } else {
            Ok(m.insert(tag, (count as usize, IiqValueView::Long((data + moffset) as u32))))
        }
    } else if typ == 1 {
        if moffset + data + count > b.len() {
            Err(IiqError::Truncated)
        } else {
            Ok(m.insert(tag, (count as usize, IiqValueView::Ascii(b.subrange(moffset + data, moffset + data + count)))))
        }
    } else if typ == 2 || typ == 4 {
        Ok(m.insert(tag, (count as usize, IiqValueView::Long(data as u32))))
    } else {
        Ok(m)
    }
}

/// The map after the first `i` entries.
pub open spec fn makernote_from(b: Seq<u8>, moffset: int, t0: int, i: nat) -> Result<Map<u32, (usize, IiqValueView)>, IiqError>
    decreases i,
{
    if i == 0 {
        Ok(Map::empty())
    } else {
        match makernote_from(b, moffset, t0, (i - 1) as nat) {
            Ok(m) => apply_makernote_entry(b, moffset, t0, i - 1, m),
            Err(e) => Err(e),
        }
    }
}

/// The makernote at `moffset`: the word at `moffset + 8` locates the entry
/// count (relative to `moffset`); the entries follow after four more bytes,
/// all of them read at once.
pub open spec fn spec_iiq_makernote(b: Seq<u8>, moffset: int) -> Result<Map<u32, (usize, IiqValueView)>, IiqError> {
    if moffset + 12 > b.len() {
        Err(IiqError::Truncated)
    } else {
        let pos = moffset + le_u32(b, moffset + 8);
        if pos + 8 > b.len() {
            Err(IiqError::Truncated)
        } else {
            let count = le_u32(b, pos);
            if pos + 8 + 16 * count > b.len() {
                Err(IiqError::Truncated)
            } else {
                makernote_from(b, moffset, pos + 8, count as nat)
            }
        }
    }
}

pub open spec fn makernote_result(r: Result<IiqMakernotes, IiqError>) -> Result<Map<u32, (usize, IiqValueView)>, IiqError> {
    match r {
        Ok(m) => Ok(m.view()),
        Err(e) => Err(e),
    }
}

proof fn lemma_makernote_error_sticks(b: Seq<u8>, moffset: int, t0: int, i: nat, j: nat)
    requires
        i <= j,
        makernote_from(b, moffset, t0, i) is Err,
    ensures
        makernote_from(b, moffset, t0, j) == makernote_from(b, moffset, t0, i),
    decreases j - i,
{
    if i < j {
        lemma_makernote_error_sticks(b, moffset, t0, i, (j - 1) as nat);
    }
}

fn copy_bytes(b: &[u8], start: usize, end: usize) -> (r: Vec<u8>)
    requires
        start <= end <= b@.len(),
    ensures
        r@ == b@.subrange(start as int, end as int),
{
    let mut v: Vec<u8> = Vec::new();
    for i in start..end
        invariant
            start <= end <= b@.len(),
            v@ == b@.subrange(start as int, i as int),
    {
        v.push(b[i]);
        proof {
            assert(v@ =~= b@.subrange(start as int, i + 1));
        }
    }
    v
}

/// Read the makernote at `moffset` of the file `b` (see
/// `spec_iiq_makernote`).
pub fn new_makernote(b: &[u8], moffset: usize) -> (r: Result<IiqMakernotes, IiqError>)
    ensures
        makernote_result(r) == spec_iiq_makernote(b@, moffset as int),
{
    let blen = b.len() as u128;
    if moffset as u128 + 12 > blen {
        return Err(IiqError::Truncated);
    }
    let pos: u128 = moffset as u128 + LEu32(b, moffset + 8) as u128;
    if pos + 8 > blen {
        return Err(IiqError::Truncated);
    }
    let count = LEu32(b, pos as usize);
    let t0 = pos + 8;
    if t0 + 16 * (count as u128) > blen {
        return Err(IiqError::Truncated);
    }
    let mut entries: HashMap<u32, (usize, IiqValue)> = HashMap::new();
    proof {
        assert(entries_view(entries@) =~= Map::<u32, (usize, IiqValueView)>::empty());
    }
    for i in 0..count
        invariant
            blen == b@.len(),
            blen <= usize::MAX,
            t0 + 16 * count <= blen,
            t0 == moffset + le_u32(b@, moffset + 8) + 8,
            spec_iiq_makernote(b@, moffset as int) == makernote_from(b@, moffset as int, t0 as int, count as nat),
            makernote_from(b@, moffset as int, t0 as int, i as nat) == Ok::<Map<u32, (usize, IiqValueView)>, IiqError>(
                entries_view(entries@),
            ),
    {
        let p = (t0 + 16 * (i as u128)) as usize;
        let tag = LEu32(b, p);
        let typ = LEu32(b, p + 4);
        let byte_count = LEu32(b, p + 8);
        let data = LEu32(b, p + 12);
        let ghost before = entries@;
        if typ == 1 && tag == IIQ_SENSOR_CORRECTION {
            if data as u128 + moffset as u128 > u32::MAX as u128 {
                proof {
                    lemma_makernote_error_sticks(b@, moffset as int, t0 as int, (i + 1) as nat, count as nat);
                }
                return Err(IiqError::OffsetOverflow);
            }
            entries.insert(tag, (byte_count as usize, IiqValue::Long(data + moffset as u32)));
        } else if typ == 1 {
            if moffset as u128 + data as u128 + byte_count as u128 > blen {
                proof {
                    lemma_makernote_error_sticks(b@, moffset as int, t0 as int, (i + 1) as nat, count as nat);
                }
                return Err(IiqError::Truncated);
            }
            let start = moffset + data as usize;
            let text = copy_bytes(b, start, start + byte_count as usize);
            entries.insert(tag, (byte_count as usize, IiqValue::Ascii(text)));
        } else if typ == 2 || typ == 4 {
            entries.insert(tag, (byte_count as usize, IiqValue::Long(data)));
        }
        proof {
            assert(entries_view(entries@) =~= match apply_makernote_entry(
                b@,
                moffset as int,
                t0 as int,
                i as int,
                entries_view(before),
            ) {
                Ok(m) => m,
                Err(_) => entries_view(entries@),
            });
        }
    }
    Ok(IiqMakernotes { entries })
}


/// The byte count and number of the entry `tag`, where it holds a number.
pub open spec fn long_of(m: Map<u32, (usize, IiqValueView)>, tag: u32) -> Option<(usize, u32)> {
    if m.contains_key(tag) {
        match m[tag].1 {
            IiqValueView::Long(x) => Some((m[tag].0, x)),
            IiqValueView::Ascii(_) => None,
        }
    } else {
        None
    }
}

/// The text of the entry `tag`, where it holds one.
pub open spec fn text_of(m: Map<u32, (usize, IiqValueView)>, tag: u32) -> Option<Seq<u8>> {
    if m.contains_key(tag) {
        match m[tag].1 {
            IiqValueView::Ascii(t) => Some(t),
            IiqValueView::Long(_) => None,
        }
    } else {
        None
    }
}

pub open spec fn bytes_view(o: Option<Vec<u8>>) -> Option<Seq<u8>> {
    match o {
        Some(v) => Some(v@),
        None => None,
    }
}

impl IiqMakernotes {
    /// The byte count and number of the entry `tag` (see `long_of`).
    pub fn long(&self, tag: u32) -> (r: Option<(usize, u32)>)
        ensures
            r == long_of(self.view(), tag),
    {
        match self.entries.get(&tag) {
            Some(e) => match &e.1 {
                IiqValue::Long(x) => Some((e.0, *x)),
                IiqValue::Ascii(_) => None,
            },
            None => None,
        }
    }

    /// The text of the entry `tag` (see `text_of`).
    pub fn text(&self, tag: u32) -> (r: Option<Vec<u8>>)
        ensures
            bytes_view(r) == text_of(self.view(), tag),
    {
        match self.entries.get(&tag) {
            Some(e) => match &e.1 {
                IiqValue::Ascii(t) => Some(t.clone()),
                IiqValue::Long(_) => None,
            },
            None => None,
        }
    }

    /// The width and height of the raw image.
    pub fn dimension(&self) -> (r: Result<(usize, usize), IiqError>)
        ensures
            match (long_of(self.view(), IIQ_WIDTH), long_of(self.view(), IIQ_HEIGHT)) {
                (Some((_, w)), Some((_, h))) => r == Ok::<(usize, usize), IiqError>((w as usize, h as usize)),
                (None, _) => r == Err::<(usize, usize), IiqError>(IiqError::Missing(IIQ_WIDTH)),
                (_, None) => r == Err::<(usize, usize), IiqError>(IiqError::Missing(IIQ_HEIGHT)),
            },
    {
        match (self.long(IIQ_WIDTH), self.long(IIQ_HEIGHT)) {
            (Some((_, w)), Some((_, h))) => Ok((w as usize, h as usize)),
            (None, _) => Err(IiqError::Missing(IIQ_WIDTH)),
            (_, None) => Err(IiqError::Missing(IIQ_HEIGHT)),
        }
    }

    /// The left and top margins of the sensor.
    pub fn sensor_margins(&self) -> (r: Option<(usize, usize)>)
        ensures
            r == match (long_of(self.view(), IIQ_MARGIN_LEFT), long_of(self.view(), IIQ_MARGIN_TOP)) {
                (Some((_, l)), Some((_, t))) => Some((l as usize, t as usize)),
                _ => None::<(usize, usize)>,
            },
    {
        match (self.long(IIQ_MARGIN_LEFT), self.long(IIQ_MARGIN_TOP)) {
            (Some((_, l)), Some((_, t))) => Some((l as usize, t as usize)),
            _ => None,
        }
    }

    /// The sensor temperature, as the bits of an `f32`.
    pub fn sensor_temp(&self) -> (r: Option<u32>)
        ensures
            r == match long_of(self.view(), IIQ_SENSOR_TEMPERATURE1) {
                Some((_, x)) => Some(x),
                None => None::<u32>,
            },
    {
        match self.long(IIQ_SENSOR_TEMPERATURE1) {
            Some((_, x)) => Some(x),
            None => None,
        }
    }

    /// The column where the two halves of the sensor meet.
    pub fn split_column(&self) -> (r: Option<usize>)
        ensures
            r == match long_of(self.view(), IIQ_SPLIT_COL) {
                Some((_, x)) => Some(x as usize),
                None => None::<usize>,
            },
    {
        match self.long(IIQ_SPLIT_COL) {
            Some((_, x)) => Some(x as usize),
            None => None,
        }
    }

    /// The column and row where the quadrants of the sensor meet.
    pub fn split_offsets(&self) -> (r: Option<(usize, usize)>)
        ensures
            r == match (long_of(self.view(), IIQ_SPLIT_COL), long_of(self.view(), IIQ_SPLIT_ROW)) {
                (Some((_, c)), Some((_, w))) => Some((c as usize, w as usize)),
                _ => None::<(usize, usize)>,
            },
    {
        match (self.long(IIQ_SPLIT_COL), self.long(IIQ_SPLIT_ROW)) {
            (Some((_, c)), Some((_, w))) => Some((c as usize, w as usize)),
            _ => None,
        }
    }

    /// The compression of the raw data.
    pub fn compression_mode(&self) -> (r: Result<IiqCompression, IiqError>)
        ensures
            r == match long_of(self.view(), IIQ_FORMAT) {
                Some((_, code)) => match spec_iiq_compression(code as usize) {
                    Some(c) => Ok(c),
                    None => Err(IiqError::UnsupportedFormat(code)),
                },
                None => Err(IiqError::Missing(IIQ_FORMAT)),
            },
    {
        match self.long(IIQ_FORMAT) {
            Some((_, code)) => match IiqCompression::from_code(code as usize) {
                Some(c) => Ok(c),
                None => Err(IiqError::UnsupportedFormat(code)),
            },
            None => Err(IiqError::Missing(IIQ_FORMAT)),
        }
    }

    /// Where an entry's data starts (8 bytes past its stated offset) and how
    /// long it is.
    fn located(&self, tag: u32) -> (r: Result<(u64, usize), IiqError>)
        ensures
            r == match long_of(self.view(), tag) {
                Some((len, x)) => Ok(((x as u64 + 8) as u64, len)),
                None => Err(IiqError::Missing(tag)),
            },
    {
        match self.long(tag) {
            Some((len, x)) => Ok((x as u64 + 8, len)),
            None => Err(IiqError::Missing(tag)),
        }
    }

    /// Where the raw data starts, and its length.
    pub fn data_offset(&self) -> (r: Result<(u64, usize), IiqError>)
        ensures
            r == match long_of(self.view(), IIQ_DATA_OFFSET) {
                Some((len, x)) => Ok(((x as u64 + 8) as u64, len)),
                None => Err(IiqError::Missing(IIQ_DATA_OFFSET)),
            },
    {
        self.located(IIQ_DATA_OFFSET)
    }

    /// Where the strip offsets start, and their length.
    pub fn strip_offset(&self) -> (r: Result<(u64, usize), IiqError>)
        ensures
            r == match long_of(self.view(), IIQ_STRIP_OFFSET) {
                Some((len, x)) => Ok(((x as u64 + 8) as u64, len)),
                None => Err(IiqError::Missing(IIQ_STRIP_OFFSET)),
            },
    {
        self.located(IIQ_STRIP_OFFSET)
    }

    /// Where the white balance starts.
    pub fn wb_offset(&self) -> (r: Result<u64, IiqError>)
        ensures
            r == match long_of(self.view(), IIQ_WHITE_BALANCE) {
                Some((_, x)) => Ok((x as u64 + 8) as u64),
                None => Err(IiqError::Missing(IIQ_WHITE_BALANCE)),
            },
    {
        match self.located(IIQ_WHITE_BALANCE) {
            Ok((o, _)) => Ok(o),
            Err(e) => Err(e),
        }
    }

    /// The black level (the low 16 bits of the entry).
    pub fn blacklevel(&self) -> (r: Result<u16, IiqError>)
        ensures
            r == match long_of(self.view(), IIQ_BLACK_LEVEL) {
                Some((_, x)) => Ok(x as u16),
                None => Err(IiqError::Missing(IIQ_BLACK_LEVEL)),
            },
    {
        match self.long(IIQ_BLACK_LEVEL) {
            Some((_, x)) => Ok(x as u16),
            None => Err(IiqError::Missing(IIQ_BLACK_LEVEL)),
        }
    }

    /// The camera model, as text.
    pub fn camera_model(&self) -> (r: Option<Vec<u8>>)
        ensures
            bytes_view(r) == text_of(self.view(), IIQ_CAMERA_MODEL),
    {
        self.text(IIQ_CAMERA_MODEL)
    }

    /// The lens model, as text.
    pub fn lens_model(&self) -> (r: Option<Vec<u8>>)
        ensures
            bytes_view(r) == text_of(self.view(), IIQ_LENS_MODEL),
    {
        self.text(IIQ_LENS_MODEL)
    }
}

/// `n` little-endian 16-bit two's complement words from `pos` on.
pub open spec fn i16s_at(b: Seq<u8>, pos: int, n: nat) -> Seq<i16> {
    Seq::new(n, |k: int| as_signed16(le_u16(b, pos + 2 * k)) as i16)
}

/// The per-column and per-row black levels of the sensor halves: where the
/// makernote has both entries, the `count / 2` words of each, stored 8
/// bytes past its offset in the file `b`.
pub open spec fn spec_split_blacks(m: Map<u32, (usize, IiqValueView)>, b: Seq<u8>) -> Result<
    Option<(Seq<i16>, Seq<i16>)>,
    IiqError,
> {
    match (long_of(m, IIQ_BLACK_COL), long_of(m, IIQ_BLACK_ROW)) {
        (Some((lc, oc)), Some((lr, or))) => {
            if oc + 8 + 2 * (lc / 2) > b.len() || or + 8 + 2 * (lr / 2) > b.len() {
                Err(IiqError::Truncated)
            } else {
                Ok(Some((i16s_at(b, oc + 8, (lc / 2) as nat), i16s_at(b, or + 8, (lr / 2) as nat))))
            }
        },
        _ => Ok(None),
    }
}

pub open spec fn blacks_view(r: Result<Option<(Vec<i16>, Vec<i16>)>, IiqError>) -> Result<
    Option<(Seq<i16>, Seq<i16>)>,
    IiqError,
> {
    match r {
        Ok(Some((c, w))) => Ok(Some((c@, w@))),
        Ok(None) => Ok(None),
        Err(e) => Err(e),
    }
}

fn read_i16s(b: &[u8], pos: usize, n: usize) -> (r: Vec<i16>)
    requires
        pos + 2 * n <= b@.len(),
    ensures
        r@ == i16s_at(b@, pos as int, n as nat),
{
    let mut v: Vec<i16> = Vec::new();
    let bl = b.len();
    let le = Endian::Little;
    for k in 0..n
        invariant
            pos + 2 * n <= b@.len(),
            bl == b@.len(),
            le == Endian::Little,
            v@ =~= i16s_at(b@, pos as int, k as nat),
    {
        v.push(le.read_i16(b, pos + 2 * k));
        proof {
            assert(v@ =~= i16s_at(b@, pos as int, (k + 1) as nat));
        }
    }
    v
}

impl IiqMakernotes {
    /// The black levels of the sensor halves (see `spec_split_blacks`).
    pub fn split_blacks(&self, file: &[u8]) -> (r: Result<Option<(Vec<i16>, Vec<i16>)>, IiqError>)
        ensures
            blacks_view(r) == spec_split_blacks(self.view(), file@),
    {
        match (self.long(IIQ_BLACK_COL), self.long(IIQ_BLACK_ROW)) {
            (Some((lc, oc)), Some((lr, or))) => {
                let n = file.len() as u128;
                if oc as u128 + 8 + 2 * ((lc / 2) as u128) > n || or as u128 + 8 + 2 * ((lr / 2) as u128) > n {
                    return Err(IiqError::Truncated);
                }
                let cols = read_i16s(file, oc as usize + 8, lc / 2);
                let rows = read_i16s(file, or as usize + 8, lr / 2);
                Ok(Some((cols, rows)))
            },
            _ => Ok(None),
        }
    }
}

/// All that the sensor corrections of an IIQ file use: the calibration
/// block, the black level, the black levels of the sensor halves and the
/// sensor margins (left, top).
pub struct IiqSensorCorrection {
    pub calibration: SensorCalibration,
    pub blacklevel: u16,
    pub q_blacklevel: Option<(Vec<i16>, Vec<i16>)>,
    pub sensor_margins: (usize, usize),
}

/// `IiqSensorCorrection` by value.
pub struct IiqSensorCorrectionView {
    pub calibration: CalibrationView,
    pub blacklevel: u16,
    pub q_blacklevel: Option<(Seq<i16>, Seq<i16>)>,
    pub sensor_margins: (usize, usize),
}

pub open spec fn correction_result(r: Result<IiqSensorCorrection, IiqError>) -> Result<IiqSensorCorrectionView, IiqError> {
    match r {
        Ok(c) => Ok(
            IiqSensorCorrectionView {
                calibration: c.calibration.view(),
                blacklevel: c.blacklevel,
                q_blacklevel: match c.q_blacklevel {
                    Some((a, b)) => Some((a@, b@)),
                    None => None,
                },
                sensor_margins: c.sensor_margins,
            },
        ),
        Err(e) => Err(e),
    }
}

/// The sensor corrections of the file `b` with makernote `m`: the black
/// levels of the halves first, then the margins (none stated: 0), then the
/// calibration block at the sensor correction entry, which must be there.
pub open spec fn spec_sensor_correction(m: Map<u32, (usize, IiqValueView)>, b: Seq<u8>, blacklevel: u16) -> Result<
    IiqSensorCorrectionView,
    IiqError,
> {
    match spec_split_blacks(m, b) {
        Err(e) => Err(e),
        Ok(q) => {
            let margins = match (long_of(m, IIQ_MARGIN_LEFT), long_of(m, IIQ_MARGIN_TOP)) {
                (Some((_, l)), Some((_, t))) => (l as usize, t as usize),
                _ => (0usize, 0usize),
            };
            match long_of(m, IIQ_SENSOR_CORRECTION) {
                None => Err(IiqError::Missing(IIQ_SENSOR_CORRECTION)),
                Some((_, off)) => match spec_sensor_calibration(b, off as int) {
                    Err(e) => Err(IiqError::Calibration(e)),
                    Ok(c) => Ok(
                        IiqSensorCorrectionView { calibration: c, blacklevel, q_blacklevel: q, sensor_margins: margins },
                    ),
                },
            }
        },
    }
}

impl IiqMakernotes {
    /// Read the sensor corrections (see `spec_sensor_correction`).
    pub fn new_sensor_correction(&self, file: &[u8], blacklevel: u16) -> (r: Result<IiqSensorCorrection, IiqError>)
        ensures
            correction_result(r) == spec_sensor_correction(self.view(), file@, blacklevel),
    {
        let q = match self.split_blacks(file) {
            Err(e) => {
                return Err(e);
            },
            Ok(q) => q,
        };
        let sensor_margins = match self.sensor_margins() {
            Some(mg) => mg,
            None => (0, 0),
        };
        match self.long(IIQ_SENSOR_CORRECTION) {
            None => Err(IiqError::Missing(IIQ_SENSOR_CORRECTION)),
            Some((_, off)) => match parse_sensor_calibration(file, off as usize) {
                Err(e) => Err(IiqError::Calibration(e)),
                Ok(calibration) => Ok(IiqSensorCorrection { calibration, blacklevel, q_blacklevel: q, sensor_margins }),
            },
        }
    }
}

} // verus!
