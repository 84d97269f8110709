use crate::text::{hex_digit, push_hex_byte};
use vstd::prelude::*;

verus! {

/// Why the lens data could not be read.
#[derive(Debug, Clone, Copy, PartialEq, Eq, Structural)]
pub enum LensDataError {
    /// Lens composite buffer error: EOF
    Eof,
}

/// What the Nikon lens data record tells about the lens.
#[derive(Clone, Debug)]
pub struct NefLensData {
    pub version: u32,
    pub exit_pupil_position: u8,
    pub af_aperture: u8,
    pub focus_position: u8,
    pub focus_distance: u8,
    pub lens_id_number: u8,
    pub lens_fstops: u8,
    pub min_focal_len: u8,
    pub max_focal_len: u8,
    pub max_aperture_at_min_focal: u8,
    pub max_aperture_at_max_focal: u8,
    pub mcu_version: u8,
    pub effective_max_aperture: u8,
    pub lens_model: Option<String>,
}

impl Default for NefLensData {
    /// A record of zeros without a lens model.
    fn default() -> (r: Self)
        ensures
            r.version == 0 && r.exit_pupil_position == 0 && r.af_aperture == 0 && r.focus_position == 0
                && r.focus_distance == 0 && r.lens_id_number == 0 && r.lens_fstops == 0 && r.min_focal_len
                == 0 && r.max_focal_len == 0 && r.max_aperture_at_min_focal == 0
                && r.max_aperture_at_max_focal == 0 && r.mcu_version == 0 && r.effective_max_aperture == 0
                && r.lens_model is None,
    {
        NefLensData {
            version: 0,
            exit_pupil_position: 0,
            af_aperture: 0,
            focus_position: 0,
            focus_distance: 0,
            lens_id_number: 0,
            lens_fstops: 0,
            min_focal_len: 0,
            max_focal_len: 0,
            max_aperture_at_min_focal: 0,
            max_aperture_at_max_focal: 0,
            mcu_version: 0,
            effective_max_aperture: 0,
            lens_model: None,
        }
    }
}

/// `String::from_utf8_lossy`: the text of `bytes` read as UTF-8, with each
/// invalid sequence replaced by U+FFFD.
pub uninterp spec fn spec_utf8_lossy(bytes: Seq<u8>) -> Seq<char>;

/// A character of the Unicode `White_Space` property.
pub open spec fn is_white_space(c: char) -> bool {
    ('\u{9}' <= c && c <= '\u{D}') || c == ' ' || c == '\u{85}' || c == '\u{A0}' || c == '\u{1680}'
        || ('\u{2000}' <= c && c <= '\u{200A}') || c == '\u{2028}' || c == '\u{2029}' || c == '\u{202F}'
        || c == '\u{205F}' || c == '\u{3000}'
}

/// `s` without its leading white space.
pub open spec fn trim_start(s: Seq<char>) -> Seq<char>
    decreases s.len(),
{
    if s.len() > 0 && is_white_space(s[0]) {
        trim_start(s.drop_first())
    } else {
        s
    }
}

/// `s` without its trailing white space.
pub open spec fn trim_end(s: Seq<char>) -> Seq<char>
    decreases s.len(),
{
    if s.len() > 0 && is_white_space(s.last()) {
        trim_end(s.drop_last())
    } else {
        s
    }
}

/// What `str::trim` gives: the text without leading and trailing
/// characters of the Unicode `White_Space` property.
pub open spec fn spec_trim(s: Seq<char>) -> Seq<char> {
    trim_end(trim_start(s))
}

/// `String::from_utf8_lossy`, owned.
#[verifier::external_body]
fn utf8_lossy(bytes: &[u8]) -> (r: String)
    ensures
        r@ == spec_utf8_lossy(bytes@),
{
    String::from_utf8_lossy(bytes).into_owned()
}

/// `str::trim`, owned: the text without leading and trailing characters
/// of the Unicode `White_Space` property, as std documents it.
#[verifier::external_body]
fn trim_text(s: &str) -> (r: String)
    ensures
        r@ == spec_trim(s@),
{
    s.trim().to_string()
}

/// The field values of a lens data record, in the order of the struct,
/// from `exit_pupil_position` to `effective_max_aperture`.
pub open spec fn fields_of(d: NefLensData) -> Seq<u8> {
    seq![
        d.exit_pupil_position,
        d.af_aperture,
        d.focus_position,
        d.focus_distance,
        d.lens_id_number,
        d.lens_fstops,
        d.min_focal_len,
        d.max_focal_len,
        d.max_aperture_at_min_focal,
        d.max_aperture_at_max_focal,
        d.mcu_version,
        d.effective_max_aperture,
    ]
}

/// Where each field stands in a record of the given layout (`None` for a
/// field the layout does not have): layout 0 for version 1.00, 1 for
/// 1.01 to 2.03, 2 for 2.04, 3 for 8.00.
pub open spec fn field_offset(layout: int, f: int) -> Option<int> {
    let offsets: Seq<int> = if layout == 0 {
        seq![-1, -1, -1, -1, 0x06, 0x07, 0x08, 0x09, 0x0a, 0x0b, 0x0c, -1]
    } else if layout == 1 {
        seq![0x04, 0x05, 0x08, 0x09, 0x0b, 0x0c, 0x0d, 0x0e, 0x0f, 0x10, 0x11, 0x12]
    } else if layout == 2 {
        seq![0x04, 0x05, 0x08, 0x0a, 0x0c, 0x0d, 0x0e, 0x0f, 0x10, 0x11, 0x12, 0x13]
    } else {
        seq![0x04, 0x05, 0x09, 0x0b, 0x0d, 0x0e, 0x0f, 0x10, 0x11, 0x12, 0x13, 0x14]
    };
    if offsets[f] < 0 {
        None
    } else {
        Some(offsets[f])
    }
}

/// The record of the given layout read from `buf`: each field from its
/// offset, the fields the layout lacks zero.
pub open spec fn parsed_fields(layout: int, buf: Seq<u8>) -> Seq<u8> {
    Seq::new(
        12,
        |f: int|
            match field_offset(layout, f) {
                Some(o) => buf[o],
                None => 0u8,
            },
    )
}

/// Bytes a record of the given layout needs: one past its last field.
pub open spec fn layout_len(layout: int) -> int {
    if layout == 0 {
        0x0d
    } else if layout == 1 {
        0x13
    } else if layout == 2 {
        0x14
    } else {
        0x15
    }
}

fn byte_at(buf: &[u8], i: usize) -> (r: Result<u8, LensDataError>)
    ensures
        i < buf@.len() ==> r == Ok::<u8, LensDataError>(buf@[i as int]),
        i >= buf@.len() ==> r == Err::<u8, LensDataError>(LensDataError::Eof),
{
    if i < buf.len() {
        Ok(buf[i])
    } else {
        Err(LensDataError::Eof)
    }
}

/// Read a record of the given layout at the given field offsets.
fn parse_fields(version: u32, buf: &[u8], layout: usize) -> (r: Result<NefLensData, LensDataError>)
    requires
        layout <= 3,
    ensures
        buf@.len() < layout_len(layout as int) ==> r == Err::<NefLensData, LensDataError>(LensDataError::Eof),
        buf@.len() >= layout_len(layout as int) ==> (r matches Ok(d) && d.version == version && fields_of(d)
            == parsed_fields(layout as int, buf@) && d.lens_model is None),
{
    let offsets: [i32; 12] = if layout == 0 {
        [-1, -1, -1, -1, 0x06, 0x07, 0x08, 0x09, 0x0a, 0x0b, 0x0c, -1]
    } else if layout == 1 {
        [0x04, 0x05, 0x08, 0x09, 0x0b, 0x0c, 0x0d, 0x0e, 0x0f, 0x10, 0x11, 0x12]
    } else if layout == 2 {
        [0x04, 0x05, 0x08, 0x0a, 0x0c, 0x0d, 0x0e, 0x0f, 0x10, 0x11, 0x12, 0x13]
    } else {
        [0x04, 0x05, 0x09, 0x0b, 0x0d, 0x0e, 0x0f, 0x10, 0x11, 0x12, 0x13, 0x14]
    };
    let ghost want: Seq<int> = if layout == 0 {
        seq![-1, -1, -1, -1, 0x06, 0x07, 0x08, 0x09, 0x0a, 0x0b, 0x0c, -1]
    } else if layout == 1 {
        seq![0x04, 0x05, 0x08, 0x09, 0x0b, 0x0c, 0x0d, 0x0e, 0x0f, 0x10, 0x11, 0x12]
    } else if layout == 2 {
        seq![0x04, 0x05, 0x08, 0x0a, 0x0c, 0x0d, 0x0e, 0x0f, 0x10, 0x11, 0x12, 0x13]
    } else {
        seq![0x04, 0x05, 0x09, 0x0b, 0x0d, 0x0e, 0x0f, 0x10, 0x11, 0x12, 0x13, 0x14]
    };
    assert(forall|f: int| 0 <= f < 12 ==> offsets@[f] as int == want[f]);
    let mut vals: Vec<u8> = Vec::new();
    let mut f: usize = 0;
    while f < 12
        invariant
            f <= 12,
            layout <= 3,
            forall|g: int| 0 <= g < 12 ==> offsets@[g] as int == want[g],
            forall|g: int| 0 <= g < 12 ==> want[g] < layout_len(layout as int),
            forall|g: int| 0 <= g < 12 ==> (field_offset(layout as int, g) == if want[g] < 0 {
                None::<int>
            } else {
                Some(want[g])
            }),
            exists|g: int| 0 <= g < 12 && want[g] == layout_len(layout as int) - 1,
            vals@.len() == f,
            forall|g: int| 0 <= g < f ==> #[trigger] vals@[g] == parsed_fields(layout as int, buf@)[g],
            forall|g: int| 0 <= g < f ==> want[g] < buf@.len(),
        decreases 12 - f,
    {
        let o = offsets[f];
        if o < 0 {
            vals.push(0);
        } else {
            let v = byte_at(buf, o as usize);
            match v {
                Ok(b) => vals.push(b),
                Err(e) => {
                    assert(want[f as int] < layout_len(layout as int));
                    return Err(e);
                },
            }
        }
        f += 1;
    }
    Ok(
        NefLensData {
            version,
            exit_pupil_position: vals[0],
            af_aperture: vals[1],
            focus_position: vals[2],
            focus_distance: vals[3],
            lens_id_number: vals[4],
            lens_fstops: vals[5],
            min_focal_len: vals[6],
            max_focal_len: vals[7],
            max_aperture_at_min_focal: vals[8],
            max_aperture_at_max_focal: vals[9],
            mcu_version: vals[10],
            effective_max_aperture: vals[11],
            lens_model: None,
        },
    )
}


/// The composite lens id text: eight two-digit upper-case hex numbers
/// separated by single spaces.
pub open spec fn composite_id_text(bytes: Seq<u8>) -> Seq<char> {
    Seq::new(
        23,
        |i: int|
            if i % 3 == 2 {
                ' '
            } else if i % 3 == 0 {
                hex_digit(bytes[i / 3] as int / 16)
            } else {
                hex_digit(bytes[i / 3] as int % 16)
            },
    )
}

impl NefLensData {
    /// The lens id made of the lens fields and the lens type, as the lens
    /// tables key it, e.g. `"00 58 3C 8E 34 3C 00 06"`.
    pub fn composite_id(&self, lens_type: u8) -> (r: String)
        ensures
            r@ == composite_id_text(
                seq![
                    self.lens_id_number,
                    self.lens_fstops,
                    self.min_focal_len,
                    self.max_focal_len,
                    self.max_aperture_at_min_focal,
                    self.max_aperture_at_max_focal,
                    self.mcu_version,
                    lens_type,
                ],
            ),
    {
        let bytes: [u8; 8] = [
            self.lens_id_number,
            self.lens_fstops,
            self.min_focal_len,
            self.max_focal_len,
            self.max_aperture_at_min_focal,
            self.max_aperture_at_max_focal,
            self.mcu_version,
            lens_type,
        ];
        let ghost want = composite_id_text(bytes@);
        let mut s = String::new();
        for i in 0..8usize
            invariant
                want == composite_id_text(bytes@),
                s@ =~= want.subrange(0, if i == 0 { 0 } else { 3 * i - 1 }),
        {
            if i > 0 {
                s.push(' ');
            }
            push_hex_byte(&mut s, bytes[i]);
            assert(s@ =~= want.subrange(0, 3 * i + 2));
        }
        assert(s@ =~= want);
        s
    }
}

/// Lens data version 1.00.
pub fn parse_lensdata_0x100(version: u32, buf: &[u8]) -> (r: Result<NefLensData, LensDataError>)
    ensures
        buf@.len() < layout_len(0) ==> r == Err::<NefLensData, LensDataError>(LensDataError::Eof),
        buf@.len() >= layout_len(0) ==> (r matches Ok(d) && d.version == version && fields_of(d)
            == parsed_fields(0, buf@) && d.lens_model is None),
{
    parse_fields(version, buf, 0)
}

/// Lens data versions 1.01 to 2.03 (after deciphering).
pub fn parse_lensdata_0x101(version: u32, buf: &[u8]) -> (r: Result<NefLensData, LensDataError>)
    ensures
        buf@.len() < layout_len(1) ==> r == Err::<NefLensData, LensDataError>(LensDataError::Eof),
        buf@.len() >= layout_len(1) ==> (r matches Ok(d) && d.version == version && fields_of(d)
            == parsed_fields(1, buf@) && d.lens_model is None),
{
    parse_fields(version, buf, 1)
}

/// Lens data version 2.04 (after deciphering).
pub fn parse_lensdata_0x204(version: u32, buf: &[u8]) -> (r: Result<NefLensData, LensDataError>)
    ensures
        buf@.len() < layout_len(2) ==> r == Err::<NefLensData, LensDataError>(LensDataError::Eof),
        buf@.len() >= layout_len(2) ==> (r matches Ok(d) && d.version == version && fields_of(d)
            == parsed_fields(2, buf@) && d.lens_model is None),
{
    parse_fields(version, buf, 2)
}

/// Lens data versions 4.xx: only the lens model text, the 64 bytes at
/// `model_offset` trimmed, where the record is long enough.
pub fn parse_lensdata_0x4xx(version: u32, buf: &[u8], model_offset: usize) -> (r: Result<NefLensData, LensDataError>)
    requires
        model_offset + 64 <= usize::MAX,
    ensures
        r matches Ok(d) && d.version == version && fields_of(d) == Seq::new(12, |_i: int| 0u8)
            && (buf@.len() >= model_offset + 64 ==> (d.lens_model matches Some(m) && m@ == spec_trim(
            spec_utf8_lossy(buf@.subrange(model_offset as int, model_offset + 64)),
        ))) && (buf@.len() < model_offset + 64 ==> d.lens_model is None),
{
    let mut data = NefLensData {
        version,
        exit_pupil_position: 0,
        af_aperture: 0,
        focus_position: 0,
        focus_distance: 0,
        lens_id_number: 0,
        lens_fstops: 0,
        min_focal_len: 0,
        max_focal_len: 0,
        max_aperture_at_min_focal: 0,
        max_aperture_at_max_focal: 0,
        mcu_version: 0,
        effective_max_aperture: 0,
        lens_model: None,
    };
    if buf.len() >= model_offset + 64 {
        let text = utf8_lossy(vstd::slice::slice_subrange(buf, model_offset, model_offset + 64));
        data.lens_model = Some(trim_text(text.as_str()));
    }
    assert(fields_of(data) =~= Seq::new(12, |_i: int| 0u8));
    Ok(data)
}

/// Lens data version 8.00 (after deciphering), in the older layout that a
/// nonzero byte 3 marks.
pub fn parse_lensdata_0x800(version: u32, buf: &[u8]) -> (r: Result<NefLensData, LensDataError>)
    requires
        buf@.len() >= 4,
        buf@[3] != 0,
    ensures
        buf@.len() < layout_len(3) ==> r == Err::<NefLensData, LensDataError>(LensDataError::Eof),
        buf@.len() >= layout_len(3) ==> (r matches Ok(d) && d.version == version && fields_of(d)
            == parsed_fields(3, buf@) && d.lens_model is None),
{
    parse_fields(version, buf, 3)
}

/// The version of a lens data record: its first four bytes read as the
/// hexadecimal digits of a number.
pub open spec fn spec_lensdata_version(buf: Seq<u8>) -> int {
    (buf[0] - 48) * 0x1000 + (buf[1] - 48) * 0x100 + (buf[2] - 48) * 0x10 + (buf[3] - 48)
}

/// The version of a lens data record, from its four leading digits.
pub fn lensdata_version(buf: &[u8]) -> (r: u32)
    requires
        buf@.len() >= 4,
        forall|i: int| 0 <= i < 4 ==> 48 <= #[trigger] buf@[i],
    ensures
        r as int == spec_lensdata_version(buf@),
{
    let mut version: u32 = 0;
    for i in 0..4usize
        invariant
            buf@.len() >= 4,
            forall|j: int| 0 <= j < 4 ==> 48 <= #[trigger] buf@[j],
            i == 0 ==> version == 0,
            i == 1 ==> version == buf@[0] - 48,
            i == 2 ==> version == (buf@[0] - 48) * 0x10 + (buf@[1] - 48),
            i == 3 ==> version == (buf@[0] - 48) * 0x100 + (buf@[1] - 48) * 0x10 + (buf@[2] - 48),
            i == 4 ==> version == spec_lensdata_version(buf@),
    {
        assert(48 <= buf@[i as int]);
        version = version * 16 + (buf[i] - 48u8) as u32;
    }
    version
}

/// Whether `version` is one that lens data records come in.
pub open spec fn known_lensdata_version(version: u32) -> bool {
    version == 0x100 || version == 0x101 || version == 0x201 || version == 0x202 || version == 0x203
        || version == 0x204 || version == 0x400 || version == 0x401 || version == 0x402 || version
        == 0x403 || version == 0x800
}

/// Parse a (deciphered) lens data record of the given version.
pub fn parse_lensdata(version: u32, buf: &[u8]) -> (r: Result<NefLensData, LensDataError>)
    requires
        known_lensdata_version(version),
        version == 0x800 ==> buf@.len() >= 4 && buf@[3] != 0,
    ensures
        version == 0x100 ==> r == parse_lensdata_result(0, version, buf@),
        (version == 0x101 || version == 0x201 || version == 0x202 || version == 0x203) ==> r
            == parse_lensdata_result(1, version, buf@),
        version == 0x204 ==> r == parse_lensdata_result(2, version, buf@),
        version == 0x800 ==> r == parse_lensdata_result(3, version, buf@),
        (version == 0x400 || version == 0x401 || version == 0x402 || version == 0x403) ==> (r matches Ok(
            d,
        ) && d.version == version && fields_of(d) == Seq::new(12, |_i: int| 0u8)),
        version == 0x400 || version == 0x401 ==> model_at(r, buf@, 0x18a),
        version == 0x402 ==> model_at(r, buf@, 0x18b),
        version == 0x403 ==> model_at(r, buf@, 0x2ac),
{
    if version == 0x100 {
        parse_lensdata_0x100(version, buf)
    } else if version == 0x101 || version == 0x201 || version == 0x202 || version == 0x203 {
        parse_lensdata_0x101(version, buf)
    } else if version == 0x204 {
        parse_lensdata_0x204(version, buf)
    } else if version == 0x400 || version == 0x401 {
        parse_lensdata_0x4xx(version, buf, 0x18a)
    } else if version == 0x402 {
        parse_lensdata_0x4xx(version, buf, 0x18b)
    } else if version == 0x403 {
        parse_lensdata_0x4xx(version, buf, 0x2ac)
    } else {
        parse_lensdata_0x800(version, buf)
    }
}

/// The outcome of reading a record of a fixed layout.
pub open spec fn parse_lensdata_result(layout: int, version: u32, buf: Seq<u8>) -> Result<NefLensData, LensDataError> {
    if buf.len() < layout_len(layout) {
        Err(LensDataError::Eof)
    } else {
        Ok(
            NefLensData {
                version,
                exit_pupil_position: parsed_fields(layout, buf)[0],
                af_aperture: parsed_fields(layout, buf)[1],
                focus_position: parsed_fields(layout, buf)[2],
                focus_distance: parsed_fields(layout, buf)[3],
                lens_id_number: parsed_fields(layout, buf)[4],
                lens_fstops: parsed_fields(layout, buf)[5],
                min_focal_len: parsed_fields(layout, buf)[6],
                max_focal_len: parsed_fields(layout, buf)[7],
                max_aperture_at_min_focal: parsed_fields(layout, buf)[8],
                max_aperture_at_max_focal: parsed_fields(layout, buf)[9],
                mcu_version: parsed_fields(layout, buf)[10],
                effective_max_aperture: parsed_fields(layout, buf)[11],
                lens_model: None,
            },
        )
    }
}

/// The lens model of a 4.xx record: the trimmed text at `off` where the
/// record holds the 64 bytes there, and none otherwise.
pub open spec fn model_at(r: Result<NefLensData, LensDataError>, buf: Seq<u8>, off: int) -> bool {
    r matches Ok(d) && (buf.len() >= off + 64 ==> (d.lens_model matches Some(m) && m@ == spec_trim(
        spec_utf8_lossy(buf.subrange(off, off + 64)),
    ))) && (buf.len() < off + 64 ==> d.lens_model is None)
}
} // verus!
