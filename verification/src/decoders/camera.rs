//! A camera's configuration: what the camera definitions say of its raw
//! files. Each entry of a definition is applied in turn; the colour
//! matrices (floating point) and the free-form parameters are kept outside.

use vstd::prelude::*;
use crate::cfa::{valid_pattern_name, CFAColor, CFA};

verus! {

/// One entry of a camera definition, with its value.
pub enum CameraParam {
    Make(String),
    Model(String),
    Mode(String),
    CleanMake(String),
    CleanModel(String),
    Remark(String),
    WhitePoint(i64),
    BlackPoint(i64),
    /// The first two numbers give the area.
    BlackAreaH(Vec<i64>),
    BlackAreaV(Vec<i64>),
    /// Up to four numbers: left, top, right, bottom.
    ActiveArea(Vec<i64>),
    CropArea(Vec<i64>),
    ColorPattern(String),
    Bps(i64),
    RealBps(i64),
    FileSize(i64),
    RawWidth(i64),
    RawHeight(i64),
    HighresWidth(i64),
    /// Two pairs of numbers.
    DefaultScale(Vec<Vec<i64>>),
    BestQualityScale(Vec<i64>),
    Hints(Vec<String>),
    /// Entries read elsewhere (`model_aliases`, `modes`).
    Ignored,
    /// An entry that no camera definition has.
    Unknown(String),
}

/// Why an entry cannot be applied.
#[derive(Debug, Clone, Copy, PartialEq, Eq)]
pub enum CameraError {
    /// An array holds too few or too many numbers.
    BadArray,
    /// The color pattern is not one a CFA can be made of.
    BadPattern,
    /// The entry is not known.
    UnknownKey,
}

/// The configuration of a camera (its colour matrices aside).
pub struct Camera {
    pub make: String,
    pub model: String,
    pub mode: String,
    pub clean_make: String,
    pub clean_model: String,
    pub remark: Option<String>,
    pub filesize: usize,
    pub raw_width: usize,
    pub raw_height: usize,
    pub whitelevels: (u16, u16, u16, u16),
    pub blacklevels: (u16, u16, u16, u16),
    pub blackareah: Option<(usize, usize)>,
    pub blackareav: Option<(usize, usize)>,
    pub cfa: CFA,
    pub active_area: Option<(usize, usize, usize, usize)>,
    pub crop_area: Option<(usize, usize, usize, usize)>,
    pub bps: usize,
    pub real_bps: usize,
    pub highres_width: usize,
    pub default_scale: ((u32, u32), (u32, u32)),
    pub best_quality_scale: (u32, u32),
    pub hints: Vec<String>,
}

/// The configuration by value: texts as character sequences, the CFA by
/// its pattern name.
pub struct CameraView {
    pub make: Seq<char>,
    pub model: Seq<char>,
    pub mode: Seq<char>,
    pub clean_make: Seq<char>,
    pub clean_model: Seq<char>,
    pub remark: Option<Seq<char>>,
    pub filesize: usize,
    pub raw_width: usize,
    pub raw_height: usize,
    pub whitelevels: (u16, u16, u16, u16),
    pub blacklevels: (u16, u16, u16, u16),
    pub blackareah: Option<(usize, usize)>,
    pub blackareav: Option<(usize, usize)>,
    pub cfa_name: Seq<char>,
    pub active_area: Option<(usize, usize, usize, usize)>,
    pub crop_area: Option<(usize, usize, usize, usize)>,
    pub bps: usize,
    pub real_bps: usize,
    pub highres_width: usize,
    pub default_scale: ((u32, u32), (u32, u32)),
    pub best_quality_scale: (u32, u32),
    pub hints: Seq<Seq<char>>,
}

pub open spec fn texts(v: Seq<String>) -> Seq<Seq<char>> {
    Seq::new(v.len(), |i: int| v[i]@)
}

impl Camera {
    pub open spec fn view(&self) -> CameraView {
        CameraView {
            make: self.make@,
            model: self.model@,
            mode: self.mode@,
            clean_make: self.clean_make@,
            clean_model: self.clean_model@,
            remark: match self.remark {
                Some(r) => Some(r@),
                None => None,
            },
            filesize: self.filesize,
            raw_width: self.raw_width,
            raw_height: self.raw_height,
            whitelevels: self.whitelevels,
            blacklevels: self.blacklevels,
            blackareah: self.blackareah,
            blackareav: self.blackareav,
            cfa_name: self.cfa.spec_name(),
            active_area: self.active_area,
            crop_area: self.crop_area,
            bps: self.bps,
            real_bps: self.real_bps,
            highres_width: self.highres_width,
            default_scale: self.default_scale,
            best_quality_scale: self.best_quality_scale,
            hints: texts(self.hints@),
        }
    }

    /// The CFA is the one its name describes.
    pub open spec fn wf(&self) -> bool {
        &&& self.cfa.wf()
        &&& self.cfa.letters_only()
        &&& valid_pattern_name(self.cfa.spec_name())
        &&& self.cfa.matrix() == crate::cfa::expanded_pattern(self.cfa.spec_name())
        &&& (self.cfa.spec_width(), self.cfa.spec_height()) == crate::cfa::pattern_dims(
            self.cfa.spec_name().len(),
        )
    }
}

/// Up to four numbers as an area; missing ones are 0.
pub open spec fn area_of(v: Seq<i64>) -> (usize, usize, usize, usize) {
    (
        if v.len() > 0 { v[0] as usize } else { 0 },
        if v.len() > 1 { v[1] as usize } else { 0 },
        if v.len() > 2 { v[2] as usize } else { 0 },
        if v.len() > 3 { v[3] as usize } else { 0 },
    )
}

/// The configuration `c` after the entry `p`: each entry sets its field,
/// numbers cut to the field's width as the definitions' readers do.
pub open spec fn spec_camera_update(c: CameraView, p: CameraParam) -> Result<CameraView, CameraError> {
    match p {
        CameraParam::Make(s) => Ok(CameraView { make: s@, ..c }),
        CameraParam::Model(s) => Ok(CameraView { model: s@, ..c }),
        CameraParam::Mode(s) => Ok(CameraView { mode: s@, ..c }),
        CameraParam::CleanMake(s) => Ok(CameraView { clean_make: s@, ..c }),
        CameraParam::CleanModel(s) => Ok(CameraView { clean_model: s@, ..c }),
        CameraParam::Remark(s) => Ok(CameraView { remark: Some(s@), ..c }),
        CameraParam::WhitePoint(x) => Ok(
            CameraView { whitelevels: (x as u16, x as u16, x as u16, x as u16), ..c },
        ),
        CameraParam::BlackPoint(x) => Ok(
            CameraView { blacklevels: (x as u16, x as u16, x as u16, x as u16), ..c },
        ),
        CameraParam::BlackAreaH(v) => if v@.len() < 2 {
            Err(CameraError::BadArray)
        } else {
            Ok(CameraView { blackareah: Some((v@[0] as usize, v@[1] as usize)), ..c })
        },
        CameraParam::BlackAreaV(v) => if v@.len() < 2 {
            Err(CameraError::BadArray)
        } else {
            Ok(CameraView { blackareav: Some((v@[0] as usize, v@[1] as usize)), ..c })
        },
        CameraParam::ActiveArea(v) => if v@.len() > 4 {
            Err(CameraError::BadArray)
        } else {
            Ok(CameraView { active_area: Some(area_of(v@)), ..c })
        },
        CameraParam::CropArea(v) => if v@.len() > 4 {
            Err(CameraError::BadArray)
        } else {
            Ok(CameraView { crop_area: Some(area_of(v@)), ..c })
        },
        CameraParam::ColorPattern(s) => if valid_pattern_name(s@) {
            Ok(CameraView { cfa_name: s@, ..c })
        } else {
            Err(CameraError::BadPattern)
        },
        CameraParam::Bps(x) => Ok(CameraView { bps: x as usize, ..c }),
        CameraParam::RealBps(x) => Ok(CameraView { real_bps: x as usize, ..c }),
        CameraParam::FileSize(x) => Ok(CameraView { filesize: x as usize, ..c }),
        CameraParam::RawWidth(x) => Ok(CameraView { raw_width: x as usize, ..c }),
        CameraParam::RawHeight(x) => Ok(CameraView { raw_height: x as usize, ..c }),
        CameraParam::HighresWidth(x) => Ok(CameraView { highres_width: x as usize, ..c }),
        CameraParam::DefaultScale(v) => if v@.len() < 2 || v@[0]@.len() < 2 || v@[1]@.len() < 2 {
            Err(CameraError::BadArray)
        } else {
            Ok(
                CameraView {
                    default_scale: (
                        (v@[0]@[0] as u32, v@[0]@[1] as u32),
                        (v@[1]@[0] as u32, v@[1]@[1] as u32),
                    ),
                    ..c
                },
            )
        },
        CameraParam::BestQualityScale(v) => if v@.len() < 2 {
            Err(CameraError::BadArray)
        } else {
            Ok(CameraView { best_quality_scale: (v@[0] as u32, v@[1] as u32), ..c })
        },
        CameraParam::Hints(h) => Ok(CameraView { hints: texts(h@), ..c }),
        CameraParam::Ignored => Ok(c),
        CameraParam::Unknown(_) => Err(CameraError::UnknownKey),
    }
}

/// Whether `s` names a pattern `CFA::new` accepts.
fn pattern_name_ok(s: &str) -> (r: bool)
    ensures
        r == valid_pattern_name(s@),
{
    let n = s.unicode_len();
    if !(n == 0 || n == 4 || n == 16 || n == 36 || n == 144) {
        return false;
    }
    for i in 0..n
        invariant
            n == s@.len(),
            forall|j: int| 0 <= j < i ==> (#[trigger] crate::cfa::color_of_char(s@[j])) is Some,
    {
        if CFAColor::try_from_char(s.get_char(i)).is_none() {
            return false;
        }
    }
    true
}

fn copy_texts(v: &Vec<String>) -> (r: Vec<String>)
    ensures
        texts(r@) == texts(v@),
{
    let mut out: Vec<String> = Vec::new();
    for i in 0..v.len()
        invariant
            out@.len() == i,
            forall|j: int| 0 <= j < i ==> #[trigger] out@[j]@ == v@[j]@,
    {
        out.push(v[i].clone());
    }
    assert(texts(out@) =~= texts(v@));
    out
}

impl Camera {
    /// Apply one entry of a camera definition (see `spec_camera_update`);
    /// where it cannot be applied the configuration stays as it was.
    pub fn update_from_param(&mut self, p: &CameraParam) -> (r: Result<(), CameraError>)
        requires
            old(self).wf(),
        ensures
            final(self).wf(),
            match spec_camera_update(old(self).view(), *p) {
                Ok(v) => r is Ok && final(self).view() == v,
                Err(e) => r == Err::<(), CameraError>(e) && final(self).view() == old(self).view(),
            },
    {
        let ghost before = self.view();
        match p {
            CameraParam::Make(s) => self.make = s.clone(),
            CameraParam::Model(s) => self.model = s.clone(),
            CameraParam::Mode(s) => self.mode = s.clone(),
            CameraParam::CleanMake(s) => self.clean_make = s.clone(),
            CameraParam::CleanModel(s) => self.clean_model = s.clone(),
            CameraParam::Remark(s) => self.remark = Some(s.clone()),
            CameraParam::WhitePoint(x) => {
                let w = *x as u16;
                self.whitelevels = (w, w, w, w);
            },
            CameraParam::BlackPoint(x) => {
                let b = *x as u16;
                self.blacklevels = (b, b, b, b);
            },
            CameraParam::BlackAreaH(v) => {
                if v.len() < 2 {
                    return Err(CameraError::BadArray);
                }
                self.blackareah = Some((v[0] as usize, v[1] as usize));
            },
            CameraParam::BlackAreaV(v) => {
                if v.len() < 2 {
                    return Err(CameraError::BadArray);
                }
                self.blackareav = Some((v[0] as usize, v[1] as usize));
            },
            CameraParam::ActiveArea(v) => {
                if v.len() > 4 {
                    return Err(CameraError::BadArray);
                }
                self.active_area = Some(area_from(v));
            },
            CameraParam::CropArea(v) => {
                if v.len() > 4 {
                    return Err(CameraError::BadArray);
                }
                self.crop_area = Some(area_from(v));
            },
            CameraParam::ColorPattern(s) => {
                if !pattern_name_ok(s.as_str()) {
                    return Err(CameraError::BadPattern);
                }
                self.cfa = CFA::new(s.as_str());
            },
            CameraParam::Bps(x) => self.bps = *x as usize,
            CameraParam::RealBps(x) => self.real_bps = *x as usize,
            CameraParam::FileSize(x) => self.filesize = *x as usize,
            CameraParam::RawWidth(x) => self.raw_width = *x as usize,
            CameraParam::RawHeight(x) => self.raw_height = *x as usize,
            CameraParam::HighresWidth(x) => self.highres_width = *x as usize,
            CameraParam::DefaultScale(v) => {
                if v.len() < 2 || v[0].len() < 2 || v[1].len() < 2 {
                    return Err(CameraError::BadArray);
                }
                self.default_scale = ((v[0][0] as u32, v[0][1] as u32), (v[1][0] as u32, v[1][1] as u32));
            },
            CameraParam::BestQualityScale(v) => {
                if v.len() < 2 {
                    return Err(CameraError::BadArray);
                }
                self.best_quality_scale = (v[0] as u32, v[1] as u32);
            },
            CameraParam::Hints(h) => self.hints = copy_texts(h),
            CameraParam::Ignored => {},
            CameraParam::Unknown(_) => {
                return Err(CameraError::UnknownKey);
            },
        }
        Ok(())
    }
}

fn area_from(v: &Vec<i64>) -> (r: (usize, usize, usize, usize))
    requires
        v@.len() <= 4,
    ensures
        r == area_of(v@),
{
    let n = v.len();
    (
        if n > 0 { v[0] as usize } else { 0 },
        if n > 1 { v[1] as usize } else { 0 },
        if n > 2 { v[2] as usize } else { 0 },
        if n > 3 { v[3] as usize } else { 0 },
    )
}

/// The configuration after the entries `ps[..k]`, or the first entry that
/// cannot be applied and why.
pub open spec fn spec_camera_updates(c: CameraView, ps: Seq<CameraParam>, k: nat) -> Result<CameraView, (int, CameraError)>
    decreases k,
{
    if k == 0 {
        Ok(c)
    } else {
        match spec_camera_updates(c, ps, (k - 1) as nat) {
            Ok(v) => match spec_camera_update(v, ps[k - 1]) {
                Ok(w) => Ok(w),
                Err(e) => Err((k - 1, e)),
            },
            Err(x) => Err(x),
        }
    }
}

proof fn lemma_updates_error_sticks(c: CameraView, ps: Seq<CameraParam>, i: nat, j: nat)
    requires
        i <= j,
        spec_camera_updates(c, ps, i) is Err,
    ensures
        spec_camera_updates(c, ps, j) == spec_camera_updates(c, ps, i),
    decreases j - i,
{
    if i < j {
        lemma_updates_error_sticks(c, ps, i, (j - 1) as nat);
    }
}

impl Camera {
    /// A configuration before any definition is read: everything empty or
    /// zero, but the white levels (all ones), the real bit depth (16), the
    /// high resolution width (the largest) and the scales (1).
    pub fn new() -> (r: Camera)
        ensures
            r.wf(),
            r.view().make.len() == 0 && r.view().model.len() == 0 && r.view().mode.len() == 0,
            r.view().clean_make.len() == 0 && r.view().clean_model.len() == 0,
            r.remark is None && r.filesize == 0 && r.raw_width == 0 && r.raw_height == 0,
            r.whitelevels == (0xffffu16, 0xffffu16, 0xffffu16, 0xffffu16),
            r.blacklevels == (0u16, 0u16, 0u16, 0u16),
            r.blackareah is None && r.blackareav is None,
            r.view().cfa_name.len() == 0,
            r.active_area is None && r.crop_area is None,
            r.bps == 0 && r.real_bps == 16 && r.highres_width == usize::MAX,
            r.default_scale == ((1u32, 1u32), (1u32, 1u32)),
            r.best_quality_scale == (1u32, 1u32),
            r.hints@.len() == 0,
    {
        proof {
            reveal_strlit("");
        }
        Camera {
            make: String::new(),
            model: String::new(),
            mode: String::new(),
            clean_make: String::new(),
            clean_model: String::new(),
            remark: None,
            filesize: 0,
            raw_width: 0,
            raw_height: 0,
            whitelevels: (0xffff, 0xffff, 0xffff, 0xffff),
            blacklevels: (0, 0, 0, 0),
            blackareah: None,
            blackareav: None,
            cfa: CFA::new(""),
            active_area: None,
            crop_area: None,
            bps: 0,
            real_bps: 16,
            highres_width: usize::MAX,
            default_scale: ((1, 1), (1, 1)),
            best_quality_scale: (1, 1),
            hints: Vec::new(),
        }
    }

    /// Apply the entries of a camera definition in order (see
    /// `spec_camera_updates`); stops at the first that cannot be applied
    /// and gives its index and why.
    pub fn update_from_params(&mut self, ps: &[CameraParam]) -> (r: Result<(), (usize, CameraError)>)
        requires
            old(self).wf(),
        ensures
            final(self).wf(),
            match spec_camera_updates(old(self).view(), ps@, ps@.len()) {
                Ok(v) => r is Ok && final(self).view() == v,
                Err((i, e)) => r matches Err((j, e2)) && j as int == i && e2 == e,
            },
    {
        let ghost start = self.view();
        let n = ps.len();
        for i in 0..n
            invariant
                n == ps@.len(),
                self.wf(),
                start == old(self).view(),
                spec_camera_updates(start, ps@, i as nat) == Ok::<CameraView, (int, CameraError)>(self.view()),
        {
            let ghost before = self.view();
            let p = &ps[i];
            assert(*p == ps@[i as int]);
            match self.update_from_param(p) {
                Ok(()) => {},
                Err(e) => {
                    proof {
                        assert(spec_camera_update(before, ps@[i as int]) == Err::<CameraView, CameraError>(e));
                        assert(spec_camera_updates(start, ps@, (i + 1) as nat) == Err::<CameraView, (int, CameraError)>(
                            (i as int, e),
                        ));
                        lemma_updates_error_sticks(start, ps@, (i + 1) as nat, n as nat);
                        assert(spec_camera_updates(start, ps@, ps@.len()) == Err::<CameraView, (int, CameraError)>(
                            (i as int, e),
                        ));
                    }
                    return Err((i, e));
                },
            }
        }
        Ok(())
    }
}


/// Each numeric entry sets its own field to its number (cut to the field's
/// width) and leaves every other field as it was.
pub proof fn lemma_numeric_entries(c: CameraView, p: CameraParam, x: i64)
    ensures
        p == CameraParam::Bps(x) ==> (spec_camera_update(c, p) matches Ok(r) && r.bps == x as usize && r.make == c.make && r.model == c.model && r.mode == c.mode && r.clean_make == c.clean_make && r.clean_model == c.clean_model && r.remark == c.remark && r.filesize == c.filesize && r.raw_width == c.raw_width && r.raw_height == c.raw_height && r.whitelevels == c.whitelevels && r.blacklevels == c.blacklevels && r.blackareah == c.blackareah && r.blackareav == c.blackareav && r.cfa_name == c.cfa_name && r.active_area == c.active_area && r.crop_area == c.crop_area && r.real_bps == c.real_bps && r.highres_width == c.highres_width && r.default_scale == c.default_scale && r.best_quality_scale == c.best_quality_scale && r.hints == c.hints),
        p == CameraParam::RealBps(x) ==> (spec_camera_update(c, p) matches Ok(r) && r.real_bps == x as usize && r.make == c.make && r.model == c.model && r.mode == c.mode && r.clean_make == c.clean_make && r.clean_model == c.clean_model && r.remark == c.remark && r.filesize == c.filesize && r.raw_width == c.raw_width && r.raw_height == c.raw_height && r.whitelevels == c.whitelevels && r.blacklevels == c.blacklevels && r.blackareah == c.blackareah && r.blackareav == c.blackareav && r.cfa_name == c.cfa_name && r.active_area == c.active_area && r.crop_area == c.crop_area && r.bps == c.bps && r.highres_width == c.highres_width && r.default_scale == c.default_scale && r.best_quality_scale == c.best_quality_scale && r.hints == c.hints),
        p == CameraParam::FileSize(x) ==> (spec_camera_update(c, p) matches Ok(r) && r.filesize == x as usize && r.make == c.make && r.model == c.model && r.mode == c.mode && r.clean_make == c.clean_make && r.clean_model == c.clean_model && r.remark == c.remark && r.raw_width == c.raw_width && r.raw_height == c.raw_height && r.whitelevels == c.whitelevels && r.blacklevels == c.blacklevels && r.blackareah == c.blackareah && r.blackareav == c.blackareav && r.cfa_name == c.cfa_name && r.active_area == c.active_area && r.crop_area == c.crop_area && r.bps == c.bps && r.real_bps == c.real_bps && r.highres_width == c.highres_width && r.default_scale == c.default_scale && r.best_quality_scale == c.best_quality_scale && r.hints == c.hints),
        p == CameraParam::RawWidth(x) ==> (spec_camera_update(c, p) matches Ok(r) && r.raw_width == x as usize && r.make == c.make && r.model == c.model && r.mode == c.mode && r.clean_make == c.clean_make && r.clean_model == c.clean_model && r.remark == c.remark && r.filesize == c.filesize && r.raw_height == c.raw_height && r.whitelevels == c.whitelevels && r.blacklevels == c.blacklevels && r.blackareah == c.blackareah && r.blackareav == c.blackareav && r.cfa_name == c.cfa_name && r.active_area == c.active_area && r.crop_area == c.crop_area && r.bps == c.bps && r.real_bps == c.real_bps && r.highres_width == c.highres_width && r.default_scale == c.default_scale && r.best_quality_scale == c.best_quality_scale && r.hints == c.hints),
        p == CameraParam::RawHeight(x) ==> (spec_camera_update(c, p) matches Ok(r) && r.raw_height == x as usize && r.make == c.make && r.model == c.model && r.mode == c.mode && r.clean_make == c.clean_make && r.clean_model == c.clean_model && r.remark == c.remark && r.filesize == c.filesize && r.raw_width == c.raw_width && r.whitelevels == c.whitelevels && r.blacklevels == c.blacklevels && r.blackareah == c.blackareah && r.blackareav == c.blackareav && r.cfa_name == c.cfa_name && r.active_area == c.active_area && r.crop_area == c.crop_area && r.bps == c.bps && r.real_bps == c.real_bps && r.highres_width == c.highres_width && r.default_scale == c.default_scale && r.best_quality_scale == c.best_quality_scale && r.hints == c.hints),
        p == CameraParam::HighresWidth(x) ==> (spec_camera_update(c, p) matches Ok(r) && r.highres_width == x as usize && r.make == c.make && r.model == c.model && r.mode == c.mode && r.clean_make == c.clean_make && r.clean_model == c.clean_model && r.remark == c.remark && r.filesize == c.filesize && r.raw_width == c.raw_width && r.raw_height == c.raw_height && r.whitelevels == c.whitelevels && r.blacklevels == c.blacklevels && r.blackareah == c.blackareah && r.blackareav == c.blackareav && r.cfa_name == c.cfa_name && r.active_area == c.active_area && r.crop_area == c.crop_area && r.bps == c.bps && r.real_bps == c.real_bps && r.default_scale == c.default_scale && r.best_quality_scale == c.best_quality_scale && r.hints == c.hints),
        p == CameraParam::WhitePoint(x) ==> (spec_camera_update(c, p) matches Ok(r) && r.whitelevels == (x as u16, x as u16, x as u16, x as u16) && r.make == c.make && r.model == c.model && r.mode == c.mode && r.clean_make == c.clean_make && r.clean_model == c.clean_model && r.remark == c.remark && r.filesize == c.filesize && r.raw_width == c.raw_width && r.raw_height == c.raw_height && r.blacklevels == c.blacklevels && r.blackareah == c.blackareah && r.blackareav == c.blackareav && r.cfa_name == c.cfa_name && r.active_area == c.active_area && r.crop_area == c.crop_area && r.bps == c.bps && r.real_bps == c.real_bps && r.highres_width == c.highres_width && r.default_scale == c.default_scale && r.best_quality_scale == c.best_quality_scale && r.hints == c.hints),
        p == CameraParam::BlackPoint(x) ==> (spec_camera_update(c, p) matches Ok(r) && r.blacklevels == (x as u16, x as u16, x as u16, x as u16) && r.make == c.make && r.model == c.model && r.mode == c.mode && r.clean_make == c.clean_make && r.clean_model == c.clean_model && r.remark == c.remark && r.filesize == c.filesize && r.raw_width == c.raw_width && r.raw_height == c.raw_height && r.whitelevels == c.whitelevels && r.blackareah == c.blackareah && r.blackareav == c.blackareav && r.cfa_name == c.cfa_name && r.active_area == c.active_area && r.crop_area == c.crop_area && r.bps == c.bps && r.real_bps == c.real_bps && r.highres_width == c.highres_width && r.default_scale == c.default_scale && r.best_quality_scale == c.best_quality_scale && r.hints == c.hints),
{
}

/// Each text entry sets its own field and nothing else; a color pattern
/// replaces the CFA only where it names a valid pattern; unknown entries
/// are refused and ignored ones change nothing.
pub proof fn lemma_text_entries(c: CameraView, p: CameraParam, s: String)
    ensures
        p == CameraParam::Make(s) ==> (spec_camera_update(c, p) matches Ok(r) && r.make == s@ && r.model == c.model && r.mode == c.mode && r.clean_make == c.clean_make && r.clean_model == c.clean_model && r.remark == c.remark && r.filesize == c.filesize && r.raw_width == c.raw_width && r.raw_height == c.raw_height && r.whitelevels == c.whitelevels && r.blacklevels == c.blacklevels && r.blackareah == c.blackareah && r.blackareav == c.blackareav && r.cfa_name == c.cfa_name && r.active_area == c.active_area && r.crop_area == c.crop_area && r.bps == c.bps && r.real_bps == c.real_bps && r.highres_width == c.highres_width && r.default_scale == c.default_scale && r.best_quality_scale == c.best_quality_scale && r.hints == c.hints),
        p == CameraParam::Model(s) ==> (spec_camera_update(c, p) matches Ok(r) && r.model == s@ && r.make == c.make && r.mode == c.mode && r.clean_make == c.clean_make && r.clean_model == c.clean_model && r.remark == c.remark && r.filesize == c.filesize && r.raw_width == c.raw_width && r.raw_height == c.raw_height && r.whitelevels == c.whitelevels && r.blacklevels == c.blacklevels && r.blackareah == c.blackareah && r.blackareav == c.blackareav && r.cfa_name == c.cfa_name && r.active_area == c.active_area && r.crop_area == c.crop_area && r.bps == c.bps && r.real_bps == c.real_bps && r.highres_width == c.highres_width && r.default_scale == c.default_scale && r.best_quality_scale == c.best_quality_scale && r.hints == c.hints),
        p == CameraParam::CleanMake(s) ==> (spec_camera_update(c, p) matches Ok(r) && r.clean_make == s@ && r.make == c.make && r.model == c.model && r.mode == c.mode && r.clean_model == c.clean_model && r.remark == c.remark && r.filesize == c.filesize && r.raw_width == c.raw_width && r.raw_height == c.raw_height && r.whitelevels == c.whitelevels && r.blacklevels == c.blacklevels && r.blackareah == c.blackareah && r.blackareav == c.blackareav && r.cfa_name == c.cfa_name && r.active_area == c.active_area && r.crop_area == c.crop_area && r.bps == c.bps && r.real_bps == c.real_bps && r.highres_width == c.highres_width && r.default_scale == c.default_scale && r.best_quality_scale == c.best_quality_scale && r.hints == c.hints),
        p == CameraParam::CleanModel(s) ==> (spec_camera_update(c, p) matches Ok(r) && r.clean_model == s@ && r.make == c.make && r.model == c.model && r.mode == c.mode && r.clean_make == c.clean_make && r.remark == c.remark && r.filesize == c.filesize && r.raw_width == c.raw_width && r.raw_height == c.raw_height && r.whitelevels == c.whitelevels && r.blacklevels == c.blacklevels && r.blackareah == c.blackareah && r.blackareav == c.blackareav && r.cfa_name == c.cfa_name && r.active_area == c.active_area && r.crop_area == c.crop_area && r.bps == c.bps && r.real_bps == c.real_bps && r.highres_width == c.highres_width && r.default_scale == c.default_scale && r.best_quality_scale == c.best_quality_scale && r.hints == c.hints),
        p == CameraParam::Remark(s) ==> (spec_camera_update(c, p) matches Ok(r) && r.remark == Some(s@) && r.make == c.make && r.model == c.model && r.mode == c.mode && r.clean_make == c.clean_make && r.clean_model == c.clean_model && r.filesize == c.filesize && r.raw_width == c.raw_width && r.raw_height == c.raw_height && r.whitelevels == c.whitelevels && r.blacklevels == c.blacklevels && r.blackareah == c.blackareah && r.blackareav == c.blackareav && r.cfa_name == c.cfa_name && r.active_area == c.active_area && r.crop_area == c.crop_area && r.bps == c.bps && r.real_bps == c.real_bps && r.highres_width == c.highres_width && r.default_scale == c.default_scale && r.best_quality_scale == c.best_quality_scale && r.hints == c.hints),
        p == CameraParam::ColorPattern(s) && valid_pattern_name(s@) ==> (spec_camera_update(c, p) matches Ok(r) && r.cfa_name == s@ && r.make == c.make && r.model == c.model && r.mode == c.mode && r.clean_make == c.clean_make && r.clean_model == c.clean_model && r.remark == c.remark && r.filesize == c.filesize && r.raw_width == c.raw_width && r.raw_height == c.raw_height && r.whitelevels == c.whitelevels && r.blacklevels == c.blacklevels && r.blackareah == c.blackareah && r.blackareav == c.blackareav && r.active_area == c.active_area && r.crop_area == c.crop_area && r.bps == c.bps && r.real_bps == c.real_bps && r.highres_width == c.highres_width && r.default_scale == c.default_scale && r.best_quality_scale == c.best_quality_scale && r.hints == c.hints),
        p == CameraParam::ColorPattern(s) && !valid_pattern_name(s@) ==> spec_camera_update(c, p) == Err::<CameraView, CameraError>(CameraError::BadPattern),
        p == CameraParam::Unknown(s) ==> spec_camera_update(c, p) == Err::<CameraView, CameraError>(CameraError::UnknownKey),
        p == CameraParam::Ignored ==> spec_camera_update(c, p) == Ok::<CameraView, CameraError>(c),
{
}

/// The black areas take the first two numbers of their array, the active
/// and crop areas up to four (missing ones 0); arrays too short or too long
/// are refused.
pub proof fn lemma_area_entries(c: CameraView, p: CameraParam, v: Vec<i64>)
    ensures
        p == CameraParam::BlackAreaH(v) && v@.len() >= 2 ==> (spec_camera_update(c, p) matches Ok(r) && r.blackareah == Some((v@[0] as usize, v@[1] as usize)) && r.make == c.make && r.model == c.model && r.mode == c.mode && r.clean_make == c.clean_make && r.clean_model == c.clean_model && r.remark == c.remark && r.filesize == c.filesize && r.raw_width == c.raw_width && r.raw_height == c.raw_height && r.whitelevels == c.whitelevels && r.blacklevels == c.blacklevels && r.blackareav == c.blackareav && r.cfa_name == c.cfa_name && r.active_area == c.active_area && r.crop_area == c.crop_area && r.bps == c.bps && r.real_bps == c.real_bps && r.highres_width == c.highres_width && r.default_scale == c.default_scale && r.best_quality_scale == c.best_quality_scale && r.hints == c.hints),
        p == CameraParam::BlackAreaV(v) && v@.len() >= 2 ==> (spec_camera_update(c, p) matches Ok(r) && r.blackareav == Some((v@[0] as usize, v@[1] as usize)) && r.make == c.make && r.model == c.model && r.mode == c.mode && r.clean_make == c.clean_make && r.clean_model == c.clean_model && r.remark == c.remark && r.filesize == c.filesize && r.raw_width == c.raw_width && r.raw_height == c.raw_height && r.whitelevels == c.whitelevels && r.blacklevels == c.blacklevels && r.blackareah == c.blackareah && r.cfa_name == c.cfa_name && r.active_area == c.active_area && r.crop_area == c.crop_area && r.bps == c.bps && r.real_bps == c.real_bps && r.highres_width == c.highres_width && r.default_scale == c.default_scale && r.best_quality_scale == c.best_quality_scale && r.hints == c.hints),
        (p == CameraParam::BlackAreaH(v) || p == CameraParam::BlackAreaV(v)) && v@.len() < 2 ==> spec_camera_update(c, p) == Err::<CameraView, CameraError>(CameraError::BadArray),
        p == CameraParam::ActiveArea(v) && v@.len() == 4 ==> (spec_camera_update(c, p) matches Ok(r) && r.active_area == Some((v@[0] as usize, v@[1] as usize, v@[2] as usize, v@[3] as usize)) && r.make == c.make && r.model == c.model && r.mode == c.mode && r.clean_make == c.clean_make && r.clean_model == c.clean_model && r.remark == c.remark && r.filesize == c.filesize && r.raw_width == c.raw_width && r.raw_height == c.raw_height && r.whitelevels == c.whitelevels && r.blacklevels == c.blacklevels && r.blackareah == c.blackareah && r.blackareav == c.blackareav && r.cfa_name == c.cfa_name && r.crop_area == c.crop_area && r.bps == c.bps && r.real_bps == c.real_bps && r.highres_width == c.highres_width && r.default_scale == c.default_scale && r.best_quality_scale == c.best_quality_scale && r.hints == c.hints),
        p == CameraParam::CropArea(v) && v@.len() == 4 ==> (spec_camera_update(c, p) matches Ok(r) && r.crop_area == Some((v@[0] as usize, v@[1] as usize, v@[2] as usize, v@[3] as usize)) && r.make == c.make && r.model == c.model && r.mode == c.mode && r.clean_make == c.clean_make && r.clean_model == c.clean_model && r.remark == c.remark && r.filesize == c.filesize && r.raw_width == c.raw_width && r.raw_height == c.raw_height && r.whitelevels == c.whitelevels && r.blacklevels == c.blacklevels && r.blackareah == c.blackareah && r.blackareav == c.blackareav && r.cfa_name == c.cfa_name && r.active_area == c.active_area && r.bps == c.bps && r.real_bps == c.real_bps && r.highres_width == c.highres_width && r.default_scale == c.default_scale && r.best_quality_scale == c.best_quality_scale && r.hints == c.hints),
        (p == CameraParam::ActiveArea(v) || p == CameraParam::CropArea(v)) && v@.len() > 4 ==> spec_camera_update(c, p) == Err::<CameraView, CameraError>(CameraError::BadArray),
{
}

} // verus!
