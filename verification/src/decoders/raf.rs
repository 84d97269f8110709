pub mod dbp;
pub mod fuji_decompressor;
pub mod layout;

use vstd::prelude::*;

verus! {

/// The bytes of `FUJIFILM`.
pub open spec fn raf_magic() -> Seq<u8> {
    seq![0x46u8, 0x55u8, 0x4au8, 0x49u8, 0x46u8, 0x49u8, 0x4cu8, 0x4du8]
}

/// Whether the file starts with `FUJIFILM`.
pub fn is_raf(file: &[u8]) -> (r: bool)
    ensures
        r == (file@.len() >= 8 && file@.subrange(0, 8) == raf_magic()),
{
    if file.len() < 8 {
        return false;
    }
    let r = file[0] == 0x46 && file[1] == 0x55 && file[2] == 0x4a && file[3] == 0x49 && file[4]
        == 0x46 && file[5] == 0x49 && file[6] == 0x4c && file[7] == 0x4d;
    assert(r == (file@.subrange(0, 8) =~= raf_magic()));
    r
}

/// The transpose of a `width`x`height` image stored row by row: a
/// `height`x`width` image whose pixel at (row `c`, column `r`) is the input
/// pixel at (row `r`, column `c`).
pub fn fuji_raw_rotate(img: &[u16], width: usize, height: usize) -> (out: Vec<u16>)
    requires
        img@.len() == width * height,
    ensures
        out@.len() == width * height,
        forall|r: int, c: int|
            0 <= r < height && 0 <= c < width ==> #[trigger] out@[c * height + r] == img@[r * width
                + c],
{
    let n = img.len();
    let mut out: Vec<u16> = Vec::new();
    assert(0 * height == 0);
    // the output, row by row: output row `c` holds input column `c`
    for c in 0..width
        invariant
            img@.len() == width * height,
            n == img@.len(),
            out@.len() == c * height,
            forall|cc: int, r: int|
                0 <= cc < c && 0 <= r < height ==> #[trigger] out@[cc * height + r] == img@[r * width
                    + cc],
    {
        for r in 0..height
            invariant
                img@.len() == width * height,
                n == img@.len(),
                c < width,
                out@.len() == c * height + r,
                forall|cc: int, rr: int|
                    (0 <= cc < c && 0 <= rr < height) || (cc == c && 0 <= rr < r)
                        ==> #[trigger] out@[cc * height + rr] == img@[rr * width + cc],
        {
            assert(r * width + c < width * height && r * width <= width * height) by (nonlinear_arith)
                requires
                    r < height,
                    c < width,
            ;
            assert(width * height == n);
            out.push(img[r * width + c]);
            proof {
                assert forall|cc: int, rr: int|
                    (0 <= cc < c && 0 <= rr < height) || (cc == c && 0 <= rr < r + 1)
                        implies #[trigger] out@[cc * height + rr] == img@[rr * width + cc] by {
                    assert(cc * height + rr < c * height + r + 1 && 0 <= cc * height + rr) by (nonlinear_arith)
                        requires
                            (0 <= cc < c && 0 <= rr < height) || (cc == c && 0 <= rr < r + 1),
                            c < width,
                            r < height,
                    ;
                    if cc == c && rr == r {
                        assert(out@[cc * height + rr] == img@[rr * width + cc]);
                    } else {
                        assert(cc * height + rr < c * height + r) by (nonlinear_arith)
                            requires
                                (0 <= cc < c && 0 <= rr < height) || (cc == c && 0 <= rr < r),
                        ;
                    }
                }
            }
        }
        assert((c + 1) * height == c * height + height) by (nonlinear_arith);
    }
    out
}

/// Rotating twice gives back the image: the transpose of the transpose is
/// the image itself.
pub proof fn lemma_rotate_twice(img: Seq<u16>, once: Seq<u16>, twice: Seq<u16>, width: int, height: int)
    requires
        width >= 0,
        height >= 0,
        img.len() == width * height,
        once.len() == width * height,
        twice.len() == width * height,
        forall|r: int, c: int|
            0 <= r < height && 0 <= c < width ==> #[trigger] once[c * height + r] == img[r * width + c],
        forall|r: int, c: int|
            0 <= r < width && 0 <= c < height ==> #[trigger] twice[c * width + r] == once[r * height + c],
    ensures
        twice == img,
{
    assert forall|i: int| 0 <= i < img.len() implies twice[i] == img[i] by {
        let r = i / width;
        let c = i % width;
        assert(0 <= r < height && 0 <= c < width && i == r * width + c) by (nonlinear_arith)
            requires
                0 <= i < width * height,
                r == i / width,
                c == i % width,
                width > 0,
        ;
        assert(twice[r * width + c] == once[c * height + r]);
    }
    assert(twice =~= img);
}

/// Tags of the Fujifilm makernote.
#[derive(Debug, Copy, Clone, PartialEq, Eq, Structural)]
#[allow(non_camel_case_types)]
pub enum RafMakernotes {
    Version,
    InternalSerialNumber,
    Quality,
    Sharpness,
    WhiteBalance,
    Saturation,
    Contrast,
    ColorTemperature,
    Contrast2,
    WhiteBalanceFineTune,
    NoiseReduction,
    NoiseReduction2,
    FujiFlashMode,
    FlashExposureComp,
    Macro,
    FocusMode,
    AFMode,
    FocusPixel,
    PrioritySettings,
    FocusSettings,
    AFCSettings,
    SlowSync,
    PictureMode,
    ExposureCount,
    EXRAuto,
    EXRMode,
    ShadowTone,
    HighlightTone,
    DigitalZoom,
    LensModulationOptimizer,
    GrainEffect,
    ColorChromeEffect,
    BWAdjustment,
    CropMode,
    ColorChromeFXBlue,
    ShutterType,
    AutoBracketing,
    SequenceNumber,
    DriveSettings,
    PixelShiftShots,
    PixelShiftOffset,
    PanoramaAngle,
    PanoramaDirection,
    AdvancedFilter,
    ColorMode,
    BlurWarning,
    FocusWarning,
    ExposureWarning,
    GEImageSize,
    DynamicRange,
    FilmMode,
    DynamicRangeSetting,
    DevelopmentDynamicRange,
    MinFocalLength,
    MaxFocalLength,
    MaxApertureAtMinFocal,
    MaxApertureAtMaxFocal,
    AutoDynamicRange,
    ImageStabilization,
    SceneRecognition,
    Rating,
    ImageGeneration,
    ImageCount,
    DRangePriority,
    DRangePriorityAuto,
    DRangePriorityFixed,
    FlickerReduction,
    VideoRecordingMode,
    PeripheralLighting,
    VideoCompression,
    FrameRate,
    FrameWidth,
    FrameHeight,
    FullHDHighSpeedRec,
    FaceElementSelected,
    FacesDetected,
    FacePositions,
    NumFaceElements,
    FaceElementTypes,
    FaceElementPositions,
    FaceRecInfo,
    FileSource,
    OrderNumber,
    FrameNumber,
    Parallax,
}

impl RafMakernotes {
    /// The tag's number.
    pub open spec fn tag_number(self) -> u16 {
        match self {
            RafMakernotes::Version => 0x0000u16,
            RafMakernotes::InternalSerialNumber => 0x0010u16,
            RafMakernotes::Quality => 0x1000u16,
            RafMakernotes::Sharpness => 0x1001u16,
            RafMakernotes::WhiteBalance => 0x1002u16,
            RafMakernotes::Saturation => 0x1003u16,
            RafMakernotes::Contrast => 0x1004u16,
            RafMakernotes::ColorTemperature => 0x1005u16,
            RafMakernotes::Contrast2 => 0x1006u16,
            RafMakernotes::WhiteBalanceFineTune => 0x100au16,
            RafMakernotes::NoiseReduction => 0x100bu16,
            RafMakernotes::NoiseReduction2 => 0x100eu16,
            RafMakernotes::FujiFlashMode => 0x1010u16,
            RafMakernotes::FlashExposureComp => 0x1011u16,
            RafMakernotes::Macro => 0x1020u16,
            RafMakernotes::FocusMode => 0x1021u16,
            RafMakernotes::AFMode => 0x1022u16,
            RafMakernotes::FocusPixel => 0x1023u16,
            RafMakernotes::PrioritySettings => 0x102bu16,
            RafMakernotes::FocusSettings => 0x102du16,
            RafMakernotes::AFCSettings => 0x102eu16,
            RafMakernotes::SlowSync => 0x1030u16,
            RafMakernotes::PictureMode => 0x1031u16,
            RafMakernotes::ExposureCount => 0x1032u16,
            RafMakernotes::EXRAuto => 0x1033u16,
            RafMakernotes::EXRMode => 0x1034u16,
            RafMakernotes::ShadowTone => 0x1040u16,
            RafMakernotes::HighlightTone => 0x1041u16,
            RafMakernotes::DigitalZoom => 0x1044u16,
            RafMakernotes::LensModulationOptimizer => 0x1045u16,
            RafMakernotes::GrainEffect => 0x1047u16,
            RafMakernotes::ColorChromeEffect => 0x1048u16,
            RafMakernotes::BWAdjustment => 0x1049u16,
            RafMakernotes::CropMode => 0x104du16,
            RafMakernotes::ColorChromeFXBlue => 0x104eu16,
            RafMakernotes::ShutterType => 0x1050u16,
            RafMakernotes::AutoBracketing => 0x1100u16,
            RafMakernotes::SequenceNumber => 0x1101u16,
            RafMakernotes::DriveSettings => 0x1103u16,
            RafMakernotes::PixelShiftShots => 0x1105u16,
            RafMakernotes::PixelShiftOffset => 0x1106u16,
            RafMakernotes::PanoramaAngle => 0x1153u16,
            RafMakernotes::PanoramaDirection => 0x1154u16,
            RafMakernotes::AdvancedFilter => 0x1201u16,
            RafMakernotes::ColorMode => 0x1210u16,
            RafMakernotes::BlurWarning => 0x1300u16,
            RafMakernotes::FocusWarning => 0x1301u16,
            RafMakernotes::ExposureWarning => 0x1302u16,
            RafMakernotes::GEImageSize => 0x1304u16,
            RafMakernotes::DynamicRange => 0x1400u16,
            RafMakernotes::FilmMode => 0x1401u16,
            RafMakernotes::DynamicRangeSetting => 0x1402u16,
            RafMakernotes::DevelopmentDynamicRange => 0x1403u16,
            RafMakernotes::MinFocalLength => 0x1404u16,
            RafMakernotes::MaxFocalLength => 0x1405u16,
            RafMakernotes::MaxApertureAtMinFocal => 0x1406u16,
            RafMakernotes::MaxApertureAtMaxFocal => 0x1407u16,
            RafMakernotes::AutoDynamicRange => 0x140bu16,
            RafMakernotes::ImageStabilization => 0x1422u16,
            RafMakernotes::SceneRecognition => 0x1425u16,
            RafMakernotes::Rating => 0x1431u16,
            RafMakernotes::ImageGeneration => 0x1436u16,
            RafMakernotes::ImageCount => 0x1438u16,
            RafMakernotes::DRangePriority => 0x1443u16,
            RafMakernotes::DRangePriorityAuto => 0x1444u16,
            RafMakernotes::DRangePriorityFixed => 0x1445u16,
            RafMakernotes::FlickerReduction => 0x1446u16,
            RafMakernotes::VideoRecordingMode => 0x3803u16,
            RafMakernotes::PeripheralLighting => 0x3804u16,
            RafMakernotes::VideoCompression => 0x3806u16,
            RafMakernotes::FrameRate => 0x3820u16,
            RafMakernotes::FrameWidth => 0x3821u16,
            RafMakernotes::FrameHeight => 0x3822u16,
            RafMakernotes::FullHDHighSpeedRec => 0x3824u16,
            RafMakernotes::FaceElementSelected => 0x4005u16,
            RafMakernotes::FacesDetected => 0x4100u16,
            RafMakernotes::FacePositions => 0x4103u16,
            RafMakernotes::NumFaceElements => 0x4200u16,
            RafMakernotes::FaceElementTypes => 0x4201u16,
            RafMakernotes::FaceElementPositions => 0x4203u16,
            RafMakernotes::FaceRecInfo => 0x4282u16,
            RafMakernotes::FileSource => 0x8000u16,
            RafMakernotes::OrderNumber => 0x8002u16,
            RafMakernotes::FrameNumber => 0x8003u16,
            RafMakernotes::Parallax => 0xb211u16,
        }
    }

    /// The tag with number `value`, if there is one.
    pub open spec fn tag_of(value: u16) -> Option<RafMakernotes> {
        if value == 0x0000 {
            Some(RafMakernotes::Version)
        } else if value == 0x0010 {
            Some(RafMakernotes::InternalSerialNumber)
        } else if value == 0x1000 {
            Some(RafMakernotes::Quality)
        } else if value == 0x1001 {
            Some(RafMakernotes::Sharpness)
        } else if value == 0x1002 {
            Some(RafMakernotes::WhiteBalance)
        } else if value == 0x1003 {
            Some(RafMakernotes::Saturation)
        } else if value == 0x1004 {
            Some(RafMakernotes::Contrast)
        } else if value == 0x1005 {
            Some(RafMakernotes::ColorTemperature)
        } else if value == 0x1006 {
            Some(RafMakernotes::Contrast2)
        } else if value == 0x100a {
            Some(RafMakernotes::WhiteBalanceFineTune)
        } else if value == 0x100b {
            Some(RafMakernotes::NoiseReduction)
        } else if value == 0x100e {
            Some(RafMakernotes::NoiseReduction2)
        } else if value == 0x1010 {
            Some(RafMakernotes::FujiFlashMode)
        } else if value == 0x1011 {
            Some(RafMakernotes::FlashExposureComp)
        } else if value == 0x1020 {
            Some(RafMakernotes::Macro)
        } else if value == 0x1021 {
            Some(RafMakernotes::FocusMode)
        } else if value == 0x1022 {
            Some(RafMakernotes::AFMode)
        } else if value == 0x1023 {
            Some(RafMakernotes::FocusPixel)
        } else if value == 0x102b {
            Some(RafMakernotes::PrioritySettings)
        } else if value == 0x102d {
            Some(RafMakernotes::FocusSettings)
        } else if value == 0x102e {
            Some(RafMakernotes::AFCSettings)
        } else if value == 0x1030 {
            Some(RafMakernotes::SlowSync)
        } else if value == 0x1031 {
            Some(RafMakernotes::PictureMode)
        } else if value == 0x1032 {
            Some(RafMakernotes::ExposureCount)
        } else if value == 0x1033 {
            Some(RafMakernotes::EXRAuto)
        } else if value == 0x1034 {
            Some(RafMakernotes::EXRMode)
        } else if value == 0x1040 {
            Some(RafMakernotes::ShadowTone)
        } else if value == 0x1041 {
            Some(RafMakernotes::HighlightTone)
        } else if value == 0x1044 {
            Some(RafMakernotes::DigitalZoom)
        } else if value == 0x1045 {
            Some(RafMakernotes::LensModulationOptimizer)
        } else if value == 0x1047 {
            Some(RafMakernotes::GrainEffect)
        } else if value == 0x1048 {
            Some(RafMakernotes::ColorChromeEffect)
        } else if value == 0x1049 {
            Some(RafMakernotes::BWAdjustment)
        } else if value == 0x104d {
            Some(RafMakernotes::CropMode)
        } else if value == 0x104e {
            Some(RafMakernotes::ColorChromeFXBlue)
        } else if value == 0x1050 {
            Some(RafMakernotes::ShutterType)
        } else if value == 0x1100 {
            Some(RafMakernotes::AutoBracketing)
        } else if value == 0x1101 {
            Some(RafMakernotes::SequenceNumber)
        } else if value == 0x1103 {
            Some(RafMakernotes::DriveSettings)
        } else if value == 0x1105 {
            Some(RafMakernotes::PixelShiftShots)
        } else if value == 0x1106 {
            Some(RafMakernotes::PixelShiftOffset)
        } else if value == 0x1153 {
            Some(RafMakernotes::PanoramaAngle)
        } else if value == 0x1154 {
            Some(RafMakernotes::PanoramaDirection)
        } else if value == 0x1201 {
            Some(RafMakernotes::AdvancedFilter)
        } else if value == 0x1210 {
            Some(RafMakernotes::ColorMode)
        } else if value == 0x1300 {
            Some(RafMakernotes::BlurWarning)
        } else if value == 0x1301 {
            Some(RafMakernotes::FocusWarning)
        } else if value == 0x1302 {
            Some(RafMakernotes::ExposureWarning)
        } else if value == 0x1304 {
            Some(RafMakernotes::GEImageSize)
        } else if value == 0x1400 {
            Some(RafMakernotes::DynamicRange)
        } else if value == 0x1401 {
            Some(RafMakernotes::FilmMode)
        } else if value == 0x1402 {
            Some(RafMakernotes::DynamicRangeSetting)
        } else if value == 0x1403 {
            Some(RafMakernotes::DevelopmentDynamicRange)
        } else if value == 0x1404 {
            Some(RafMakernotes::MinFocalLength)
        } else if value == 0x1405 {
            Some(RafMakernotes::MaxFocalLength)
        } else if value == 0x1406 {
            Some(RafMakernotes::MaxApertureAtMinFocal)
        } else if value == 0x1407 {
            Some(RafMakernotes::MaxApertureAtMaxFocal)
        } else if value == 0x140b {
            Some(RafMakernotes::AutoDynamicRange)
        } else if value == 0x1422 {
            Some(RafMakernotes::ImageStabilization)
        } else if value == 0x1425 {
            Some(RafMakernotes::SceneRecognition)
        } else if value == 0x1431 {
            Some(RafMakernotes::Rating)
        } else if value == 0x1436 {
            Some(RafMakernotes::ImageGeneration)
        } else if value == 0x1438 {
            Some(RafMakernotes::ImageCount)
        } else if value == 0x1443 {
            Some(RafMakernotes::DRangePriority)
        } else if value == 0x1444 {
            Some(RafMakernotes::DRangePriorityAuto)
        } else if value == 0x1445 {
            Some(RafMakernotes::DRangePriorityFixed)
        } else if value == 0x1446 {
            Some(RafMakernotes::FlickerReduction)
        } else if value == 0x3803 {
            Some(RafMakernotes::VideoRecordingMode)
        } else if value == 0x3804 {
            Some(RafMakernotes::PeripheralLighting)
        } else if value == 0x3806 {
            Some(RafMakernotes::VideoCompression)
        } else if value == 0x3820 {
            Some(RafMakernotes::FrameRate)
        } else if value == 0x3821 {
            Some(RafMakernotes::FrameWidth)
        } else if value == 0x3822 {
            Some(RafMakernotes::FrameHeight)
        } else if value == 0x3824 {
            Some(RafMakernotes::FullHDHighSpeedRec)
        } else if value == 0x4005 {
            Some(RafMakernotes::FaceElementSelected)
        } else if value == 0x4100 {
            Some(RafMakernotes::FacesDetected)
        } else if value == 0x4103 {
            Some(RafMakernotes::FacePositions)
        } else if value == 0x4200 {
            Some(RafMakernotes::NumFaceElements)
        } else if value == 0x4201 {
            Some(RafMakernotes::FaceElementTypes)
        } else if value == 0x4203 {
            Some(RafMakernotes::FaceElementPositions)
        } else if value == 0x4282 {
            Some(RafMakernotes::FaceRecInfo)
        } else if value == 0x8000 {
            Some(RafMakernotes::FileSource)
        } else if value == 0x8002 {
            Some(RafMakernotes::OrderNumber)
        } else if value == 0x8003 {
            Some(RafMakernotes::FrameNumber)
        } else if value == 0xb211 {
            Some(RafMakernotes::Parallax)
        } else {
            None
        }
    }

    /// The tag's number.
    pub fn value(self) -> (r: u16)
        ensures
            r == self.tag_number(),
    {
        match self {
            RafMakernotes::Version => 0x0000,
            RafMakernotes::InternalSerialNumber => 0x0010,
            RafMakernotes::Quality => 0x1000,
            RafMakernotes::Sharpness => 0x1001,
            RafMakernotes::WhiteBalance => 0x1002,
            RafMakernotes::Saturation => 0x1003,
            RafMakernotes::Contrast => 0x1004,
            RafMakernotes::ColorTemperature => 0x1005,
            RafMakernotes::Contrast2 => 0x1006,
            RafMakernotes::WhiteBalanceFineTune => 0x100a,
            RafMakernotes::NoiseReduction => 0x100b,
            RafMakernotes::NoiseReduction2 => 0x100e,
            RafMakernotes::FujiFlashMode => 0x1010,
            RafMakernotes::FlashExposureComp => 0x1011,
            RafMakernotes::Macro => 0x1020,
            RafMakernotes::FocusMode => 0x1021,
            RafMakernotes::AFMode => 0x1022,
            RafMakernotes::FocusPixel => 0x1023,
            RafMakernotes::PrioritySettings => 0x102b,
            RafMakernotes::FocusSettings => 0x102d,
            RafMakernotes::AFCSettings => 0x102e,
            RafMakernotes::SlowSync => 0x1030,
            RafMakernotes::PictureMode => 0x1031,
            RafMakernotes::ExposureCount => 0x1032,
            RafMakernotes::EXRAuto => 0x1033,
            RafMakernotes::EXRMode => 0x1034,
            RafMakernotes::ShadowTone => 0x1040,
            RafMakernotes::HighlightTone => 0x1041,
            RafMakernotes::DigitalZoom => 0x1044,
            RafMakernotes::LensModulationOptimizer => 0x1045,
            RafMakernotes::GrainEffect => 0x1047,
            RafMakernotes::ColorChromeEffect => 0x1048,
            RafMakernotes::BWAdjustment => 0x1049,
            RafMakernotes::CropMode => 0x104d,
            RafMakernotes::ColorChromeFXBlue => 0x104e,
            RafMakernotes::ShutterType => 0x1050,
            RafMakernotes::AutoBracketing => 0x1100,
            RafMakernotes::SequenceNumber => 0x1101,
            RafMakernotes::DriveSettings => 0x1103,
            RafMakernotes::PixelShiftShots => 0x1105,
            RafMakernotes::PixelShiftOffset => 0x1106,
            RafMakernotes::PanoramaAngle => 0x1153,
            RafMakernotes::PanoramaDirection => 0x1154,
            RafMakernotes::AdvancedFilter => 0x1201,
            RafMakernotes::ColorMode => 0x1210,
            RafMakernotes::BlurWarning => 0x1300,
            RafMakernotes::FocusWarning => 0x1301,
            RafMakernotes::ExposureWarning => 0x1302,
            RafMakernotes::GEImageSize => 0x1304,
            RafMakernotes::DynamicRange => 0x1400,
            RafMakernotes::FilmMode => 0x1401,
            RafMakernotes::DynamicRangeSetting => 0x1402,
            RafMakernotes::DevelopmentDynamicRange => 0x1403,
            RafMakernotes::MinFocalLength => 0x1404,
            RafMakernotes::MaxFocalLength => 0x1405,
            RafMakernotes::MaxApertureAtMinFocal => 0x1406,
            RafMakernotes::MaxApertureAtMaxFocal => 0x1407,
            RafMakernotes::AutoDynamicRange => 0x140b,
            RafMakernotes::ImageStabilization => 0x1422,
            RafMakernotes::SceneRecognition => 0x1425,
            RafMakernotes::Rating => 0x1431,
            RafMakernotes::ImageGeneration => 0x1436,
            RafMakernotes::ImageCount => 0x1438,
            RafMakernotes::DRangePriority => 0x1443,
            RafMakernotes::DRangePriorityAuto => 0x1444,
            RafMakernotes::DRangePriorityFixed => 0x1445,
            RafMakernotes::FlickerReduction => 0x1446,
            RafMakernotes::VideoRecordingMode => 0x3803,
            RafMakernotes::PeripheralLighting => 0x3804,
            RafMakernotes::VideoCompression => 0x3806,
            RafMakernotes::FrameRate => 0x3820,
            RafMakernotes::FrameWidth => 0x3821,
            RafMakernotes::FrameHeight => 0x3822,
            RafMakernotes::FullHDHighSpeedRec => 0x3824,
            RafMakernotes::FaceElementSelected => 0x4005,
            RafMakernotes::FacesDetected => 0x4100,
            RafMakernotes::FacePositions => 0x4103,
            RafMakernotes::NumFaceElements => 0x4200,
            RafMakernotes::FaceElementTypes => 0x4201,
            RafMakernotes::FaceElementPositions => 0x4203,
            RafMakernotes::FaceRecInfo => 0x4282,
            RafMakernotes::FileSource => 0x8000,
            RafMakernotes::OrderNumber => 0x8002,
            RafMakernotes::FrameNumber => 0x8003,
            RafMakernotes::Parallax => 0xb211,
        }
    }

    /// The tag with number `value`, if there is one.
    pub fn n(value: u16) -> (r: Option<RafMakernotes>)
        ensures
            r == Self::tag_of(value),
    {
        match value {
            0x0000 => Some(RafMakernotes::Version),
            0x0010 => Some(RafMakernotes::InternalSerialNumber),
            0x1000 => Some(RafMakernotes::Quality),
            0x1001 => Some(RafMakernotes::Sharpness),
            0x1002 => Some(RafMakernotes::WhiteBalance),
            0x1003 => Some(RafMakernotes::Saturation),
            0x1004 => Some(RafMakernotes::Contrast),
            0x1005 => Some(RafMakernotes::ColorTemperature),
            0x1006 => Some(RafMakernotes::Contrast2),
            0x100a => Some(RafMakernotes::WhiteBalanceFineTune),
            0x100b => Some(RafMakernotes::NoiseReduction),
            0x100e => Some(RafMakernotes::NoiseReduction2),
            0x1010 => Some(RafMakernotes::FujiFlashMode),
            0x1011 => Some(RafMakernotes::FlashExposureComp),
            0x1020 => Some(RafMakernotes::Macro),
            0x1021 => Some(RafMakernotes::FocusMode),
            0x1022 => Some(RafMakernotes::AFMode),
            0x1023 => Some(RafMakernotes::FocusPixel),
            0x102b => Some(RafMakernotes::PrioritySettings),
            0x102d => Some(RafMakernotes::FocusSettings),
            0x102e => Some(RafMakernotes::AFCSettings),
            0x1030 => Some(RafMakernotes::SlowSync),
            0x1031 => Some(RafMakernotes::PictureMode),
            0x1032 => Some(RafMakernotes::ExposureCount),
            0x1033 => Some(RafMakernotes::EXRAuto),
            0x1034 => Some(RafMakernotes::EXRMode),
            0x1040 => Some(RafMakernotes::ShadowTone),
            0x1041 => Some(RafMakernotes::HighlightTone),
            0x1044 => Some(RafMakernotes::DigitalZoom),
            0x1045 => Some(RafMakernotes::LensModulationOptimizer),
            0x1047 => Some(RafMakernotes::GrainEffect),
            0x1048 => Some(RafMakernotes::ColorChromeEffect),
            0x1049 => Some(RafMakernotes::BWAdjustment),
            0x104d => Some(RafMakernotes::CropMode),
            0x104e => Some(RafMakernotes::ColorChromeFXBlue),
            0x1050 => Some(RafMakernotes::ShutterType),
            0x1100 => Some(RafMakernotes::AutoBracketing),
            0x1101 => Some(RafMakernotes::SequenceNumber),
            0x1103 => Some(RafMakernotes::DriveSettings),
            0x1105 => Some(RafMakernotes::PixelShiftShots),
            0x1106 => Some(RafMakernotes::PixelShiftOffset),
            0x1153 => Some(RafMakernotes::PanoramaAngle),
            0x1154 => Some(RafMakernotes::PanoramaDirection),
            0x1201 => Some(RafMakernotes::AdvancedFilter),
            0x1210 => Some(RafMakernotes::ColorMode),
            0x1300 => Some(RafMakernotes::BlurWarning),
            0x1301 => Some(RafMakernotes::FocusWarning),
            0x1302 => Some(RafMakernotes::ExposureWarning),
            0x1304 => Some(RafMakernotes::GEImageSize),
            0x1400 => Some(RafMakernotes::DynamicRange),
            0x1401 => Some(RafMakernotes::FilmMode),
            0x1402 => Some(RafMakernotes::DynamicRangeSetting),
            0x1403 => Some(RafMakernotes::DevelopmentDynamicRange),
            0x1404 => Some(RafMakernotes::MinFocalLength),
            0x1405 => Some(RafMakernotes::MaxFocalLength),
            0x1406 => Some(RafMakernotes::MaxApertureAtMinFocal),
            0x1407 => Some(RafMakernotes::MaxApertureAtMaxFocal),
            0x140b => Some(RafMakernotes::AutoDynamicRange),
            0x1422 => Some(RafMakernotes::ImageStabilization),
            0x1425 => Some(RafMakernotes::SceneRecognition),
            0x1431 => Some(RafMakernotes::Rating),
            0x1436 => Some(RafMakernotes::ImageGeneration),
            0x1438 => Some(RafMakernotes::ImageCount),
            0x1443 => Some(RafMakernotes::DRangePriority),
            0x1444 => Some(RafMakernotes::DRangePriorityAuto),
            0x1445 => Some(RafMakernotes::DRangePriorityFixed),
            0x1446 => Some(RafMakernotes::FlickerReduction),
            0x3803 => Some(RafMakernotes::VideoRecordingMode),
            0x3804 => Some(RafMakernotes::PeripheralLighting),
            0x3806 => Some(RafMakernotes::VideoCompression),
            0x3820 => Some(RafMakernotes::FrameRate),
            0x3821 => Some(RafMakernotes::FrameWidth),
            0x3822 => Some(RafMakernotes::FrameHeight),
            0x3824 => Some(RafMakernotes::FullHDHighSpeedRec),
            0x4005 => Some(RafMakernotes::FaceElementSelected),
            0x4100 => Some(RafMakernotes::FacesDetected),
            0x4103 => Some(RafMakernotes::FacePositions),
            0x4200 => Some(RafMakernotes::NumFaceElements),
            0x4201 => Some(RafMakernotes::FaceElementTypes),
            0x4203 => Some(RafMakernotes::FaceElementPositions),
            0x4282 => Some(RafMakernotes::FaceRecInfo),
            0x8000 => Some(RafMakernotes::FileSource),
            0x8002 => Some(RafMakernotes::OrderNumber),
            0x8003 => Some(RafMakernotes::FrameNumber),
            0xb211 => Some(RafMakernotes::Parallax),
            _ => None,
        }
    }

    /// A tag is found again from its number, and a number names only
    /// the tag that has it.
    pub proof fn lemma_tag_roundtrip(self, value: u16)
        ensures
            Self::tag_of(self.tag_number()) == Some(self),
            Self::tag_of(value) matches Some(t) ==> t.tag_number() == value,
    {
    }
}

impl From<RafMakernotes> for u16 {
    fn from(tag: RafMakernotes) -> (r: u16) {
        tag.value()
    }
}

impl vstd::std_specs::convert::FromSpecImpl<RafMakernotes> for u16 {
    open spec fn obeys_from_spec() -> bool {
        true
    }

    open spec fn from_spec(tag: RafMakernotes) -> u16 {
        tag.tag_number()
    }
}

/// Tags of the Fujifilm RAF IFD.
#[derive(Debug, Copy, Clone, PartialEq, Eq, Structural)]
#[allow(non_camel_case_types)]
pub enum FujiIFD {
    FujiIFD,
    RawImageFullWidth,
    RawImageFullHeight,
    BitsPerSample,
    StripOffsets,
    StripByteCounts,
    BlackLevel,
    GeometricDistortionParams,
    WB_GRBLevelsStandard,
    WB_GRBLevelsAuto,
    WB_GRBLevels,
    ChromaticAberrationParams,
    VignettingParams,
}

impl FujiIFD {
    /// The tag's number.
    pub open spec fn tag_number(self) -> u16 {
        match self {
            FujiIFD::FujiIFD => 0xf000u16,
            FujiIFD::RawImageFullWidth => 0xf001u16,
            FujiIFD::RawImageFullHeight => 0xf002u16,
            FujiIFD::BitsPerSample => 0xf003u16,
            FujiIFD::StripOffsets => 0xf007u16,
            FujiIFD::StripByteCounts => 0xf008u16,
            FujiIFD::BlackLevel => 0xf00au16,
            FujiIFD::GeometricDistortionParams => 0xf00bu16,
            FujiIFD::WB_GRBLevelsStandard => 0xf00cu16,
            FujiIFD::WB_GRBLevelsAuto => 0xf00du16,
            FujiIFD::WB_GRBLevels => 0xf00eu16,
            FujiIFD::ChromaticAberrationParams => 0xf00fu16,
            FujiIFD::VignettingParams => 0xf010u16,
        }
    }

    /// The tag with number `value`, if there is one.
    pub open spec fn tag_of(value: u16) -> Option<FujiIFD> {
        if value == 0xf000 {
            Some(FujiIFD::FujiIFD)
        } else if value == 0xf001 {
            Some(FujiIFD::RawImageFullWidth)
        } else if value == 0xf002 {
            Some(FujiIFD::RawImageFullHeight)
        } else if value == 0xf003 {
            Some(FujiIFD::BitsPerSample)
        } else if value == 0xf007 {
            Some(FujiIFD::StripOffsets)
        } else if value == 0xf008 {
            Some(FujiIFD::StripByteCounts)
        } else if value == 0xf00a {
            Some(FujiIFD::BlackLevel)
        } else if value == 0xf00b {
            Some(FujiIFD::GeometricDistortionParams)
        } else if value == 0xf00c {
            Some(FujiIFD::WB_GRBLevelsStandard)
        } else if value == 0xf00d {
            Some(FujiIFD::WB_GRBLevelsAuto)
        } else if value == 0xf00e {
            Some(FujiIFD::WB_GRBLevels)
        } else if value == 0xf00f {
            Some(FujiIFD::ChromaticAberrationParams)
        } else if value == 0xf010 {
            Some(FujiIFD::VignettingParams)
        } else {
            None
        }
    }

    /// The tag's number.
    pub fn value(self) -> (r: u16)
        ensures
            r == self.tag_number(),
    {
        match self {
            FujiIFD::FujiIFD => 0xf000,
            FujiIFD::RawImageFullWidth => 0xf001,
            FujiIFD::RawImageFullHeight => 0xf002,
            FujiIFD::BitsPerSample => 0xf003,
            FujiIFD::StripOffsets => 0xf007,
            FujiIFD::StripByteCounts => 0xf008,
            FujiIFD::BlackLevel => 0xf00a,
            FujiIFD::GeometricDistortionParams => 0xf00b,
            FujiIFD::WB_GRBLevelsStandard => 0xf00c,
            FujiIFD::WB_GRBLevelsAuto => 0xf00d,
            FujiIFD::WB_GRBLevels => 0xf00e,
            FujiIFD::ChromaticAberrationParams => 0xf00f,
            FujiIFD::VignettingParams => 0xf010,
        }
    }

    /// The tag with number `value`, if there is one.
    pub fn n(value: u16) -> (r: Option<FujiIFD>)
        ensures
            r == Self::tag_of(value),
    {
        match value {
            0xf000 => Some(FujiIFD::FujiIFD),
            0xf001 => Some(FujiIFD::RawImageFullWidth),
            0xf002 => Some(FujiIFD::RawImageFullHeight),
            0xf003 => Some(FujiIFD::BitsPerSample),
            0xf007 => Some(FujiIFD::StripOffsets),
            0xf008 => Some(FujiIFD::StripByteCounts),
            0xf00a => Some(FujiIFD::BlackLevel),
            0xf00b => Some(FujiIFD::GeometricDistortionParams),
            0xf00c => Some(FujiIFD::WB_GRBLevelsStandard),
            0xf00d => Some(FujiIFD::WB_GRBLevelsAuto),
            0xf00e => Some(FujiIFD::WB_GRBLevels),
            0xf00f => Some(FujiIFD::ChromaticAberrationParams),
            0xf010 => Some(FujiIFD::VignettingParams),
            _ => None,
        }
    }

    /// A tag is found again from its number, and a number names only
    /// the tag that has it.
    pub proof fn lemma_tag_roundtrip(self, value: u16)
        ensures
            Self::tag_of(self.tag_number()) == Some(self),
            Self::tag_of(value) matches Some(t) ==> t.tag_number() == value,
    {
    }
}

impl From<FujiIFD> for u16 {
    fn from(tag: FujiIFD) -> (r: u16) {
        tag.value()
    }
}

impl vstd::std_specs::convert::FromSpecImpl<FujiIFD> for u16 {
    open spec fn obeys_from_spec() -> bool {
        true
    }

    open spec fn from_spec(tag: FujiIFD) -> u16 {
        tag.tag_number()
    }
}

/// Tags of the Fujifilm RAF header.
#[derive(Debug, Copy, Clone, PartialEq, Eq, Structural)]
#[allow(non_camel_case_types)]
pub enum RafTags {
    RawImageFullSize,
    RawImageCropTopLeft,
    RawImageCroppedSize,
    RawImageAspectRatio,
    RawImageSize,
    FujiLayout,
    XTransLayout,
    WB_GRGBLevels,
    RelativeExposure,
    RawExposureBias,
    RAFData,
}

impl RafTags {
    /// The tag's number.
    pub open spec fn tag_number(self) -> u16 {
        match self {
            RafTags::RawImageFullSize => 0x0100u16,
            RafTags::RawImageCropTopLeft => 0x0110u16,
            RafTags::RawImageCroppedSize => 0x0111u16,
            RafTags::RawImageAspectRatio => 0x0115u16,
            RafTags::RawImageSize => 0x0121u16,
            RafTags::FujiLayout => 0x0130u16,
            RafTags::XTransLayout => 0x0131u16,
            RafTags::WB_GRGBLevels => 0x2ff0u16,
            RafTags::RelativeExposure => 0x9200u16,
            RafTags::RawExposureBias => 0x9650u16,
            RafTags::RAFData => 0xc000u16,
        }
    }

    /// The tag with number `value`, if there is one.
    pub open spec fn tag_of(value: u16) -> Option<RafTags> {
        if value == 0x0100 {
            Some(RafTags::RawImageFullSize)
        } else if value == 0x0110 {
            Some(RafTags::RawImageCropTopLeft)
        } else if value == 0x0111 {
            Some(RafTags::RawImageCroppedSize)
        } else if value == 0x0115 {
            Some(RafTags::RawImageAspectRatio)
        } else if value == 0x0121 {
            Some(RafTags::RawImageSize)
        } else if value == 0x0130 {
            Some(RafTags::FujiLayout)
        } else if value == 0x0131 {
            Some(RafTags::XTransLayout)
        } else if value == 0x2ff0 {
            Some(RafTags::WB_GRGBLevels)
        } else if value == 0x9200 {
            Some(RafTags::RelativeExposure)
        } else if value == 0x9650 {
            Some(RafTags::RawExposureBias)
        } else if value == 0xc000 {
            Some(RafTags::RAFData)
        } else {
            None
        }
    }

    /// The tag's number.
    pub fn value(self) -> (r: u16)
        ensures
            r == self.tag_number(),
    {
        match self {
            RafTags::RawImageFullSize => 0x0100,
            RafTags::RawImageCropTopLeft => 0x0110,
            RafTags::RawImageCroppedSize => 0x0111,
            RafTags::RawImageAspectRatio => 0x0115,
            RafTags::RawImageSize => 0x0121,
            RafTags::FujiLayout => 0x0130,
            RafTags::XTransLayout => 0x0131,
            RafTags::WB_GRGBLevels => 0x2ff0,
            RafTags::RelativeExposure => 0x9200,
            RafTags::RawExposureBias => 0x9650,
            RafTags::RAFData => 0xc000,
        }
    }

    /// The tag with number `value`, if there is one.
    pub fn n(value: u16) -> (r: Option<RafTags>)
        ensures
            r == Self::tag_of(value),
    {
        match value {
            0x0100 => Some(RafTags::RawImageFullSize),
            0x0110 => Some(RafTags::RawImageCropTopLeft),
            0x0111 => Some(RafTags::RawImageCroppedSize),
            0x0115 => Some(RafTags::RawImageAspectRatio),
            0x0121 => Some(RafTags::RawImageSize),
            0x0130 => Some(RafTags::FujiLayout),
            0x0131 => Some(RafTags::XTransLayout),
            0x2ff0 => Some(RafTags::WB_GRGBLevels),
            0x9200 => Some(RafTags::RelativeExposure),
            0x9650 => Some(RafTags::RawExposureBias),
            0xc000 => Some(RafTags::RAFData),
            _ => None,
        }
    }

    /// A tag is found again from its number, and a number names only
    /// the tag that has it.
    pub proof fn lemma_tag_roundtrip(self, value: u16)
        ensures
            Self::tag_of(self.tag_number()) == Some(self),
            Self::tag_of(value) matches Some(t) ==> t.tag_number() == value,
    {
    }
}

impl From<RafTags> for u16 {
    fn from(tag: RafTags) -> (r: u16) {
        tag.value()
    }
}

impl vstd::std_specs::convert::FromSpecImpl<RafTags> for u16 {
    open spec fn obeys_from_spec() -> bool {
        true
    }

    open spec fn from_spec(tag: RafTags) -> u16 {
        tag.tag_number()
    }
}


} // verus!
