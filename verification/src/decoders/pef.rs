//! Pentax PEF metadata tags.

pub mod huffman;

use vstd::prelude::*;

verus! {

/// Tags of the Pentax makernote.
#[derive(Debug, Copy, Clone, PartialEq, Eq, Structural)]
#[allow(non_camel_case_types)]
pub enum PefMakernote {
    PentaxVersion,
    PentaxModelType,
    PreviewImageSize,
    PreviewImageLength,
    PreviewImageStart,
    PentaxModelId,
    Date,
    Time,
    Quality,
    PentaxImageSize,
    PictureMode,
    FlashMode,
    FocusMode,
    AFPointSelected,
    AFPointsInFocus,
    FocusPosition,
    ExposureTime,
    FNumber,
    ISO,
    LightReading,
    ExposureCompensation,
    MeteringMode,
    AutoBracketing,
    WhiteBalance,
    WhiteBalanceMode,
    BlueBalance,
    RedBalance,
    FocalLength,
    DigitalZoom,
    Saturation,
    Contrast,
    Sharpness,
    WordTimeLocation,
    HometownCity,
    DestinationCity,
    HometownDST,
    DestinationDST,
    DSPFirmwareVersion,
    CPUFirmwareVersion,
    FrameNumber,
    EffectiveLV,
    ImageEditing,
    PictureMode2,
    DriveMode,
    SensorSize,
    ColorSpace,
    ImageAreaOffset,
    RawImageSize,
    AFPointsInFocus2,
    DataScaling,
    PreviewImageBorders,
    LensRec,
    SensitivityAdjust,
    ImageEditCount,
    CameraTemerature,
    AELock,
    NoiseReduction,
    FlashExposureComp,
    ImageTone,
    ColorTemperature,
    ColorTempDaylight,
    ColorTempShade,
    ColorTempCloudy,
    ColorTempTungsten,
    ColorTempFluorescentD,
    ColorTempFluorescentN,
    ColorTempFluorescentW,
    ColorTempFlash,
    ShakeReductionInfo,
    ShutterCount,
    FaceInfo,
    RawDevelopmentProcess,
    Hue,
    AWBInfo,
    DynamicRangeExpansion,
    TimeInfo,
    HighLowKeyAdj,
    ContastHighlight,
    ContrastShadow,
    ConstrastHightlightShadowAdj,
    FineSharpness,
    HighISONoiseReduction,
    AFAdjustment,
    MonochromeFilterEffect,
    MonochromeToning,
    FaceDetect,
    FaceDetectFrameIsze,
    ShadowCorrection,
    ISOAutoParameters,
    CrossProcess,
    LensCorr,
    WhiteLevel,
    BleachBypassToning,
    AspectRatio,
    BlurControl,
    HDR,
    ShutterType,
    NeutralDensityFilter,
    ISO2,
    IntervalShooting,
    SkinToneCorrection,
    ClarityControl,
    BlackPoint,
    WhitePoint,
    ColorMatrixA,
    ColorMatrixB,
    CameraSettings,
    AEInfo,
    LensInfo,
    FlashInfo,
    AEMeteringSegements,
    FlashMeteringSegements,
    SlaveFlashMeteringSegements,
    WB_RGGBLevelsDaylight,
    WB_RGGBLevelsShade,
    WB_RGGBLevelsCloudy,
    WB_RGGBLevelsTungsten,
    WB_RGGBLevelsFluorescentD,
    WB_RGGBLevelsFluorescentN,
    WB_RGGBLevelsFluorescentW,
    WB_RGGBLevelsFlash,
    CameraInfo,
    BatteryInfo,
    SaturationInfo,
    ColorMatrixA2,
    ColorMatrixB2,
    AFInfo,
    HuffmanTable,
    KelvinWB,
    ColorInfo,
    EVStepInfo,
    ShotInfo,
    FacePos,
    FaceSize,
    SerialNumber,
    FilterInfo,
    LevelInfo,
    WBLevels,
    Artist,
    Copyright,
    FirmwareVersion,
    ConstrastDetectAFArea,
    CrossProcessParams,
    LensInfoQ,
    Model,
    PixelShiftInfo,
    AFPointInfo,
    DataDump,
    TempInfo,
    ToneCurve,
    ToneCurves,
    UnknownBlock,
    PrintIM,
}

impl PefMakernote {
    /// The tag's number.
    pub open spec fn tag_number(self) -> u16 {
        match self {
            PefMakernote::PentaxVersion => 0x0000u16,
            PefMakernote::PentaxModelType => 0x0001u16,
            PefMakernote::PreviewImageSize => 0x0002u16,
            PefMakernote::PreviewImageLength => 0x0003u16,
            PefMakernote::PreviewImageStart => 0x0004u16,
            PefMakernote::PentaxModelId => 0x0005u16,
            PefMakernote::Date => 0x0006u16,
            PefMakernote::Time => 0x0007u16,
            PefMakernote::Quality => 0x0008u16,
            PefMakernote::PentaxImageSize => 0x0009u16,
            PefMakernote::PictureMode => 0x000bu16,
            PefMakernote::FlashMode => 0x000cu16,
            PefMakernote::FocusMode => 0x000du16,
            PefMakernote::AFPointSelected => 0x000eu16,
            PefMakernote::AFPointsInFocus => 0x000fu16,
            PefMakernote::FocusPosition => 0x0010u16,
            PefMakernote::ExposureTime => 0x0012u16,
            PefMakernote::FNumber => 0x0013u16,
            PefMakernote::ISO => 0x0014u16,
            PefMakernote::LightReading => 0x0015u16,
            PefMakernote::ExposureCompensation => 0x0016u16,
            PefMakernote::MeteringMode => 0x0017u16,
            PefMakernote::AutoBracketing => 0x0018u16,
            PefMakernote::WhiteBalance => 0x0019u16,
            PefMakernote::WhiteBalanceMode => 0x001au16,
            PefMakernote::BlueBalance => 0x001bu16,
            PefMakernote::RedBalance => 0x001cu16,
            PefMakernote::FocalLength => 0x001du16,
            PefMakernote::DigitalZoom => 0x001eu16,
            PefMakernote::Saturation => 0x001fu16,
            PefMakernote::Contrast => 0x0020u16,
            PefMakernote::Sharpness => 0x0021u16,
            PefMakernote::WordTimeLocation => 0x0022u16,
            PefMakernote::HometownCity => 0x0023u16,
            PefMakernote::DestinationCity => 0x0024u16,
            PefMakernote::HometownDST => 0x0025u16,
            PefMakernote::DestinationDST => 0x0026u16,
            PefMakernote::DSPFirmwareVersion => 0x0027u16,
            PefMakernote::CPUFirmwareVersion => 0x0028u16,
            PefMakernote::FrameNumber => 0x0029u16,
            PefMakernote::EffectiveLV => 0x002du16,
            PefMakernote::ImageEditing => 0x0032u16,
            PefMakernote::PictureMode2 => 0x0033u16,
            PefMakernote::DriveMode => 0x0034u16,
            PefMakernote::SensorSize => 0x0035u16,
            PefMakernote::ColorSpace => 0x0037u16,
            PefMakernote::ImageAreaOffset => 0x0038u16,
            PefMakernote::RawImageSize => 0x0039u16,
            PefMakernote::AFPointsInFocus2 => 0x003cu16,
            PefMakernote::DataScaling => 0x003du16,
            PefMakernote::PreviewImageBorders => 0x003eu16,
            PefMakernote::LensRec => 0x003fu16,
            PefMakernote::SensitivityAdjust => 0x0040u16,
            PefMakernote::ImageEditCount => 0x0041u16,
            PefMakernote::CameraTemerature => 0x0047u16,
            PefMakernote::AELock => 0x0048u16,
            PefMakernote::NoiseReduction => 0x0049u16,
            PefMakernote::FlashExposureComp => 0x004du16,
            PefMakernote::ImageTone => 0x004fu16,
            PefMakernote::ColorTemperature => 0x0050u16,
            PefMakernote::ColorTempDaylight => 0x0053u16,
            PefMakernote::ColorTempShade => 0x0054u16,
            PefMakernote::ColorTempCloudy => 0x0055u16,
            PefMakernote::ColorTempTungsten => 0x0056u16,
            PefMakernote::ColorTempFluorescentD => 0x0057u16,
            PefMakernote::ColorTempFluorescentN => 0x0058u16,
            PefMakernote::ColorTempFluorescentW => 0x0059u16,
            PefMakernote::ColorTempFlash => 0x005au16,
            PefMakernote::ShakeReductionInfo => 0x005cu16,
            PefMakernote::ShutterCount => 0x005du16,
            PefMakernote::FaceInfo => 0x0060u16,
            PefMakernote::RawDevelopmentProcess => 0x0062u16,
            PefMakernote::Hue => 0x0067u16,
            PefMakernote::AWBInfo => 0x0068u16,
            PefMakernote::DynamicRangeExpansion => 0x0069u16,
            PefMakernote::TimeInfo => 0x006bu16,
            PefMakernote::HighLowKeyAdj => 0x006cu16,
            PefMakernote::ContastHighlight => 0x006du16,
            PefMakernote::ContrastShadow => 0x006eu16,
            PefMakernote::ConstrastHightlightShadowAdj => 0x006fu16,
            PefMakernote::FineSharpness => 0x0070u16,
            PefMakernote::HighISONoiseReduction => 0x0071u16,
            PefMakernote::AFAdjustment => 0x0072u16,
            PefMakernote::MonochromeFilterEffect => 0x0073u16,
            PefMakernote::MonochromeToning => 0x0074u16,
            PefMakernote::FaceDetect => 0x0076u16,
            PefMakernote::FaceDetectFrameIsze => 0x0077u16,
            PefMakernote::ShadowCorrection => 0x0079u16,
            PefMakernote::ISOAutoParameters => 0x007au16,
            PefMakernote::CrossProcess => 0x007bu16,
            PefMakernote::LensCorr => 0x007du16,
            PefMakernote::WhiteLevel => 0x007eu16,
            PefMakernote::BleachBypassToning => 0x007fu16,
            PefMakernote::AspectRatio => 0x0080u16,
            PefMakernote::BlurControl => 0x0082u16,
            PefMakernote::HDR => 0x0085u16,
            PefMakernote::ShutterType => 0x0087u16,
            PefMakernote::NeutralDensityFilter => 0x0088u16,
            PefMakernote::ISO2 => 0x008bu16,
            PefMakernote::IntervalShooting => 0x0092u16,
            PefMakernote::SkinToneCorrection => 0x0095u16,
            PefMakernote::ClarityControl => 0x0096u16,
            PefMakernote::BlackPoint => 0x0200u16,
            PefMakernote::WhitePoint => 0x0201u16,
            PefMakernote::ColorMatrixA => 0x0203u16,
            PefMakernote::ColorMatrixB => 0x0204u16,
            PefMakernote::CameraSettings => 0x0205u16,
            PefMakernote::AEInfo => 0x0206u16,
            PefMakernote::LensInfo => 0x0207u16,
            PefMakernote::FlashInfo => 0x0208u16,
            PefMakernote::AEMeteringSegements => 0x0209u16,
            PefMakernote::FlashMeteringSegements => 0x020au16,
            PefMakernote::SlaveFlashMeteringSegements => 0x020bu16,
            PefMakernote::WB_RGGBLevelsDaylight => 0x020du16,
            PefMakernote::WB_RGGBLevelsShade => 0x020eu16,
            PefMakernote::WB_RGGBLevelsCloudy => 0x020fu16,
            PefMakernote::WB_RGGBLevelsTungsten => 0x0210u16,
            PefMakernote::WB_RGGBLevelsFluorescentD => 0x0211u16,
            PefMakernote::WB_RGGBLevelsFluorescentN => 0x0212u16,
            PefMakernote::WB_RGGBLevelsFluorescentW => 0x0213u16,
            PefMakernote::WB_RGGBLevelsFlash => 0x0214u16,
            PefMakernote::CameraInfo => 0x0215u16,
            PefMakernote::BatteryInfo => 0x0216u16,
            PefMakernote::SaturationInfo => 0x021bu16,
            PefMakernote::ColorMatrixA2 => 0x021cu16,
            PefMakernote::ColorMatrixB2 => 0x021du16,
            PefMakernote::AFInfo => 0x021fu16,
            PefMakernote::HuffmanTable => 0x0220u16,
            PefMakernote::KelvinWB => 0x0221u16,
            PefMakernote::ColorInfo => 0x0222u16,
            PefMakernote::EVStepInfo => 0x0224u16,
            PefMakernote::ShotInfo => 0x0226u16,
            PefMakernote::FacePos => 0x0227u16,
            PefMakernote::FaceSize => 0x0228u16,
            PefMakernote::SerialNumber => 0x0229u16,
            PefMakernote::FilterInfo => 0x022au16,
            PefMakernote::LevelInfo => 0x022bu16,
            PefMakernote::WBLevels => 0x022du16,
            PefMakernote::Artist => 0x022eu16,
            PefMakernote::Copyright => 0x022fu16,
            PefMakernote::FirmwareVersion => 0x0230u16,
            PefMakernote::ConstrastDetectAFArea => 0x0231u16,
            PefMakernote::CrossProcessParams => 0x0235u16,
            PefMakernote::LensInfoQ => 0x0239u16,
            PefMakernote::Model => 0x023fu16,
            PefMakernote::PixelShiftInfo => 0x0243u16,
            PefMakernote::AFPointInfo => 0x0245u16,
            PefMakernote::DataDump => 0x03feu16,
            PefMakernote::TempInfo => 0x03ffu16,
            PefMakernote::ToneCurve => 0x0402u16,
            PefMakernote::ToneCurves => 0x0403u16,
            PefMakernote::UnknownBlock => 0x0405u16,
            PefMakernote::PrintIM => 0x0e00u16,
        }
    }

    /// The tag with number `value`, if there is one.
    pub open spec fn tag_of(value: u16) -> Option<PefMakernote> {
        if value == 0x0000 {
            Some(PefMakernote::PentaxVersion)
        } else if value == 0x0001 {
            Some(PefMakernote::PentaxModelType)
        } else if value == 0x0002 {
            Some(PefMakernote::PreviewImageSize)
        } else if value == 0x0003 {
            Some(PefMakernote::PreviewImageLength)
        } else if value == 0x0004 {
            Some(PefMakernote::PreviewImageStart)
        } else if value == 0x0005 {
            Some(PefMakernote::PentaxModelId)
        } else if value == 0x0006 {
            Some(PefMakernote::Date)
        } else if value == 0x0007 {
            Some(PefMakernote::Time)
        } else if value == 0x0008 {
            Some(PefMakernote::Quality)
        } else if value == 0x0009 {
            Some(PefMakernote::PentaxImageSize)
        } else if value == 0x000b {
            Some(PefMakernote::PictureMode)
        } else if value == 0x000c {
            Some(PefMakernote::FlashMode)
        } else if value == 0x000d {
            Some(PefMakernote::FocusMode)
        } else if value == 0x000e {
            Some(PefMakernote::AFPointSelected)
        } else if value == 0x000f {
            Some(PefMakernote::AFPointsInFocus)
        } else if value == 0x0010 {
            Some(PefMakernote::FocusPosition)
        } else if value == 0x0012 {
            Some(PefMakernote::ExposureTime)
        } else if value == 0x0013 {
            Some(PefMakernote::FNumber)
        } else if value == 0x0014 {
            Some(PefMakernote::ISO)
        } else if value == 0x0015 {
            Some(PefMakernote::LightReading)
        } else if value == 0x0016 {
            Some(PefMakernote::ExposureCompensation)
        } else if value == 0x0017 {
            Some(PefMakernote::MeteringMode)
        } else if value == 0x0018 {
            Some(PefMakernote::AutoBracketing)
        } else if value == 0x0019 {
            Some(PefMakernote::WhiteBalance)
        } else if value == 0x001a {
            Some(PefMakernote::WhiteBalanceMode)
        } else if value == 0x001b {
            Some(PefMakernote::BlueBalance)
        } else if value == 0x001c {
            Some(PefMakernote::RedBalance)
        } else if value == 0x001d {
            Some(PefMakernote::FocalLength)
        } else if value == 0x001e {
            Some(PefMakernote::DigitalZoom)
        } else if value == 0x001f {
            Some(PefMakernote::Saturation)
        } else if value == 0x0020 {
            Some(PefMakernote::Contrast)
        } else if value == 0x0021 {
            Some(PefMakernote::Sharpness)
        } else if value == 0x0022 {
            Some(PefMakernote::WordTimeLocation)
        } else if value == 0x0023 {
            Some(PefMakernote::HometownCity)
        } else if value == 0x0024 {
            Some(PefMakernote::DestinationCity)
        } else if value == 0x0025 {
            Some(PefMakernote::HometownDST)
        } else if value == 0x0026 {
            Some(PefMakernote::DestinationDST)
        } else if value == 0x0027 {
            Some(PefMakernote::DSPFirmwareVersion)
        } else if value == 0x0028 {
            Some(PefMakernote::CPUFirmwareVersion)
        } else if value == 0x0029 {
            Some(PefMakernote::FrameNumber)
        } else if value == 0x002d {
            Some(PefMakernote::EffectiveLV)
        } else if value == 0x0032 {
            Some(PefMakernote::ImageEditing)
        } else if value == 0x0033 {
            Some(PefMakernote::PictureMode2)
        } else if value == 0x0034 {
            Some(PefMakernote::DriveMode)
        } else if value == 0x0035 {
            Some(PefMakernote::SensorSize)
        } else if value == 0x0037 {
            Some(PefMakernote::ColorSpace)
        } else if value == 0x0038 {
            Some(PefMakernote::ImageAreaOffset)
        } else if value == 0x0039 {
            Some(PefMakernote::RawImageSize)
        } else if value == 0x003c {
            Some(PefMakernote::AFPointsInFocus2)
        } else if value == 0x003d {
            Some(PefMakernote::DataScaling)
        } else if value == 0x003e {
            Some(PefMakernote::PreviewImageBorders)
        } else if value == 0x003f {
            Some(PefMakernote::LensRec)
        } else if value == 0x0040 {
            Some(PefMakernote::SensitivityAdjust)
        } else if value == 0x0041 {
            Some(PefMakernote::ImageEditCount)
        } else if value == 0x0047 {
            Some(PefMakernote::CameraTemerature)
        } else if value == 0x0048 {
            Some(PefMakernote::AELock)
        } else if value == 0x0049 {
            Some(PefMakernote::NoiseReduction)
        } else if value == 0x004d {
            Some(PefMakernote::FlashExposureComp)
        } else if value == 0x004f {
            Some(PefMakernote::ImageTone)
        } else if value == 0x0050 {
            Some(PefMakernote::ColorTemperature)
        } else if value == 0x0053 {
            Some(PefMakernote::ColorTempDaylight)
        } else if value == 0x0054 {
            Some(PefMakernote::ColorTempShade)
        } else if value == 0x0055 {
            Some(PefMakernote::ColorTempCloudy)
        } else if value == 0x0056 {
            Some(PefMakernote::ColorTempTungsten)
        } else if value == 0x0057 {
            Some(PefMakernote::ColorTempFluorescentD)
        } else if value == 0x0058 {
            Some(PefMakernote::ColorTempFluorescentN)
        } else if value == 0x0059 {
            Some(PefMakernote::ColorTempFluorescentW)
        } else if value == 0x005a {
            Some(PefMakernote::ColorTempFlash)
        } else if value == 0x005c {
            Some(PefMakernote::ShakeReductionInfo)
        } else if value == 0x005d {
            Some(PefMakernote::ShutterCount)
        } else if value == 0x0060 {
            Some(PefMakernote::FaceInfo)
        } else if value == 0x0062 {
            Some(PefMakernote::RawDevelopmentProcess)
        } else if value == 0x0067 {
            Some(PefMakernote::Hue)
        } else if value == 0x0068 {
            Some(PefMakernote::AWBInfo)
        } else if value == 0x0069 {
            Some(PefMakernote::DynamicRangeExpansion)
        } else if value == 0x006b {
            Some(PefMakernote::TimeInfo)
        } else if value == 0x006c {
            Some(PefMakernote::HighLowKeyAdj)
        } else if value == 0x006d {
            Some(PefMakernote::ContastHighlight)
        } else if value == 0x006e {
            Some(PefMakernote::ContrastShadow)
        } else if value == 0x006f {
            Some(PefMakernote::ConstrastHightlightShadowAdj)
        } else if value == 0x0070 {
            Some(PefMakernote::FineSharpness)
        } else if value == 0x0071 {
            Some(PefMakernote::HighISONoiseReduction)
        } else if value == 0x0072 {
            Some(PefMakernote::AFAdjustment)
        } else if value == 0x0073 {
            Some(PefMakernote::MonochromeFilterEffect)
        } else if value == 0x0074 {
            Some(PefMakernote::MonochromeToning)
        } else if value == 0x0076 {
            Some(PefMakernote::FaceDetect)
        } else if value == 0x0077 {
            Some(PefMakernote::FaceDetectFrameIsze)
        } else if value == 0x0079 {
            Some(PefMakernote::ShadowCorrection)
        } else if value == 0x007a {
            Some(PefMakernote::ISOAutoParameters)
        } else if value == 0x007b {
            Some(PefMakernote::CrossProcess)
        } else if value == 0x007d {
            Some(PefMakernote::LensCorr)
        } else if value == 0x007e {
            Some(PefMakernote::WhiteLevel)
        } else if value == 0x007f {
            Some(PefMakernote::BleachBypassToning)
        } else if value == 0x0080 {
            Some(PefMakernote::AspectRatio)
        } else if value == 0x0082 {
            Some(PefMakernote::BlurControl)
        } else if value == 0x0085 {
            Some(PefMakernote::HDR)
        } else if value == 0x0087 {
            Some(PefMakernote::ShutterType)
        } else if value == 0x0088 {
            Some(PefMakernote::NeutralDensityFilter)
        } else if value == 0x008b {
            Some(PefMakernote::ISO2)
        } else if value == 0x0092 {
            Some(PefMakernote::IntervalShooting)
        } else if value == 0x0095 {
            Some(PefMakernote::SkinToneCorrection)
        } else if value == 0x0096 {
            Some(PefMakernote::ClarityControl)
        } else if value == 0x0200 {
            Some(PefMakernote::BlackPoint)
        } else if value == 0x0201 {
            Some(PefMakernote::WhitePoint)
        } else if value == 0x0203 {
            Some(PefMakernote::ColorMatrixA)
        } else if value == 0x0204 {
            Some(PefMakernote::ColorMatrixB)
        } else if value == 0x0205 {
            Some(PefMakernote::CameraSettings)
        } else if value == 0x0206 {
            Some(PefMakernote::AEInfo)
        } else if value == 0x0207 {
            Some(PefMakernote::LensInfo)
        } else if value == 0x0208 {
            Some(PefMakernote::FlashInfo)
        } else if value == 0x0209 {
            Some(PefMakernote::AEMeteringSegements)
        } else if value == 0x020a {
            Some(PefMakernote::FlashMeteringSegements)
        } else if value == 0x020b {
            Some(PefMakernote::SlaveFlashMeteringSegements)
        } else if value == 0x020d {
            Some(PefMakernote::WB_RGGBLevelsDaylight)
        } else if value == 0x020e {
            Some(PefMakernote::WB_RGGBLevelsShade)
        } else if value == 0x020f {
            Some(PefMakernote::WB_RGGBLevelsCloudy)
        } else if value == 0x0210 {
            Some(PefMakernote::WB_RGGBLevelsTungsten)
        } else if value == 0x0211 {
            Some(PefMakernote::WB_RGGBLevelsFluorescentD)
        } else if value == 0x0212 {
            Some(PefMakernote::WB_RGGBLevelsFluorescentN)
        } else if value == 0x0213 {
            Some(PefMakernote::WB_RGGBLevelsFluorescentW)
        } else if value == 0x0214 {
            Some(PefMakernote::WB_RGGBLevelsFlash)
        } else if value == 0x0215 {
            Some(PefMakernote::CameraInfo)
        } else if value == 0x0216 {
            Some(PefMakernote::BatteryInfo)
        } else if value == 0x021b {
            Some(PefMakernote::SaturationInfo)
        } else if value == 0x021c {
            Some(PefMakernote::ColorMatrixA2)
        } else if value == 0x021d {
            Some(PefMakernote::ColorMatrixB2)
        } else if value == 0x021f {
            Some(PefMakernote::AFInfo)
        } else if value == 0x0220 {
            Some(PefMakernote::HuffmanTable)
        } else if value == 0x0221 {
            Some(PefMakernote::KelvinWB)
        } else if value == 0x0222 {
            Some(PefMakernote::ColorInfo)
        } else if value == 0x0224 {
            Some(PefMakernote::EVStepInfo)
        } else if value == 0x0226 {
            Some(PefMakernote::ShotInfo)
        } else if value == 0x0227 {
            Some(PefMakernote::FacePos)
        } else if value == 0x0228 {
            Some(PefMakernote::FaceSize)
        } else if value == 0x0229 {
            Some(PefMakernote::SerialNumber)
        } else if value == 0x022a {
            Some(PefMakernote::FilterInfo)
        } else if value == 0x022b {
            Some(PefMakernote::LevelInfo)
        } else if value == 0x022d {
            Some(PefMakernote::WBLevels)
        } else if value == 0x022e {
            Some(PefMakernote::Artist)
        } else if value == 0x022f {
            Some(PefMakernote::Copyright)
        } else if value == 0x0230 {
            Some(PefMakernote::FirmwareVersion)
        } else if value == 0x0231 {
            Some(PefMakernote::ConstrastDetectAFArea)
        } else if value == 0x0235 {
            Some(PefMakernote::CrossProcessParams)
        } else if value == 0x0239 {
            Some(PefMakernote::LensInfoQ)
        } else if value == 0x023f {
            Some(PefMakernote::Model)
        } else if value == 0x0243 {
            Some(PefMakernote::PixelShiftInfo)
        } else if value == 0x0245 {
            Some(PefMakernote::AFPointInfo)
        } else if value == 0x03fe {
            Some(PefMakernote::DataDump)
        } else if value == 0x03ff {
            Some(PefMakernote::TempInfo)
        } else if value == 0x0402 {
            Some(PefMakernote::ToneCurve)
        } else if value == 0x0403 {
            Some(PefMakernote::ToneCurves)
        } else if value == 0x0405 {
            Some(PefMakernote::UnknownBlock)
        } else if value == 0x0e00 {
            Some(PefMakernote::PrintIM)
        } else {
            None
        }
    }

    /// The tag's number.
    pub fn value(self) -> (r: u16)
        ensures
            r == self.tag_number(),
    {
        match self {
            PefMakernote::PentaxVersion => 0x0000,
            PefMakernote::PentaxModelType => 0x0001,
            PefMakernote::PreviewImageSize => 0x0002,
            PefMakernote::PreviewImageLength => 0x0003,
            PefMakernote::PreviewImageStart => 0x0004,
            PefMakernote::PentaxModelId => 0x0005,
            PefMakernote::Date => 0x0006,
            PefMakernote::Time => 0x0007,
            PefMakernote::Quality => 0x0008,
            PefMakernote::PentaxImageSize => 0x0009,
            PefMakernote::PictureMode => 0x000b,
            PefMakernote::FlashMode => 0x000c,
            PefMakernote::FocusMode => 0x000d,
            PefMakernote::AFPointSelected => 0x000e,
            PefMakernote::AFPointsInFocus => 0x000f,
            PefMakernote::FocusPosition => 0x0010,
            PefMakernote::ExposureTime => 0x0012,
            PefMakernote::FNumber => 0x0013,
            PefMakernote::ISO => 0x0014,
            PefMakernote::LightReading => 0x0015,
            PefMakernote::ExposureCompensation => 0x0016,
            PefMakernote::MeteringMode => 0x0017,
            PefMakernote::AutoBracketing => 0x0018,
            PefMakernote::WhiteBalance => 0x0019,
            PefMakernote::WhiteBalanceMode => 0x001a,
            PefMakernote::BlueBalance => 0x001b,
            PefMakernote::RedBalance => 0x001c,
            PefMakernote::FocalLength => 0x001d,
            PefMakernote::DigitalZoom => 0x001e,
            PefMakernote::Saturation => 0x001f,
            PefMakernote::Contrast => 0x0020,
            PefMakernote::Sharpness => 0x0021,
            PefMakernote::WordTimeLocation => 0x0022,
            PefMakernote::HometownCity => 0x0023,
            PefMakernote::DestinationCity => 0x0024,
            PefMakernote::HometownDST => 0x0025,
            PefMakernote::DestinationDST => 0x0026,
            PefMakernote::DSPFirmwareVersion => 0x0027,
            PefMakernote::CPUFirmwareVersion => 0x0028,
            PefMakernote::FrameNumber => 0x0029,
            PefMakernote::EffectiveLV => 0x002d,
            PefMakernote::ImageEditing => 0x0032,
            PefMakernote::PictureMode2 => 0x0033,
            PefMakernote::DriveMode => 0x0034,
            PefMakernote::SensorSize => 0x0035,
            PefMakernote::ColorSpace => 0x0037,
            PefMakernote::ImageAreaOffset => 0x0038,
            PefMakernote::RawImageSize => 0x0039,
            PefMakernote::AFPointsInFocus2 => 0x003c,
            PefMakernote::DataScaling => 0x003d,
            PefMakernote::PreviewImageBorders => 0x003e,
            PefMakernote::LensRec => 0x003f,
            PefMakernote::SensitivityAdjust => 0x0040,
            PefMakernote::ImageEditCount => 0x0041,
            PefMakernote::CameraTemerature => 0x0047,
            PefMakernote::AELock => 0x0048,
            PefMakernote::NoiseReduction => 0x0049,
            PefMakernote::FlashExposureComp => 0x004d,
            PefMakernote::ImageTone => 0x004f,
            PefMakernote::ColorTemperature => 0x0050,
            PefMakernote::ColorTempDaylight => 0x0053,
            PefMakernote::ColorTempShade => 0x0054,
            PefMakernote::ColorTempCloudy => 0x0055,
            PefMakernote::ColorTempTungsten => 0x0056,
            PefMakernote::ColorTempFluorescentD => 0x0057,
            PefMakernote::ColorTempFluorescentN => 0x0058,
            PefMakernote::ColorTempFluorescentW => 0x0059,
            PefMakernote::ColorTempFlash => 0x005a,
            PefMakernote::ShakeReductionInfo => 0x005c,
            PefMakernote::ShutterCount => 0x005d,
            PefMakernote::FaceInfo => 0x0060,
            PefMakernote::RawDevelopmentProcess => 0x0062,
            PefMakernote::Hue => 0x0067,
            PefMakernote::AWBInfo => 0x0068,
            PefMakernote::DynamicRangeExpansion => 0x0069,
            PefMakernote::TimeInfo => 0x006b,
            PefMakernote::HighLowKeyAdj => 0x006c,
            PefMakernote::ContastHighlight => 0x006d,
            PefMakernote::ContrastShadow => 0x006e,
            PefMakernote::ConstrastHightlightShadowAdj => 0x006f,
            PefMakernote::FineSharpness => 0x0070,
            PefMakernote::HighISONoiseReduction => 0x0071,
            PefMakernote::AFAdjustment => 0x0072,
            PefMakernote::MonochromeFilterEffect => 0x0073,
            PefMakernote::MonochromeToning => 0x0074,
            PefMakernote::FaceDetect => 0x0076,
            PefMakernote::FaceDetectFrameIsze => 0x0077,
            PefMakernote::ShadowCorrection => 0x0079,
            PefMakernote::ISOAutoParameters => 0x007a,
            PefMakernote::CrossProcess => 0x007b,
            PefMakernote::LensCorr => 0x007d,
            PefMakernote::WhiteLevel => 0x007e,
            PefMakernote::BleachBypassToning => 0x007f,
            PefMakernote::AspectRatio => 0x0080,
            PefMakernote::BlurControl => 0x0082,
            PefMakernote::HDR => 0x0085,
            PefMakernote::ShutterType => 0x0087,
            PefMakernote::NeutralDensityFilter => 0x0088,
            PefMakernote::ISO2 => 0x008b,
            PefMakernote::IntervalShooting => 0x0092,
            PefMakernote::SkinToneCorrection => 0x0095,
            PefMakernote::ClarityControl => 0x0096,
            PefMakernote::BlackPoint => 0x0200,
            PefMakernote::WhitePoint => 0x0201,
            PefMakernote::ColorMatrixA => 0x0203,
            PefMakernote::ColorMatrixB => 0x0204,
            PefMakernote::CameraSettings => 0x0205,
            PefMakernote::AEInfo => 0x0206,
            PefMakernote::LensInfo => 0x0207,
            PefMakernote::FlashInfo => 0x0208,
            PefMakernote::AEMeteringSegements => 0x0209,
            PefMakernote::FlashMeteringSegements => 0x020a,
            PefMakernote::SlaveFlashMeteringSegements => 0x020b,
            PefMakernote::WB_RGGBLevelsDaylight => 0x020d,
            PefMakernote::WB_RGGBLevelsShade => 0x020e,
            PefMakernote::WB_RGGBLevelsCloudy => 0x020f,
            PefMakernote::WB_RGGBLevelsTungsten => 0x0210,
            PefMakernote::WB_RGGBLevelsFluorescentD => 0x0211,
            PefMakernote::WB_RGGBLevelsFluorescentN => 0x0212,
            PefMakernote::WB_RGGBLevelsFluorescentW => 0x0213,
            PefMakernote::WB_RGGBLevelsFlash => 0x0214,
            PefMakernote::CameraInfo => 0x0215,
            PefMakernote::BatteryInfo => 0x0216,
            PefMakernote::SaturationInfo => 0x021b,
            PefMakernote::ColorMatrixA2 => 0x021c,
            PefMakernote::ColorMatrixB2 => 0x021d,
            PefMakernote::AFInfo => 0x021f,
            PefMakernote::HuffmanTable => 0x0220,
            PefMakernote::KelvinWB => 0x0221,
            PefMakernote::ColorInfo => 0x0222,
            PefMakernote::EVStepInfo => 0x0224,
            PefMakernote::ShotInfo => 0x0226,
            PefMakernote::FacePos => 0x0227,
            PefMakernote::FaceSize => 0x0228,
            PefMakernote::SerialNumber => 0x0229,
            PefMakernote::FilterInfo => 0x022a,
            PefMakernote::LevelInfo => 0x022b,
            PefMakernote::WBLevels => 0x022d,
            PefMakernote::Artist => 0x022e,
            PefMakernote::Copyright => 0x022f,
            PefMakernote::FirmwareVersion => 0x0230,
            PefMakernote::ConstrastDetectAFArea => 0x0231,
            PefMakernote::CrossProcessParams => 0x0235,
            PefMakernote::LensInfoQ => 0x0239,
            PefMakernote::Model => 0x023f,
            PefMakernote::PixelShiftInfo => 0x0243,
            PefMakernote::AFPointInfo => 0x0245,
            PefMakernote::DataDump => 0x03fe,
            PefMakernote::TempInfo => 0x03ff,
            PefMakernote::ToneCurve => 0x0402,
            PefMakernote::ToneCurves => 0x0403,
            PefMakernote::UnknownBlock => 0x0405,
            PefMakernote::PrintIM => 0x0e00,
        }
    }

    /// The tag with number `value`, if there is one.
    pub fn n(value: u16) -> (r: Option<PefMakernote>)
        ensures
            r == Self::tag_of(value),
    {
        match value {
            0x0000 => Some(PefMakernote::PentaxVersion),
            0x0001 => Some(PefMakernote::PentaxModelType),
            0x0002 => Some(PefMakernote::PreviewImageSize),
            0x0003 => Some(PefMakernote::PreviewImageLength),
            0x0004 => Some(PefMakernote::PreviewImageStart),
            0x0005 => Some(PefMakernote::PentaxModelId),
            0x0006 => Some(PefMakernote::Date),
            0x0007 => Some(PefMakernote::Time),
            0x0008 => Some(PefMakernote::Quality),
            0x0009 => Some(PefMakernote::PentaxImageSize),
            0x000b => Some(PefMakernote::PictureMode),
            0x000c => Some(PefMakernote::FlashMode),
            0x000d => Some(PefMakernote::FocusMode),
            0x000e => Some(PefMakernote::AFPointSelected),
            0x000f => Some(PefMakernote::AFPointsInFocus),
            0x0010 => Some(PefMakernote::FocusPosition),
            0x0012 => Some(PefMakernote::ExposureTime),
            0x0013 => Some(PefMakernote::FNumber),
            0x0014 => Some(PefMakernote::ISO),
            0x0015 => Some(PefMakernote::LightReading),
            0x0016 => Some(PefMakernote::ExposureCompensation),
            0x0017 => Some(PefMakernote::MeteringMode),
            0x0018 => Some(PefMakernote::AutoBracketing),
            0x0019 => Some(PefMakernote::WhiteBalance),
            0x001a => Some(PefMakernote::WhiteBalanceMode),
            0x001b => Some(PefMakernote::BlueBalance),
            0x001c => Some(PefMakernote::RedBalance),
            0x001d => Some(PefMakernote::FocalLength),
            0x001e => Some(PefMakernote::DigitalZoom),
            0x001f => Some(PefMakernote::Saturation),
            0x0020 => Some(PefMakernote::Contrast),
            0x0021 => Some(PefMakernote::Sharpness),
            0x0022 => Some(PefMakernote::WordTimeLocation),
            0x0023 => Some(PefMakernote::HometownCity),
            0x0024 => Some(PefMakernote::DestinationCity),
            0x0025 => Some(PefMakernote::HometownDST),
            0x0026 => Some(PefMakernote::DestinationDST),
            0x0027 => Some(PefMakernote::DSPFirmwareVersion),
            0x0028 => Some(PefMakernote::CPUFirmwareVersion),
            0x0029 => Some(PefMakernote::FrameNumber),
            0x002d => Some(PefMakernote::EffectiveLV),
            0x0032 => Some(PefMakernote::ImageEditing),
            0x0033 => Some(PefMakernote::PictureMode2),
            0x0034 => Some(PefMakernote::DriveMode),
            0x0035 => Some(PefMakernote::SensorSize),
            0x0037 => Some(PefMakernote::ColorSpace),
            0x0038 => Some(PefMakernote::ImageAreaOffset),
            0x0039 => Some(PefMakernote::RawImageSize),
            0x003c => Some(PefMakernote::AFPointsInFocus2),
            0x003d => Some(PefMakernote::DataScaling),
            0x003e => Some(PefMakernote::PreviewImageBorders),
            0x003f => Some(PefMakernote::LensRec),
            0x0040 => Some(PefMakernote::SensitivityAdjust),
            0x0041 => Some(PefMakernote::ImageEditCount),
            0x0047 => Some(PefMakernote::CameraTemerature),
            0x0048 => Some(PefMakernote::AELock),
            0x0049 => Some(PefMakernote::NoiseReduction),
            0x004d => Some(PefMakernote::FlashExposureComp),
            0x004f => Some(PefMakernote::ImageTone),
            0x0050 => Some(PefMakernote::ColorTemperature),
            0x0053 => Some(PefMakernote::ColorTempDaylight),
            0x0054 => Some(PefMakernote::ColorTempShade),
            0x0055 => Some(PefMakernote::ColorTempCloudy),
            0x0056 => Some(PefMakernote::ColorTempTungsten),
            0x0057 => Some(PefMakernote::ColorTempFluorescentD),
            0x0058 => Some(PefMakernote::ColorTempFluorescentN),
            0x0059 => Some(PefMakernote::ColorTempFluorescentW),
            0x005a => Some(PefMakernote::ColorTempFlash),
            0x005c => Some(PefMakernote::ShakeReductionInfo),
            0x005d => Some(PefMakernote::ShutterCount),
            0x0060 => Some(PefMakernote::FaceInfo),
            0x0062 => Some(PefMakernote::RawDevelopmentProcess),
            0x0067 => Some(PefMakernote::Hue),
            0x0068 => Some(PefMakernote::AWBInfo),
            0x0069 => Some(PefMakernote::DynamicRangeExpansion),
            0x006b => Some(PefMakernote::TimeInfo),
            0x006c => Some(PefMakernote::HighLowKeyAdj),
            0x006d => Some(PefMakernote::ContastHighlight),
            0x006e => Some(PefMakernote::ContrastShadow),
            0x006f => Some(PefMakernote::ConstrastHightlightShadowAdj),
            0x0070 => Some(PefMakernote::FineSharpness),
            0x0071 => Some(PefMakernote::HighISONoiseReduction),
            0x0072 => Some(PefMakernote::AFAdjustment),
            0x0073 => Some(PefMakernote::MonochromeFilterEffect),
            0x0074 => Some(PefMakernote::MonochromeToning),
            0x0076 => Some(PefMakernote::FaceDetect),
            0x0077 => Some(PefMakernote::FaceDetectFrameIsze),
            0x0079 => Some(PefMakernote::ShadowCorrection),
            0x007a => Some(PefMakernote::ISOAutoParameters),
            0x007b => Some(PefMakernote::CrossProcess),
            0x007d => Some(PefMakernote::LensCorr),
            0x007e => Some(PefMakernote::WhiteLevel),
            0x007f => Some(PefMakernote::BleachBypassToning),
            0x0080 => Some(PefMakernote::AspectRatio),
            0x0082 => Some(PefMakernote::BlurControl),
            0x0085 => Some(PefMakernote::HDR),
            0x0087 => Some(PefMakernote::ShutterType),
            0x0088 => Some(PefMakernote::NeutralDensityFilter),
            0x008b => Some(PefMakernote::ISO2),
            0x0092 => Some(PefMakernote::IntervalShooting),
            0x0095 => Some(PefMakernote::SkinToneCorrection),
            0x0096 => Some(PefMakernote::ClarityControl),
            0x0200 => Some(PefMakernote::BlackPoint),
            0x0201 => Some(PefMakernote::WhitePoint),
            0x0203 => Some(PefMakernote::ColorMatrixA),
            0x0204 => Some(PefMakernote::ColorMatrixB),
            0x0205 => Some(PefMakernote::CameraSettings),
            0x0206 => Some(PefMakernote::AEInfo),
            0x0207 => Some(PefMakernote::LensInfo),
            0x0208 => Some(PefMakernote::FlashInfo),
            0x0209 => Some(PefMakernote::AEMeteringSegements),
            0x020a => Some(PefMakernote::FlashMeteringSegements),
            0x020b => Some(PefMakernote::SlaveFlashMeteringSegements),
            0x020d => Some(PefMakernote::WB_RGGBLevelsDaylight),
            0x020e => Some(PefMakernote::WB_RGGBLevelsShade),
            0x020f => Some(PefMakernote::WB_RGGBLevelsCloudy),
            0x0210 => Some(PefMakernote::WB_RGGBLevelsTungsten),
            0x0211 => Some(PefMakernote::WB_RGGBLevelsFluorescentD),
            0x0212 => Some(PefMakernote::WB_RGGBLevelsFluorescentN),
            0x0213 => Some(PefMakernote::WB_RGGBLevelsFluorescentW),
            0x0214 => Some(PefMakernote::WB_RGGBLevelsFlash),
            0x0215 => Some(PefMakernote::CameraInfo),
            0x0216 => Some(PefMakernote::BatteryInfo),
            0x021b => Some(PefMakernote::SaturationInfo),
            0x021c => Some(PefMakernote::ColorMatrixA2),
            0x021d => Some(PefMakernote::ColorMatrixB2),
            0x021f => Some(PefMakernote::AFInfo),
            0x0220 => Some(PefMakernote::HuffmanTable),
            0x0221 => Some(PefMakernote::KelvinWB),
            0x0222 => Some(PefMakernote::ColorInfo),
            0x0224 => Some(PefMakernote::EVStepInfo),
            0x0226 => Some(PefMakernote::ShotInfo),
            0x0227 => Some(PefMakernote::FacePos),
            0x0228 => Some(PefMakernote::FaceSize),
            0x0229 => Some(PefMakernote::SerialNumber),
            0x022a => Some(PefMakernote::FilterInfo),
            0x022b => Some(PefMakernote::LevelInfo),
            0x022d => Some(PefMakernote::WBLevels),
            0x022e => Some(PefMakernote::Artist),
            0x022f => Some(PefMakernote::Copyright),
            0x0230 => Some(PefMakernote::FirmwareVersion),
            0x0231 => Some(PefMakernote::ConstrastDetectAFArea),
            0x0235 => Some(PefMakernote::CrossProcessParams),
            0x0239 => Some(PefMakernote::LensInfoQ),
            0x023f => Some(PefMakernote::Model),
            0x0243 => Some(PefMakernote::PixelShiftInfo),
            0x0245 => Some(PefMakernote::AFPointInfo),
            0x03fe => Some(PefMakernote::DataDump),
            0x03ff => Some(PefMakernote::TempInfo),
            0x0402 => Some(PefMakernote::ToneCurve),
            0x0403 => Some(PefMakernote::ToneCurves),
            0x0405 => Some(PefMakernote::UnknownBlock),
            0x0e00 => Some(PefMakernote::PrintIM),
            _ => None,
        }
    }

    /// A tag is found again from its number, and a number names only
    /// the tag that has it.
    pub proof fn lemma_tag_roundtrip(self, value: u16)
        ensures
            Self::tag_of(self.tag_number()) == Some(self),
            Self::tag_of(value) matches Some(t) ==> t.tag_number() == value,
    {
    }
}

impl From<PefMakernote> for u16 {
    fn from(tag: PefMakernote) -> (r: u16) {
        tag.value()
    }
}

impl vstd::std_specs::convert::FromSpecImpl<PefMakernote> for u16 {
    open spec fn obeys_from_spec() -> bool {
        true
    }

    open spec fn from_spec(tag: PefMakernote) -> u16 {
        tag.tag_number()
    }
}


/// Whether the EXIF tag `tag` is one that a PEF file's own EXIF data
/// passes on: exposure time (0x829a), f-number (0x829d), ISO speed
/// ratings (0x8827), sensitivity type (0x8830), recommended exposure index
/// (0x8832), ISO speed (0x8833), focal length (0x920a), exposure bias
/// (0x9204), original and digitized date (0x9003, 0x9004), the three time
/// offsets (0x9010, 0x9012, 0x9011), owner name (0xa430), lens and body
/// serial numbers (0xa435, 0xa431), exposure program (0x8822), metering
/// mode (0x9207), flash (0x9209), exposure mode (0xa402), white balance
/// (0xa403), scene capture type (0xa406) and shutter speed (0x9201).
pub open spec fn is_transfer_tag(tag: u16) -> bool {
    ||| tag == 0x829a
    ||| tag == 0x829d
    ||| tag == 0x8827
    ||| tag == 0x8830
    ||| tag == 0x8832
    ||| tag == 0x8833
    ||| tag == 0x920a
    ||| tag == 0x9204
    ||| tag == 0x9003
    ||| tag == 0x9004
    ||| tag == 0x9010
    ||| tag == 0x9012
    ||| tag == 0x9011
    ||| tag == 0xa430
    ||| tag == 0xa435
    ||| tag == 0xa431
    ||| tag == 0x8822
    ||| tag == 0x9207
    ||| tag == 0x9209
    ||| tag == 0xa402
    ||| tag == 0xa403
    ||| tag == 0xa406
    ||| tag == 0x9201
}

/// Whether the EXIF tag `tag` is passed on.
pub fn transfer_exif_tag(tag: u16) -> (r: bool)
    ensures
        r == is_transfer_tag(tag),
{
    match tag {
        0x829a | 0x829d | 0x8827 | 0x8830 | 0x8832 | 0x8833 | 0x920a | 0x9204 | 0x9003 | 0x9004
        | 0x9010 | 0x9012 | 0x9011 | 0xa430 | 0xa435 | 0xa431 | 0x8822 | 0x9207 | 0x9209
        | 0xa402 | 0xa403 | 0xa406 | 0x9201 => true,
        _ => false,
    }
}

} // verus!
