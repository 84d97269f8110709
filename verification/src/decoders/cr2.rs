//! Canon CR2 metadata: the makernote tags and the COLORDATA layouts.

pub mod colordata;
pub mod firmware;
pub mod layout;
pub mod sraw;
pub mod stripes;

use vstd::prelude::*;

verus! {

/// Tags of the Canon CR2 makernote.
#[derive(Debug, Copy, Clone, PartialEq, Eq, Structural)]
#[allow(non_camel_case_types)]
pub enum Cr2MakernoteTag {
    CameraSettings,
    FocalLen,
    FlashInfo,
    ShotInfo,
    Panorama,
    ImageType,
    FirmareVer,
    FileNumber,
    OwnerName,
    UnknownD30,
    SerialNum,
    CameraInfo,
    FileLen,
    CustomFunc,
    ModelId,
    MovieInfo,
    AFInfo,
    ThumbArea,
    SerialFormat,
    SuperMacro,
    DateStampMode,
    MyColors,
    FirmwareRev,
    Categories,
    FaceDetect1,
    FaceDetect2,
    AFInfo2,
    ContrastInfo,
    ImgUniqueID,
    WBInfo,
    FaceDetect3,
    TimeInfo,
    BatteryType,
    AFInfo3,
    RawDataOffset,
    OrigDecisionDataOffset,
    CustomFunc1D,
    PersFunc,
    PersFuncValues,
    FileInfo,
    AFPointsInFocus1D,
    LensModel,
    InternalSerial,
    DustRemovalData,
    CropInfo,
    CustomFunc2,
    AspectInfo,
    ProcessingInfo,
    ToneCurveTable,
    SharpnessTable,
    SharpnessFreqTable,
    WhiteBalanceTable,
    ColorBalance,
    MeasuredColor,
    ColorTemp,
    CanonFlags,
    ModifiedInfo,
    TnoeCurveMatching,
    WhiteBalanceMatching,
    ColorSpace,
    PreviewImageInfo,
    VRDOffset,
    SensorInfo,
    ColorData,
    CRWParam,
    ColorInfo,
    Flavor,
    PictureStyleUserDef,
    PictureStylePC,
    CustomPictureStyleFileName,
    AFMicroAdj,
    VignettingCorr,
    VignettingCorr2,
    LightningOpt,
    LensInfo,
    AmbienceInfo,
    MultiExp,
    FilterInfo,
    HDRInfo,
    AFConfig,
    RawBurstModeRoll,
}

impl Cr2MakernoteTag {
    /// The tag's number.
    pub open spec fn tag_number(self) -> u16 {
        match self {
            Cr2MakernoteTag::CameraSettings => 0x0001u16,
            Cr2MakernoteTag::FocalLen => 0x0002u16,
            Cr2MakernoteTag::FlashInfo => 0x0003u16,
            Cr2MakernoteTag::ShotInfo => 0x0004u16,
            Cr2MakernoteTag::Panorama => 0x0005u16,
            Cr2MakernoteTag::ImageType => 0x0006u16,
            Cr2MakernoteTag::FirmareVer => 0x0007u16,
            Cr2MakernoteTag::FileNumber => 0x0008u16,
            Cr2MakernoteTag::OwnerName => 0x0009u16,
            Cr2MakernoteTag::UnknownD30 => 0x000au16,
            Cr2MakernoteTag::SerialNum => 0x000cu16,
            Cr2MakernoteTag::CameraInfo => 0x000du16,
            Cr2MakernoteTag::FileLen => 0x000eu16,
            Cr2MakernoteTag::CustomFunc => 0x000fu16,
            Cr2MakernoteTag::ModelId => 0x0010u16,
            Cr2MakernoteTag::MovieInfo => 0x0011u16,
            Cr2MakernoteTag::AFInfo => 0x0012u16,
            Cr2MakernoteTag::ThumbArea => 0x0013u16,
            Cr2MakernoteTag::SerialFormat => 0x0014u16,
            Cr2MakernoteTag::SuperMacro => 0x001au16,
            Cr2MakernoteTag::DateStampMode => 0x001cu16,
            Cr2MakernoteTag::MyColors => 0x001du16,
            Cr2MakernoteTag::FirmwareRev => 0x001eu16,
            Cr2MakernoteTag::Categories => 0x0023u16,
            Cr2MakernoteTag::FaceDetect1 => 0x0024u16,
            Cr2MakernoteTag::FaceDetect2 => 0x0025u16,
            Cr2MakernoteTag::AFInfo2 => 0x0026u16,
            Cr2MakernoteTag::ContrastInfo => 0x0027u16,
            Cr2MakernoteTag::ImgUniqueID => 0x0028u16,
            Cr2MakernoteTag::WBInfo => 0x0029u16,
            Cr2MakernoteTag::FaceDetect3 => 0x002fu16,
            Cr2MakernoteTag::TimeInfo => 0x0035u16,
            Cr2MakernoteTag::BatteryType => 0x0038u16,
            Cr2MakernoteTag::AFInfo3 => 0x003cu16,
            Cr2MakernoteTag::RawDataOffset => 0x0081u16,
            Cr2MakernoteTag::OrigDecisionDataOffset => 0x0083u16,
            Cr2MakernoteTag::CustomFunc1D => 0x0090u16,
            Cr2MakernoteTag::PersFunc => 0x0091u16,
            Cr2MakernoteTag::PersFuncValues => 0x0092u16,
            Cr2MakernoteTag::FileInfo => 0x0093u16,
            Cr2MakernoteTag::AFPointsInFocus1D => 0x0094u16,
            Cr2MakernoteTag::LensModel => 0x0095u16,
            Cr2MakernoteTag::InternalSerial => 0x0096u16,
            Cr2MakernoteTag::DustRemovalData => 0x0097u16,
            Cr2MakernoteTag::CropInfo => 0x0098u16,
            Cr2MakernoteTag::CustomFunc2 => 0x0099u16,
            Cr2MakernoteTag::AspectInfo => 0x009au16,
            Cr2MakernoteTag::ProcessingInfo => 0x00a0u16,
            Cr2MakernoteTag::ToneCurveTable => 0x00a1u16,
            Cr2MakernoteTag::SharpnessTable => 0x00a2u16,
            Cr2MakernoteTag::SharpnessFreqTable => 0x00a3u16,
            Cr2MakernoteTag::WhiteBalanceTable => 0x00a4u16,
            Cr2MakernoteTag::ColorBalance => 0x00a9u16,
            Cr2MakernoteTag::MeasuredColor => 0x00aau16,
            Cr2MakernoteTag::ColorTemp => 0x00aeu16,
            Cr2MakernoteTag::CanonFlags => 0x00b0u16,
            Cr2MakernoteTag::ModifiedInfo => 0x00b1u16,
            Cr2MakernoteTag::TnoeCurveMatching => 0x00b2u16,
            Cr2MakernoteTag::WhiteBalanceMatching => 0x00b3u16,
            Cr2MakernoteTag::ColorSpace => 0x00b4u16,
            Cr2MakernoteTag::PreviewImageInfo => 0x00b6u16,
            Cr2MakernoteTag::VRDOffset => 0x00d0u16,
            Cr2MakernoteTag::SensorInfo => 0x00e0u16,
            Cr2MakernoteTag::ColorData => 0x4001u16,
            Cr2MakernoteTag::CRWParam => 0x4002u16,
            Cr2MakernoteTag::ColorInfo => 0x4003u16,
            Cr2MakernoteTag::Flavor => 0x4005u16,
            Cr2MakernoteTag::PictureStyleUserDef => 0x4008u16,
            Cr2MakernoteTag::PictureStylePC => 0x4009u16,
            Cr2MakernoteTag::CustomPictureStyleFileName => 0x4010u16,
            Cr2MakernoteTag::AFMicroAdj => 0x4013u16,
            Cr2MakernoteTag::VignettingCorr => 0x4015u16,
            Cr2MakernoteTag::VignettingCorr2 => 0x4016u16,
            Cr2MakernoteTag::LightningOpt => 0x4018u16,
            Cr2MakernoteTag::LensInfo => 0x4019u16,
            Cr2MakernoteTag::AmbienceInfo => 0x4020u16,
            Cr2MakernoteTag::MultiExp => 0x4021u16,
            Cr2MakernoteTag::FilterInfo => 0x4024u16,
            Cr2MakernoteTag::HDRInfo => 0x4025u16,
            Cr2MakernoteTag::AFConfig => 0x4028u16,
            Cr2MakernoteTag::RawBurstModeRoll => 0x403fu16,
        }
    }

    /// The tag with number `value`, if there is one.
    pub open spec fn tag_of(value: u16) -> Option<Cr2MakernoteTag> {
        if value == 0x0001 {
            Some(Cr2MakernoteTag::CameraSettings)
        } else if value == 0x0002 {
            Some(Cr2MakernoteTag::FocalLen)
        } else if value == 0x0003 {
            Some(Cr2MakernoteTag::FlashInfo)
        } else if value == 0x0004 {
            Some(Cr2MakernoteTag::ShotInfo)
        } else if value == 0x0005 {
            Some(Cr2MakernoteTag::Panorama)
        } else if value == 0x0006 {
            Some(Cr2MakernoteTag::ImageType)
        } else if value == 0x0007 {
            Some(Cr2MakernoteTag::FirmareVer)
        } else if value == 0x0008 {
            Some(Cr2MakernoteTag::FileNumber)
        } else if value == 0x0009 {
            Some(Cr2MakernoteTag::OwnerName)
        } else if value == 0x000a {
            Some(Cr2MakernoteTag::UnknownD30)
        } else if value == 0x000c {
            Some(Cr2MakernoteTag::SerialNum)
        } else if value == 0x000d {
            Some(Cr2MakernoteTag::CameraInfo)
        } else if value == 0x000e {
            Some(Cr2MakernoteTag::FileLen)
        } else if value == 0x000f {
            Some(Cr2MakernoteTag::CustomFunc)
        } else if value == 0x0010 {
            Some(Cr2MakernoteTag::ModelId)
        } else if value == 0x0011 {
            Some(Cr2MakernoteTag::MovieInfo)
        } else if value == 0x0012 {
            Some(Cr2MakernoteTag::AFInfo)
        } else if value == 0x0013 {
            Some(Cr2MakernoteTag::ThumbArea)
        } else if value == 0x0014 {
            Some(Cr2MakernoteTag::SerialFormat)
        } else if value == 0x001a {
            Some(Cr2MakernoteTag::SuperMacro)
        } else if value == 0x001c {
            Some(Cr2MakernoteTag::DateStampMode)
        } else if value == 0x001d {
            Some(Cr2MakernoteTag::MyColors)
        } else if value == 0x001e {
            Some(Cr2MakernoteTag::FirmwareRev)
        } else if value == 0x0023 {
            Some(Cr2MakernoteTag::Categories)
        } else if value == 0x0024 {
            Some(Cr2MakernoteTag::FaceDetect1)
        } else if value == 0x0025 {
            Some(Cr2MakernoteTag::FaceDetect2)
        } else if value == 0x0026 {
            Some(Cr2MakernoteTag::AFInfo2)
        } else if value == 0x0027 {
            Some(Cr2MakernoteTag::ContrastInfo)
        } else if value == 0x0028 {
            Some(Cr2MakernoteTag::ImgUniqueID)
        } else if value == 0x0029 {
            Some(Cr2MakernoteTag::WBInfo)
        } else if value == 0x002f {
            Some(Cr2MakernoteTag::FaceDetect3)
        } else if value == 0x0035 {
            Some(Cr2MakernoteTag::TimeInfo)
        } else if value == 0x0038 {
            Some(Cr2MakernoteTag::BatteryType)
        } else if value == 0x003c {
            Some(Cr2MakernoteTag::AFInfo3)
        } else if value == 0x0081 {
            Some(Cr2MakernoteTag::RawDataOffset)
        } else if value == 0x0083 {
            Some(Cr2MakernoteTag::OrigDecisionDataOffset)
        } else if value == 0x0090 {
            Some(Cr2MakernoteTag::CustomFunc1D)
        } else if value == 0x0091 {
            Some(Cr2MakernoteTag::PersFunc)
        } else if value == 0x0092 {
            Some(Cr2MakernoteTag::PersFuncValues)
        } else if value == 0x0093 {
            Some(Cr2MakernoteTag::FileInfo)
        } else if value == 0x0094 {
            Some(Cr2MakernoteTag::AFPointsInFocus1D)
        } else if value == 0x0095 {
            Some(Cr2MakernoteTag::LensModel)
        } else if value == 0x0096 {
            Some(Cr2MakernoteTag::InternalSerial)
        } else if value == 0x0097 {
            Some(Cr2MakernoteTag::DustRemovalData)
        } else if value == 0x0098 {
            Some(Cr2MakernoteTag::CropInfo)
        } else if value == 0x0099 {
            Some(Cr2MakernoteTag::CustomFunc2)
        } else if value == 0x009a {
            Some(Cr2MakernoteTag::AspectInfo)
        } else if value == 0x00a0 {
            Some(Cr2MakernoteTag::ProcessingInfo)
        } else if value == 0x00a1 {
            Some(Cr2MakernoteTag::ToneCurveTable)
        } else if value == 0x00a2 {
            Some(Cr2MakernoteTag::SharpnessTable)
        } else if value == 0x00a3 {
            Some(Cr2MakernoteTag::SharpnessFreqTable)
        } else if value == 0x00a4 {
            Some(Cr2MakernoteTag::WhiteBalanceTable)
        } else if value == 0x00a9 {
            Some(Cr2MakernoteTag::ColorBalance)
        } else if value == 0x00aa {
            Some(Cr2MakernoteTag::MeasuredColor)
        } else if value == 0x00ae {
            Some(Cr2MakernoteTag::ColorTemp)
        } else if value == 0x00b0 {
            Some(Cr2MakernoteTag::CanonFlags)
        } else if value == 0x00b1 {
            Some(Cr2MakernoteTag::ModifiedInfo)
        } else if value == 0x00b2 {
            Some(Cr2MakernoteTag::TnoeCurveMatching)
        } else if value == 0x00b3 {
            Some(Cr2MakernoteTag::WhiteBalanceMatching)
        } else if value == 0x00b4 {
            Some(Cr2MakernoteTag::ColorSpace)
        } else if value == 0x00b6 {
            Some(Cr2MakernoteTag::PreviewImageInfo)
        } else if value == 0x00d0 {
            Some(Cr2MakernoteTag::VRDOffset)
        } else if value == 0x00e0 {
            Some(Cr2MakernoteTag::SensorInfo)
        } else if value == 0x4001 {
            Some(Cr2MakernoteTag::ColorData)
        } else if value == 0x4002 {
            Some(Cr2MakernoteTag::CRWParam)
        } else if value == 0x4003 {
            Some(Cr2MakernoteTag::ColorInfo)
        } else if value == 0x4005 {
            Some(Cr2MakernoteTag::Flavor)
        } else if value == 0x4008 {
            Some(Cr2MakernoteTag::PictureStyleUserDef)
        } else if value == 0x4009 {
            Some(Cr2MakernoteTag::PictureStylePC)
        } else if value == 0x4010 {
            Some(Cr2MakernoteTag::CustomPictureStyleFileName)
        } else if value == 0x4013 {
            Some(Cr2MakernoteTag::AFMicroAdj)
        } else if value == 0x4015 {
            Some(Cr2MakernoteTag::VignettingCorr)
        } else if value == 0x4016 {
            Some(Cr2MakernoteTag::VignettingCorr2)
        } else if value == 0x4018 {
            Some(Cr2MakernoteTag::LightningOpt)
        } else if value == 0x4019 {
            Some(Cr2MakernoteTag::LensInfo)
        } else if value == 0x4020 {
            Some(Cr2MakernoteTag::AmbienceInfo)
        } else if value == 0x4021 {
            Some(Cr2MakernoteTag::MultiExp)
        } else if value == 0x4024 {
            Some(Cr2MakernoteTag::FilterInfo)
        } else if value == 0x4025 {
            Some(Cr2MakernoteTag::HDRInfo)
        } else if value == 0x4028 {
            Some(Cr2MakernoteTag::AFConfig)
        } else if value == 0x403f {
            Some(Cr2MakernoteTag::RawBurstModeRoll)
        } else {
            None
        }
    }

    /// The tag's number.
    pub fn value(self) -> (r: u16)
        ensures
            r == self.tag_number(),
    {
        match self {
            Cr2MakernoteTag::CameraSettings => 0x0001,
            Cr2MakernoteTag::FocalLen => 0x0002,
            Cr2MakernoteTag::FlashInfo => 0x0003,
            Cr2MakernoteTag::ShotInfo => 0x0004,
            Cr2MakernoteTag::Panorama => 0x0005,
            Cr2MakernoteTag::ImageType => 0x0006,
            Cr2MakernoteTag::FirmareVer => 0x0007,
            Cr2MakernoteTag::FileNumber => 0x0008,
            Cr2MakernoteTag::OwnerName => 0x0009,
            Cr2MakernoteTag::UnknownD30 => 0x000a,
            Cr2MakernoteTag::SerialNum => 0x000c,
            Cr2MakernoteTag::CameraInfo => 0x000d,
            Cr2MakernoteTag::FileLen => 0x000e,
            Cr2MakernoteTag::CustomFunc => 0x000f,
            Cr2MakernoteTag::ModelId => 0x0010,
            Cr2MakernoteTag::MovieInfo => 0x0011,
            Cr2MakernoteTag::AFInfo => 0x0012,
            Cr2MakernoteTag::ThumbArea => 0x0013,
            Cr2MakernoteTag::SerialFormat => 0x0014,
            Cr2MakernoteTag::SuperMacro => 0x001a,
            Cr2MakernoteTag::DateStampMode => 0x001c,
            Cr2MakernoteTag::MyColors => 0x001d,
            Cr2MakernoteTag::FirmwareRev => 0x001e,
            Cr2MakernoteTag::Categories => 0x0023,
            Cr2MakernoteTag::FaceDetect1 => 0x0024,
            Cr2MakernoteTag::FaceDetect2 => 0x0025,
            Cr2MakernoteTag::AFInfo2 => 0x0026,
            Cr2MakernoteTag::ContrastInfo => 0x0027,
            Cr2MakernoteTag::ImgUniqueID => 0x0028,
            Cr2MakernoteTag::WBInfo => 0x0029,
            Cr2MakernoteTag::FaceDetect3 => 0x002f,
            Cr2MakernoteTag::TimeInfo => 0x0035,
            Cr2MakernoteTag::BatteryType => 0x0038,
            Cr2MakernoteTag::AFInfo3 => 0x003c,
            Cr2MakernoteTag::RawDataOffset => 0x0081,
            Cr2MakernoteTag::OrigDecisionDataOffset => 0x0083,
            Cr2MakernoteTag::CustomFunc1D => 0x0090,
            Cr2MakernoteTag::PersFunc => 0x0091,
            Cr2MakernoteTag::PersFuncValues => 0x0092,
            Cr2MakernoteTag::FileInfo => 0x0093,
            Cr2MakernoteTag::AFPointsInFocus1D => 0x0094,
            Cr2MakernoteTag::LensModel => 0x0095,
            Cr2MakernoteTag::InternalSerial => 0x0096,
            Cr2MakernoteTag::DustRemovalData => 0x0097,
            Cr2MakernoteTag::CropInfo => 0x0098,
            Cr2MakernoteTag::CustomFunc2 => 0x0099,
            Cr2MakernoteTag::AspectInfo => 0x009a,
            Cr2MakernoteTag::ProcessingInfo => 0x00a0,
            Cr2MakernoteTag::ToneCurveTable => 0x00a1,
            Cr2MakernoteTag::SharpnessTable => 0x00a2,
            Cr2MakernoteTag::SharpnessFreqTable => 0x00a3,
            Cr2MakernoteTag::WhiteBalanceTable => 0x00a4,
            Cr2MakernoteTag::ColorBalance => 0x00a9,
            Cr2MakernoteTag::MeasuredColor => 0x00aa,
            Cr2MakernoteTag::ColorTemp => 0x00ae,
            Cr2MakernoteTag::CanonFlags => 0x00b0,
            Cr2MakernoteTag::ModifiedInfo => 0x00b1,
            Cr2MakernoteTag::TnoeCurveMatching => 0x00b2,
            Cr2MakernoteTag::WhiteBalanceMatching => 0x00b3,
            Cr2MakernoteTag::ColorSpace => 0x00b4,
            Cr2MakernoteTag::PreviewImageInfo => 0x00b6,
            Cr2MakernoteTag::VRDOffset => 0x00d0,
            Cr2MakernoteTag::SensorInfo => 0x00e0,
            Cr2MakernoteTag::ColorData => 0x4001,
            Cr2MakernoteTag::CRWParam => 0x4002,
            Cr2MakernoteTag::ColorInfo => 0x4003,
            Cr2MakernoteTag::Flavor => 0x4005,
            Cr2MakernoteTag::PictureStyleUserDef => 0x4008,
            Cr2MakernoteTag::PictureStylePC => 0x4009,
            Cr2MakernoteTag::CustomPictureStyleFileName => 0x4010,
            Cr2MakernoteTag::AFMicroAdj => 0x4013,
            Cr2MakernoteTag::VignettingCorr => 0x4015,
            Cr2MakernoteTag::VignettingCorr2 => 0x4016,
            Cr2MakernoteTag::LightningOpt => 0x4018,
            Cr2MakernoteTag::LensInfo => 0x4019,
            Cr2MakernoteTag::AmbienceInfo => 0x4020,
            Cr2MakernoteTag::MultiExp => 0x4021,
            Cr2MakernoteTag::FilterInfo => 0x4024,
            Cr2MakernoteTag::HDRInfo => 0x4025,
            Cr2MakernoteTag::AFConfig => 0x4028,
            Cr2MakernoteTag::RawBurstModeRoll => 0x403f,
        }
    }

    /// The tag with number `value`, if there is one.
    pub fn n(value: u16) -> (r: Option<Cr2MakernoteTag>)
        ensures
            r == Self::tag_of(value),
    {
        match value {
            0x0001 => Some(Cr2MakernoteTag::CameraSettings),
            0x0002 => Some(Cr2MakernoteTag::FocalLen),
            0x0003 => Some(Cr2MakernoteTag::FlashInfo),
            0x0004 => Some(Cr2MakernoteTag::ShotInfo),
            0x0005 => Some(Cr2MakernoteTag::Panorama),
            0x0006 => Some(Cr2MakernoteTag::ImageType),
            0x0007 => Some(Cr2MakernoteTag::FirmareVer),
            0x0008 => Some(Cr2MakernoteTag::FileNumber),
            0x0009 => Some(Cr2MakernoteTag::OwnerName),
            0x000a => Some(Cr2MakernoteTag::UnknownD30),
            0x000c => Some(Cr2MakernoteTag::SerialNum),
            0x000d => Some(Cr2MakernoteTag::CameraInfo),
            0x000e => Some(Cr2MakernoteTag::FileLen),
            0x000f => Some(Cr2MakernoteTag::CustomFunc),
            0x0010 => Some(Cr2MakernoteTag::ModelId),
            0x0011 => Some(Cr2MakernoteTag::MovieInfo),
            0x0012 => Some(Cr2MakernoteTag::AFInfo),
            0x0013 => Some(Cr2MakernoteTag::ThumbArea),
            0x0014 => Some(Cr2MakernoteTag::SerialFormat),
            0x001a => Some(Cr2MakernoteTag::SuperMacro),
            0x001c => Some(Cr2MakernoteTag::DateStampMode),
            0x001d => Some(Cr2MakernoteTag::MyColors),
            0x001e => Some(Cr2MakernoteTag::FirmwareRev),
            0x0023 => Some(Cr2MakernoteTag::Categories),
            0x0024 => Some(Cr2MakernoteTag::FaceDetect1),
            0x0025 => Some(Cr2MakernoteTag::FaceDetect2),
            0x0026 => Some(Cr2MakernoteTag::AFInfo2),
            0x0027 => Some(Cr2MakernoteTag::ContrastInfo),
            0x0028 => Some(Cr2MakernoteTag::ImgUniqueID),
            0x0029 => Some(Cr2MakernoteTag::WBInfo),
            0x002f => Some(Cr2MakernoteTag::FaceDetect3),
            0x0035 => Some(Cr2MakernoteTag::TimeInfo),
            0x0038 => Some(Cr2MakernoteTag::BatteryType),
            0x003c => Some(Cr2MakernoteTag::AFInfo3),
            0x0081 => Some(Cr2MakernoteTag::RawDataOffset),
            0x0083 => Some(Cr2MakernoteTag::OrigDecisionDataOffset),
            0x0090 => Some(Cr2MakernoteTag::CustomFunc1D),
            0x0091 => Some(Cr2MakernoteTag::PersFunc),
            0x0092 => Some(Cr2MakernoteTag::PersFuncValues),
            0x0093 => Some(Cr2MakernoteTag::FileInfo),
            0x0094 => Some(Cr2MakernoteTag::AFPointsInFocus1D),
            0x0095 => Some(Cr2MakernoteTag::LensModel),
            0x0096 => Some(Cr2MakernoteTag::InternalSerial),
            0x0097 => Some(Cr2MakernoteTag::DustRemovalData),
            0x0098 => Some(Cr2MakernoteTag::CropInfo),
            0x0099 => Some(Cr2MakernoteTag::CustomFunc2),
            0x009a => Some(Cr2MakernoteTag::AspectInfo),
            0x00a0 => Some(Cr2MakernoteTag::ProcessingInfo),
            0x00a1 => Some(Cr2MakernoteTag::ToneCurveTable),
            0x00a2 => Some(Cr2MakernoteTag::SharpnessTable),
            0x00a3 => Some(Cr2MakernoteTag::SharpnessFreqTable),
            0x00a4 => Some(Cr2MakernoteTag::WhiteBalanceTable),
            0x00a9 => Some(Cr2MakernoteTag::ColorBalance),
            0x00aa => Some(Cr2MakernoteTag::MeasuredColor),
            0x00ae => Some(Cr2MakernoteTag::ColorTemp),
            0x00b0 => Some(Cr2MakernoteTag::CanonFlags),
            0x00b1 => Some(Cr2MakernoteTag::ModifiedInfo),
            0x00b2 => Some(Cr2MakernoteTag::TnoeCurveMatching),
            0x00b3 => Some(Cr2MakernoteTag::WhiteBalanceMatching),
            0x00b4 => Some(Cr2MakernoteTag::ColorSpace),
            0x00b6 => Some(Cr2MakernoteTag::PreviewImageInfo),
            0x00d0 => Some(Cr2MakernoteTag::VRDOffset),
            0x00e0 => Some(Cr2MakernoteTag::SensorInfo),
            0x4001 => Some(Cr2MakernoteTag::ColorData),
            0x4002 => Some(Cr2MakernoteTag::CRWParam),
            0x4003 => Some(Cr2MakernoteTag::ColorInfo),
            0x4005 => Some(Cr2MakernoteTag::Flavor),
            0x4008 => Some(Cr2MakernoteTag::PictureStyleUserDef),
            0x4009 => Some(Cr2MakernoteTag::PictureStylePC),
            0x4010 => Some(Cr2MakernoteTag::CustomPictureStyleFileName),
            0x4013 => Some(Cr2MakernoteTag::AFMicroAdj),
            0x4015 => Some(Cr2MakernoteTag::VignettingCorr),
            0x4016 => Some(Cr2MakernoteTag::VignettingCorr2),
            0x4018 => Some(Cr2MakernoteTag::LightningOpt),
            0x4019 => Some(Cr2MakernoteTag::LensInfo),
            0x4020 => Some(Cr2MakernoteTag::AmbienceInfo),
            0x4021 => Some(Cr2MakernoteTag::MultiExp),
            0x4024 => Some(Cr2MakernoteTag::FilterInfo),
            0x4025 => Some(Cr2MakernoteTag::HDRInfo),
            0x4028 => Some(Cr2MakernoteTag::AFConfig),
            0x403f => Some(Cr2MakernoteTag::RawBurstModeRoll),
            _ => None,
        }
    }

    /// A tag is found again from its number, and a number names only
    /// the tag that has it.
    pub proof fn lemma_tag_roundtrip(self, value: u16)
        ensures
            Self::tag_of(self.tag_number()) == Some(self),
            Self::tag_of(value) matches Some(t) ==> t.tag_number() == value,
    {
    }
}

impl From<Cr2MakernoteTag> for u16 {
    fn from(tag: Cr2MakernoteTag) -> (r: u16) {
        tag.value()
    }
}

impl vstd::std_specs::convert::FromSpecImpl<Cr2MakernoteTag> for u16 {
    open spec fn obeys_from_spec() -> bool {
        true
    }

    open spec fn from_spec(tag: Cr2MakernoteTag) -> u16 {
        tag.tag_number()
    }
}


} // verus!
