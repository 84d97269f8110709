//! Canon CR3 metadata: makernote tags and the records of the timed metadata.

use vstd::prelude::*;
use std::collections::HashMap;
use crate::bits::{LEu16, LEu32, le_u16, le_u32};
use crate::rational::Rational;

verus! {

/// Tags of the Canon CR3 makernote.
#[derive(Debug, Copy, Clone, PartialEq, Eq, Structural)]
#[allow(non_camel_case_types)]
pub enum Cr3MakernoteTag {
    CameraSettings,
    FocusInfo,
    FlashInfo,
    ShotInfo,
    Panorama,
    ImageType,
    FirmareVer,
    FileNumber,
    OwnerName,
    UnknownD30,
    SerialNum,
    CameraInfo,
    FileLen,
    CustomFunc,
    ModelId,
    MovieInfo,
    AFInfo,
    ThumbArea,
    SerialFormat,
    SuperMacro,
    DateStampMode,
    MyColors,
    FirmwareRev,
    Categories,
    FaceDetect1,
    FaceDetect2,
    AFInfo2,
    ContrastInfo,
    ImgUniqueID,
    WBInfo,
    FaceDetect3,
    TimeInfo,
    BatteryType,
    AFInfo3,
    RawDataOffset,
    OrigDecisionDataOffset,
    CustomFunc1D,
    PersFunc,
    PersFuncValues,
    FileInfo,
    AFPointsInFocus1D,
    LensModel,
    InternalSerial,
    DustRemovalData,
    CropInfo,
    CustomFunc2,
    AspectInfo,
    ProcessingInfo,
    ToneCurveTable,
    SharpnessTable,
    SharpnessFreqTable,
    WhiteBalanceTable,
    ColorBalance,
    MeasuredColor,
    ColorTemp,
    CanonFlags,
    ModifiedInfo,
    TnoeCurveMatching,
    WhiteBalanceMatching,
    ColorSpace,
    PreviewImageInfo,
    VRDOffset,
    SensorInfo,
    ColorData,
    CRWParam,
    ColorInfo,
    Flavor,
    PictureStyleUserDef,
    PictureStylePC,
    CustomPictureStyleFileName,
    AFMicroAdj,
    VignettingCorr,
    VignettingCorr2,
    LightningOpt,
    LensInfo,
    AmbienceInfo,
    MultiExp,
    FilterInfo,
    HDRInfo,
    AFConfig,
    RawBurstModeRoll,
}

impl Cr3MakernoteTag {
    /// The tag's number.
    pub open spec fn tag_number(self) -> u16 {
        match self {
            Cr3MakernoteTag::CameraSettings => 0x0001u16,
            Cr3MakernoteTag::FocusInfo => 0x0002u16,
            Cr3MakernoteTag::FlashInfo => 0x0003u16,
            Cr3MakernoteTag::ShotInfo => 0x0004u16,
            Cr3MakernoteTag::Panorama => 0x0005u16,
            Cr3MakernoteTag::ImageType => 0x0006u16,
            Cr3MakernoteTag::FirmareVer => 0x0007u16,
            Cr3MakernoteTag::FileNumber => 0x0008u16,
            Cr3MakernoteTag::OwnerName => 0x0009u16,
            Cr3MakernoteTag::UnknownD30 => 0x000au16,
            Cr3MakernoteTag::SerialNum => 0x000cu16,
            Cr3MakernoteTag::CameraInfo => 0x000du16,
            Cr3MakernoteTag::FileLen => 0x000eu16,
            Cr3MakernoteTag::CustomFunc => 0x000fu16,
            Cr3MakernoteTag::ModelId => 0x0010u16,
            Cr3MakernoteTag::MovieInfo => 0x0011u16,
            Cr3MakernoteTag::AFInfo => 0x0012u16,
            Cr3MakernoteTag::ThumbArea => 0x0013u16,
            Cr3MakernoteTag::SerialFormat => 0x0014u16,
            Cr3MakernoteTag::SuperMacro => 0x001au16,
            Cr3MakernoteTag::DateStampMode => 0x001cu16,
            Cr3MakernoteTag::MyColors => 0x001du16,
            Cr3MakernoteTag::FirmwareRev => 0x001eu16,
            Cr3MakernoteTag::Categories => 0x0023u16,
            Cr3MakernoteTag::FaceDetect1 => 0x0024u16,
            Cr3MakernoteTag::FaceDetect2 => 0x0025u16,
            Cr3MakernoteTag::AFInfo2 => 0x0026u16,
            Cr3MakernoteTag::ContrastInfo => 0x0027u16,
            Cr3MakernoteTag::ImgUniqueID => 0x0028u16,
            Cr3MakernoteTag::WBInfo => 0x0029u16,
            Cr3MakernoteTag::FaceDetect3 => 0x002fu16,
            Cr3MakernoteTag::TimeInfo => 0x0035u16,
            Cr3MakernoteTag::BatteryType => 0x0038u16,
            Cr3MakernoteTag::AFInfo3 => 0x003cu16,
            Cr3MakernoteTag::RawDataOffset => 0x0081u16,
            Cr3MakernoteTag::OrigDecisionDataOffset => 0x0083u16,
            Cr3MakernoteTag::CustomFunc1D => 0x0090u16,
            Cr3MakernoteTag::PersFunc => 0x0091u16,
            Cr3MakernoteTag::PersFuncValues => 0x0092u16,
            Cr3MakernoteTag::FileInfo => 0x0093u16,
            Cr3MakernoteTag::AFPointsInFocus1D => 0x0094u16,
            Cr3MakernoteTag::LensModel => 0x0095u16,
            Cr3MakernoteTag::InternalSerial => 0x0096u16,
            Cr3MakernoteTag::DustRemovalData => 0x0097u16,
            Cr3MakernoteTag::CropInfo => 0x0098u16,
            Cr3MakernoteTag::CustomFunc2 => 0x0099u16,
            Cr3MakernoteTag::AspectInfo => 0x009au16,
            Cr3MakernoteTag::ProcessingInfo => 0x00a0u16,
            Cr3MakernoteTag::ToneCurveTable => 0x00a1u16,
            Cr3MakernoteTag::SharpnessTable => 0x00a2u16,
            Cr3MakernoteTag::SharpnessFreqTable => 0x00a3u16,
            Cr3MakernoteTag::WhiteBalanceTable => 0x00a4u16,
            Cr3MakernoteTag::ColorBalance => 0x00a9u16,
            Cr3MakernoteTag::MeasuredColor => 0x00aau16,
            Cr3MakernoteTag::ColorTemp => 0x00aeu16,
            Cr3MakernoteTag::CanonFlags => 0x00b0u16,
            Cr3MakernoteTag::ModifiedInfo => 0x00b1u16,
            Cr3MakernoteTag::TnoeCurveMatching => 0x00b2u16,
            Cr3MakernoteTag::WhiteBalanceMatching => 0x00b3u16,
            Cr3MakernoteTag::ColorSpace => 0x00b4u16,
            Cr3MakernoteTag::PreviewImageInfo => 0x00b6u16,
            Cr3MakernoteTag::VRDOffset => 0x00d0u16,
            Cr3MakernoteTag::SensorInfo => 0x00e0u16,
            Cr3MakernoteTag::ColorData => 0x4001u16,
            Cr3MakernoteTag::CRWParam => 0x4002u16,
            Cr3MakernoteTag::ColorInfo => 0x4003u16,
            Cr3MakernoteTag::Flavor => 0x4005u16,
            Cr3MakernoteTag::PictureStyleUserDef => 0x4008u16,
            Cr3MakernoteTag::PictureStylePC => 0x4009u16,
            Cr3MakernoteTag::CustomPictureStyleFileName => 0x4010u16,
            Cr3MakernoteTag::AFMicroAdj => 0x4013u16,
            Cr3MakernoteTag::VignettingCorr => 0x4015u16,
            Cr3MakernoteTag::VignettingCorr2 => 0x4016u16,
            Cr3MakernoteTag::LightningOpt => 0x4018u16,
            Cr3MakernoteTag::LensInfo => 0x4019u16,
            Cr3MakernoteTag::AmbienceInfo => 0x4020u16,
            Cr3MakernoteTag::MultiExp => 0x4021u16,
            Cr3MakernoteTag::FilterInfo => 0x4024u16,
            Cr3MakernoteTag::HDRInfo => 0x4025u16,
            Cr3MakernoteTag::AFConfig => 0x4028u16,
            Cr3MakernoteTag::RawBurstModeRoll => 0x403fu16,
        }
    }

    /// The tag with number `value`, if there is one.
    pub open spec fn tag_of(value: u16) -> Option<Cr3MakernoteTag> {
        if value == 0x0001 {
            Some(Cr3MakernoteTag::CameraSettings)
        } else if value == 0x0002 {
            Some(Cr3MakernoteTag::FocusInfo)
        } else if value == 0x0003 {
            Some(Cr3MakernoteTag::FlashInfo)
        } else if value == 0x0004 {
            Some(Cr3MakernoteTag::ShotInfo)
        } else if value == 0x0005 {
            Some(Cr3MakernoteTag::Panorama)
        } else if value == 0x0006 {
            Some(Cr3MakernoteTag::ImageType)
        } else if value == 0x0007 {
            Some(Cr3MakernoteTag::FirmareVer)
        } else if value == 0x0008 {
            Some(Cr3MakernoteTag::FileNumber)
        } else if value == 0x0009 {
            Some(Cr3MakernoteTag::OwnerName)
        } else if value == 0x000a {
            Some(Cr3MakernoteTag::UnknownD30)
        } else if value == 0x000c {
            Some(Cr3MakernoteTag::SerialNum)
        } else if value == 0x000d {
            Some(Cr3MakernoteTag::CameraInfo)
        } else if value == 0x000e {
            Some(Cr3MakernoteTag::FileLen)
        } else if value == 0x000f {
            Some(Cr3MakernoteTag::CustomFunc)
        } else if value == 0x0010 {
            Some(Cr3MakernoteTag::ModelId)
        } else if value == 0x0011 {
            Some(Cr3MakernoteTag::MovieInfo)
        } else if value == 0x0012 {
            Some(Cr3MakernoteTag::AFInfo)
        } else if value == 0x0013 {
            Some(Cr3MakernoteTag::ThumbArea)
        } else if value == 0x0014 {
            Some(Cr3MakernoteTag::SerialFormat)
        } else if value == 0x001a {
            Some(Cr3MakernoteTag::SuperMacro)
        } else if value == 0x001c {
            Some(Cr3MakernoteTag::DateStampMode)
        } else if value == 0x001d {
            Some(Cr3MakernoteTag::MyColors)
        } else if value == 0x001e {
            Some(Cr3MakernoteTag::FirmwareRev)
        } else if value == 0x0023 {
            Some(Cr3MakernoteTag::Categories)
        } else if value == 0x0024 {
            Some(Cr3MakernoteTag::FaceDetect1)
        } else if value == 0x0025 {
            Some(Cr3MakernoteTag::FaceDetect2)
        } else if value == 0x0026 {
            Some(Cr3MakernoteTag::AFInfo2)
        } else if value == 0x0027 {
            Some(Cr3MakernoteTag::ContrastInfo)
        } else if value == 0x0028 {
            Some(Cr3MakernoteTag::ImgUniqueID)
        } else if value == 0x0029 {
            Some(Cr3MakernoteTag::WBInfo)
        } else if value == 0x002f {
            Some(Cr3MakernoteTag::FaceDetect3)
        } else if value == 0x0035 {
            Some(Cr3MakernoteTag::TimeInfo)
        } else if value == 0x0038 {
            Some(Cr3MakernoteTag::BatteryType)
        } else if value == 0x003c {
            Some(Cr3MakernoteTag::AFInfo3)
        } else if value == 0x0081 {
            Some(Cr3MakernoteTag::RawDataOffset)
        } else if value == 0x0083 {
            Some(Cr3MakernoteTag::OrigDecisionDataOffset)
        } else if value == 0x0090 {
            Some(Cr3MakernoteTag::CustomFunc1D)
        } else if value == 0x0091 {
            Some(Cr3MakernoteTag::PersFunc)
        } else if value == 0x0092 {
            Some(Cr3MakernoteTag::PersFuncValues)
        } else if value == 0x0093 {
            Some(Cr3MakernoteTag::FileInfo)
        } else if value == 0x0094 {
            Some(Cr3MakernoteTag::AFPointsInFocus1D)
        } else if value == 0x0095 {
            Some(Cr3MakernoteTag::LensModel)
        } else if value == 0x0096 {
            Some(Cr3MakernoteTag::InternalSerial)
        } else if value == 0x0097 {
            Some(Cr3MakernoteTag::DustRemovalData)
        } else if value == 0x0098 {
            Some(Cr3MakernoteTag::CropInfo)
        } else if value == 0x0099 {
            Some(Cr3MakernoteTag::CustomFunc2)
        } else if value == 0x009a {
            Some(Cr3MakernoteTag::AspectInfo)
        } else if value == 0x00a0 {
            Some(Cr3MakernoteTag::ProcessingInfo)
        } else if value == 0x00a1 {
            Some(Cr3MakernoteTag::ToneCurveTable)
        } else if value == 0x00a2 {
            Some(Cr3MakernoteTag::SharpnessTable)
        } else if value == 0x00a3 {
            Some(Cr3MakernoteTag::SharpnessFreqTable)
        } else if value == 0x00a4 {
            Some(Cr3MakernoteTag::WhiteBalanceTable)
        } else if value == 0x00a9 {
            Some(Cr3MakernoteTag::ColorBalance)
        } else if value == 0x00aa {
            Some(Cr3MakernoteTag::MeasuredColor)
        } else if value == 0x00ae {
            Some(Cr3MakernoteTag::ColorTemp)
        } else if value == 0x00b0 {
            Some(Cr3MakernoteTag::CanonFlags)
        } else if value == 0x00b1 {
            Some(Cr3MakernoteTag::ModifiedInfo)
        } else if value == 0x00b2 {
            Some(Cr3MakernoteTag::TnoeCurveMatching)
        } else if value == 0x00b3 {
            Some(Cr3MakernoteTag::WhiteBalanceMatching)
        } else if value == 0x00b4 {
            Some(Cr3MakernoteTag::ColorSpace)
        } else if value == 0x00b6 {
            Some(Cr3MakernoteTag::PreviewImageInfo)
        } else if value == 0x00d0 {
            Some(Cr3MakernoteTag::VRDOffset)
        } else if value == 0x00e0 {
            Some(Cr3MakernoteTag::SensorInfo)
        } else if value == 0x4001 {
            Some(Cr3MakernoteTag::ColorData)
        } else if value == 0x4002 {
            Some(Cr3MakernoteTag::CRWParam)
        } else if value == 0x4003 {
            Some(Cr3MakernoteTag::ColorInfo)
        } else if value == 0x4005 {
            Some(Cr3MakernoteTag::Flavor)
        } else if value == 0x4008 {
            Some(Cr3MakernoteTag::PictureStyleUserDef)
        } else if value == 0x4009 {
            Some(Cr3MakernoteTag::PictureStylePC)
        } else if value == 0x4010 {
            Some(Cr3MakernoteTag::CustomPictureStyleFileName)
        } else if value == 0x4013 {
            Some(Cr3MakernoteTag::AFMicroAdj)
        } else if value == 0x4015 {
            Some(Cr3MakernoteTag::VignettingCorr)
        } else if value == 0x4016 {
            Some(Cr3MakernoteTag::VignettingCorr2)
        } else if value == 0x4018 {
            Some(Cr3MakernoteTag::LightningOpt)
        } else if value == 0x4019 {
            Some(Cr3MakernoteTag::LensInfo)
        } else if value == 0x4020 {
            Some(Cr3MakernoteTag::AmbienceInfo)
        } else if value == 0x4021 {
            Some(Cr3MakernoteTag::MultiExp)
        } else if value == 0x4024 {
            Some(Cr3MakernoteTag::FilterInfo)
        } else if value == 0x4025 {
            Some(Cr3MakernoteTag::HDRInfo)
        } else if value == 0x4028 {
            Some(Cr3MakernoteTag::AFConfig)
        } else if value == 0x403f {
            Some(Cr3MakernoteTag::RawBurstModeRoll)
        } else {
            None
        }
    }

    /// The tag's number.
    pub fn value(self) -> (r: u16)
        ensures
            r == self.tag_number(),
    {
        match self {
            Cr3MakernoteTag::CameraSettings => 0x0001,
            Cr3MakernoteTag::FocusInfo => 0x0002,
            Cr3MakernoteTag::FlashInfo => 0x0003,
            Cr3MakernoteTag::ShotInfo => 0x0004,
            Cr3MakernoteTag::Panorama => 0x0005,
            Cr3MakernoteTag::ImageType => 0x0006,
            Cr3MakernoteTag::FirmareVer => 0x0007,
            Cr3MakernoteTag::FileNumber => 0x0008,
            Cr3MakernoteTag::OwnerName => 0x0009,
            Cr3MakernoteTag::UnknownD30 => 0x000a,
            Cr3MakernoteTag::SerialNum => 0x000c,
            Cr3MakernoteTag::CameraInfo => 0x000d,
            Cr3MakernoteTag::FileLen => 0x000e,
            Cr3MakernoteTag::CustomFunc => 0x000f,
            Cr3MakernoteTag::ModelId => 0x0010,
            Cr3MakernoteTag::MovieInfo => 0x0011,
            Cr3MakernoteTag::AFInfo => 0x0012,
            Cr3MakernoteTag::ThumbArea => 0x0013,
            Cr3MakernoteTag::SerialFormat => 0x0014,
            Cr3MakernoteTag::SuperMacro => 0x001a,
            Cr3MakernoteTag::DateStampMode => 0x001c,
            Cr3MakernoteTag::MyColors => 0x001d,
            Cr3MakernoteTag::FirmwareRev => 0x001e,
            Cr3MakernoteTag::Categories => 0x0023,
            Cr3MakernoteTag::FaceDetect1 => 0x0024,
            Cr3MakernoteTag::FaceDetect2 => 0x0025,
            Cr3MakernoteTag::AFInfo2 => 0x0026,
            Cr3MakernoteTag::ContrastInfo => 0x0027,
            Cr3MakernoteTag::ImgUniqueID => 0x0028,
            Cr3MakernoteTag::WBInfo => 0x0029,
            Cr3MakernoteTag::FaceDetect3 => 0x002f,
            Cr3MakernoteTag::TimeInfo => 0x0035,
            Cr3MakernoteTag::BatteryType => 0x0038,
            Cr3MakernoteTag::AFInfo3 => 0x003c,
            Cr3MakernoteTag::RawDataOffset => 0x0081,
            Cr3MakernoteTag::OrigDecisionDataOffset => 0x0083,
            Cr3MakernoteTag::CustomFunc1D => 0x0090,
            Cr3MakernoteTag::PersFunc => 0x0091,
            Cr3MakernoteTag::PersFuncValues => 0x0092,
            Cr3MakernoteTag::FileInfo => 0x0093,
            Cr3MakernoteTag::AFPointsInFocus1D => 0x0094,
            Cr3MakernoteTag::LensModel => 0x0095,
            Cr3MakernoteTag::InternalSerial => 0x0096,
            Cr3MakernoteTag::DustRemovalData => 0x0097,
            Cr3MakernoteTag::CropInfo => 0x0098,
            Cr3MakernoteTag::CustomFunc2 => 0x0099,
            Cr3MakernoteTag::AspectInfo => 0x009a,
            Cr3MakernoteTag::ProcessingInfo => 0x00a0,
            Cr3MakernoteTag::ToneCurveTable => 0x00a1,
            Cr3MakernoteTag::SharpnessTable => 0x00a2,
            Cr3MakernoteTag::SharpnessFreqTable => 0x00a3,
            Cr3MakernoteTag::WhiteBalanceTable => 0x00a4,
            Cr3MakernoteTag::ColorBalance => 0x00a9,
            Cr3MakernoteTag::MeasuredColor => 0x00aa,
            Cr3MakernoteTag::ColorTemp => 0x00ae,
            Cr3MakernoteTag::CanonFlags => 0x00b0,
            Cr3MakernoteTag::ModifiedInfo => 0x00b1,
            Cr3MakernoteTag::TnoeCurveMatching => 0x00b2,
            Cr3MakernoteTag::WhiteBalanceMatching => 0x00b3,
            Cr3MakernoteTag::ColorSpace => 0x00b4,
            Cr3MakernoteTag::PreviewImageInfo => 0x00b6,
            Cr3MakernoteTag::VRDOffset => 0x00d0,
            Cr3MakernoteTag::SensorInfo => 0x00e0,
            Cr3MakernoteTag::ColorData => 0x4001,
            Cr3MakernoteTag::CRWParam => 0x4002,
            Cr3MakernoteTag::ColorInfo => 0x4003,
            Cr3MakernoteTag::Flavor => 0x4005,
            Cr3MakernoteTag::PictureStyleUserDef => 0x4008,
            Cr3MakernoteTag::PictureStylePC => 0x4009,
            Cr3MakernoteTag::CustomPictureStyleFileName => 0x4010,
            Cr3MakernoteTag::AFMicroAdj => 0x4013,
            Cr3MakernoteTag::VignettingCorr => 0x4015,
            Cr3MakernoteTag::VignettingCorr2 => 0x4016,
            Cr3MakernoteTag::LightningOpt => 0x4018,
            Cr3MakernoteTag::LensInfo => 0x4019,
            Cr3MakernoteTag::AmbienceInfo => 0x4020,
            Cr3MakernoteTag::MultiExp => 0x4021,
            Cr3MakernoteTag::FilterInfo => 0x4024,
            Cr3MakernoteTag::HDRInfo => 0x4025,
            Cr3MakernoteTag::AFConfig => 0x4028,
            Cr3MakernoteTag::RawBurstModeRoll => 0x403f,
        }
    }

    /// The tag with number `value`, if there is one.
    pub fn n(value: u16) -> (r: Option<Cr3MakernoteTag>)
        ensures
            r == Self::tag_of(value),
    {
        match value {
            0x0001 => Some(Cr3MakernoteTag::CameraSettings),
            0x0002 => Some(Cr3MakernoteTag::FocusInfo),
            0x0003 => Some(Cr3MakernoteTag::FlashInfo),
            0x0004 => Some(Cr3MakernoteTag::ShotInfo),
            0x0005 => Some(Cr3MakernoteTag::Panorama),
            0x0006 => Some(Cr3MakernoteTag::ImageType),
            0x0007 => Some(Cr3MakernoteTag::FirmareVer),
            0x0008 => Some(Cr3MakernoteTag::FileNumber),
            0x0009 => Some(Cr3MakernoteTag::OwnerName),
            0x000a => Some(Cr3MakernoteTag::UnknownD30),
            0x000c => Some(Cr3MakernoteTag::SerialNum),
            0x000d => Some(Cr3MakernoteTag::CameraInfo),
            0x000e => Some(Cr3MakernoteTag::FileLen),
            0x000f => Some(Cr3MakernoteTag::CustomFunc),
            0x0010 => Some(Cr3MakernoteTag::ModelId),
            0x0011 => Some(Cr3MakernoteTag::MovieInfo),
            0x0012 => Some(Cr3MakernoteTag::AFInfo),
            0x0013 => Some(Cr3MakernoteTag::ThumbArea),
            0x0014 => Some(Cr3MakernoteTag::SerialFormat),
            0x001a => Some(Cr3MakernoteTag::SuperMacro),
            0x001c => Some(Cr3MakernoteTag::DateStampMode),
            0x001d => Some(Cr3MakernoteTag::MyColors),
            0x001e => Some(Cr3MakernoteTag::FirmwareRev),
            0x0023 => Some(Cr3MakernoteTag::Categories),
            0x0024 => Some(Cr3MakernoteTag::FaceDetect1),
            0x0025 => Some(Cr3MakernoteTag::FaceDetect2),
            0x0026 => Some(Cr3MakernoteTag::AFInfo2),
            0x0027 => Some(Cr3MakernoteTag::ContrastInfo),
            0x0028 => Some(Cr3MakernoteTag::ImgUniqueID),
            0x0029 => Some(Cr3MakernoteTag::WBInfo),
            0x002f => Some(Cr3MakernoteTag::FaceDetect3),
            0x0035 => Some(Cr3MakernoteTag::TimeInfo),
            0x0038 => Some(Cr3MakernoteTag::BatteryType),
            0x003c => Some(Cr3MakernoteTag::AFInfo3),
            0x0081 => Some(Cr3MakernoteTag::RawDataOffset),
            0x0083 => Some(Cr3MakernoteTag::OrigDecisionDataOffset),
            0x0090 => Some(Cr3MakernoteTag::CustomFunc1D),
            0x0091 => Some(Cr3MakernoteTag::PersFunc),
            0x0092 => Some(Cr3MakernoteTag::PersFuncValues),
            0x0093 => Some(Cr3MakernoteTag::FileInfo),
            0x0094 => Some(Cr3MakernoteTag::AFPointsInFocus1D),
            0x0095 => Some(Cr3MakernoteTag::LensModel),
            0x0096 => Some(Cr3MakernoteTag::InternalSerial),
            0x0097 => Some(Cr3MakernoteTag::DustRemovalData),
            0x0098 => Some(Cr3MakernoteTag::CropInfo),
            0x0099 => Some(Cr3MakernoteTag::CustomFunc2),
            0x009a => Some(Cr3MakernoteTag::AspectInfo),
            0x00a0 => Some(Cr3MakernoteTag::ProcessingInfo),
            0x00a1 => Some(Cr3MakernoteTag::ToneCurveTable),
            0x00a2 => Some(Cr3MakernoteTag::SharpnessTable),
            0x00a3 => Some(Cr3MakernoteTag::SharpnessFreqTable),
            0x00a4 => Some(Cr3MakernoteTag::WhiteBalanceTable),
            0x00a9 => Some(Cr3MakernoteTag::ColorBalance),
            0x00aa => Some(Cr3MakernoteTag::MeasuredColor),
            0x00ae => Some(Cr3MakernoteTag::ColorTemp),
            0x00b0 => Some(Cr3MakernoteTag::CanonFlags),
            0x00b1 => Some(Cr3MakernoteTag::ModifiedInfo),
            0x00b2 => Some(Cr3MakernoteTag::TnoeCurveMatching),
            0x00b3 => Some(Cr3MakernoteTag::WhiteBalanceMatching),
            0x00b4 => Some(Cr3MakernoteTag::ColorSpace),
            0x00b6 => Some(Cr3MakernoteTag::PreviewImageInfo),
            0x00d0 => Some(Cr3MakernoteTag::VRDOffset),
            0x00e0 => Some(Cr3MakernoteTag::SensorInfo),
            0x4001 => Some(Cr3MakernoteTag::ColorData),
            0x4002 => Some(Cr3MakernoteTag::CRWParam),
            0x4003 => Some(Cr3MakernoteTag::ColorInfo),
            0x4005 => Some(Cr3MakernoteTag::Flavor),
            0x4008 => Some(Cr3MakernoteTag::PictureStyleUserDef),
            0x4009 => Some(Cr3MakernoteTag::PictureStylePC),
            0x4010 => Some(Cr3MakernoteTag::CustomPictureStyleFileName),
            0x4013 => Some(Cr3MakernoteTag::AFMicroAdj),
            0x4015 => Some(Cr3MakernoteTag::VignettingCorr),
            0x4016 => Some(Cr3MakernoteTag::VignettingCorr2),
            0x4018 => Some(Cr3MakernoteTag::LightningOpt),
            0x4019 => Some(Cr3MakernoteTag::LensInfo),
            0x4020 => Some(Cr3MakernoteTag::AmbienceInfo),
            0x4021 => Some(Cr3MakernoteTag::MultiExp),
            0x4024 => Some(Cr3MakernoteTag::FilterInfo),
            0x4025 => Some(Cr3MakernoteTag::HDRInfo),
            0x4028 => Some(Cr3MakernoteTag::AFConfig),
            0x403f => Some(Cr3MakernoteTag::RawBurstModeRoll),
            _ => None,
        }
    }

    /// A tag is found again from its number, and a number names only
    /// the tag that has it.
    pub proof fn lemma_tag_roundtrip(self, value: u16)
        ensures
            Self::tag_of(self.tag_number()) == Some(self),
            Self::tag_of(value) matches Some(t) ==> t.tag_number() == value,
    {
    }
}

impl From<Cr3MakernoteTag> for u16 {
    fn from(tag: Cr3MakernoteTag) -> (r: u16) {
        tag.value()
    }
}

impl vstd::std_specs::convert::FromSpecImpl<Cr3MakernoteTag> for u16 {
    open spec fn obeys_from_spec() -> bool {
        true
    }

    open spec fn from_spec(tag: Cr3MakernoteTag) -> u16 {
        tag.tag_number()
    }
}


broadcast use vstd::std_specs::hash::group_hash_axioms;

/// Tag of the CTMD block that holds an EXIF IFD.
pub const CR3_CTMD_BLOCK_EXIFIFD: u16 = 0x8769;

/// Tag of the CTMD block that holds the makernotes.
pub const CR3_CTMD_BLOCK_MAKERNOTES: u16 = 0x927c;

/// A record inside the CTMD section.
pub struct CtmdRecord {
    pub rec_size: u32,
    pub rec_type: u16,
    pub reserved1: u8,
    pub reserved2: u8,
    pub reserved3: u8,
    pub reserved4: u8,
    pub reserved5: i8,
    pub reserved6: i8,
    pub payload: Vec<u8>,
    /// The EXIF and makernote blocks of the payload, by tag.
    pub blocks: HashMap<u16, Vec<u8>>,
}

/// The CTMD section: its records by type.
pub struct Ctmd {
    pub records: HashMap<u16, CtmdRecord>,
}

/// The record types whose payload is a sequence of blocks.
pub open spec fn has_blocks(rec_type: u16) -> bool {
    7 <= rec_type <= 12
}

/// The block tags that are kept.
pub open spec fn kept_block(tag: u16) -> bool {
    tag == CR3_CTMD_BLOCK_EXIFIFD || tag == CR3_CTMD_BLOCK_MAKERNOTES
}

/// The blocks kept from a payload, scanning from offset `p` with `acc`
/// already kept. A block is a 32-bit size (counting its 8 header bytes), a
/// 16-bit tag and two bytes more, then its data; the scan ends where fewer
/// than 8 bytes remain or a block does not fit.
pub open spec fn ctmd_blocks(pl: Seq<u8>, p: int, acc: Map<u16, Seq<u8>>) -> Map<u16, Seq<u8>>
    decreases pl.len() - p,
{
    if p < 0 || p + 8 > pl.len() {
        acc
    } else {
        let sz = le_u32(pl, p);
        let tag = le_u16(pl, p + 4) as u16;
        if sz >= 8 && p + sz <= pl.len() {
            ctmd_blocks(
                pl,
                p + sz,
                if kept_block(tag) {
                    acc.insert(tag, pl.subrange(p + 8, p + sz))
                } else {
                    acc
                },
            )
        } else {
            acc
        }
    }
}

/// No kept tag occurs twice among the blocks from `p` on, nor among `seen`.
pub open spec fn blocks_ok(pl: Seq<u8>, p: int, seen: Set<u16>) -> bool
    decreases pl.len() - p,
{
    if p < 0 || p + 8 > pl.len() {
        true
    } else {
        let sz = le_u32(pl, p);
        let tag = le_u16(pl, p + 4) as u16;
        if sz >= 8 && p + sz <= pl.len() {
            &&& kept_block(tag) ==> !seen.contains(tag)
            &&& blocks_ok(
                pl,
                p + sz,
                if kept_block(tag) {
                    seen.insert(tag)
                } else {
                    seen
                },
            )
        } else {
            true
        }
    }
}

/// A CTMD section whose records, from offset `off` on, can be read: each
/// record that starts with at least 12 bytes left has a size of at least 12
/// that fits, and a record of blocks repeats no kept tag.
pub open spec fn ctmd_ok(d: Seq<u8>, off: int) -> bool
    decreases d.len() - off,
{
    if off < 0 || off + 12 > d.len() {
        true
    } else {
        let size = le_u32(d, off);
        &&& size >= 12
        &&& off + size <= d.len()
        &&& has_blocks(le_u16(d, off + 4) as u16) ==> blocks_ok(
            d.subrange(off + 12, off + size),
            0,
            Set::empty(),
        )
        &&& ctmd_ok(d, off + size)
    }
}

/// The offset of the last record of each type, from offset `off` on, with
/// `acc` already found.
pub open spec fn ctmd_records(d: Seq<u8>, off: int, acc: Map<u16, int>) -> Map<u16, int>
    decreases d.len() - off,
{
    if off < 0 || off + 12 > d.len() {
        acc
    } else {
        let size = le_u32(d, off);
        if size < 12 || off + size > d.len() {
            acc
        } else {
            ctmd_records(d, off + size, acc.insert(le_u16(d, off + 4) as u16, off))
        }
    }
}

/// The blocks of a record, as byte sequences.
pub open spec fn blocks_view(h: HashMap<u16, Vec<u8>>) -> Map<u16, Seq<u8>> {
    h@.map_values(|v: Vec<u8>| v@)
}

/// `rec` is the record read at offset `off`: its 12-byte header, the
/// payload up to its size, and the blocks kept from the payload where its
/// type has blocks.
pub open spec fn record_at(d: Seq<u8>, off: int, rec: CtmdRecord) -> bool {
    let size = le_u32(d, off);
    &&& rec.rec_size == size
    &&& rec.rec_type == le_u16(d, off + 4)
    &&& rec.reserved1 == d[off + 6]
    &&& rec.reserved2 == d[off + 7]
    &&& rec.reserved3 == d[off + 8]
    &&& rec.reserved4 == d[off + 9]
    &&& rec.reserved5 == d[off + 10] as i8
    &&& rec.reserved6 == d[off + 11] as i8
    &&& rec.payload@ == d.subrange(off + 12, off + size)
    &&& blocks_view(rec.blocks) == if has_blocks(rec.rec_type) {
        ctmd_blocks(rec.payload@, 0, Map::empty())
    } else {
        Map::empty()
    }
}

/// The bytes of `data` from `start` to `end`.
fn copy_range(data: &[u8], start: usize, end: usize) -> (r: Vec<u8>)
    requires
        start <= end <= data@.len(),
    ensures
        r@ == data@.subrange(start as int, end as int),
{
    let mut out: Vec<u8> = Vec::new();
    for i in start..end
        invariant
            start <= end <= data@.len(),
            out@ == data@.subrange(start as int, i as int),
    {
        out.push(data[i]);
        assert(out@ =~= data@.subrange(start as int, i + 1));
    }
    out
}

/// The EXIF and makernote blocks of a record payload.
fn parse_blocks(payload: &Vec<u8>) -> (r: HashMap<u16, Vec<u8>>)
    requires
        blocks_ok(payload@, 0, Set::empty()),
    ensures
        blocks_view(r) == ctmd_blocks(payload@, 0, Map::empty()),
{
    let mut blocks: HashMap<u16, Vec<u8>> = HashMap::new();
    let mut p: usize = 0;
    proof {
        assert(blocks_view(blocks) =~= Map::<u16, Seq<u8>>::empty());
        assert(blocks_view(blocks).dom() =~= Set::<u16>::empty());
    }
    while payload.len() - p >= 8
        invariant
            p <= payload@.len(),
            ctmd_blocks(payload@, 0, Map::empty()) == ctmd_blocks(payload@, p as int, blocks_view(blocks)),
            blocks_ok(payload@, p as int, blocks_view(blocks).dom()),
        ensures
            ctmd_blocks(payload@, 0, Map::empty()) == blocks_view(blocks),
        decreases payload@.len() - p,
    {
        let sz = LEu32(payload.as_slice(), p) as usize;
        let tag = LEu16(payload.as_slice(), p + 4);
        if sz >= 8 && payload.len() - p - 8 >= sz - 8 {
            let data = copy_range(payload.as_slice(), p + 8, p + sz);
            if tag == CR3_CTMD_BLOCK_EXIFIFD || tag == CR3_CTMD_BLOCK_MAKERNOTES {
                let ghost before = blocks_view(blocks);
                blocks.insert(tag, data);
                proof {
                    assert(blocks_view(blocks) =~= before.insert(tag, data@));
                    assert(blocks_view(blocks).dom() =~= before.dom().insert(tag));
                }
            }
            p = p + sz;
        } else {
            break;
        }
    }
    blocks
}

impl Ctmd {
    /// Read the records of a CTMD section (little-endian): each record has
    /// a 32-bit size, a 16-bit type, six reserved bytes and a payload; a
    /// later record of a type replaces an earlier one.
    pub fn new(data: &[u8]) -> (r: Ctmd)
        requires
            ctmd_ok(data@, 0),
        ensures
            r.records@.dom() == ctmd_records(data@, 0, Map::empty()).dom(),
            forall|t: u16|
                #[trigger] r.records@.contains_key(t) ==> record_at(
                    data@,
                    ctmd_records(data@, 0, Map::empty())[t],
                    r.records@[t],
                ),
    {
        let mut records: HashMap<u16, CtmdRecord> = HashMap::new();
        let ghost mut found: Map<u16, int> = Map::empty();
        let mut pos: usize = 0;
        while data.len() - pos >= 12
            invariant
                pos <= data@.len(),
                ctmd_ok(data@, pos as int),
                ctmd_records(data@, 0, Map::empty()) == ctmd_records(data@, pos as int, found),
                records@.dom() == found.dom(),
                forall|t: u16|
                    #[trigger] records@.contains_key(t) ==> 0 <= found[t] && found[t] + 12
                        <= data@.len() && le_u32(data@, found[t]) >= 12 && found[t] + le_u32(
                        data@,
                        found[t],
                    ) <= data@.len() && record_at(data@, found[t], records@[t]),
            decreases data@.len() - pos,
        {
            let size = LEu32(data, pos);
            let rec_type = LEu16(data, pos + 4);
            let payload = copy_range(data, pos + 12, pos + size as usize);
            let blocks = if 7 <= rec_type && rec_type <= 12 {
                parse_blocks(&payload)
            } else {
                let b: HashMap<u16, Vec<u8>> = HashMap::new();
                assert(blocks_view(b) =~= Map::<u16, Seq<u8>>::empty());
                b
            };
            let rec = CtmdRecord {
                rec_size: size,
                rec_type,
                reserved1: data[pos + 6],
                reserved2: data[pos + 7],
                reserved3: data[pos + 8],
                reserved4: data[pos + 9],
                reserved5: data[pos + 10] as i8,
                reserved6: data[pos + 11] as i8,
                payload,
                blocks,
            };
            assert(record_at(data@, pos as int, rec));
            records.insert(rec_type, rec);
            proof {
                found = found.insert(rec_type, pos as int);
                assert(records@.dom() =~= found.dom());
            }
            pos = pos + size as usize;
        }
        Ctmd { records }
    }
}

/// The exposure record of the CTMD section.
#[derive(Clone, Debug)]
pub struct CtmdExposureInfo {
    pub fnumber: Rational,
    pub exposure: Rational,
    pub iso_speed: u32,
    pub unknown: Vec<u8>,
}

/// The rational of two little-endian 16-bit values at `off`.
pub open spec fn rational_at(pl: Seq<u8>, off: int) -> Rational {
    Rational { n: le_u16(pl, off) as u32, d: le_u16(pl, off + 2) as u32 }
}

/// `e` is the exposure record read from payload `pl`: f-number, exposure
/// time, ISO speed, then the bytes that follow.
pub open spec fn exposure_from(pl: Seq<u8>, e: CtmdExposureInfo) -> bool {
    &&& e.fnumber == rational_at(pl, 0)
    &&& e.exposure == rational_at(pl, 4)
    &&& e.iso_speed == le_u32(pl, 8)
    &&& e.unknown@ == pl.subrange(12, pl.len() as int)
}

impl Ctmd {
    /// The exposure record (type 5), where there is one.
    pub fn exposure_info(&self) -> (r: Option<CtmdExposureInfo>)
        requires
            self.records@.contains_key(5) ==> self.records@[5].payload@.len() >= 12,
        ensures
            !self.records@.contains_key(5) ==> r is None,
            self.records@.contains_key(5) ==> (r matches Some(e) && exposure_from(
                self.records@[5].payload@,
                e,
            )),
    {
        match self.records.get(&5) {
            Some(rec) => {
                let pl = rec.payload.as_slice();
                let fnumber = Rational::new(LEu16(pl, 0) as u32, LEu16(pl, 2) as u32);
                let exposure = Rational::new(LEu16(pl, 4) as u32, LEu16(pl, 6) as u32);
                let iso_speed = LEu32(pl, 8);
                let unknown = copy_range(pl, 12, pl.len());
                Some(CtmdExposureInfo { fnumber, exposure, iso_speed, unknown })
            },
            None => None,
        }
    }

    /// The focal length record (type 4), where there is one.
    pub fn focal_len(&self) -> (r: Option<Rational>)
        requires
            self.records@.contains_key(4) ==> self.records@[4].payload@.len() >= 4,
        ensures
            !self.records@.contains_key(4) ==> r is None,
            self.records@.contains_key(4) ==> r == Some(rational_at(self.records@[4].payload@, 0)),
    {
        match self.records.get(&4) {
            Some(rec) => {
                let pl = rec.payload.as_slice();
                Some(Rational::new(LEu16(pl, 0) as u32, LEu16(pl, 2) as u32))
            },
            None => None,
        }
    }
}

/// The white level of a CR3 image: the one its metadata states, else the
/// largest value of the camera's bit depth (16 bits where it states none).
pub open spec fn spec_cr3_whitelevel(stated: Option<u16>, bps: Option<u32>) -> u16 {
    match stated {
        Some(w) => w,
        None => {
            let b = match bps {
                Some(b) => b,
                None => 16,
            };
            ((crate::bits::pow2(b as nat) - 1) % 0x1_0000) as u16
        },
    }
}

/// The white level of a CR3 image (see `spec_cr3_whitelevel`).
pub fn cr3_whitelevel(stated: Option<u16>, bps: Option<u32>) -> (w: u16)
    requires
        bps matches Some(b) ==> b < 32,
    ensures
        w == spec_cr3_whitelevel(stated, bps),
{
    match stated {
        Some(w) => w,
        None => {
            let b: u32 = match bps {
                Some(b) => b,
                None => 16,
            };
            proof {
                vstd::arithmetic::power2::lemma_pow2_pos(b as nat);
                vstd::bits::lemma_u32_pow2_no_overflow(b as nat);
                vstd::bits::lemma_u32_shl_is_mul(1, b);
            }
            let v: u32 = (1u32 << b) - 1;
            (v % 0x1_0000) as u16
        },
    }
}

/// The corners (left, top, right, bottom) of the crop and active areas of
/// a CR3 image from its IAD1 box: the crop runs to the stated right and
/// bottom offsets inclusive; a small box (movie files) uses it as active
/// area too, a big one states an active area whose stated right and bottom
/// offsets (exclusive) are kept within the image.
pub open spec fn spec_cr3_areas(
    big: bool,
    crop: (usize, usize, usize, usize),
    active: (usize, usize, usize, usize),
    width: usize,
    height: usize,
) -> ((int, int, int, int), (int, int, int, int)) {
    let c = (crop.0 as int, crop.1 as int, crop.2 + 1, crop.3 + 1);
    if big {
        let right = if width < active.2 - 1 { width as int } else { active.2 - 1 };
        let bottom = if height < active.3 - 1 { height as int } else { active.3 - 1 };
        (c, (active.0 as int, active.1 as int, right, bottom))
    } else {
        (c, c)
    }
}

/// The crop and active areas of a CR3 image (see `spec_cr3_areas`).
pub fn cr3_areas(
    big: bool,
    crop: (usize, usize, usize, usize),
    active: (usize, usize, usize, usize),
    width: usize,
    height: usize,
) -> (r: ((usize, usize, usize, usize), (usize, usize, usize, usize)))
    requires
        crop.2 < usize::MAX,
        crop.3 < usize::MAX,
        big ==> active.2 >= 1 && active.3 >= 1,
    ensures
        ({
            let (c, a) = spec_cr3_areas(big, crop, active, width, height);
            &&& (r.0.0 as int, r.0.1 as int, r.0.2 as int, r.0.3 as int) == c
            &&& (r.1.0 as int, r.1.1 as int, r.1.2 as int, r.1.3 as int) == a
        }),
{
    let c = (crop.0, crop.1, crop.2 + 1, crop.3 + 1);
    if big {
        let right = if width < active.2 - 1 { width } else { active.2 - 1 };
        let bottom = if height < active.3 - 1 { height } else { active.3 - 1 };
        (c, (active.0, active.1, right, bottom))
    } else {
        (c, c)
    }
}

/// What the BMFF structure, the metadata and the camera's configuration of
/// a CR3 file say, for the image asked for.
#[derive(Debug, Clone, Copy)]
pub struct Cr3Facts {
    /// The image asked for, and how many the file holds.
    pub image_index: usize,
    pub image_count: usize,
    /// A raw track chosen from outside, and the track of the CRX raw image.
    pub override_trak: Option<usize>,
    pub crx_trak: Option<usize>,
    /// Where the sample of the image lies in the raw track (offset, size).
    pub sample: Option<(u64, u64)>,
    /// The white level the metadata states, and the camera's bit depth.
    pub stated_whitelevel: Option<u16>,
    pub bps: Option<u32>,
    /// The metadata states a white balance.
    pub has_wb: bool,
    /// The raw type of a CRM movie file (130: light raw), if stated.
    pub crm_raw_type: Option<u16>,
    /// The IAD1 box: whether it is the big kind, its crop and active area.
    pub iad1: Option<(bool, (usize, usize, usize, usize), (usize, usize, usize, usize))>,
    /// The image size the compression box states.
    pub width: usize,
    pub height: usize,
}

#[derive(Debug, Clone, Copy, PartialEq, Eq)]
pub struct Cr3Layout {
    pub trak: usize,
    pub offset: u64,
    pub size: u64,
    pub whitelevel: u16,
    /// The white balance is neutral (none stated, or a light raw, which has
    /// it applied already).
    pub neutral_wb: bool,
    /// The crop and active areas (left, top, right, bottom), where the IAD1
    /// box gives them.
    pub areas: Option<((usize, usize, usize, usize), (usize, usize, usize, usize))>,
}

#[derive(Debug, Clone, Copy, PartialEq, Eq)]
pub enum Cr3Error {
    /// The image index is past the images the file holds.
    IndexOutOfRange(usize, usize),
    /// No raw track is found.
    NoRawTrak,
    /// The raw track has no sample for the image.
    NoSample,
}

pub open spec fn areas_view(a: ((int, int, int, int), (int, int, int, int))) -> ((usize, usize, usize, usize), (usize, usize, usize, usize)) {
    ((a.0.0 as usize, a.0.1 as usize, a.0.2 as usize, a.0.3 as usize), (a.1.0 as usize, a.1.1 as usize, a.1.2 as usize, a.1.3 as usize))
}

/// The layout the facts give: the image index must be in range; the raw
/// track is the one chosen from outside, else the CRX one.
pub open spec fn spec_cr3_layout(f: Cr3Facts) -> Result<Cr3Layout, Cr3Error> {
    if f.image_index >= f.image_count {
        Err(Cr3Error::IndexOutOfRange(f.image_index, f.image_count))
    } else {
        let trak = if f.override_trak is Some { f.override_trak } else { f.crx_trak };
        match trak {
            None => Err(Cr3Error::NoRawTrak),
            Some(t) => match f.sample {
                None => Err(Cr3Error::NoSample),
                Some((offset, size)) => Ok(
                    Cr3Layout {
                        trak: t,
                        offset,
                        size,
                        whitelevel: spec_cr3_whitelevel(f.stated_whitelevel, f.bps),
                        neutral_wb: !f.has_wb || f.crm_raw_type == Some(130u16),
                        areas: match f.iad1 {
                            Some((big, crop, active)) => Some(
                                areas_view(spec_cr3_areas(big, crop, active, f.width, f.height)),
                            ),
                            None => None,
                        },
                    },
                ),
            },
        }
    }
}

/// The layout of a CR3 file's raw data (see `spec_cr3_layout`).
pub fn cr3_raw_layout(f: &Cr3Facts) -> (r: Result<Cr3Layout, Cr3Error>)
    requires
        f.bps matches Some(b) ==> b < 32,
        f.iad1 matches Some((big, crop, active)) ==> crop.2 < usize::MAX && crop.3 < usize::MAX && (big
            ==> active.2 >= 1 && active.3 >= 1),
    ensures
        r == spec_cr3_layout(*f),
{
    if f.image_index >= f.image_count {
        return Err(Cr3Error::IndexOutOfRange(f.image_index, f.image_count));
    }
    let trak = if f.override_trak.is_some() { f.override_trak } else { f.crx_trak };
    let t = match trak {
        None => {
            return Err(Cr3Error::NoRawTrak);
        },
        Some(t) => t,
    };
    let (offset, size) = match f.sample {
        None => {
            return Err(Cr3Error::NoSample);
        },
        Some(s) => s,
    };
    let whitelevel = cr3_whitelevel(f.stated_whitelevel, f.bps);
    let light_raw = match f.crm_raw_type {
        Some(v) => v == 130,
        None => false,
    };
    let areas = match f.iad1 {
        Some((big, crop, active)) => Some(cr3_areas(big, crop, active, f.width, f.height)),
        None => None,
    };
    Ok(Cr3Layout { trak: t, offset, size, whitelevel, neutral_wb: !f.has_wb || light_raw, areas })
}

/// The white level is the stated one, else the largest value of the bit
/// depth: 65535 for 16 bits (also where no depth is stated), 16383 for 14
/// and 4095 for 12.
pub proof fn lemma_cr3_whitelevel_defaults(stated: Option<u16>)
    ensures
        stated matches Some(w) ==> spec_cr3_whitelevel(stated, Some(14u32)) == w,
        spec_cr3_whitelevel(None, None) == 65535,
        spec_cr3_whitelevel(None, Some(16u32)) == 65535,
        spec_cr3_whitelevel(None, Some(14u32)) == 16383,
        spec_cr3_whitelevel(None, Some(12u32)) == 4095,
{
    vstd::arithmetic::power2::lemma2_to64();
}

/// The choices of a CR3 layout: an image index past the count is refused;
/// a raw track chosen from outside wins over the CRX one; the white balance
/// is neutral where none is stated or the file is a light raw (type 130);
/// the areas are those of the IAD1 box.
pub proof fn lemma_cr3_layout_choices(f: Cr3Facts)
    ensures
        f.image_index >= f.image_count ==> spec_cr3_layout(f) == Err::<Cr3Layout, Cr3Error>(
            Cr3Error::IndexOutOfRange(f.image_index, f.image_count),
        ),
        spec_cr3_layout(f) matches Ok(l) ==> {
            &&& f.image_index < f.image_count
            &&& (f.override_trak is Some ==> l.trak == f.override_trak->0)
            &&& (f.override_trak is None ==> f.crx_trak == Some(l.trak))
            &&& f.sample == Some((l.offset, l.size))
            &&& l.whitelevel == spec_cr3_whitelevel(f.stated_whitelevel, f.bps)
            &&& l.neutral_wb == (!f.has_wb || f.crm_raw_type == Some(130u16))
            &&& (l.areas is Some) == (f.iad1 is Some)
        },
        (f.image_index < f.image_count && f.override_trak is None && f.crx_trak is None) ==> spec_cr3_layout(f)
            == Err::<Cr3Layout, Cr3Error>(Cr3Error::NoRawTrak),
{
}

/// A small IAD1 box (movie files) gives the same crop and active area; a
/// big one keeps the active area within the image.
pub proof fn lemma_cr3_areas_bounds(
    big: bool,
    crop: (usize, usize, usize, usize),
    active: (usize, usize, usize, usize),
    width: usize,
    height: usize,
)
    ensures
        !big ==> spec_cr3_areas(big, crop, active, width, height).0 == spec_cr3_areas(
            big,
            crop,
            active,
            width,
            height,
        ).1,
        spec_cr3_areas(big, crop, active, width, height).0 == (crop.0 as int, crop.1 as int, crop.2 + 1, crop.3
            + 1),
        big ==> spec_cr3_areas(big, crop, active, width, height).1.2 <= width && spec_cr3_areas(
            big,
            crop,
            active,
            width,
            height,
        ).1.3 <= height,
{
}

} // verus!
