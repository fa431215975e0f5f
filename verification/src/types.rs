//! The classifications that a clip record carries.

use vstd::prelude::*;

verus! {

/// What kind of physical source a clip was captured or imported from.
#[derive(Clone, Copy, Debug, PartialEq, Eq, Structural, Hash)]
pub enum AvidPhysicalPackageType {
    UnkownPhysType,
    TapePhysType,
    ImportPhysType,
    RecordingPhysType,
}

impl AvidPhysicalPackageType {
    /// The name under which the value is shown.
    pub open spec fn spec_name(self) -> Seq<char> {
        match self {
            AvidPhysicalPackageType::UnkownPhysType => "Unknown"@,
            AvidPhysicalPackageType::TapePhysType => "Tape"@,
            AvidPhysicalPackageType::ImportPhysType => "Import"@,
            AvidPhysicalPackageType::RecordingPhysType => "Recording"@,
        }
    }

    /// The name under which the value is shown.
    pub fn to_string(&self) -> (s: String)
        ensures
            s@ == self.spec_name(),
    {
        match self {
            AvidPhysicalPackageType::UnkownPhysType => "Unknown".to_owned(),
            AvidPhysicalPackageType::TapePhysType => "Tape".to_owned(),
            AvidPhysicalPackageType::ImportPhysType => "Import".to_owned(),
            AvidPhysicalPackageType::RecordingPhysType => "Recording".to_owned(),
        }
    }
}

impl Default for AvidPhysicalPackageType {
    fn default() -> (v: AvidPhysicalPackageType)
        ensures
            v == AvidPhysicalPackageType::UnkownPhysType,
    {
        AvidPhysicalPackageType::UnkownPhysType
    }
}

/// The codec family of a clip's essence, as the editing system names it.
#[allow(non_camel_case_types)]
#[derive(Clone, Copy, Debug, PartialEq, Eq, Structural, Hash)]
pub enum AvidEssenceType {
    Unknown,
    Mpeg30,
    Mpeg40,
    Mpeg50,
    DV25_411,
    DV25_420,
    DV50,
    DV100,
    MJpeg_20_1,
    MJpeg_2_1S,
    MJpeg_4_1S,
    MJpeg_15_1S,
    MJpeg_10_1,
    MJpeg_10_1M,
    MJpeg_4_1M,
    MJpeg_3_1,
    MJpeg_2_1,
    Unc_1_1,
    Unc_1_1_10B,
    MJpeg_35_1P,
    MJpeg_28_1P,
    MJpeg_14_1P,
    MJpeg_3_1P,
    MJpeg_2_1P,
    MJpeg_3_1M,
    MJpeg_8_1M,
    Dnxhd_1235,
    Dnxhd_1237,
    Dnxhd_1238,
    Dnxhd_1241,
    Dnxhd_1242,
    Dnxhd_1243,
    Dnxhd_1250,
    Dnxhd_1251,
    Dnxhd_1252,
    Dnxhd_1253,
    Mpeg4,
    XDCamHD,
    AVCIntra_100,
    AVCIntra_50,
    PCM,
}

impl AvidEssenceType {
    /// The name under which the value is shown.
    pub open spec fn spec_name(self) -> Seq<char> {
        match self {
            AvidEssenceType::Unknown => "not recognized"@,
            AvidEssenceType::Mpeg30 => "MPEG 30"@,
            AvidEssenceType::Mpeg40 => "MPEG 40"@,
            AvidEssenceType::Mpeg50 => "MPEG 50"@,
            AvidEssenceType::DV25_411 => "DV 25 411"@,
            AvidEssenceType::DV25_420 => "DV 25 420"@,
            AvidEssenceType::DV50 => "DV 50"@,
            AvidEssenceType::DV100 => "DV 100"@,
            AvidEssenceType::MJpeg_20_1 => "20:1"@,
            AvidEssenceType::MJpeg_2_1S => "2:1s"@,
            AvidEssenceType::MJpeg_4_1S => "4:1s"@,
            AvidEssenceType::MJpeg_15_1S => "15:1s"@,
            AvidEssenceType::MJpeg_10_1 => "10:1"@,
            AvidEssenceType::MJpeg_10_1M => "10:1m"@,
            AvidEssenceType::MJpeg_4_1M => "4:1m"@,
            AvidEssenceType::MJpeg_3_1 => "3:1"@,
            AvidEssenceType::MJpeg_2_1 => "2:1"@,
            AvidEssenceType::Unc_1_1 => "1:1"@,
            AvidEssenceType::Unc_1_1_10B => "1:1 10b"@,
            AvidEssenceType::MJpeg_35_1P => "35:1p"@,
            AvidEssenceType::MJpeg_28_1P => "28:1p"@,
            AvidEssenceType::MJpeg_14_1P => "14:1p"@,
            AvidEssenceType::MJpeg_3_1P => "3:1p"@,
            AvidEssenceType::MJpeg_2_1P => "2:1p"@,
            AvidEssenceType::MJpeg_3_1M => "3:1m"@,
            AvidEssenceType::MJpeg_8_1M => "8:1m"@,
            AvidEssenceType::Dnxhd_1235 => "DNxHD 1235"@,
            AvidEssenceType::Dnxhd_1237 => "DNxHD 1237"@,
            AvidEssenceType::Dnxhd_1238 => "DNxHD 1238"@,
            AvidEssenceType::Dnxhd_1241 => "DNxHD 1241"@,
            AvidEssenceType::Dnxhd_1242 => "DNxHD 1242"@,
            AvidEssenceType::Dnxhd_1243 => "DNxHD 1243"@,
            AvidEssenceType::Dnxhd_1250 => "DNxHD 1250"@,
            AvidEssenceType::Dnxhd_1251 => "DNxHD 1251"@,
            AvidEssenceType::Dnxhd_1252 => "DNxHD 1252"@,
            AvidEssenceType::Dnxhd_1253 => "DNxHD 1253"@,
            AvidEssenceType::Mpeg4 => "MPEG-4"@,
            AvidEssenceType::XDCamHD => "XDCAM HD"@,
            AvidEssenceType::AVCIntra_100 => "AVC-Intra 100"@,
            AvidEssenceType::AVCIntra_50 => "AVC-Intra 50"@,
            AvidEssenceType::PCM => "PCM"@,
        }
    }

    /// The name under which the value is shown.
    pub fn to_string(&self) -> (s: String)
        ensures
            s@ == self.spec_name(),
    {
        match self {
            AvidEssenceType::Unknown => "not recognized".to_owned(),
            AvidEssenceType::Mpeg30 => "MPEG 30".to_owned(),
            AvidEssenceType::Mpeg40 => "MPEG 40".to_owned(),
            AvidEssenceType::Mpeg50 => "MPEG 50".to_owned(),
            AvidEssenceType::DV25_411 => "DV 25 411".to_owned(),
            AvidEssenceType::DV25_420 => "DV 25 420".to_owned(),
            AvidEssenceType::DV50 => "DV 50".to_owned(),
            AvidEssenceType::DV100 => "DV 100".to_owned(),
            AvidEssenceType::MJpeg_20_1 => "20:1".to_owned(),
            AvidEssenceType::MJpeg_2_1S => "2:1s".to_owned(),
            AvidEssenceType::MJpeg_4_1S => "4:1s".to_owned(),
            AvidEssenceType::MJpeg_15_1S => "15:1s".to_owned(),
            AvidEssenceType::MJpeg_10_1 => "10:1".to_owned(),
            AvidEssenceType::MJpeg_10_1M => "10:1m".to_owned(),
            AvidEssenceType::MJpeg_4_1M => "4:1m".to_owned(),
            AvidEssenceType::MJpeg_3_1 => "3:1".to_owned(),
            AvidEssenceType::MJpeg_2_1 => "2:1".to_owned(),
            AvidEssenceType::Unc_1_1 => "1:1".to_owned(),
            AvidEssenceType::Unc_1_1_10B => "1:1 10b".to_owned(),
            AvidEssenceType::MJpeg_35_1P => "35:1p".to_owned(),
            AvidEssenceType::MJpeg_28_1P => "28:1p".to_owned(),
            AvidEssenceType::MJpeg_14_1P => "14:1p".to_owned(),
            AvidEssenceType::MJpeg_3_1P => "3:1p".to_owned(),
            AvidEssenceType::MJpeg_2_1P => "2:1p".to_owned(),
            AvidEssenceType::MJpeg_3_1M => "3:1m".to_owned(),
            AvidEssenceType::MJpeg_8_1M => "8:1m".to_owned(),
            AvidEssenceType::Dnxhd_1235 => "DNxHD 1235".to_owned(),
            AvidEssenceType::Dnxhd_1237 => "DNxHD 1237".to_owned(),
            AvidEssenceType::Dnxhd_1238 => "DNxHD 1238".to_owned(),
            AvidEssenceType::Dnxhd_1241 => "DNxHD 1241".to_owned(),
            AvidEssenceType::Dnxhd_1242 => "DNxHD 1242".to_owned(),
            AvidEssenceType::Dnxhd_1243 => "DNxHD 1243".to_owned(),
            AvidEssenceType::Dnxhd_1250 => "DNxHD 1250".to_owned(),
            AvidEssenceType::Dnxhd_1251 => "DNxHD 1251".to_owned(),
            AvidEssenceType::Dnxhd_1252 => "DNxHD 1252".to_owned(),
            AvidEssenceType::Dnxhd_1253 => "DNxHD 1253".to_owned(),
            AvidEssenceType::Mpeg4 => "MPEG-4".to_owned(),
            AvidEssenceType::XDCamHD => "XDCAM HD".to_owned(),
            AvidEssenceType::AVCIntra_100 => "AVC-Intra 100".to_owned(),
            AvidEssenceType::AVCIntra_50 => "AVC-Intra 50".to_owned(),
            AvidEssenceType::PCM => "PCM".to_owned(),
        }
    }
}

impl Default for AvidEssenceType {
    fn default() -> (v: AvidEssenceType)
        ensures
            v == AvidEssenceType::Unknown,
    {
        AvidEssenceType::Unknown
    }
}

} // verus!
