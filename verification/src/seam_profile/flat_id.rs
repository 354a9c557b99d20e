//! The flat index space of the parameter table.

use vstd::prelude::*;
use vstd::std_specs::convert::FromSpecImpl;

verus! {

/// A register of the parameter table, addressed in the flat space `[0, 250)`.
///
/// `Invalid` stands for every index outside the range; its number is `0xffff`.
#[derive(Copy, Clone, Debug, PartialEq, Eq, PartialOrd, Ord, Structural)]
pub enum SeamParamFlatId {
    XpExposureControl,
    XpExposureFramerate,
    XpExposureRsv,
    XpExposureTime,
    XpLaserControl,
    XpLaserStrength,
    XpLampControl,
    XpLampPower,
    XpExtractionAlgo,
    XpLumaThresh,
    XpScanMode,
    XpFilterTime,
    XpRoiX,
    XpRoiY,
    XpRoiW,
    XpRoiH,
    Xp16,
    Xp17,
    Xp18,
    Xp19,
    Xp20,
    Xp21,
    Xp22,
    Xp23,
    Xp24,
    Xp25,
    Xp26,
    Xp27,
    Xp28,
    Xp29,
    KpAngle1,
    KpAngle2,
    KpLength1,
    KpLength2,
    KpWidth1,
    KpWidth2,
    KpThickness1,
    KpThickness2,
    KpGap1,
    KpGap2,
    KpDrop1,
    KpDrop2,
    Kp12,
    Kp13,
    Kp14,
    Kp15,
    Kp16,
    Kp17,
    Kp18,
    Kp19,
    Kp20,
    Kp21,
    Kp22,
    Kp23,
    Kp24,
    Kp25,
    Kp26,
    Kp27,
    Kp28,
    Kp29,
    OpDetectMethod,
    OpDirection,
    OpCornerType,
    OpLayerSelect,
    OpGapPos,
    OpGapType,
    OpBevelAngle1,
    OpBevelAngle2,
    OpNormalType1,
    OpNormalType2,
    Op10,
    Op11,
    Op12,
    Op13,
    Op14,
    Op15,
    Op16,
    Op17,
    Op18,
    Op19,
    Op20,
    Op21,
    Op22,
    Op23,
    Op24,
    Op25,
    Op26,
    Op27,
    Op28,
    Op29,
    Op30,
    Op31,
    Op32,
    Op33,
    Op34,
    Op35,
    Op36,
    Op37,
    Op38,
    Op39,
    Op40,
    Op41,
    Op42,
    Op43,
    Op44,
    Op45,
    Op46,
    Op47,
    Op48,
    Op49,
    Op50,
    Op51,
    Op52,
    Op53,
    Op54,
    Op55,
    Op56,
    Op57,
    Op58,
    Op59,
    VpAngleMin,
    VpAngleMax,
    VpGapMin,
    VpGapMax,
    VpDropMin,
    VpDropMax,
    VpGrooveAreaMin,
    VpGrooveAreaMax,
    VpGrooveAreaPos,
    VpGrooveAreaType,
    VpWidth1Min,
    VpWidth1Max,
    VpWidth2Min,
    VpWidth2Max,
    VpWidth3Min,
    VpWidth3Max,
    VpWidth4Min,
    VpWidth4Max,
    VpWeldedAngleMin,
    VpWeldedAngleMax,
    VpWeldedAreaMin,
    VpWeldedAreaMax,
    VpWeldedLengthMin,
    VpWeldedLengthMax,
    VpWeldedThicknessMin,
    VpWeldedThicknessMax,
    VpWeldedWidthMin,
    VpWeldedWidthMax,
    VpWeldedDetection,
    VpWeldedRsv,
    VpNormalAngleMin,
    VpNormalAngleMax,
    Vp32,
    Vp33,
    Vp34,
    Vp35,
    Vp36,
    Vp37,
    Vp38,
    Vp39,
    Vp40,
    Vp41,
    Vp42,
    Vp43,
    Vp44,
    Vp45,
    Vp46,
    Vp47,
    VpL1A,
    VpL1APlus,
    VpL1Length,
    VpL2A,
    VpL2APlus,
    VpL2Length,
    VpL3A,
    VpL3APlus,
    VpL3Length,
    VpL4A,
    VpL4APlus,
    VpL4Length,
    OcFeaturePoint,
    OcFilterStrength,
    OcBasePosY,
    OcBasePosZ,
    OcBaseDeltaY,
    OcBaseDeltaZ,
    OcOffsetY,
    OcOffsetZ,
    OcStartPointFilter,
    OcTrackingArea,
    OcTrackingStrength,
    OcTrackingDuration,
    Oc12,
    Oc13,
    Oc14,
    Oc15,
    Oc16,
    Oc17,
    Oc18,
    Oc19,
    Oc20,
    Oc21,
    Oc22,
    Oc23,
    Oc24,
    Oc25,
    Oc26,
    Oc27,
    Oc28,
    Oc29,
    Oc30,
    Oc31,
    Oc32,
    Oc33,
    Oc34,
    Oc35,
    Oc36,
    Oc37,
    Oc38,
    Oc39,
    Oc40,
    Oc41,
    Oc42,
    Oc43,
    Oc44,
    Oc45,
    Oc46,
    Oc47,
    Oc48,
    Oc49,
    Oc50,
    Oc51,
    Oc52,
    Oc53,
    Oc54,
    Oc55,
    Oc56,
    Oc57,
    Oc58,
    Oc59,
    SfJointType,
    SfXpEn,
    SfKpEn,
    SfOpEn1,
    SfOpEn2,
    SfVpEn1,
    SfVpEn2,
    SfOcEn1,
    SfOcEn2,
    SfVersion,
    Invalid,
}

impl SeamParamFlatId {
    /// The number of this register; `0xffff` for `Invalid`.
    pub open spec fn spec_index(self) -> int {
        match self {
            Self::XpExposureControl => 0,
            Self::XpExposureFramerate => 1,
            Self::XpExposureRsv => 2,
            Self::XpExposureTime => 3,
            Self::XpLaserControl => 4,
            Self::XpLaserStrength => 5,
            Self::XpLampControl => 6,
            Self::XpLampPower => 7,
            Self::XpExtractionAlgo => 8,
            Self::XpLumaThresh => 9,
            Self::XpScanMode => 10,
            Self::XpFilterTime => 11,
            Self::XpRoiX => 12,
            Self::XpRoiY => 13,
            Self::XpRoiW => 14,
            Self::XpRoiH => 15,
            Self::Xp16 => 16,
            Self::Xp17 => 17,
            Self::Xp18 => 18,
            Self::Xp19 => 19,
            Self::Xp20 => 20,
            Self::Xp21 => 21,
            Self::Xp22 => 22,
            Self::Xp23 => 23,
            Self::Xp24 => 24,
            Self::Xp25 => 25,
            Self::Xp26 => 26,
            Self::Xp27 => 27,
            Self::Xp28 => 28,
            Self::Xp29 => 29,
            Self::KpAngle1 => 30,
            Self::KpAngle2 => 31,
            Self::KpLength1 => 32,
            Self::KpLength2 => 33,
            Self::KpWidth1 => 34,
            Self::KpWidth2 => 35,
            Self::KpThickness1 => 36,
            Self::KpThickness2 => 37,
            Self::KpGap1 => 38,
            Self::KpGap2 => 39,
            Self::KpDrop1 => 40,
            Self::KpDrop2 => 41,
            Self::Kp12 => 42,
            Self::Kp13 => 43,
            Self::Kp14 => 44,
            Self::Kp15 => 45,
            Self::Kp16 => 46,
            Self::Kp17 => 47,
            Self::Kp18 => 48,
            Self::Kp19 => 49,
            Self::Kp20 => 50,
            Self::Kp21 => 51,
            Self::Kp22 => 52,
            Self::Kp23 => 53,
            Self::Kp24 => 54,
            Self::Kp25 => 55,
            Self::Kp26 => 56,
            Self::Kp27 => 57,
            Self::Kp28 => 58,
            Self::Kp29 => 59,
            Self::OpDetectMethod => 60,
            Self::OpDirection => 61,
            Self::OpCornerType => 62,
            Self::OpLayerSelect => 63,
            Self::OpGapPos => 64,
            Self::OpGapType => 65,
            Self::OpBevelAngle1 => 66,
            Self::OpBevelAngle2 => 67,
            Self::OpNormalType1 => 68,
            Self::OpNormalType2 => 69,
            Self::Op10 => 70,
            Self::Op11 => 71,
            Self::Op12 => 72,
            Self::Op13 => 73,
            Self::Op14 => 74,
            Self::Op15 => 75,
            Self::Op16 => 76,
            Self::Op17 => 77,
            Self::Op18 => 78,
            Self::Op19 => 79,
            Self::Op20 => 80,
            Self::Op21 => 81,
            Self::Op22 => 82,
            Self::Op23 => 83,
            Self::Op24 => 84,
            Self::Op25 => 85,
            Self::Op26 => 86,
            Self::Op27 => 87,
            Self::Op28 => 88,
            Self::Op29 => 89,
            Self::Op30 => 90,
            Self::Op31 => 91,
            Self::Op32 => 92,
            Self::Op33 => 93,
            Self::Op34 => 94,
            Self::Op35 => 95,
            Self::Op36 => 96,
            Self::Op37 => 97,
            Self::Op38 => 98,
            Self::Op39 => 99,
            Self::Op40 => 100,
            Self::Op41 => 101,
            Self::Op42 => 102,
            Self::Op43 => 103,
            Self::Op44 => 104,
            Self::Op45 => 105,
            Self::Op46 => 106,
            Self::Op47 => 107,
            Self::Op48 => 108,
            Self::Op49 => 109,
            Self::Op50 => 110,
            Self::Op51 => 111,
            Self::Op52 => 112,
            Self::Op53 => 113,
            Self::Op54 => 114,
            Self::Op55 => 115,
            Self::Op56 => 116,
            Self::Op57 => 117,
            Self::Op58 => 118,
            Self::Op59 => 119,
            Self::VpAngleMin => 120,
            Self::VpAngleMax => 121,
            Self::VpGapMin => 122,
            Self::VpGapMax => 123,
            Self::VpDropMin => 124,
            Self::VpDropMax => 125,
            Self::VpGrooveAreaMin => 126,
            Self::VpGrooveAreaMax => 127,
            Self::VpGrooveAreaPos => 128,
            Self::VpGrooveAreaType => 129,
            Self::VpWidth1Min => 130,
            Self::VpWidth1Max => 131,
            Self::VpWidth2Min => 132,
            Self::VpWidth2Max => 133,
            Self::VpWidth3Min => 134,
            Self::VpWidth3Max => 135,
            Self::VpWidth4Min => 136,
            Self::VpWidth4Max => 137,
            Self::VpWeldedAngleMin => 138,
            Self::VpWeldedAngleMax => 139,
            Self::VpWeldedAreaMin => 140,
            Self::VpWeldedAreaMax => 141,
            Self::VpWeldedLengthMin => 142,
            Self::VpWeldedLengthMax => 143,
            Self::VpWeldedThicknessMin => 144,
            Self::VpWeldedThicknessMax => 145,
            Self::VpWeldedWidthMin => 146,
            Self::VpWeldedWidthMax => 147,
            Self::VpWeldedDetection => 148,
            Self::VpWeldedRsv => 149,
            Self::VpNormalAngleMin => 150,
            Self::VpNormalAngleMax => 151,
            Self::Vp32 => 152,
            Self::Vp33 => 153,
            Self::Vp34 => 154,
            Self::Vp35 => 155,
            Self::Vp36 => 156,
            Self::Vp37 => 157,
            Self::Vp38 => 158,
            Self::Vp39 => 159,
            Self::Vp40 => 160,
            Self::Vp41 => 161,
            Self::Vp42 => 162,
            Self::Vp43 => 163,
            Self::Vp44 => 164,
            Self::Vp45 => 165,
            Self::Vp46 => 166,
            Self::Vp47 => 167,
            Self::VpL1A => 168,
            Self::VpL1APlus => 169,
            Self::VpL1Length => 170,
            Self::VpL2A => 171,
            Self::VpL2APlus => 172,
            Self::VpL2Length => 173,
            Self::VpL3A => 174,
            Self::VpL3APlus => 175,
            Self::VpL3Length => 176,
            Self::VpL4A => 177,
            Self::VpL4APlus => 178,
            Self::VpL4Length => 179,
            Self::OcFeaturePoint => 180,
            Self::OcFilterStrength => 181,
            Self::OcBasePosY => 182,
            Self::OcBasePosZ => 183,
            Self::OcBaseDeltaY => 184,
            Self::OcBaseDeltaZ => 185,
            Self::OcOffsetY => 186,
            Self::OcOffsetZ => 187,
            Self::OcStartPointFilter => 188,
            Self::OcTrackingArea => 189,
            Self::OcTrackingStrength => 190,
            Self::OcTrackingDuration => 191,
            Self::Oc12 => 192,
            Self::Oc13 => 193,
            Self::Oc14 => 194,
            Self::Oc15 => 195,
            Self::Oc16 => 196,
            Self::Oc17 => 197,
            Self::Oc18 => 198,
            Self::Oc19 => 199,
            Self::Oc20 => 200,
            Self::Oc21 => 201,
            Self::Oc22 => 202,
            Self::Oc23 => 203,
            Self::Oc24 => 204,
            Self::Oc25 => 205,
            Self::Oc26 => 206,
            Self::Oc27 => 207,
            Self::Oc28 => 208,
            Self::Oc29 => 209,
            Self::Oc30 => 210,
            Self::Oc31 => 211,
            Self::Oc32 => 212,
            Self::Oc33 => 213,
            Self::Oc34 => 214,
            Self::Oc35 => 215,
            Self::Oc36 => 216,
            Self::Oc37 => 217,
            Self::Oc38 => 218,
            Self::Oc39 => 219,
            Self::Oc40 => 220,
            Self::Oc41 => 221,
            Self::Oc42 => 222,
            Self::Oc43 => 223,
            Self::Oc44 => 224,
            Self::Oc45 => 225,
            Self::Oc46 => 226,
            Self::Oc47 => 227,
            Self::Oc48 => 228,
            Self::Oc49 => 229,
            Self::Oc50 => 230,
            Self::Oc51 => 231,
            Self::Oc52 => 232,
            Self::Oc53 => 233,
            Self::Oc54 => 234,
            Self::Oc55 => 235,
            Self::Oc56 => 236,
            Self::Oc57 => 237,
            Self::Oc58 => 238,
            Self::Oc59 => 239,
            Self::SfJointType => 240,
            Self::SfXpEn => 241,
            Self::SfKpEn => 242,
            Self::SfOpEn1 => 243,
            Self::SfOpEn2 => 244,
            Self::SfVpEn1 => 245,
            Self::SfVpEn2 => 246,
            Self::SfOcEn1 => 247,
            Self::SfOcEn2 => 248,
            Self::SfVersion => 249,
            Self::Invalid => 0xffff,
        }
    }

    /// The register with number `i`; `Invalid` where `i` is outside `[0, 250)`.
    pub open spec fn spec_from_index(i: int) -> Self {
        if i == 0 {
            Self::XpExposureControl
        } else if i == 1 {
            Self::XpExposureFramerate
        } else if i == 2 {
            Self::XpExposureRsv
        } else if i == 3 {
            Self::XpExposureTime
        } else if i == 4 {
            Self::XpLaserControl
        } else if i == 5 {
            Self::XpLaserStrength
        } else if i == 6 {
            Self::XpLampControl
        } else if i == 7 {
            Self::XpLampPower
        } else if i == 8 {
            Self::XpExtractionAlgo
        } else if i == 9 {
            Self::XpLumaThresh
        } else if i == 10 {
            Self::XpScanMode
        } else if i == 11 {
            Self::XpFilterTime
        } else if i == 12 {
            Self::XpRoiX
        } else if i == 13 {
            Self::XpRoiY
        } else if i == 14 {
            Self::XpRoiW
        } else if i == 15 {
            Self::XpRoiH
        } else if i == 16 {
            Self::Xp16
        } else if i == 17 {
            Self::Xp17
        } else if i == 18 {
            Self::Xp18
        } else if i == 19 {
            Self::Xp19
        } else if i == 20 {
            Self::Xp20
        } else if i == 21 {
            Self::Xp21
        } else if i == 22 {
            Self::Xp22
        } else if i == 23 {
            Self::Xp23
        } else if i == 24 {
            Self::Xp24
        } else if i == 25 {
            Self::Xp25
        } else if i == 26 {
            Self::Xp26
        } else if i == 27 {
            Self::Xp27
        } else if i == 28 {
            Self::Xp28
        } else if i == 29 {
            Self::Xp29
        } else if i == 30 {
            Self::KpAngle1
        } else if i == 31 {
            Self::KpAngle2
        } else if i == 32 {
            Self::KpLength1
        } else if i == 33 {
            Self::KpLength2
        } else if i == 34 {
            Self::KpWidth1
        } else if i == 35 {
            Self::KpWidth2
        } else if i == 36 {
            Self::KpThickness1
        } else if i == 37 {
            Self::KpThickness2
        } else if i == 38 {
            Self::KpGap1
        } else if i == 39 {
            Self::KpGap2
        } else if i == 40 {
            Self::KpDrop1
        } else if i == 41 {
            Self::KpDrop2
        } else if i == 42 {
            Self::Kp12
        } else if i == 43 {
            Self::Kp13
        } else if i == 44 {
            Self::Kp14
        } else if i == 45 {
            Self::Kp15
        } else if i == 46 {
            Self::Kp16
        } else if i == 47 {
            Self::Kp17
        } else if i == 48 {
            Self::Kp18
        } else if i == 49 {
            Self::Kp19
        } else if i == 50 {
            Self::Kp20
        } else if i == 51 {
            Self::Kp21
        } else if i == 52 {
            Self::Kp22
        } else if i == 53 {
            Self::Kp23
        } else if i == 54 {
            Self::Kp24
        } else if i == 55 {
            Self::Kp25
        } else if i == 56 {
            Self::Kp26
        } else if i == 57 {
            Self::Kp27
        } else if i == 58 {
            Self::Kp28
        } else if i == 59 {
            Self::Kp29
        } else if i == 60 {
            Self::OpDetectMethod
        } else if i == 61 {
            Self::OpDirection
        } else if i == 62 {
            Self::OpCornerType
        } else if i == 63 {
            Self::OpLayerSelect
        } else if i == 64 {
            Self::OpGapPos
        } else if i == 65 {
            Self::OpGapType
        } else if i == 66 {
            Self::OpBevelAngle1
        } else if i == 67 {
            Self::OpBevelAngle2
        } else if i == 68 {
            Self::OpNormalType1
        } else if i == 69 {
            Self::OpNormalType2
        } else if i == 70 {
            Self::Op10
        } else if i == 71 {
            Self::Op11
        } else if i == 72 {
            Self::Op12
        } else if i == 73 {
            Self::Op13
        } else if i == 74 {
            Self::Op14
        } else if i == 75 {
            Self::Op15
        } else if i == 76 {
            Self::Op16
        } else if i == 77 {
            Self::Op17
        } else if i == 78 {
            Self::Op18
        } else if i == 79 {
            Self::Op19
        } else if i == 80 {
            Self::Op20
        } else if i == 81 {
            Self::Op21
        } else if i == 82 {
            Self::Op22
        } else if i == 83 {
            Self::Op23
        } else if i == 84 {
            Self::Op24
        } else if i == 85 {
            Self::Op25
        } else if i == 86 {
            Self::Op26
        } else if i == 87 {
            Self::Op27
        } else if i == 88 {
            Self::Op28
        } else if i == 89 {
            Self::Op29
        } else if i == 90 {
            Self::Op30
        } else if i == 91 {
            Self::Op31
        } else if i == 92 {
            Self::Op32
        } else if i == 93 {
            Self::Op33
        } else if i == 94 {
            Self::Op34
        } else if i == 95 {
            Self::Op35
        } else if i == 96 {
            Self::Op36
        } else if i == 97 {
            Self::Op37
        } else if i == 98 {
            Self::Op38
        } else if i == 99 {
            Self::Op39
        } else if i == 100 {
            Self::Op40
        } else if i == 101 {
            Self::Op41
        } else if i == 102 {
            Self::Op42
        } else if i == 103 {
            Self::Op43
        } else if i == 104 {
            Self::Op44
        } else if i == 105 {
            Self::Op45
        } else if i == 106 {
            Self::Op46
        } else if i == 107 {
            Self::Op47
        } else if i == 108 {
            Self::Op48
        } else if i == 109 {
            Self::Op49
        } else if i == 110 {
            Self::Op50
        } else if i == 111 {
            Self::Op51
        } else if i == 112 {
            Self::Op52
        } else if i == 113 {
            Self::Op53
        } else if i == 114 {
            Self::Op54
        } else if i == 115 {
            Self::Op55
        } else if i == 116 {
            Self::Op56
        } else if i == 117 {
            Self::Op57
        } else if i == 118 {
            Self::Op58
        } else if i == 119 {
            Self::Op59
        } else if i == 120 {
            Self::VpAngleMin
        } else if i == 121 {
            Self::VpAngleMax
        } else if i == 122 {
            Self::VpGapMin
        } else if i == 123 {
            Self::VpGapMax
        } else if i == 124 {
            Self::VpDropMin
        } else if i == 125 {
            Self::VpDropMax
        } else if i == 126 {
            Self::VpGrooveAreaMin
        } else if i == 127 {
            Self::VpGrooveAreaMax
        } else if i == 128 {
            Self::VpGrooveAreaPos
        } else if i == 129 {
            Self::VpGrooveAreaType
        } else if i == 130 {
            Self::VpWidth1Min
        } else if i == 131 {
            Self::VpWidth1Max
        } else if i == 132 {
            Self::VpWidth2Min
        } else if i == 133 {
            Self::VpWidth2Max
        } else if i == 134 {
            Self::VpWidth3Min
        } else if i == 135 {
            Self::VpWidth3Max
        } else if i == 136 {
            Self::VpWidth4Min
        } else if i == 137 {
            Self::VpWidth4Max
        } else if i == 138 {
            Self::VpWeldedAngleMin
        } else if i == 139 {
            Self::VpWeldedAngleMax
        } else if i == 140 {
            Self::VpWeldedAreaMin
        } else if i == 141 {
            Self::VpWeldedAreaMax
        } else if i == 142 {
            Self::VpWeldedLengthMin
        } else if i == 143 {
            Self::VpWeldedLengthMax
        } else if i == 144 {
            Self::VpWeldedThicknessMin
        } else if i == 145 {
            Self::VpWeldedThicknessMax
        } else if i == 146 {
            Self::VpWeldedWidthMin
        } else if i == 147 {
            Self::VpWeldedWidthMax
        } else if i == 148 {
            Self::VpWeldedDetection
        } else if i == 149 {
            Self::VpWeldedRsv
        } else if i == 150 {
            Self::VpNormalAngleMin
        } else if i == 151 {
            Self::VpNormalAngleMax
        } else if i == 152 {
            Self::Vp32
        } else if i == 153 {
            Self::Vp33
        } else if i == 154 {
            Self::Vp34
        } else if i == 155 {
            Self::Vp35
        } else if i == 156 {
            Self::Vp36
        } else if i == 157 {
            Self::Vp37
        } else if i == 158 {
            Self::Vp38
        } else if i == 159 {
            Self::Vp39
        } else if i == 160 {
            Self::Vp40
        } else if i == 161 {
            Self::Vp41
        } else if i == 162 {
            Self::Vp42
        } else if i == 163 {
            Self::Vp43
        } else if i == 164 {
            Self::Vp44
        } else if i == 165 {
            Self::Vp45
        } else if i == 166 {
            Self::Vp46
        } else if i == 167 {
            Self::Vp47
        } else if i == 168 {
            Self::VpL1A
        } else if i == 169 {
            Self::VpL1APlus
        } else if i == 170 {
            Self::VpL1Length
        } else if i == 171 {
            Self::VpL2A
        } else if i == 172 {
            Self::VpL2APlus
        } else if i == 173 {
            Self::VpL2Length
        } else if i == 174 {
            Self::VpL3A
        } else if i == 175 {
            Self::VpL3APlus
        } else if i == 176 {
            Self::VpL3Length
        } else if i == 177 {
            Self::VpL4A
        } else if i == 178 {
            Self::VpL4APlus
        } else if i == 179 {
            Self::VpL4Length
        } else if i == 180 {
            Self::OcFeaturePoint
        } else if i == 181 {
            Self::OcFilterStrength
        } else if i == 182 {
            Self::OcBasePosY
        } else if i == 183 {
            Self::OcBasePosZ
        } else if i == 184 {
            Self::OcBaseDeltaY
        } else if i == 185 {
            Self::OcBaseDeltaZ
        } else if i == 186 {
            Self::OcOffsetY
        } else if i == 187 {
            Self::OcOffsetZ
        } else if i == 188 {
            Self::OcStartPointFilter
        } else if i == 189 {
            Self::OcTrackingArea
        } else if i == 190 {
            Self::OcTrackingStrength
        } else if i == 191 {
            Self::OcTrackingDuration
        } else if i == 192 {
            Self::Oc12
        } else if i == 193 {
            Self::Oc13
        } else if i == 194 {
            Self::Oc14
        } else if i == 195 {
            Self::Oc15
        } else if i == 196 {
            Self::Oc16
        } else if i == 197 {
            Self::Oc17
        } else if i == 198 {
            Self::Oc18
        } else if i == 199 {
            Self::Oc19
        } else if i == 200 {
            Self::Oc20
        } else if i == 201 {
            Self::Oc21
        } else if i == 202 {
            Self::Oc22
        } else if i == 203 {
            Self::Oc23
        } else if i == 204 {
            Self::Oc24
        } else if i == 205 {
            Self::Oc25
        } else if i == 206 {
            Self::Oc26
        } else if i == 207 {
            Self::Oc27
        } else if i == 208 {
            Self::Oc28
        } else if i == 209 {
            Self::Oc29
        } else if i == 210 {
            Self::Oc30
        } else if i == 211 {
            Self::Oc31
        } else if i == 212 {
            Self::Oc32
        } else if i == 213 {
            Self::Oc33
        } else if i == 214 {
            Self::Oc34
        } else if i == 215 {
            Self::Oc35
        } else if i == 216 {
            Self::Oc36
        } else if i == 217 {
            Self::Oc37
        } else if i == 218 {
            Self::Oc38
        } else if i == 219 {
            Self::Oc39
        } else if i == 220 {
            Self::Oc40
        } else if i == 221 {
            Self::Oc41
        } else if i == 222 {
            Self::Oc42
        } else if i == 223 {
            Self::Oc43
        } else if i == 224 {
            Self::Oc44
        } else if i == 225 {
            Self::Oc45
        } else if i == 226 {
            Self::Oc46
        } else if i == 227 {
            Self::Oc47
        } else if i == 228 {
            Self::Oc48
        } else if i == 229 {
            Self::Oc49
        } else if i == 230 {
            Self::Oc50
        } else if i == 231 {
            Self::Oc51
        } else if i == 232 {
            Self::Oc52
        } else if i == 233 {
            Self::Oc53
        } else if i == 234 {
            Self::Oc54
        } else if i == 235 {
            Self::Oc55
        } else if i == 236 {
            Self::Oc56
        } else if i == 237 {
            Self::Oc57
        } else if i == 238 {
            Self::Oc58
        } else if i == 239 {
            Self::Oc59
        } else if i == 240 {
            Self::SfJointType
        } else if i == 241 {
            Self::SfXpEn
        } else if i == 242 {
            Self::SfKpEn
        } else if i == 243 {
            Self::SfOpEn1
        } else if i == 244 {
            Self::SfOpEn2
        } else if i == 245 {
            Self::SfVpEn1
        } else if i == 246 {
            Self::SfVpEn2
        } else if i == 247 {
            Self::SfOcEn1
        } else if i == 248 {
            Self::SfOcEn2
        } else if i == 249 {
            Self::SfVersion
        } else {
            Self::Invalid
        }
    }

    /// The number of this register as an array index.
    pub fn index(self) -> (r: usize)
        ensures
            r == self.spec_index(),
    {
        match self {
            Self::XpExposureControl => 0,
            Self::XpExposureFramerate => 1,
            Self::XpExposureRsv => 2,
            Self::XpExposureTime => 3,
            Self::XpLaserControl => 4,
            Self::XpLaserStrength => 5,
            Self::XpLampControl => 6,
            Self::XpLampPower => 7,
            Self::XpExtractionAlgo => 8,
            Self::XpLumaThresh => 9,
            Self::XpScanMode => 10,
            Self::XpFilterTime => 11,
            Self::XpRoiX => 12,
            Self::XpRoiY => 13,
            Self::XpRoiW => 14,
            Self::XpRoiH => 15,
            Self::Xp16 => 16,
            Self::Xp17 => 17,
            Self::Xp18 => 18,
            Self::Xp19 => 19,
            Self::Xp20 => 20,
            Self::Xp21 => 21,
            Self::Xp22 => 22,
            Self::Xp23 => 23,
            Self::Xp24 => 24,
            Self::Xp25 => 25,
            Self::Xp26 => 26,
            Self::Xp27 => 27,
            Self::Xp28 => 28,
            Self::Xp29 => 29,
            Self::KpAngle1 => 30,
            Self::KpAngle2 => 31,
            Self::KpLength1 => 32,
            Self::KpLength2 => 33,
            Self::KpWidth1 => 34,
            Self::KpWidth2 => 35,
            Self::KpThickness1 => 36,
            Self::KpThickness2 => 37,
            Self::KpGap1 => 38,
            Self::KpGap2 => 39,
            Self::KpDrop1 => 40,
            Self::KpDrop2 => 41,
            Self::Kp12 => 42,
            Self::Kp13 => 43,
            Self::Kp14 => 44,
            Self::Kp15 => 45,
            Self::Kp16 => 46,
            Self::Kp17 => 47,
            Self::Kp18 => 48,
            Self::Kp19 => 49,
            Self::Kp20 => 50,
            Self::Kp21 => 51,
            Self::Kp22 => 52,
            Self::Kp23 => 53,
            Self::Kp24 => 54,
            Self::Kp25 => 55,
            Self::Kp26 => 56,
            Self::Kp27 => 57,
            Self::Kp28 => 58,
            Self::Kp29 => 59,
            Self::OpDetectMethod => 60,
            Self::OpDirection => 61,
            Self::OpCornerType => 62,
            Self::OpLayerSelect => 63,
            Self::OpGapPos => 64,
            Self::OpGapType => 65,
            Self::OpBevelAngle1 => 66,
            Self::OpBevelAngle2 => 67,
            Self::OpNormalType1 => 68,
            Self::OpNormalType2 => 69,
            Self::Op10 => 70,
            Self::Op11 => 71,
            Self::Op12 => 72,
            Self::Op13 => 73,
            Self::Op14 => 74,
            Self::Op15 => 75,
            Self::Op16 => 76,
            Self::Op17 => 77,
            Self::Op18 => 78,
            Self::Op19 => 79,
            Self::Op20 => 80,
            Self::Op21 => 81,
            Self::Op22 => 82,
            Self::Op23 => 83,
            Self::Op24 => 84,
            Self::Op25 => 85,
            Self::Op26 => 86,
            Self::Op27 => 87,
            Self::Op28 => 88,
            Self::Op29 => 89,
            Self::Op30 => 90,
            Self::Op31 => 91,
            Self::Op32 => 92,
            Self::Op33 => 93,
            Self::Op34 => 94,
            Self::Op35 => 95,
            Self::Op36 => 96,
            Self::Op37 => 97,
            Self::Op38 => 98,
            Self::Op39 => 99,
            Self::Op40 => 100,
            Self::Op41 => 101,
            Self::Op42 => 102,
            Self::Op43 => 103,
            Self::Op44 => 104,
            Self::Op45 => 105,
            Self::Op46 => 106,
            Self::Op47 => 107,
            Self::Op48 => 108,
            Self::Op49 => 109,
            Self::Op50 => 110,
            Self::Op51 => 111,
            Self::Op52 => 112,
            Self::Op53 => 113,
            Self::Op54 => 114,
            Self::Op55 => 115,
            Self::Op56 => 116,
            Self::Op57 => 117,
            Self::Op58 => 118,
            Self::Op59 => 119,
            Self::VpAngleMin => 120,
            Self::VpAngleMax => 121,
            Self::VpGapMin => 122,
            Self::VpGapMax => 123,
            Self::VpDropMin => 124,
            Self::VpDropMax => 125,
            Self::VpGrooveAreaMin => 126,
            Self::VpGrooveAreaMax => 127,
            Self::VpGrooveAreaPos => 128,
            Self::VpGrooveAreaType => 129,
            Self::VpWidth1Min => 130,
            Self::VpWidth1Max => 131,
            Self::VpWidth2Min => 132,
            Self::VpWidth2Max => 133,
            Self::VpWidth3Min => 134,
            Self::VpWidth3Max => 135,
            Self::VpWidth4Min => 136,
            Self::VpWidth4Max => 137,
            Self::VpWeldedAngleMin => 138,
            Self::VpWeldedAngleMax => 139,
            Self::VpWeldedAreaMin => 140,
            Self::VpWeldedAreaMax => 141,
            Self::VpWeldedLengthMin => 142,
            Self::VpWeldedLengthMax => 143,
            Self::VpWeldedThicknessMin => 144,
            Self::VpWeldedThicknessMax => 145,
            Self::VpWeldedWidthMin => 146,
            Self::VpWeldedWidthMax => 147,
            Self::VpWeldedDetection => 148,
            Self::VpWeldedRsv => 149,
            Self::VpNormalAngleMin => 150,
            Self::VpNormalAngleMax => 151,
            Self::Vp32 => 152,
            Self::Vp33 => 153,
            Self::Vp34 => 154,
            Self::Vp35 => 155,
            Self::Vp36 => 156,
            Self::Vp37 => 157,
            Self::Vp38 => 158,
            Self::Vp39 => 159,
            Self::Vp40 => 160,
            Self::Vp41 => 161,
            Self::Vp42 => 162,
            Self::Vp43 => 163,
            Self::Vp44 => 164,
            Self::Vp45 => 165,
            Self::Vp46 => 166,
            Self::Vp47 => 167,
            Self::VpL1A => 168,
            Self::VpL1APlus => 169,
            Self::VpL1Length => 170,
            Self::VpL2A => 171,
            Self::VpL2APlus => 172,
            Self::VpL2Length => 173,
            Self::VpL3A => 174,
            Self::VpL3APlus => 175,
            Self::VpL3Length => 176,
            Self::VpL4A => 177,
            Self::VpL4APlus => 178,
            Self::VpL4Length => 179,
            Self::OcFeaturePoint => 180,
            Self::OcFilterStrength => 181,
            Self::OcBasePosY => 182,
            Self::OcBasePosZ => 183,
            Self::OcBaseDeltaY => 184,
            Self::OcBaseDeltaZ => 185,
            Self::OcOffsetY => 186,
            Self::OcOffsetZ => 187,
            Self::OcStartPointFilter => 188,
            Self::OcTrackingArea => 189,
            Self::OcTrackingStrength => 190,
            Self::OcTrackingDuration => 191,
            Self::Oc12 => 192,
            Self::Oc13 => 193,
            Self::Oc14 => 194,
            Self::Oc15 => 195,
            Self::Oc16 => 196,
            Self::Oc17 => 197,
            Self::Oc18 => 198,
            Self::Oc19 => 199,
            Self::Oc20 => 200,
            Self::Oc21 => 201,
            Self::Oc22 => 202,
            Self::Oc23 => 203,
            Self::Oc24 => 204,
            Self::Oc25 => 205,
            Self::Oc26 => 206,
            Self::Oc27 => 207,
            Self::Oc28 => 208,
            Self::Oc29 => 209,
            Self::Oc30 => 210,
            Self::Oc31 => 211,
            Self::Oc32 => 212,
            Self::Oc33 => 213,
            Self::Oc34 => 214,
            Self::Oc35 => 215,
            Self::Oc36 => 216,
            Self::Oc37 => 217,
            Self::Oc38 => 218,
            Self::Oc39 => 219,
            Self::Oc40 => 220,
            Self::Oc41 => 221,
            Self::Oc42 => 222,
            Self::Oc43 => 223,
            Self::Oc44 => 224,
            Self::Oc45 => 225,
            Self::Oc46 => 226,
            Self::Oc47 => 227,
            Self::Oc48 => 228,
            Self::Oc49 => 229,
            Self::Oc50 => 230,
            Self::Oc51 => 231,
            Self::Oc52 => 232,
            Self::Oc53 => 233,
            Self::Oc54 => 234,
            Self::Oc55 => 235,
            Self::Oc56 => 236,
            Self::Oc57 => 237,
            Self::Oc58 => 238,
            Self::Oc59 => 239,
            Self::SfJointType => 240,
            Self::SfXpEn => 241,
            Self::SfKpEn => 242,
            Self::SfOpEn1 => 243,
            Self::SfOpEn2 => 244,
            Self::SfVpEn1 => 245,
            Self::SfVpEn2 => 246,
            Self::SfOcEn1 => 247,
            Self::SfOcEn2 => 248,
            Self::SfVersion => 249,
            Self::Invalid => 0xffff,
        }
    }

    /// Whether this names a register, that is, anything but `Invalid`.
    pub fn is_valid(self) -> (r: bool)
        ensures
            r == (self.spec_index() < 250),
            r == (self != Self::Invalid),
    {
        self.index() < 250
    }

    /// Every register is found again from its number.
    pub proof fn lemma_index_round_trip(self)
        ensures
            Self::spec_from_index(self.spec_index()) == self,
            self != Self::Invalid ==> 0 <= self.spec_index() < 250,
    {
    }

    /// Every number in range names the register with that number, every other number `Invalid`.
    pub proof fn lemma_from_index(i: int)
        ensures
            0 <= i < 250 ==> Self::spec_from_index(i).spec_index() == i,
            !(0 <= i < 250) ==> Self::spec_from_index(i) == Self::Invalid,
    {
    }
}

impl From<i32> for SeamParamFlatId {
    fn from(value: i32) -> (r: Self) {
        match value {
            0 => Self::XpExposureControl,
            1 => Self::XpExposureFramerate,
            2 => Self::XpExposureRsv,
            3 => Self::XpExposureTime,
            4 => Self::XpLaserControl,
            5 => Self::XpLaserStrength,
            6 => Self::XpLampControl,
            7 => Self::XpLampPower,
            8 => Self::XpExtractionAlgo,
            9 => Self::XpLumaThresh,
            10 => Self::XpScanMode,
            11 => Self::XpFilterTime,
            12 => Self::XpRoiX,
            13 => Self::XpRoiY,
            14 => Self::XpRoiW,
            15 => Self::XpRoiH,
            16 => Self::Xp16,
            17 => Self::Xp17,
            18 => Self::Xp18,
            19 => Self::Xp19,
            20 => Self::Xp20,
            21 => Self::Xp21,
            22 => Self::Xp22,
            23 => Self::Xp23,
            24 => Self::Xp24,
            25 => Self::Xp25,
            26 => Self::Xp26,
            27 => Self::Xp27,
            28 => Self::Xp28,
            29 => Self::Xp29,
            30 => Self::KpAngle1,
            31 => Self::KpAngle2,
            32 => Self::KpLength1,
            33 => Self::KpLength2,
            34 => Self::KpWidth1,
            35 => Self::KpWidth2,
            36 => Self::KpThickness1,
            37 => Self::KpThickness2,
            38 => Self::KpGap1,
            39 => Self::KpGap2,
            40 => Self::KpDrop1,
            41 => Self::KpDrop2,
            42 => Self::Kp12,
            43 => Self::Kp13,
            44 => Self::Kp14,
            45 => Self::Kp15,
            46 => Self::Kp16,
            47 => Self::Kp17,
            48 => Self::Kp18,
            49 => Self::Kp19,
            50 => Self::Kp20,
            51 => Self::Kp21,
            52 => Self::Kp22,
            53 => Self::Kp23,
            54 => Self::Kp24,
            55 => Self::Kp25,
            56 => Self::Kp26,
            57 => Self::Kp27,
            58 => Self::Kp28,
            59 => Self::Kp29,
            60 => Self::OpDetectMethod,
            61 => Self::OpDirection,
            62 => Self::OpCornerType,
            63 => Self::OpLayerSelect,
            64 => Self::OpGapPos,
            65 => Self::OpGapType,
            66 => Self::OpBevelAngle1,
            67 => Self::OpBevelAngle2,
            68 => Self::OpNormalType1,
            69 => Self::OpNormalType2,
            70 => Self::Op10,
            71 => Self::Op11,
            72 => Self::Op12,
            73 => Self::Op13,
            74 => Self::Op14,
            75 => Self::Op15,
            76 => Self::Op16,
            77 => Self::Op17,
            78 => Self::Op18,
            79 => Self::Op19,
            80 => Self::Op20,
            81 => Self::Op21,
            82 => Self::Op22,
            83 => Self::Op23,
            84 => Self::Op24,
            85 => Self::Op25,
            86 => Self::Op26,
            87 => Self::Op27,
            88 => Self::Op28,
            89 => Self::Op29,
            90 => Self::Op30,
            91 => Self::Op31,
            92 => Self::Op32,
            93 => Self::Op33,
            94 => Self::Op34,
            95 => Self::Op35,
            96 => Self::Op36,
            97 => Self::Op37,
            98 => Self::Op38,
            99 => Self::Op39,
            100 => Self::Op40,
            101 => Self::Op41,
            102 => Self::Op42,
            103 => Self::Op43,
            104 => Self::Op44,
            105 => Self::Op45,
            106 => Self::Op46,
            107 => Self::Op47,
            108 => Self::Op48,
            109 => Self::Op49,
            110 => Self::Op50,
            111 => Self::Op51,
            112 => Self::Op52,
            113 => Self::Op53,
            114 => Self::Op54,
            115 => Self::Op55,
            116 => Self::Op56,
            117 => Self::Op57,
            118 => Self::Op58,
            119 => Self::Op59,
            120 => Self::VpAngleMin,
            121 => Self::VpAngleMax,
            122 => Self::VpGapMin,
            123 => Self::VpGapMax,
            124 => Self::VpDropMin,
            125 => Self::VpDropMax,
            126 => Self::VpGrooveAreaMin,
            127 => Self::VpGrooveAreaMax,
            128 => Self::VpGrooveAreaPos,
            129 => Self::VpGrooveAreaType,
            130 => Self::VpWidth1Min,
            131 => Self::VpWidth1Max,
            132 => Self::VpWidth2Min,
            133 => Self::VpWidth2Max,
            134 => Self::VpWidth3Min,
            135 => Self::VpWidth3Max,
            136 => Self::VpWidth4Min,
            137 => Self::VpWidth4Max,
            138 => Self::VpWeldedAngleMin,
            139 => Self::VpWeldedAngleMax,
            140 => Self::VpWeldedAreaMin,
            141 => Self::VpWeldedAreaMax,
            142 => Self::VpWeldedLengthMin,
            143 => Self::VpWeldedLengthMax,
            144 => Self::VpWeldedThicknessMin,
            145 => Self::VpWeldedThicknessMax,
            146 => Self::VpWeldedWidthMin,
            147 => Self::VpWeldedWidthMax,
            148 => Self::VpWeldedDetection,
            149 => Self::VpWeldedRsv,
            150 => Self::VpNormalAngleMin,
            151 => Self::VpNormalAngleMax,
            152 => Self::Vp32,
            153 => Self::Vp33,
            154 => Self::Vp34,
            155 => Self::Vp35,
            156 => Self::Vp36,
            157 => Self::Vp37,
            158 => Self::Vp38,
            159 => Self::Vp39,
            160 => Self::Vp40,
            161 => Self::Vp41,
            162 => Self::Vp42,
            163 => Self::Vp43,
            164 => Self::Vp44,
            165 => Self::Vp45,
            166 => Self::Vp46,
            167 => Self::Vp47,
            168 => Self::VpL1A,
            169 => Self::VpL1APlus,
            170 => Self::VpL1Length,
            171 => Self::VpL2A,
            172 => Self::VpL2APlus,
            173 => Self::VpL2Length,
            174 => Self::VpL3A,
            175 => Self::VpL3APlus,
            176 => Self::VpL3Length,
            177 => Self::VpL4A,
            178 => Self::VpL4APlus,
            179 => Self::VpL4Length,
            180 => Self::OcFeaturePoint,
            181 => Self::OcFilterStrength,
            182 => Self::OcBasePosY,
            183 => Self::OcBasePosZ,
            184 => Self::OcBaseDeltaY,
            185 => Self::OcBaseDeltaZ,
            186 => Self::OcOffsetY,
            187 => Self::OcOffsetZ,
            188 => Self::OcStartPointFilter,
            189 => Self::OcTrackingArea,
            190 => Self::OcTrackingStrength,
            191 => Self::OcTrackingDuration,
            192 => Self::Oc12,
            193 => Self::Oc13,
            194 => Self::Oc14,
            195 => Self::Oc15,
            196 => Self::Oc16,
            197 => Self::Oc17,
            198 => Self::Oc18,
            199 => Self::Oc19,
            200 => Self::Oc20,
            201 => Self::Oc21,
            202 => Self::Oc22,
            203 => Self::Oc23,
            204 => Self::Oc24,
            205 => Self::Oc25,
            206 => Self::Oc26,
            207 => Self::Oc27,
            208 => Self::Oc28,
            209 => Self::Oc29,
            210 => Self::Oc30,
            211 => Self::Oc31,
            212 => Self::Oc32,
            213 => Self::Oc33,
            214 => Self::Oc34,
            215 => Self::Oc35,
            216 => Self::Oc36,
            217 => Self::Oc37,
            218 => Self::Oc38,
            219 => Self::Oc39,
            220 => Self::Oc40,
            221 => Self::Oc41,
            222 => Self::Oc42,
            223 => Self::Oc43,
            224 => Self::Oc44,
            225 => Self::Oc45,
            226 => Self::Oc46,
            227 => Self::Oc47,
            228 => Self::Oc48,
            229 => Self::Oc49,
            230 => Self::Oc50,
            231 => Self::Oc51,
            232 => Self::Oc52,
            233 => Self::Oc53,
            234 => Self::Oc54,
            235 => Self::Oc55,
            236 => Self::Oc56,
            237 => Self::Oc57,
            238 => Self::Oc58,
            239 => Self::Oc59,
            240 => Self::SfJointType,
            241 => Self::SfXpEn,
            242 => Self::SfKpEn,
            243 => Self::SfOpEn1,
            244 => Self::SfOpEn2,
            245 => Self::SfVpEn1,
            246 => Self::SfVpEn2,
            247 => Self::SfOcEn1,
            248 => Self::SfOcEn2,
            249 => Self::SfVersion,
            _ => Self::Invalid,
        }
    }
}

impl FromSpecImpl<i32> for SeamParamFlatId {
    open spec fn obeys_from_spec() -> bool {
        true
    }

    open spec fn from_spec(value: i32) -> Self {
        Self::spec_from_index(value as int)
    }
}

impl From<usize> for SeamParamFlatId {
    fn from(value: usize) -> (r: Self) {
        match value {
            0 => Self::XpExposureControl,
            1 => Self::XpExposureFramerate,
            2 => Self::XpExposureRsv,
            3 => Self::XpExposureTime,
            4 => Self::XpLaserControl,
            5 => Self::XpLaserStrength,
            6 => Self::XpLampControl,
            7 => Self::XpLampPower,
            8 => Self::XpExtractionAlgo,
            9 => Self::XpLumaThresh,
            10 => Self::XpScanMode,
            11 => Self::XpFilterTime,
            12 => Self::XpRoiX,
            13 => Self::XpRoiY,
            14 => Self::XpRoiW,
            15 => Self::XpRoiH,
            16 => Self::Xp16,
            17 => Self::Xp17,
            18 => Self::Xp18,
            19 => Self::Xp19,
            20 => Self::Xp20,
            21 => Self::Xp21,
            22 => Self::Xp22,
            23 => Self::Xp23,
            24 => Self::Xp24,
            25 => Self::Xp25,
            26 => Self::Xp26,
            27 => Self::Xp27,
            28 => Self::Xp28,
            29 => Self::Xp29,
            30 => Self::KpAngle1,
            31 => Self::KpAngle2,
            32 => Self::KpLength1,
            33 => Self::KpLength2,
            34 => Self::KpWidth1,
            35 => Self::KpWidth2,
            36 => Self::KpThickness1,
            37 => Self::KpThickness2,
            38 => Self::KpGap1,
            39 => Self::KpGap2,
            40 => Self::KpDrop1,
            41 => Self::KpDrop2,
            42 => Self::Kp12,
            43 => Self::Kp13,
            44 => Self::Kp14,
            45 => Self::Kp15,
            46 => Self::Kp16,
            47 => Self::Kp17,
            48 => Self::Kp18,
            49 => Self::Kp19,
            50 => Self::Kp20,
            51 => Self::Kp21,
            52 => Self::Kp22,
            53 => Self::Kp23,
            54 => Self::Kp24,
            55 => Self::Kp25,
            56 => Self::Kp26,
            57 => Self::Kp27,
            58 => Self::Kp28,
            59 => Self::Kp29,
            60 => Self::OpDetectMethod,
            61 => Self::OpDirection,
            62 => Self::OpCornerType,
            63 => Self::OpLayerSelect,
            64 => Self::OpGapPos,
            65 => Self::OpGapType,
            66 => Self::OpBevelAngle1,
            67 => Self::OpBevelAngle2,
            68 => Self::OpNormalType1,
            69 => Self::OpNormalType2,
            70 => Self::Op10,
            71 => Self::Op11,
            72 => Self::Op12,
            73 => Self::Op13,
            74 => Self::Op14,
            75 => Self::Op15,
            76 => Self::Op16,
            77 => Self::Op17,
            78 => Self::Op18,
            79 => Self::Op19,
            80 => Self::Op20,
            81 => Self::Op21,
            82 => Self::Op22,
            83 => Self::Op23,
            84 => Self::Op24,
            85 => Self::Op25,
            86 => Self::Op26,
            87 => Self::Op27,
            88 => Self::Op28,
            89 => Self::Op29,
            90 => Self::Op30,
            91 => Self::Op31,
            92 => Self::Op32,
            93 => Self::Op33,
            94 => Self::Op34,
            95 => Self::Op35,
            96 => Self::Op36,
            97 => Self::Op37,
            98 => Self::Op38,
            99 => Self::Op39,
            100 => Self::Op40,
            101 => Self::Op41,
            102 => Self::Op42,
            103 => Self::Op43,
            104 => Self::Op44,
            105 => Self::Op45,
            106 => Self::Op46,
            107 => Self::Op47,
            108 => Self::Op48,
            109 => Self::Op49,
            110 => Self::Op50,
            111 => Self::Op51,
            112 => Self::Op52,
            113 => Self::Op53,
            114 => Self::Op54,
            115 => Self::Op55,
            116 => Self::Op56,
            117 => Self::Op57,
            118 => Self::Op58,
            119 => Self::Op59,
            120 => Self::VpAngleMin,
            121 => Self::VpAngleMax,
            122 => Self::VpGapMin,
            123 => Self::VpGapMax,
            124 => Self::VpDropMin,
            125 => Self::VpDropMax,
            126 => Self::VpGrooveAreaMin,
            127 => Self::VpGrooveAreaMax,
            128 => Self::VpGrooveAreaPos,
            129 => Self::VpGrooveAreaType,
            130 => Self::VpWidth1Min,
            131 => Self::VpWidth1Max,
            132 => Self::VpWidth2Min,
            133 => Self::VpWidth2Max,
            134 => Self::VpWidth3Min,
            135 => Self::VpWidth3Max,
            136 => Self::VpWidth4Min,
            137 => Self::VpWidth4Max,
            138 => Self::VpWeldedAngleMin,
            139 => Self::VpWeldedAngleMax,
            140 => Self::VpWeldedAreaMin,
            141 => Self::VpWeldedAreaMax,
            142 => Self::VpWeldedLengthMin,
            143 => Self::VpWeldedLengthMax,
            144 => Self::VpWeldedThicknessMin,
            145 => Self::VpWeldedThicknessMax,
            146 => Self::VpWeldedWidthMin,
            147 => Self::VpWeldedWidthMax,
            148 => Self::VpWeldedDetection,
            149 => Self::VpWeldedRsv,
            150 => Self::VpNormalAngleMin,
            151 => Self::VpNormalAngleMax,
            152 => Self::Vp32,
            153 => Self::Vp33,
            154 => Self::Vp34,
            155 => Self::Vp35,
            156 => Self::Vp36,
            157 => Self::Vp37,
            158 => Self::Vp38,
            159 => Self::Vp39,
            160 => Self::Vp40,
            161 => Self::Vp41,
            162 => Self::Vp42,
            163 => Self::Vp43,
            164 => Self::Vp44,
            165 => Self::Vp45,
            166 => Self::Vp46,
            167 => Self::Vp47,
            168 => Self::VpL1A,
            169 => Self::VpL1APlus,
            170 => Self::VpL1Length,
            171 => Self::VpL2A,
            172 => Self::VpL2APlus,
            173 => Self::VpL2Length,
            174 => Self::VpL3A,
            175 => Self::VpL3APlus,
            176 => Self::VpL3Length,
            177 => Self::VpL4A,
            178 => Self::VpL4APlus,
            179 => Self::VpL4Length,
            180 => Self::OcFeaturePoint,
            181 => Self::OcFilterStrength,
            182 => Self::OcBasePosY,
            183 => Self::OcBasePosZ,
            184 => Self::OcBaseDeltaY,
            185 => Self::OcBaseDeltaZ,
            186 => Self::OcOffsetY,
            187 => Self::OcOffsetZ,
            188 => Self::OcStartPointFilter,
            189 => Self::OcTrackingArea,
            190 => Self::OcTrackingStrength,
            191 => Self::OcTrackingDuration,
            192 => Self::Oc12,
            193 => Self::Oc13,
            194 => Self::Oc14,
            195 => Self::Oc15,
            196 => Self::Oc16,
            197 => Self::Oc17,
            198 => Self::Oc18,
            199 => Self::Oc19,
            200 => Self::Oc20,
            201 => Self::Oc21,
            202 => Self::Oc22,
            203 => Self::Oc23,
            204 => Self::Oc24,
            205 => Self::Oc25,
            206 => Self::Oc26,
            207 => Self::Oc27,
            208 => Self::Oc28,
            209 => Self::Oc29,
            210 => Self::Oc30,
            211 => Self::Oc31,
            212 => Self::Oc32,
            213 => Self::Oc33,
            214 => Self::Oc34,
            215 => Self::Oc35,
            216 => Self::Oc36,
            217 => Self::Oc37,
            218 => Self::Oc38,
            219 => Self::Oc39,
            220 => Self::Oc40,
            221 => Self::Oc41,
            222 => Self::Oc42,
            223 => Self::Oc43,
            224 => Self::Oc44,
            225 => Self::Oc45,
            226 => Self::Oc46,
            227 => Self::Oc47,
            228 => Self::Oc48,
            229 => Self::Oc49,
            230 => Self::Oc50,
            231 => Self::Oc51,
            232 => Self::Oc52,
            233 => Self::Oc53,
            234 => Self::Oc54,
            235 => Self::Oc55,
            236 => Self::Oc56,
            237 => Self::Oc57,
            238 => Self::Oc58,
            239 => Self::Oc59,
            240 => Self::SfJointType,
            241 => Self::SfXpEn,
            242 => Self::SfKpEn,
            243 => Self::SfOpEn1,
            244 => Self::SfOpEn2,
            245 => Self::SfVpEn1,
            246 => Self::SfVpEn2,
            247 => Self::SfOcEn1,
            248 => Self::SfOcEn2,
            249 => Self::SfVersion,
            _ => Self::Invalid,
        }
    }
}

impl FromSpecImpl<usize> for SeamParamFlatId {
    open spec fn obeys_from_spec() -> bool {
        true
    }

    open spec fn from_spec(value: usize) -> Self {
        Self::spec_from_index(value as int)
    }
}

} // verus!
