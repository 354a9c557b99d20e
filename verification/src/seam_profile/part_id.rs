//! The index spaces of the six partitions of the parameter table.

use vstd::prelude::*;
use vstd::std_specs::convert::FromSpecImpl;

verus! {

/// A register of the XP partition, addressed within the partition.
///
/// `Invalid` stands for every index outside the range; its number is `0xffff`.
#[derive(Copy, Clone, Debug, PartialEq, Eq, PartialOrd, Ord, Structural)]
pub enum SeamParamXpId {
    ExposureControl,
    ExposureFramerate,
    ExposureRsv,
    ExposureTime,
    LaserControl,
    LaserStrength,
    LampControl,
    LampPower,
    ExtractionAlgo,
    LumaThresh,
    ScanMode,
    FilterTime,
    RoiX,
    RoiY,
    RoiW,
    RoiH,
    Xp16,
    Xp17,
    Xp18,
    Xp19,
    Xp20,
    Xp21,
    Xp22,
    Xp23,
    Xp24,
    Xp25,
    Xp26,
    Xp27,
    Xp28,
    Xp29,
    Invalid,
}

impl SeamParamXpId {
    /// The number of this register; `0xffff` for `Invalid`.
    pub open spec fn spec_index(self) -> int {
        match self {
            Self::ExposureControl => 0,
            Self::ExposureFramerate => 1,
            Self::ExposureRsv => 2,
            Self::ExposureTime => 3,
            Self::LaserControl => 4,
            Self::LaserStrength => 5,
            Self::LampControl => 6,
            Self::LampPower => 7,
            Self::ExtractionAlgo => 8,
            Self::LumaThresh => 9,
            Self::ScanMode => 10,
            Self::FilterTime => 11,
            Self::RoiX => 12,
            Self::RoiY => 13,
            Self::RoiW => 14,
            Self::RoiH => 15,
            Self::Xp16 => 16,
            Self::Xp17 => 17,
            Self::Xp18 => 18,
            Self::Xp19 => 19,
            Self::Xp20 => 20,
            Self::Xp21 => 21,
            Self::Xp22 => 22,
            Self::Xp23 => 23,
            Self::Xp24 => 24,
            Self::Xp25 => 25,
            Self::Xp26 => 26,
            Self::Xp27 => 27,
            Self::Xp28 => 28,
            Self::Xp29 => 29,
            Self::Invalid => 0xffff,
        }
    }

    /// The register with number `i`; `Invalid` where `i` is outside `[0, 30)`.
    pub open spec fn spec_from_index(i: int) -> Self {
        if i == 0 {
            Self::ExposureControl
        } else if i == 1 {
            Self::ExposureFramerate
        } else if i == 2 {
            Self::ExposureRsv
        } else if i == 3 {
            Self::ExposureTime
        } else if i == 4 {
            Self::LaserControl
        } else if i == 5 {
            Self::LaserStrength
        } else if i == 6 {
            Self::LampControl
        } else if i == 7 {
            Self::LampPower
        } else if i == 8 {
            Self::ExtractionAlgo
        } else if i == 9 {
            Self::LumaThresh
        } else if i == 10 {
            Self::ScanMode
        } else if i == 11 {
            Self::FilterTime
        } else if i == 12 {
            Self::RoiX
        } else if i == 13 {
            Self::RoiY
        } else if i == 14 {
            Self::RoiW
        } else if i == 15 {
            Self::RoiH
        } else if i == 16 {
            Self::Xp16
        } else if i == 17 {
            Self::Xp17
        } else if i == 18 {
            Self::Xp18
        } else if i == 19 {
            Self::Xp19
        } else if i == 20 {
            Self::Xp20
        } else if i == 21 {
            Self::Xp21
        } else if i == 22 {
            Self::Xp22
        } else if i == 23 {
            Self::Xp23
        } else if i == 24 {
            Self::Xp24
        } else if i == 25 {
            Self::Xp25
        } else if i == 26 {
            Self::Xp26
        } else if i == 27 {
            Self::Xp27
        } else if i == 28 {
            Self::Xp28
        } else if i == 29 {
            Self::Xp29
        } else {
            Self::Invalid
        }
    }

    /// The number of this register as an array index.
    pub fn index(self) -> (r: usize)
        ensures
            r == self.spec_index(),
    {
        match self {
            Self::ExposureControl => 0,
            Self::ExposureFramerate => 1,
            Self::ExposureRsv => 2,
            Self::ExposureTime => 3,
            Self::LaserControl => 4,
            Self::LaserStrength => 5,
            Self::LampControl => 6,
            Self::LampPower => 7,
            Self::ExtractionAlgo => 8,
            Self::LumaThresh => 9,
            Self::ScanMode => 10,
            Self::FilterTime => 11,
            Self::RoiX => 12,
            Self::RoiY => 13,
            Self::RoiW => 14,
            Self::RoiH => 15,
            Self::Xp16 => 16,
            Self::Xp17 => 17,
            Self::Xp18 => 18,
            Self::Xp19 => 19,
            Self::Xp20 => 20,
            Self::Xp21 => 21,
            Self::Xp22 => 22,
            Self::Xp23 => 23,
            Self::Xp24 => 24,
            Self::Xp25 => 25,
            Self::Xp26 => 26,
            Self::Xp27 => 27,
            Self::Xp28 => 28,
            Self::Xp29 => 29,
            Self::Invalid => 0xffff,
        }
    }

    /// Whether this names a register, that is, anything but `Invalid`.
    pub fn is_valid(self) -> (r: bool)
        ensures
            r == (self.spec_index() < 30),
            r == (self != Self::Invalid),
    {
        self.index() < 30
    }

    /// Every register is found again from its number.
    pub proof fn lemma_index_round_trip(self)
        ensures
            Self::spec_from_index(self.spec_index()) == self,
            self != Self::Invalid ==> 0 <= self.spec_index() < 30,
    {
    }

    /// Every number in range names the register with that number, every other number `Invalid`.
    pub proof fn lemma_from_index(i: int)
        ensures
            0 <= i < 30 ==> Self::spec_from_index(i).spec_index() == i,
            !(0 <= i < 30) ==> Self::spec_from_index(i) == Self::Invalid,
    {
    }
}

impl From<i32> for SeamParamXpId {
    fn from(value: i32) -> (r: Self) {
        match value {
            0 => Self::ExposureControl,
            1 => Self::ExposureFramerate,
            2 => Self::ExposureRsv,
            3 => Self::ExposureTime,
            4 => Self::LaserControl,
            5 => Self::LaserStrength,
            6 => Self::LampControl,
            7 => Self::LampPower,
            8 => Self::ExtractionAlgo,
            9 => Self::LumaThresh,
            10 => Self::ScanMode,
            11 => Self::FilterTime,
            12 => Self::RoiX,
            13 => Self::RoiY,
            14 => Self::RoiW,
            15 => Self::RoiH,
            16 => Self::Xp16,
            17 => Self::Xp17,
            18 => Self::Xp18,
            19 => Self::Xp19,
            20 => Self::Xp20,
            21 => Self::Xp21,
            22 => Self::Xp22,
            23 => Self::Xp23,
            24 => Self::Xp24,
            25 => Self::Xp25,
            26 => Self::Xp26,
            27 => Self::Xp27,
            28 => Self::Xp28,
            29 => Self::Xp29,
            _ => Self::Invalid,
        }
    }
}

impl FromSpecImpl<i32> for SeamParamXpId {
    open spec fn obeys_from_spec() -> bool {
        true
    }

    open spec fn from_spec(value: i32) -> Self {
        Self::spec_from_index(value as int)
    }
}

impl From<usize> for SeamParamXpId {
    fn from(value: usize) -> (r: Self) {
        match value {
            0 => Self::ExposureControl,
            1 => Self::ExposureFramerate,
            2 => Self::ExposureRsv,
            3 => Self::ExposureTime,
            4 => Self::LaserControl,
            5 => Self::LaserStrength,
            6 => Self::LampControl,
            7 => Self::LampPower,
            8 => Self::ExtractionAlgo,
            9 => Self::LumaThresh,
            10 => Self::ScanMode,
            11 => Self::FilterTime,
            12 => Self::RoiX,
            13 => Self::RoiY,
            14 => Self::RoiW,
            15 => Self::RoiH,
            16 => Self::Xp16,
            17 => Self::Xp17,
            18 => Self::Xp18,
            19 => Self::Xp19,
            20 => Self::Xp20,
            21 => Self::Xp21,
            22 => Self::Xp22,
            23 => Self::Xp23,
            24 => Self::Xp24,
            25 => Self::Xp25,
            26 => Self::Xp26,
            27 => Self::Xp27,
            28 => Self::Xp28,
            29 => Self::Xp29,
            _ => Self::Invalid,
        }
    }
}

impl FromSpecImpl<usize> for SeamParamXpId {
    open spec fn obeys_from_spec() -> bool {
        true
    }

    open spec fn from_spec(value: usize) -> Self {
        Self::spec_from_index(value as int)
    }
}

/// A register of the KP partition, addressed within the partition.
///
/// `Invalid` stands for every index outside the range; its number is `0xffff`.
#[derive(Copy, Clone, Debug, PartialEq, Eq, PartialOrd, Ord, Structural)]
pub enum SeamParamKpId {
    Angle1,
    Angle2,
    Length1,
    Length2,
    Width1,
    Width2,
    Thickness1,
    Thickness2,
    Gap1,
    Gap2,
    Drop1,
    Drop2,
    Kp12,
    Kp13,
    Kp14,
    Kp15,
    Kp16,
    Kp17,
    Kp18,
    Kp19,
    Kp20,
    Kp21,
    Kp22,
    Kp23,
    Kp24,
    Kp25,
    Kp26,
    Kp27,
    Kp28,
    Kp29,
    Invalid,
}

impl SeamParamKpId {
    /// The number of this register; `0xffff` for `Invalid`.
    pub open spec fn spec_index(self) -> int {
        match self {
            Self::Angle1 => 0,
            Self::Angle2 => 1,
            Self::Length1 => 2,
            Self::Length2 => 3,
            Self::Width1 => 4,
            Self::Width2 => 5,
            Self::Thickness1 => 6,
            Self::Thickness2 => 7,
            Self::Gap1 => 8,
            Self::Gap2 => 9,
            Self::Drop1 => 10,
            Self::Drop2 => 11,
            Self::Kp12 => 12,
            Self::Kp13 => 13,
            Self::Kp14 => 14,
            Self::Kp15 => 15,
            Self::Kp16 => 16,
            Self::Kp17 => 17,
            Self::Kp18 => 18,
            Self::Kp19 => 19,
            Self::Kp20 => 20,
            Self::Kp21 => 21,
            Self::Kp22 => 22,
            Self::Kp23 => 23,
            Self::Kp24 => 24,
            Self::Kp25 => 25,
            Self::Kp26 => 26,
            Self::Kp27 => 27,
            Self::Kp28 => 28,
            Self::Kp29 => 29,
            Self::Invalid => 0xffff,
        }
    }

    /// The register with number `i`; `Invalid` where `i` is outside `[0, 30)`.
    pub open spec fn spec_from_index(i: int) -> Self {
        if i == 0 {
            Self::Angle1
        } else if i == 1 {
            Self::Angle2
        } else if i == 2 {
            Self::Length1
        } else if i == 3 {
            Self::Length2
        } else if i == 4 {
            Self::Width1
        } else if i == 5 {
            Self::Width2
        } else if i == 6 {
            Self::Thickness1
        } else if i == 7 {
            Self::Thickness2
        } else if i == 8 {
            Self::Gap1
        } else if i == 9 {
            Self::Gap2
        } else if i == 10 {
            Self::Drop1
        } else if i == 11 {
            Self::Drop2
        } else if i == 12 {
            Self::Kp12
        } else if i == 13 {
            Self::Kp13
        } else if i == 14 {
            Self::Kp14
        } else if i == 15 {
            Self::Kp15
        } else if i == 16 {
            Self::Kp16
        } else if i == 17 {
            Self::Kp17
        } else if i == 18 {
            Self::Kp18
        } else if i == 19 {
            Self::Kp19
        } else if i == 20 {
            Self::Kp20
        } else if i == 21 {
            Self::Kp21
        } else if i == 22 {
            Self::Kp22
        } else if i == 23 {
            Self::Kp23
        } else if i == 24 {
            Self::Kp24
        } else if i == 25 {
            Self::Kp25
        } else if i == 26 {
            Self::Kp26
        } else if i == 27 {
            Self::Kp27
        } else if i == 28 {
            Self::Kp28
        } else if i == 29 {
            Self::Kp29
        } else {
            Self::Invalid
        }
    }

    /// The number of this register as an array index.
    pub fn index(self) -> (r: usize)
        ensures
            r == self.spec_index(),
    {
        match self {
            Self::Angle1 => 0,
            Self::Angle2 => 1,
            Self::Length1 => 2,
            Self::Length2 => 3,
            Self::Width1 => 4,
            Self::Width2 => 5,
            Self::Thickness1 => 6,
            Self::Thickness2 => 7,
            Self::Gap1 => 8,
            Self::Gap2 => 9,
            Self::Drop1 => 10,
            Self::Drop2 => 11,
            Self::Kp12 => 12,
            Self::Kp13 => 13,
            Self::Kp14 => 14,
            Self::Kp15 => 15,
            Self::Kp16 => 16,
            Self::Kp17 => 17,
            Self::Kp18 => 18,
            Self::Kp19 => 19,
            Self::Kp20 => 20,
            Self::Kp21 => 21,
            Self::Kp22 => 22,
            Self::Kp23 => 23,
            Self::Kp24 => 24,
            Self::Kp25 => 25,
            Self::Kp26 => 26,
            Self::Kp27 => 27,
            Self::Kp28 => 28,
            Self::Kp29 => 29,
            Self::Invalid => 0xffff,
        }
    }

    /// Whether this names a register, that is, anything but `Invalid`.
    pub fn is_valid(self) -> (r: bool)
        ensures
            r == (self.spec_index() < 30),
            r == (self != Self::Invalid),
    {
        self.index() < 30
    }

    /// Every register is found again from its number.
    pub proof fn lemma_index_round_trip(self)
        ensures
            Self::spec_from_index(self.spec_index()) == self,
            self != Self::Invalid ==> 0 <= self.spec_index() < 30,
    {
    }

    /// Every number in range names the register with that number, every other number `Invalid`.
    pub proof fn lemma_from_index(i: int)
        ensures
            0 <= i < 30 ==> Self::spec_from_index(i).spec_index() == i,
            !(0 <= i < 30) ==> Self::spec_from_index(i) == Self::Invalid,
    {
    }
}

impl From<i32> for SeamParamKpId {
    fn from(value: i32) -> (r: Self) {
        match value {
            0 => Self::Angle1,
            1 => Self::Angle2,
            2 => Self::Length1,
            3 => Self::Length2,
            4 => Self::Width1,
            5 => Self::Width2,
            6 => Self::Thickness1,
            7 => Self::Thickness2,
            8 => Self::Gap1,
            9 => Self::Gap2,
            10 => Self::Drop1,
            11 => Self::Drop2,
            12 => Self::Kp12,
            13 => Self::Kp13,
            14 => Self::Kp14,
            15 => Self::Kp15,
            16 => Self::Kp16,
            17 => Self::Kp17,
            18 => Self::Kp18,
            19 => Self::Kp19,
            20 => Self::Kp20,
            21 => Self::Kp21,
            22 => Self::Kp22,
            23 => Self::Kp23,
            24 => Self::Kp24,
            25 => Self::Kp25,
            26 => Self::Kp26,
            27 => Self::Kp27,
            28 => Self::Kp28,
            29 => Self::Kp29,
            _ => Self::Invalid,
        }
    }
}

impl FromSpecImpl<i32> for SeamParamKpId {
    open spec fn obeys_from_spec() -> bool {
        true
    }

    open spec fn from_spec(value: i32) -> Self {
        Self::spec_from_index(value as int)
    }
}

impl From<usize> for SeamParamKpId {
    fn from(value: usize) -> (r: Self) {
        match value {
            0 => Self::Angle1,
            1 => Self::Angle2,
            2 => Self::Length1,
            3 => Self::Length2,
            4 => Self::Width1,
            5 => Self::Width2,
            6 => Self::Thickness1,
            7 => Self::Thickness2,
            8 => Self::Gap1,
            9 => Self::Gap2,
            10 => Self::Drop1,
            11 => Self::Drop2,
            12 => Self::Kp12,
            13 => Self::Kp13,
            14 => Self::Kp14,
            15 => Self::Kp15,
            16 => Self::Kp16,
            17 => Self::Kp17,
            18 => Self::Kp18,
            19 => Self::Kp19,
            20 => Self::Kp20,
            21 => Self::Kp21,
            22 => Self::Kp22,
            23 => Self::Kp23,
            24 => Self::Kp24,
            25 => Self::Kp25,
            26 => Self::Kp26,
            27 => Self::Kp27,
            28 => Self::Kp28,
            29 => Self::Kp29,
            _ => Self::Invalid,
        }
    }
}

impl FromSpecImpl<usize> for SeamParamKpId {
    open spec fn obeys_from_spec() -> bool {
        true
    }

    open spec fn from_spec(value: usize) -> Self {
        Self::spec_from_index(value as int)
    }
}

/// A register of the OP partition, addressed within the partition.
///
/// `Invalid` stands for every index outside the range; its number is `0xffff`.
#[derive(Copy, Clone, Debug, PartialEq, Eq, PartialOrd, Ord, Structural)]
pub enum SeamParamOpId {
    DetectMethod,
    Direction,
    CornerType,
    LayerSelect,
    GapPos,
    GapType,
    BevelAngle1,
    BevelAngle2,
    NormalType1,
    NormalType2,
    Op10,
    Op11,
    Op12,
    Op13,
    Op14,
    Op15,
    Op16,
    Op17,
    Op18,
    Op19,
    Op20,
    Op21,
    Op22,
    Op23,
    Op24,
    Op25,
    Op26,
    Op27,
    Op28,
    Op29,
    Op30,
    Op31,
    Op32,
    Op33,
    Op34,
    Op35,
    Op36,
    Op37,
    Op38,
    Op39,
    Op40,
    Op41,
    Op42,
    Op43,
    Op44,
    Op45,
    Op46,
    Op47,
    Op48,
    Op49,
    Op50,
    Op51,
    Op52,
    Op53,
    Op54,
    Op55,
    Op56,
    Op57,
    Op58,
    Op59,
    Invalid,
}

impl SeamParamOpId {
    /// The number of this register; `0xffff` for `Invalid`.
    pub open spec fn spec_index(self) -> int {
        match self {
            Self::DetectMethod => 0,
            Self::Direction => 1,
            Self::CornerType => 2,
            Self::LayerSelect => 3,
            Self::GapPos => 4,
            Self::GapType => 5,
            Self::BevelAngle1 => 6,
            Self::BevelAngle2 => 7,
            Self::NormalType1 => 8,
            Self::NormalType2 => 9,
            Self::Op10 => 10,
            Self::Op11 => 11,
            Self::Op12 => 12,
            Self::Op13 => 13,
            Self::Op14 => 14,
            Self::Op15 => 15,
            Self::Op16 => 16,
            Self::Op17 => 17,
            Self::Op18 => 18,
            Self::Op19 => 19,
            Self::Op20 => 20,
            Self::Op21 => 21,
            Self::Op22 => 22,
            Self::Op23 => 23,
            Self::Op24 => 24,
            Self::Op25 => 25,
            Self::Op26 => 26,
            Self::Op27 => 27,
            Self::Op28 => 28,
            Self::Op29 => 29,
            Self::Op30 => 30,
            Self::Op31 => 31,
            Self::Op32 => 32,
            Self::Op33 => 33,
            Self::Op34 => 34,
            Self::Op35 => 35,
            Self::Op36 => 36,
            Self::Op37 => 37,
            Self::Op38 => 38,
            Self::Op39 => 39,
            Self::Op40 => 40,
            Self::Op41 => 41,
            Self::Op42 => 42,
            Self::Op43 => 43,
            Self::Op44 => 44,
            Self::Op45 => 45,
            Self::Op46 => 46,
            Self::Op47 => 47,
            Self::Op48 => 48,
            Self::Op49 => 49,
            Self::Op50 => 50,
            Self::Op51 => 51,
            Self::Op52 => 52,
            Self::Op53 => 53,
            Self::Op54 => 54,
            Self::Op55 => 55,
            Self::Op56 => 56,
            Self::Op57 => 57,
            Self::Op58 => 58,
            Self::Op59 => 59,
            Self::Invalid => 0xffff,
        }
    }

    /// The register with number `i`; `Invalid` where `i` is outside `[0, 60)`.
    pub open spec fn spec_from_index(i: int) -> Self {
        if i == 0 {
            Self::DetectMethod
        } else if i == 1 {
            Self::Direction
        } else if i == 2 {
            Self::CornerType
        } else if i == 3 {
            Self::LayerSelect
        } else if i == 4 {
            Self::GapPos
        } else if i == 5 {
            Self::GapType
        } else if i == 6 {
            Self::BevelAngle1
        } else if i == 7 {
            Self::BevelAngle2
        } else if i == 8 {
            Self::NormalType1
        } else if i == 9 {
            Self::NormalType2
        } else if i == 10 {
            Self::Op10
        } else if i == 11 {
            Self::Op11
        } else if i == 12 {
            Self::Op12
        } else if i == 13 {
            Self::Op13
        } else if i == 14 {
            Self::Op14
        } else if i == 15 {
            Self::Op15
        } else if i == 16 {
            Self::Op16
        } else if i == 17 {
            Self::Op17
        } else if i == 18 {
            Self::Op18
        } else if i == 19 {
            Self::Op19
        } else if i == 20 {
            Self::Op20
        } else if i == 21 {
            Self::Op21
        } else if i == 22 {
            Self::Op22
        } else if i == 23 {
            Self::Op23
        } else if i == 24 {
            Self::Op24
        } else if i == 25 {
            Self::Op25
        } else if i == 26 {
            Self::Op26
        } else if i == 27 {
            Self::Op27
        } else if i == 28 {
            Self::Op28
        } else if i == 29 {
            Self::Op29
        } else if i == 30 {
            Self::Op30
        } else if i == 31 {
            Self::Op31
        } else if i == 32 {
            Self::Op32
        } else if i == 33 {
            Self::Op33
        } else if i == 34 {
            Self::Op34
        } else if i == 35 {
            Self::Op35
        } else if i == 36 {
            Self::Op36
        } else if i == 37 {
            Self::Op37
        } else if i == 38 {
            Self::Op38
        } else if i == 39 {
            Self::Op39
        } else if i == 40 {
            Self::Op40
        } else if i == 41 {
            Self::Op41
        } else if i == 42 {
            Self::Op42
        } else if i == 43 {
            Self::Op43
        } else if i == 44 {
            Self::Op44
        } else if i == 45 {
            Self::Op45
        } else if i == 46 {
            Self::Op46
        } else if i == 47 {
            Self::Op47
        } else if i == 48 {
            Self::Op48
        } else if i == 49 {
            Self::Op49
        } else if i == 50 {
            Self::Op50
        } else if i == 51 {
            Self::Op51
        } else if i == 52 {
            Self::Op52
        } else if i == 53 {
            Self::Op53
        } else if i == 54 {
            Self::Op54
        } else if i == 55 {
            Self::Op55
        } else if i == 56 {
            Self::Op56
        } else if i == 57 {
            Self::Op57
        } else if i == 58 {
            Self::Op58
        } else if i == 59 {
            Self::Op59
        } else {
            Self::Invalid
        }
    }

    /// The number of this register as an array index.
    pub fn index(self) -> (r: usize)
        ensures
            r == self.spec_index(),
    {
        match self {
            Self::DetectMethod => 0,
            Self::Direction => 1,
            Self::CornerType => 2,
            Self::LayerSelect => 3,
            Self::GapPos => 4,
            Self::GapType => 5,
            Self::BevelAngle1 => 6,
            Self::BevelAngle2 => 7,
            Self::NormalType1 => 8,
            Self::NormalType2 => 9,
            Self::Op10 => 10,
            Self::Op11 => 11,
            Self::Op12 => 12,
            Self::Op13 => 13,
            Self::Op14 => 14,
            Self::Op15 => 15,
            Self::Op16 => 16,
            Self::Op17 => 17,
            Self::Op18 => 18,
            Self::Op19 => 19,
            Self::Op20 => 20,
            Self::Op21 => 21,
            Self::Op22 => 22,
            Self::Op23 => 23,
            Self::Op24 => 24,
            Self::Op25 => 25,
            Self::Op26 => 26,
            Self::Op27 => 27,
            Self::Op28 => 28,
            Self::Op29 => 29,
            Self::Op30 => 30,
            Self::Op31 => 31,
            Self::Op32 => 32,
            Self::Op33 => 33,
            Self::Op34 => 34,
            Self::Op35 => 35,
            Self::Op36 => 36,
            Self::Op37 => 37,
            Self::Op38 => 38,
            Self::Op39 => 39,
            Self::Op40 => 40,
            Self::Op41 => 41,
            Self::Op42 => 42,
            Self::Op43 => 43,
            Self::Op44 => 44,
            Self::Op45 => 45,
            Self::Op46 => 46,
            Self::Op47 => 47,
            Self::Op48 => 48,
            Self::Op49 => 49,
            Self::Op50 => 50,
            Self::Op51 => 51,
            Self::Op52 => 52,
            Self::Op53 => 53,
            Self::Op54 => 54,
            Self::Op55 => 55,
            Self::Op56 => 56,
            Self::Op57 => 57,
            Self::Op58 => 58,
            Self::Op59 => 59,
            Self::Invalid => 0xffff,
        }
    }

    /// Whether this names a register, that is, anything but `Invalid`.
    pub fn is_valid(self) -> (r: bool)
        ensures
            r == (self.spec_index() < 60),
            r == (self != Self::Invalid),
    {
        self.index() < 60
    }

    /// Every register is found again from its number.
    pub proof fn lemma_index_round_trip(self)
        ensures
            Self::spec_from_index(self.spec_index()) == self,
            self != Self::Invalid ==> 0 <= self.spec_index() < 60,
    {
    }

    /// Every number in range names the register with that number, every other number `Invalid`.
    pub proof fn lemma_from_index(i: int)
        ensures
            0 <= i < 60 ==> Self::spec_from_index(i).spec_index() == i,
            !(0 <= i < 60) ==> Self::spec_from_index(i) == Self::Invalid,
    {
    }
}

impl From<i32> for SeamParamOpId {
    fn from(value: i32) -> (r: Self) {
        match value {
            0 => Self::DetectMethod,
            1 => Self::Direction,
            2 => Self::CornerType,
            3 => Self::LayerSelect,
            4 => Self::GapPos,
            5 => Self::GapType,
            6 => Self::BevelAngle1,
            7 => Self::BevelAngle2,
            8 => Self::NormalType1,
            9 => Self::NormalType2,
            10 => Self::Op10,
            11 => Self::Op11,
            12 => Self::Op12,
            13 => Self::Op13,
            14 => Self::Op14,
            15 => Self::Op15,
            16 => Self::Op16,
            17 => Self::Op17,
            18 => Self::Op18,
            19 => Self::Op19,
            20 => Self::Op20,
            21 => Self::Op21,
            22 => Self::Op22,
            23 => Self::Op23,
            24 => Self::Op24,
            25 => Self::Op25,
            26 => Self::Op26,
            27 => Self::Op27,
            28 => Self::Op28,
            29 => Self::Op29,
            30 => Self::Op30,
            31 => Self::Op31,
            32 => Self::Op32,
            33 => Self::Op33,
            34 => Self::Op34,
            35 => Self::Op35,
            36 => Self::Op36,
            37 => Self::Op37,
            38 => Self::Op38,
            39 => Self::Op39,
            40 => Self::Op40,
            41 => Self::Op41,
            42 => Self::Op42,
            43 => Self::Op43,
            44 => Self::Op44,
            45 => Self::Op45,
            46 => Self::Op46,
            47 => Self::Op47,
            48 => Self::Op48,
            49 => Self::Op49,
            50 => Self::Op50,
            51 => Self::Op51,
            52 => Self::Op52,
            53 => Self::Op53,
            54 => Self::Op54,
            55 => Self::Op55,
            56 => Self::Op56,
            57 => Self::Op57,
            58 => Self::Op58,
            59 => Self::Op59,
            _ => Self::Invalid,
        }
    }
}

impl FromSpecImpl<i32> for SeamParamOpId {
    open spec fn obeys_from_spec() -> bool {
        true
    }

    open spec fn from_spec(value: i32) -> Self {
        Self::spec_from_index(value as int)
    }
}

impl From<usize> for SeamParamOpId {
    fn from(value: usize) -> (r: Self) {
        match value {
            0 => Self::DetectMethod,
            1 => Self::Direction,
            2 => Self::CornerType,
            3 => Self::LayerSelect,
            4 => Self::GapPos,
            5 => Self::GapType,
            6 => Self::BevelAngle1,
            7 => Self::BevelAngle2,
            8 => Self::NormalType1,
            9 => Self::NormalType2,
            10 => Self::Op10,
            11 => Self::Op11,
            12 => Self::Op12,
            13 => Self::Op13,
            14 => Self::Op14,
            15 => Self::Op15,
            16 => Self::Op16,
            17 => Self::Op17,
            18 => Self::Op18,
            19 => Self::Op19,
            20 => Self::Op20,
            21 => Self::Op21,
            22 => Self::Op22,
            23 => Self::Op23,
            24 => Self::Op24,
            25 => Self::Op25,
            26 => Self::Op26,
            27 => Self::Op27,
            28 => Self::Op28,
            29 => Self::Op29,
            30 => Self::Op30,
            31 => Self::Op31,
            32 => Self::Op32,
            33 => Self::Op33,
            34 => Self::Op34,
            35 => Self::Op35,
            36 => Self::Op36,
            37 => Self::Op37,
            38 => Self::Op38,
            39 => Self::Op39,
            40 => Self::Op40,
            41 => Self::Op41,
            42 => Self::Op42,
            43 => Self::Op43,
            44 => Self::Op44,
            45 => Self::Op45,
            46 => Self::Op46,
            47 => Self::Op47,
            48 => Self::Op48,
            49 => Self::Op49,
            50 => Self::Op50,
            51 => Self::Op51,
            52 => Self::Op52,
            53 => Self::Op53,
            54 => Self::Op54,
            55 => Self::Op55,
            56 => Self::Op56,
            57 => Self::Op57,
            58 => Self::Op58,
            59 => Self::Op59,
            _ => Self::Invalid,
        }
    }
}

impl FromSpecImpl<usize> for SeamParamOpId {
    open spec fn obeys_from_spec() -> bool {
        true
    }

    open spec fn from_spec(value: usize) -> Self {
        Self::spec_from_index(value as int)
    }
}

/// A register of the VP partition, addressed within the partition.
///
/// `Invalid` stands for every index outside the range; its number is `0xffff`.
#[derive(Copy, Clone, Debug, PartialEq, Eq, PartialOrd, Ord, Structural)]
pub enum SeamParamVpId {
    AngleMin,
    AngleMax,
    GapMin,
    GapMax,
    DropMin,
    DropMax,
    GrooveAreaMin,
    GrooveAreaMax,
    GrooveAreaPos,
    GrooveAreaType,
    Width1Min,
    Width1Max,
    Width2Min,
    Width2Max,
    Width3Min,
    Width3Max,
    Width4Min,
    Width4Max,
    WeldedAngleMin,
    WeldedAngleMax,
    WeldedAreaMin,
    WeldedAreaMax,
    WeldedLengthMin,
    WeldedLengthMax,
    WeldedThicknessMin,
    WeldedThicknessMax,
    WeldedWidthMin,
    WeldedWidthMax,
    WeldedDetection,
    WeldedRsv,
    NormalAngleMin,
    NormalAngleMax,
    Vp32,
    Vp33,
    Vp34,
    Vp35,
    Vp36,
    Vp37,
    Vp38,
    Vp39,
    Vp40,
    Vp41,
    Vp42,
    Vp43,
    Vp44,
    Vp45,
    Vp46,
    Vp47,
    L1A,
    L1APlus,
    L1Length,
    L2A,
    L2APlus,
    L2Length,
    L3A,
    L3APlus,
    L3Length,
    L4A,
    L4APlus,
    L4Length,
    Invalid,
}

impl SeamParamVpId {
    /// The number of this register; `0xffff` for `Invalid`.
    pub open spec fn spec_index(self) -> int {
        match self {
            Self::AngleMin => 0,
            Self::AngleMax => 1,
            Self::GapMin => 2,
            Self::GapMax => 3,
            Self::DropMin => 4,
            Self::DropMax => 5,
            Self::GrooveAreaMin => 6,
            Self::GrooveAreaMax => 7,
            Self::GrooveAreaPos => 8,
            Self::GrooveAreaType => 9,
            Self::Width1Min => 10,
            Self::Width1Max => 11,
            Self::Width2Min => 12,
            Self::Width2Max => 13,
            Self::Width3Min => 14,
            Self::Width3Max => 15,
            Self::Width4Min => 16,
            Self::Width4Max => 17,
            Self::WeldedAngleMin => 18,
            Self::WeldedAngleMax => 19,
            Self::WeldedAreaMin => 20,
            Self::WeldedAreaMax => 21,
            Self::WeldedLengthMin => 22,
            Self::WeldedLengthMax => 23,
            Self::WeldedThicknessMin => 24,
            Self::WeldedThicknessMax => 25,
            Self::WeldedWidthMin => 26,
            Self::WeldedWidthMax => 27,
            Self::WeldedDetection => 28,
            Self::WeldedRsv => 29,
            Self::NormalAngleMin => 30,
            Self::NormalAngleMax => 31,
            Self::Vp32 => 32,
            Self::Vp33 => 33,
            Self::Vp34 => 34,
            Self::Vp35 => 35,
            Self::Vp36 => 36,
            Self::Vp37 => 37,
            Self::Vp38 => 38,
            Self::Vp39 => 39,
            Self::Vp40 => 40,
            Self::Vp41 => 41,
            Self::Vp42 => 42,
            Self::Vp43 => 43,
            Self::Vp44 => 44,
            Self::Vp45 => 45,
            Self::Vp46 => 46,
            Self::Vp47 => 47,
            Self::L1A => 48,
            Self::L1APlus => 49,
            Self::L1Length => 50,
            Self::L2A => 51,
            Self::L2APlus => 52,
            Self::L2Length => 53,
            Self::L3A => 54,
            Self::L3APlus => 55,
            Self::L3Length => 56,
            Self::L4A => 57,
            Self::L4APlus => 58,
            Self::L4Length => 59,
            Self::Invalid => 0xffff,
        }
    }

    /// The register with number `i`; `Invalid` where `i` is outside `[0, 60)`.
    pub open spec fn spec_from_index(i: int) -> Self {
        if i == 0 {
            Self::AngleMin
        } else if i == 1 {
            Self::AngleMax
        } else if i == 2 {
            Self::GapMin
        } else if i == 3 {
            Self::GapMax
        } else if i == 4 {
            Self::DropMin
        } else if i == 5 {
            Self::DropMax
        } else if i == 6 {
            Self::GrooveAreaMin
        } else if i == 7 {
            Self::GrooveAreaMax
        } else if i == 8 {
            Self::GrooveAreaPos
        } else if i == 9 {
            Self::GrooveAreaType
        } else if i == 10 {
            Self::Width1Min
        } else if i == 11 {
            Self::Width1Max
        } else if i == 12 {
            Self::Width2Min
        } else if i == 13 {
            Self::Width2Max
        } else if i == 14 {
            Self::Width3Min
        } else if i == 15 {
            Self::Width3Max
        } else if i == 16 {
            Self::Width4Min
        } else if i == 17 {
            Self::Width4Max
        } else if i == 18 {
            Self::WeldedAngleMin
        } else if i == 19 {
            Self::WeldedAngleMax
        } else if i == 20 {
            Self::WeldedAreaMin
        } else if i == 21 {
            Self::WeldedAreaMax
        } else if i == 22 {
            Self::WeldedLengthMin
        } else if i == 23 {
            Self::WeldedLengthMax
        } else if i == 24 {
            Self::WeldedThicknessMin
        } else if i == 25 {
            Self::WeldedThicknessMax
        } else if i == 26 {
            Self::WeldedWidthMin
        } else if i == 27 {
            Self::WeldedWidthMax
        } else if i == 28 {
            Self::WeldedDetection
        } else if i == 29 {
            Self::WeldedRsv
        } else if i == 30 {
            Self::NormalAngleMin
        } else if i == 31 {
            Self::NormalAngleMax
        } else if i == 32 {
            Self::Vp32
        } else if i == 33 {
            Self::Vp33
        } else if i == 34 {
            Self::Vp34
        } else if i == 35 {
            Self::Vp35
        } else if i == 36 {
            Self::Vp36
        } else if i == 37 {
            Self::Vp37
        } else if i == 38 {
            Self::Vp38
        } else if i == 39 {
            Self::Vp39
        } else if i == 40 {
            Self::Vp40
        } else if i == 41 {
            Self::Vp41
        } else if i == 42 {
            Self::Vp42
        } else if i == 43 {
            Self::Vp43
        } else if i == 44 {
            Self::Vp44
        } else if i == 45 {
            Self::Vp45
        } else if i == 46 {
            Self::Vp46
        } else if i == 47 {
            Self::Vp47
        } else if i == 48 {
            Self::L1A
        } else if i == 49 {
            Self::L1APlus
        } else if i == 50 {
            Self::L1Length
        } else if i == 51 {
            Self::L2A
        } else if i == 52 {
            Self::L2APlus
        } else if i == 53 {
            Self::L2Length
        } else if i == 54 {
            Self::L3A
        } else if i == 55 {
            Self::L3APlus
        } else if i == 56 {
            Self::L3Length
        } else if i == 57 {
            Self::L4A
        } else if i == 58 {
            Self::L4APlus
        } else if i == 59 {
            Self::L4Length
        } else {
            Self::Invalid
        }
    }

    /// The number of this register as an array index.
    pub fn index(self) -> (r: usize)
        ensures
            r == self.spec_index(),
    {
        match self {
            Self::AngleMin => 0,
            Self::AngleMax => 1,
            Self::GapMin => 2,
            Self::GapMax => 3,
            Self::DropMin => 4,
            Self::DropMax => 5,
            Self::GrooveAreaMin => 6,
            Self::GrooveAreaMax => 7,
            Self::GrooveAreaPos => 8,
            Self::GrooveAreaType => 9,
            Self::Width1Min => 10,
            Self::Width1Max => 11,
            Self::Width2Min => 12,
            Self::Width2Max => 13,
            Self::Width3Min => 14,
            Self::Width3Max => 15,
            Self::Width4Min => 16,
            Self::Width4Max => 17,
            Self::WeldedAngleMin => 18,
            Self::WeldedAngleMax => 19,
            Self::WeldedAreaMin => 20,
            Self::WeldedAreaMax => 21,
            Self::WeldedLengthMin => 22,
            Self::WeldedLengthMax => 23,
            Self::WeldedThicknessMin => 24,
            Self::WeldedThicknessMax => 25,
            Self::WeldedWidthMin => 26,
            Self::WeldedWidthMax => 27,
            Self::WeldedDetection => 28,
            Self::WeldedRsv => 29,
            Self::NormalAngleMin => 30,
            Self::NormalAngleMax => 31,
            Self::Vp32 => 32,
            Self::Vp33 => 33,
            Self::Vp34 => 34,
            Self::Vp35 => 35,
            Self::Vp36 => 36,
            Self::Vp37 => 37,
            Self::Vp38 => 38,
            Self::Vp39 => 39,
            Self::Vp40 => 40,
            Self::Vp41 => 41,
            Self::Vp42 => 42,
            Self::Vp43 => 43,
            Self::Vp44 => 44,
            Self::Vp45 => 45,
            Self::Vp46 => 46,
            Self::Vp47 => 47,
            Self::L1A => 48,
            Self::L1APlus => 49,
            Self::L1Length => 50,
            Self::L2A => 51,
            Self::L2APlus => 52,
            Self::L2Length => 53,
            Self::L3A => 54,
            Self::L3APlus => 55,
            Self::L3Length => 56,
            Self::L4A => 57,
            Self::L4APlus => 58,
            Self::L4Length => 59,
            Self::Invalid => 0xffff,
        }
    }

    /// Whether this names a register, that is, anything but `Invalid`.
    pub fn is_valid(self) -> (r: bool)
        ensures
            r == (self.spec_index() < 60),
            r == (self != Self::Invalid),
    {
        self.index() < 60
    }

    /// Every register is found again from its number.
    pub proof fn lemma_index_round_trip(self)
        ensures
            Self::spec_from_index(self.spec_index()) == self,
            self != Self::Invalid ==> 0 <= self.spec_index() < 60,
    {
    }

    /// Every number in range names the register with that number, every other number `Invalid`.
    pub proof fn lemma_from_index(i: int)
        ensures
            0 <= i < 60 ==> Self::spec_from_index(i).spec_index() == i,
            !(0 <= i < 60) ==> Self::spec_from_index(i) == Self::Invalid,
    {
    }
}

impl From<i32> for SeamParamVpId {
    fn from(value: i32) -> (r: Self) {
        match value {
            0 => Self::AngleMin,
            1 => Self::AngleMax,
            2 => Self::GapMin,
            3 => Self::GapMax,
            4 => Self::DropMin,
            5 => Self::DropMax,
            6 => Self::GrooveAreaMin,
            7 => Self::GrooveAreaMax,
            8 => Self::GrooveAreaPos,
            9 => Self::GrooveAreaType,
            10 => Self::Width1Min,
            11 => Self::Width1Max,
            12 => Self::Width2Min,
            13 => Self::Width2Max,
            14 => Self::Width3Min,
            15 => Self::Width3Max,
            16 => Self::Width4Min,
            17 => Self::Width4Max,
            18 => Self::WeldedAngleMin,
            19 => Self::WeldedAngleMax,
            20 => Self::WeldedAreaMin,
            21 => Self::WeldedAreaMax,
            22 => Self::WeldedLengthMin,
            23 => Self::WeldedLengthMax,
            24 => Self::WeldedThicknessMin,
            25 => Self::WeldedThicknessMax,
            26 => Self::WeldedWidthMin,
            27 => Self::WeldedWidthMax,
            28 => Self::WeldedDetection,
            29 => Self::WeldedRsv,
            30 => Self::NormalAngleMin,
            31 => Self::NormalAngleMax,
            32 => Self::Vp32,
            33 => Self::Vp33,
            34 => Self::Vp34,
            35 => Self::Vp35,
            36 => Self::Vp36,
            37 => Self::Vp37,
            38 => Self::Vp38,
            39 => Self::Vp39,
            40 => Self::Vp40,
            41 => Self::Vp41,
            42 => Self::Vp42,
            43 => Self::Vp43,
            44 => Self::Vp44,
            45 => Self::Vp45,
            46 => Self::Vp46,
            47 => Self::Vp47,
            48 => Self::L1A,
            49 => Self::L1APlus,
            50 => Self::L1Length,
            51 => Self::L2A,
            52 => Self::L2APlus,
            53 => Self::L2Length,
            54 => Self::L3A,
            55 => Self::L3APlus,
            56 => Self::L3Length,
            57 => Self::L4A,
            58 => Self::L4APlus,
            59 => Self::L4Length,
            _ => Self::Invalid,
        }
    }
}

impl FromSpecImpl<i32> for SeamParamVpId {
    open spec fn obeys_from_spec() -> bool {
        true
    }

    open spec fn from_spec(value: i32) -> Self {
        Self::spec_from_index(value as int)
    }
}

impl From<usize> for SeamParamVpId {
    fn from(value: usize) -> (r: Self) {
        match value {
            0 => Self::AngleMin,
            1 => Self::AngleMax,
            2 => Self::GapMin,
            3 => Self::GapMax,
            4 => Self::DropMin,
            5 => Self::DropMax,
            6 => Self::GrooveAreaMin,
            7 => Self::GrooveAreaMax,
            8 => Self::GrooveAreaPos,
            9 => Self::GrooveAreaType,
            10 => Self::Width1Min,
            11 => Self::Width1Max,
            12 => Self::Width2Min,
            13 => Self::Width2Max,
            14 => Self::Width3Min,
            15 => Self::Width3Max,
            16 => Self::Width4Min,
            17 => Self::Width4Max,
            18 => Self::WeldedAngleMin,
            19 => Self::WeldedAngleMax,
            20 => Self::WeldedAreaMin,
            21 => Self::WeldedAreaMax,
            22 => Self::WeldedLengthMin,
            23 => Self::WeldedLengthMax,
            24 => Self::WeldedThicknessMin,
            25 => Self::WeldedThicknessMax,
            26 => Self::WeldedWidthMin,
            27 => Self::WeldedWidthMax,
            28 => Self::WeldedDetection,
            29 => Self::WeldedRsv,
            30 => Self::NormalAngleMin,
            31 => Self::NormalAngleMax,
            32 => Self::Vp32,
            33 => Self::Vp33,
            34 => Self::Vp34,
            35 => Self::Vp35,
            36 => Self::Vp36,
            37 => Self::Vp37,
            38 => Self::Vp38,
            39 => Self::Vp39,
            40 => Self::Vp40,
            41 => Self::Vp41,
            42 => Self::Vp42,
            43 => Self::Vp43,
            44 => Self::Vp44,
            45 => Self::Vp45,
            46 => Self::Vp46,
            47 => Self::Vp47,
            48 => Self::L1A,
            49 => Self::L1APlus,
            50 => Self::L1Length,
            51 => Self::L2A,
            52 => Self::L2APlus,
            53 => Self::L2Length,
            54 => Self::L3A,
            55 => Self::L3APlus,
            56 => Self::L3Length,
            57 => Self::L4A,
            58 => Self::L4APlus,
            59 => Self::L4Length,
            _ => Self::Invalid,
        }
    }
}

impl FromSpecImpl<usize> for SeamParamVpId {
    open spec fn obeys_from_spec() -> bool {
        true
    }

    open spec fn from_spec(value: usize) -> Self {
        Self::spec_from_index(value as int)
    }
}

/// A register of the OC partition, addressed within the partition.
///
/// `Invalid` stands for every index outside the range; its number is `0xffff`.
#[derive(Copy, Clone, Debug, PartialEq, Eq, PartialOrd, Ord, Structural)]
pub enum SeamParamOcId {
    FeaturePoint,
    FilterStrength,
    BasePosY,
    BasePosZ,
    BaseDeltaY,
    BaseDeltaZ,
    OffsetY,
    OffsetZ,
    StartPointFilter,
    TrackingArea,
    TrackingStrength,
    TrackingDuration,
    Oc12,
    Oc13,
    Oc14,
    Oc15,
    Oc16,
    Oc17,
    Oc18,
    Oc19,
    Oc20,
    Oc21,
    Oc22,
    Oc23,
    Oc24,
    Oc25,
    Oc26,
    Oc27,
    Oc28,
    Oc29,
    Oc30,
    Oc31,
    Oc32,
    Oc33,
    Oc34,
    Oc35,
    Oc36,
    Oc37,
    Oc38,
    Oc39,
    Oc40,
    Oc41,
    Oc42,
    Oc43,
    Oc44,
    Oc45,
    Oc46,
    Oc47,
    Oc48,
    Oc49,
    Oc50,
    Oc51,
    Oc52,
    Oc53,
    Oc54,
    Oc55,
    Oc56,
    Oc57,
    Oc58,
    Oc59,
    Invalid,
}

impl SeamParamOcId {
    /// The number of this register; `0xffff` for `Invalid`.
    pub open spec fn spec_index(self) -> int {
        match self {
            Self::FeaturePoint => 0,
            Self::FilterStrength => 1,
            Self::BasePosY => 2,
            Self::BasePosZ => 3,
            Self::BaseDeltaY => 4,
            Self::BaseDeltaZ => 5,
            Self::OffsetY => 6,
            Self::OffsetZ => 7,
            Self::StartPointFilter => 8,
            Self::TrackingArea => 9,
            Self::TrackingStrength => 10,
            Self::TrackingDuration => 11,
            Self::Oc12 => 12,
            Self::Oc13 => 13,
            Self::Oc14 => 14,
            Self::Oc15 => 15,
            Self::Oc16 => 16,
            Self::Oc17 => 17,
            Self::Oc18 => 18,
            Self::Oc19 => 19,
            Self::Oc20 => 20,
            Self::Oc21 => 21,
            Self::Oc22 => 22,
            Self::Oc23 => 23,
            Self::Oc24 => 24,
            Self::Oc25 => 25,
            Self::Oc26 => 26,
            Self::Oc27 => 27,
            Self::Oc28 => 28,
            Self::Oc29 => 29,
            Self::Oc30 => 30,
            Self::Oc31 => 31,
            Self::Oc32 => 32,
            Self::Oc33 => 33,
            Self::Oc34 => 34,
            Self::Oc35 => 35,
            Self::Oc36 => 36,
            Self::Oc37 => 37,
            Self::Oc38 => 38,
            Self::Oc39 => 39,
            Self::Oc40 => 40,
            Self::Oc41 => 41,
            Self::Oc42 => 42,
            Self::Oc43 => 43,
            Self::Oc44 => 44,
            Self::Oc45 => 45,
            Self::Oc46 => 46,
            Self::Oc47 => 47,
            Self::Oc48 => 48,
            Self::Oc49 => 49,
            Self::Oc50 => 50,
            Self::Oc51 => 51,
            Self::Oc52 => 52,
            Self::Oc53 => 53,
            Self::Oc54 => 54,
            Self::Oc55 => 55,
            Self::Oc56 => 56,
            Self::Oc57 => 57,
            Self::Oc58 => 58,
            Self::Oc59 => 59,
            Self::Invalid => 0xffff,
        }
    }

    /// The register with number `i`; `Invalid` where `i` is outside `[0, 60)`.
    pub open spec fn spec_from_index(i: int) -> Self {
        if i == 0 {
            Self::FeaturePoint
        } else if i == 1 {
            Self::FilterStrength
        } else if i == 2 {
            Self::BasePosY
        } else if i == 3 {
            Self::BasePosZ
        } else if i == 4 {
            Self::BaseDeltaY
        } else if i == 5 {
            Self::BaseDeltaZ
        } else if i == 6 {
            Self::OffsetY
        } else if i == 7 {
            Self::OffsetZ
        } else if i == 8 {
            Self::StartPointFilter
        } else if i == 9 {
            Self::TrackingArea
        } else if i == 10 {
            Self::TrackingStrength
        } else if i == 11 {
            Self::TrackingDuration
        } else if i == 12 {
            Self::Oc12
        } else if i == 13 {
            Self::Oc13
        } else if i == 14 {
            Self::Oc14
        } else if i == 15 {
            Self::Oc15
        } else if i == 16 {
            Self::Oc16
        } else if i == 17 {
            Self::Oc17
        } else if i == 18 {
            Self::Oc18
        } else if i == 19 {
            Self::Oc19
        } else if i == 20 {
            Self::Oc20
        } else if i == 21 {
            Self::Oc21
        } else if i == 22 {
            Self::Oc22
        } else if i == 23 {
            Self::Oc23
        } else if i == 24 {
            Self::Oc24
        } else if i == 25 {
            Self::Oc25
        } else if i == 26 {
            Self::Oc26
        } else if i == 27 {
            Self::Oc27
        } else if i == 28 {
            Self::Oc28
        } else if i == 29 {
            Self::Oc29
        } else if i == 30 {
            Self::Oc30
        } else if i == 31 {
            Self::Oc31
        } else if i == 32 {
            Self::Oc32
        } else if i == 33 {
            Self::Oc33
        } else if i == 34 {
            Self::Oc34
        } else if i == 35 {
            Self::Oc35
        } else if i == 36 {
            Self::Oc36
        } else if i == 37 {
            Self::Oc37
        } else if i == 38 {
            Self::Oc38
        } else if i == 39 {
            Self::Oc39
        } else if i == 40 {
            Self::Oc40
        } else if i == 41 {
            Self::Oc41
        } else if i == 42 {
            Self::Oc42
        } else if i == 43 {
            Self::Oc43
        } else if i == 44 {
            Self::Oc44
        } else if i == 45 {
            Self::Oc45
        } else if i == 46 {
            Self::Oc46
        } else if i == 47 {
            Self::Oc47
        } else if i == 48 {
            Self::Oc48
        } else if i == 49 {
            Self::Oc49
        } else if i == 50 {
            Self::Oc50
        } else if i == 51 {
            Self::Oc51
        } else if i == 52 {
            Self::Oc52
        } else if i == 53 {
            Self::Oc53
        } else if i == 54 {
            Self::Oc54
        } else if i == 55 {
            Self::Oc55
        } else if i == 56 {
            Self::Oc56
        } else if i == 57 {
            Self::Oc57
        } else if i == 58 {
            Self::Oc58
        } else if i == 59 {
            Self::Oc59
        } else {
            Self::Invalid
        }
    }

    /// The number of this register as an array index.
    pub fn index(self) -> (r: usize)
        ensures
            r == self.spec_index(),
    {
        match self {
            Self::FeaturePoint => 0,
            Self::FilterStrength => 1,
            Self::BasePosY => 2,
            Self::BasePosZ => 3,
            Self::BaseDeltaY => 4,
            Self::BaseDeltaZ => 5,
            Self::OffsetY => 6,
            Self::OffsetZ => 7,
            Self::StartPointFilter => 8,
            Self::TrackingArea => 9,
            Self::TrackingStrength => 10,
            Self::TrackingDuration => 11,
            Self::Oc12 => 12,
            Self::Oc13 => 13,
            Self::Oc14 => 14,
            Self::Oc15 => 15,
            Self::Oc16 => 16,
            Self::Oc17 => 17,
            Self::Oc18 => 18,
            Self::Oc19 => 19,
            Self::Oc20 => 20,
            Self::Oc21 => 21,
            Self::Oc22 => 22,
            Self::Oc23 => 23,
            Self::Oc24 => 24,
            Self::Oc25 => 25,
            Self::Oc26 => 26,
            Self::Oc27 => 27,
            Self::Oc28 => 28,
            Self::Oc29 => 29,
            Self::Oc30 => 30,
            Self::Oc31 => 31,
            Self::Oc32 => 32,
            Self::Oc33 => 33,
            Self::Oc34 => 34,
            Self::Oc35 => 35,
            Self::Oc36 => 36,
            Self::Oc37 => 37,
            Self::Oc38 => 38,
            Self::Oc39 => 39,
            Self::Oc40 => 40,
            Self::Oc41 => 41,
            Self::Oc42 => 42,
            Self::Oc43 => 43,
            Self::Oc44 => 44,
            Self::Oc45 => 45,
            Self::Oc46 => 46,
            Self::Oc47 => 47,
            Self::Oc48 => 48,
            Self::Oc49 => 49,
            Self::Oc50 => 50,
            Self::Oc51 => 51,
            Self::Oc52 => 52,
            Self::Oc53 => 53,
            Self::Oc54 => 54,
            Self::Oc55 => 55,
            Self::Oc56 => 56,
            Self::Oc57 => 57,
            Self::Oc58 => 58,
            Self::Oc59 => 59,
            Self::Invalid => 0xffff,
        }
    }

    /// Whether this names a register, that is, anything but `Invalid`.
    pub fn is_valid(self) -> (r: bool)
        ensures
            r == (self.spec_index() < 60),
            r == (self != Self::Invalid),
    {
        self.index() < 60
    }

    /// Every register is found again from its number.
    pub proof fn lemma_index_round_trip(self)
        ensures
            Self::spec_from_index(self.spec_index()) == self,
            self != Self::Invalid ==> 0 <= self.spec_index() < 60,
    {
    }

    /// Every number in range names the register with that number, every other number `Invalid`.
    pub proof fn lemma_from_index(i: int)
        ensures
            0 <= i < 60 ==> Self::spec_from_index(i).spec_index() == i,
            !(0 <= i < 60) ==> Self::spec_from_index(i) == Self::Invalid,
    {
    }
}

impl From<i32> for SeamParamOcId {
    fn from(value: i32) -> (r: Self) {
        match value {
            0 => Self::FeaturePoint,
            1 => Self::FilterStrength,
            2 => Self::BasePosY,
            3 => Self::BasePosZ,
            4 => Self::BaseDeltaY,
            5 => Self::BaseDeltaZ,
            6 => Self::OffsetY,
            7 => Self::OffsetZ,
            8 => Self::StartPointFilter,
            9 => Self::TrackingArea,
            10 => Self::TrackingStrength,
            11 => Self::TrackingDuration,
            12 => Self::Oc12,
            13 => Self::Oc13,
            14 => Self::Oc14,
            15 => Self::Oc15,
            16 => Self::Oc16,
            17 => Self::Oc17,
            18 => Self::Oc18,
            19 => Self::Oc19,
            20 => Self::Oc20,
            21 => Self::Oc21,
            22 => Self::Oc22,
            23 => Self::Oc23,
            24 => Self::Oc24,
            25 => Self::Oc25,
            26 => Self::Oc26,
            27 => Self::Oc27,
            28 => Self::Oc28,
            29 => Self::Oc29,
            30 => Self::Oc30,
            31 => Self::Oc31,
            32 => Self::Oc32,
            33 => Self::Oc33,
            34 => Self::Oc34,
            35 => Self::Oc35,
            36 => Self::Oc36,
            37 => Self::Oc37,
            38 => Self::Oc38,
            39 => Self::Oc39,
            40 => Self::Oc40,
            41 => Self::Oc41,
            42 => Self::Oc42,
            43 => Self::Oc43,
            44 => Self::Oc44,
            45 => Self::Oc45,
            46 => Self::Oc46,
            47 => Self::Oc47,
            48 => Self::Oc48,
            49 => Self::Oc49,
            50 => Self::Oc50,
            51 => Self::Oc51,
            52 => Self::Oc52,
            53 => Self::Oc53,
            54 => Self::Oc54,
            55 => Self::Oc55,
            56 => Self::Oc56,
            57 => Self::Oc57,
            58 => Self::Oc58,
            59 => Self::Oc59,
            _ => Self::Invalid,
        }
    }
}

impl FromSpecImpl<i32> for SeamParamOcId {
    open spec fn obeys_from_spec() -> bool {
        true
    }

    open spec fn from_spec(value: i32) -> Self {
        Self::spec_from_index(value as int)
    }
}

impl From<usize> for SeamParamOcId {
    fn from(value: usize) -> (r: Self) {
        match value {
            0 => Self::FeaturePoint,
            1 => Self::FilterStrength,
            2 => Self::BasePosY,
            3 => Self::BasePosZ,
            4 => Self::BaseDeltaY,
            5 => Self::BaseDeltaZ,
            6 => Self::OffsetY,
            7 => Self::OffsetZ,
            8 => Self::StartPointFilter,
            9 => Self::TrackingArea,
            10 => Self::TrackingStrength,
            11 => Self::TrackingDuration,
            12 => Self::Oc12,
            13 => Self::Oc13,
            14 => Self::Oc14,
            15 => Self::Oc15,
            16 => Self::Oc16,
            17 => Self::Oc17,
            18 => Self::Oc18,
            19 => Self::Oc19,
            20 => Self::Oc20,
            21 => Self::Oc21,
            22 => Self::Oc22,
            23 => Self::Oc23,
            24 => Self::Oc24,
            25 => Self::Oc25,
            26 => Self::Oc26,
            27 => Self::Oc27,
            28 => Self::Oc28,
            29 => Self::Oc29,
            30 => Self::Oc30,
            31 => Self::Oc31,
            32 => Self::Oc32,
            33 => Self::Oc33,
            34 => Self::Oc34,
            35 => Self::Oc35,
            36 => Self::Oc36,
            37 => Self::Oc37,
            38 => Self::Oc38,
            39 => Self::Oc39,
            40 => Self::Oc40,
            41 => Self::Oc41,
            42 => Self::Oc42,
            43 => Self::Oc43,
            44 => Self::Oc44,
            45 => Self::Oc45,
            46 => Self::Oc46,
            47 => Self::Oc47,
            48 => Self::Oc48,
            49 => Self::Oc49,
            50 => Self::Oc50,
            51 => Self::Oc51,
            52 => Self::Oc52,
            53 => Self::Oc53,
            54 => Self::Oc54,
            55 => Self::Oc55,
            56 => Self::Oc56,
            57 => Self::Oc57,
            58 => Self::Oc58,
            59 => Self::Oc59,
            _ => Self::Invalid,
        }
    }
}

impl FromSpecImpl<usize> for SeamParamOcId {
    open spec fn obeys_from_spec() -> bool {
        true
    }

    open spec fn from_spec(value: usize) -> Self {
        Self::spec_from_index(value as int)
    }
}

/// A register of the SF control partition, addressed within the partition.
///
/// `Invalid` stands for every index outside the range; its number is `0xffff`.
#[derive(Copy, Clone, Debug, PartialEq, Eq, PartialOrd, Ord, Structural)]
pub enum SeamParamSfId {
    JointType,
    XpEn,
    KpEn,
    OpEn1,
    OpEn2,
    VpEn1,
    VpEn2,
    OcEn1,
    OcEn2,
    Version,
    Invalid,
}

impl SeamParamSfId {
    /// The number of this register; `0xffff` for `Invalid`.
    pub open spec fn spec_index(self) -> int {
        match self {
            Self::JointType => 0,
            Self::XpEn => 1,
            Self::KpEn => 2,
            Self::OpEn1 => 3,
            Self::OpEn2 => 4,
            Self::VpEn1 => 5,
            Self::VpEn2 => 6,
            Self::OcEn1 => 7,
            Self::OcEn2 => 8,
            Self::Version => 9,
            Self::Invalid => 0xffff,
        }
    }

    /// The register with number `i`; `Invalid` where `i` is outside `[0, 10)`.
    pub open spec fn spec_from_index(i: int) -> Self {
        if i == 0 {
            Self::JointType
        } else if i == 1 {
            Self::XpEn
        } else if i == 2 {
            Self::KpEn
        } else if i == 3 {
            Self::OpEn1
        } else if i == 4 {
            Self::OpEn2
        } else if i == 5 {
            Self::VpEn1
        } else if i == 6 {
            Self::VpEn2
        } else if i == 7 {
            Self::OcEn1
        } else if i == 8 {
            Self::OcEn2
        } else if i == 9 {
            Self::Version
        } else {
            Self::Invalid
        }
    }

    /// The number of this register as an array index.
    pub fn index(self) -> (r: usize)
        ensures
            r == self.spec_index(),
    {
        match self {
            Self::JointType => 0,
            Self::XpEn => 1,
            Self::KpEn => 2,
            Self::OpEn1 => 3,
            Self::OpEn2 => 4,
            Self::VpEn1 => 5,
            Self::VpEn2 => 6,
            Self::OcEn1 => 7,
            Self::OcEn2 => 8,
            Self::Version => 9,
            Self::Invalid => 0xffff,
        }
    }

    /// Whether this names a register, that is, anything but `Invalid`.
    pub fn is_valid(self) -> (r: bool)
        ensures
            r == (self.spec_index() < 10),
            r == (self != Self::Invalid),
    {
        self.index() < 10
    }

    /// Every register is found again from its number.
    pub proof fn lemma_index_round_trip(self)
        ensures
            Self::spec_from_index(self.spec_index()) == self,
            self != Self::Invalid ==> 0 <= self.spec_index() < 10,
    {
    }

    /// Every number in range names the register with that number, every other number `Invalid`.
    pub proof fn lemma_from_index(i: int)
        ensures
            0 <= i < 10 ==> Self::spec_from_index(i).spec_index() == i,
            !(0 <= i < 10) ==> Self::spec_from_index(i) == Self::Invalid,
    {
    }
}

impl From<i32> for SeamParamSfId {
    fn from(value: i32) -> (r: Self) {
        match value {
            0 => Self::JointType,
            1 => Self::XpEn,
            2 => Self::KpEn,
            3 => Self::OpEn1,
            4 => Self::OpEn2,
            5 => Self::VpEn1,
            6 => Self::VpEn2,
            7 => Self::OcEn1,
            8 => Self::OcEn2,
            9 => Self::Version,
            _ => Self::Invalid,
        }
    }
}

impl FromSpecImpl<i32> for SeamParamSfId {
    open spec fn obeys_from_spec() -> bool {
        true
    }

    open spec fn from_spec(value: i32) -> Self {
        Self::spec_from_index(value as int)
    }
}

impl From<usize> for SeamParamSfId {
    fn from(value: usize) -> (r: Self) {
        match value {
            0 => Self::JointType,
            1 => Self::XpEn,
            2 => Self::KpEn,
            3 => Self::OpEn1,
            4 => Self::OpEn2,
            5 => Self::VpEn1,
            6 => Self::VpEn2,
            7 => Self::OcEn1,
            8 => Self::OcEn2,
            9 => Self::Version,
            _ => Self::Invalid,
        }
    }
}

impl FromSpecImpl<usize> for SeamParamSfId {
    open spec fn obeys_from_spec() -> bool {
        true
    }

    open spec fn from_spec(value: usize) -> Self {
        Self::spec_from_index(value as int)
    }
}

} // verus!
