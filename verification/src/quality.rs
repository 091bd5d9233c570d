//! Quality labels of video streams and the labels a download may use.

use vstd::prelude::*;

verus! {

/// The resolution and frame-rate tier of a stream.
///
/// The variants are listed from the lowest tier to the highest; `rank` gives
/// each its position in that list, and labels are compared by rank.
#[derive(Clone, Copy, Debug, PartialEq, Eq, Structural, PartialOrd, Ord, Hash)]
pub enum QualityLabel {
    P144,
    P144HDR,
    P144Hz60HDR,
    P240,
    P240HDR,
    P240Hz60HDR,
    P360,
    P360HDR,
    P360Hz60,
    P360Hz60HDR,
    P480,
    P480HDR,
    P480Hz60,
    P480Hz60HDR,
    P720,
    P720Hz50,
    P720Hz60,
    P720Hz60HDR,
    P1080,
    P1080Hz50,
    P1080Hz60,
    P1080Hz60HDR,
    P1440,
    P1440Hz60,
    P1440Hz60HDR,
    P2160,
    P2160Hz60,
    P2160Hz60HDR,
    P4320,
    P4320Hz60,
    P4320Hz60HDR,
}

impl QualityLabel {
    /// The position of the label in the list of tiers, lowest first.
    pub open spec fn ordinal(self) -> nat {
        match self {
            QualityLabel::P144 => 0,
            QualityLabel::P144HDR => 1,
            QualityLabel::P144Hz60HDR => 2,
            QualityLabel::P240 => 3,
            QualityLabel::P240HDR => 4,
            QualityLabel::P240Hz60HDR => 5,
            QualityLabel::P360 => 6,
            QualityLabel::P360HDR => 7,
            QualityLabel::P360Hz60 => 8,
            QualityLabel::P360Hz60HDR => 9,
            QualityLabel::P480 => 10,
            QualityLabel::P480HDR => 11,
            QualityLabel::P480Hz60 => 12,
            QualityLabel::P480Hz60HDR => 13,
            QualityLabel::P720 => 14,
            QualityLabel::P720Hz50 => 15,
            QualityLabel::P720Hz60 => 16,
            QualityLabel::P720Hz60HDR => 17,
            QualityLabel::P1080 => 18,
            QualityLabel::P1080Hz50 => 19,
            QualityLabel::P1080Hz60 => 20,
            QualityLabel::P1080Hz60HDR => 21,
            QualityLabel::P1440 => 22,
            QualityLabel::P1440Hz60 => 23,
            QualityLabel::P1440Hz60HDR => 24,
            QualityLabel::P2160 => 25,
            QualityLabel::P2160Hz60 => 26,
            QualityLabel::P2160Hz60HDR => 27,
            QualityLabel::P4320 => 28,
            QualityLabel::P4320Hz60 => 29,
            QualityLabel::P4320Hz60HDR => 30,
        }
    }

    /// Whether a download may use a stream of this label: 720p and 1080p at
    /// their plain, 50 Hz and 60 Hz frame rates, and nothing else.
    pub open spec fn acceptable(self) -> bool {
        self == QualityLabel::P720 || self == QualityLabel::P720Hz50 || self
            == QualityLabel::P720Hz60 || self == QualityLabel::P1080 || self
            == QualityLabel::P1080Hz50 || self == QualityLabel::P1080Hz60
    }

    /// Computes `ordinal`.
    pub fn rank(self) -> (r: u8)
        ensures
            r == self.ordinal(),
    {
        match self {
            QualityLabel::P144 => 0,
            QualityLabel::P144HDR => 1,
            QualityLabel::P144Hz60HDR => 2,
            QualityLabel::P240 => 3,
            QualityLabel::P240HDR => 4,
            QualityLabel::P240Hz60HDR => 5,
            QualityLabel::P360 => 6,
            QualityLabel::P360HDR => 7,
            QualityLabel::P360Hz60 => 8,
            QualityLabel::P360Hz60HDR => 9,
            QualityLabel::P480 => 10,
            QualityLabel::P480HDR => 11,
            QualityLabel::P480Hz60 => 12,
            QualityLabel::P480Hz60HDR => 13,
            QualityLabel::P720 => 14,
            QualityLabel::P720Hz50 => 15,
            QualityLabel::P720Hz60 => 16,
            QualityLabel::P720Hz60HDR => 17,
            QualityLabel::P1080 => 18,
            QualityLabel::P1080Hz50 => 19,
            QualityLabel::P1080Hz60 => 20,
            QualityLabel::P1080Hz60HDR => 21,
            QualityLabel::P1440 => 22,
            QualityLabel::P1440Hz60 => 23,
            QualityLabel::P1440Hz60HDR => 24,
            QualityLabel::P2160 => 25,
            QualityLabel::P2160Hz60 => 26,
            QualityLabel::P2160Hz60HDR => 27,
            QualityLabel::P4320 => 28,
            QualityLabel::P4320Hz60 => 29,
            QualityLabel::P4320Hz60HDR => 30,
        }
    }

    /// Computes `acceptable`.
    pub fn is_acceptable(self) -> (r: bool)
        ensures
            r == self.acceptable(),
    {
        match self {
            QualityLabel::P720
            | QualityLabel::P720Hz50
            | QualityLabel::P720Hz60
            | QualityLabel::P1080
            | QualityLabel::P1080Hz50
            | QualityLabel::P1080Hz60 => true,
            _ => false,
        }
    }
}

/// Two labels of the same rank are the same label, so ranking the labels
/// orders them without ties.
pub proof fn ordinal_is_injective(a: QualityLabel, b: QualityLabel)
    requires
        a.ordinal() == b.ordinal(),
    ensures
        a == b,
{
}

} // verus!
