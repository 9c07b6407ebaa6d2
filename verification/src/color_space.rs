//! Color space vocabulary.

use vstd::prelude::*;

use crate::bridge::Owned;
use crate::kind::CLS_CG_COLOR_SPACE;
use crate::kind::Kind;
use crate::kind::NSObjectPrototype;
use crate::kind::SubKind;

verus! {

/// The named color spaces of the host windowing system.
#[derive(Clone, Copy, Debug, PartialEq, Eq, Structural)]
pub enum ColorSpaceName {
    Srgb,
    SrgbExtended,
    SrgbExtendedLinear,
    SrgbLinear,
    DisplayP3,
    DisplayP3Extended,
    DisplayP3ExtendedLinear,
    DisplayP3Linear,
    BT2020,
    BT2020SrgbGamma,
    BT2020Extended,
    BT2020ExtendedLinear,
    BT2020Linear,
    BT2100PQ,
    BT2100HLG,
}


impl ColorSpaceName {
    /// The name of the foreign color-space constant this value selects: the
    /// string the binding hands to the windowing system's lookup-by-name
    /// call.
    pub open spec fn spec_constant_name(self) -> Seq<char> {
        match self {
            ColorSpaceName::Srgb => "kCGColorSpaceSRGB"@,
            ColorSpaceName::SrgbExtended => "kCGColorSpaceExtendedSRGB"@,
            ColorSpaceName::SrgbExtendedLinear => "kCGColorSpaceExtendedLinearSRGB"@,
            ColorSpaceName::SrgbLinear => "kCGColorSpaceLinearSRGB"@,
            ColorSpaceName::DisplayP3 => "kCGColorSpaceDisplayP3"@,
            ColorSpaceName::DisplayP3Extended => "kCGColorSpaceExtendedDisplayP3"@,
            ColorSpaceName::DisplayP3ExtendedLinear => "kCGColorSpaceExtendedLinearDisplayP3"@,
            ColorSpaceName::DisplayP3Linear => "kCGColorSpaceLinearDisplayP3"@,
            ColorSpaceName::BT2020 => "kCGColorSpaceITUR_2020"@,
            ColorSpaceName::BT2020SrgbGamma => "kCGColorSpaceITUR_2020_sRGBGamma"@,
            ColorSpaceName::BT2020Extended => "kCGColorSpaceExtendedITUR_2020"@,
            ColorSpaceName::BT2020ExtendedLinear => "kCGColorSpaceExtendedLinearITUR_2020"@,
            ColorSpaceName::BT2020Linear => "kCGColorSpaceLinearITUR_2020"@,
            ColorSpaceName::BT2100PQ => "kCGColorSpaceITUR_2100_PQ"@,
            ColorSpaceName::BT2100HLG => "kCGColorSpaceITUR_2100_HLG"@,
        }
    }

    /// The name of the foreign color-space constant this value selects.
    pub fn constant_name(self) -> (n: &'static str)
        ensures
            n@ == self.spec_constant_name(),
    {
        match self {
            ColorSpaceName::Srgb => "kCGColorSpaceSRGB",
            ColorSpaceName::SrgbExtended => "kCGColorSpaceExtendedSRGB",
            ColorSpaceName::SrgbExtendedLinear => "kCGColorSpaceExtendedLinearSRGB",
            ColorSpaceName::SrgbLinear => "kCGColorSpaceLinearSRGB",
            ColorSpaceName::DisplayP3 => "kCGColorSpaceDisplayP3",
            ColorSpaceName::DisplayP3Extended => "kCGColorSpaceExtendedDisplayP3",
            ColorSpaceName::DisplayP3ExtendedLinear => "kCGColorSpaceExtendedLinearDisplayP3",
            ColorSpaceName::DisplayP3Linear => "kCGColorSpaceLinearDisplayP3",
            ColorSpaceName::BT2020 => "kCGColorSpaceITUR_2020",
            ColorSpaceName::BT2020SrgbGamma => "kCGColorSpaceITUR_2020_sRGBGamma",
            ColorSpaceName::BT2020Extended => "kCGColorSpaceExtendedITUR_2020",
            ColorSpaceName::BT2020ExtendedLinear => "kCGColorSpaceExtendedLinearITUR_2020",
            ColorSpaceName::BT2020Linear => "kCGColorSpaceLinearITUR_2020",
            ColorSpaceName::BT2100PQ => "kCGColorSpaceITUR_2100_PQ",
            ColorSpaceName::BT2100HLG => "kCGColorSpaceITUR_2100_HLG",
        }
    }
}

/// The kind marker of the foreign `CGColorSpace` class.
pub enum CGColorSpace {
    Prototype,
}

impl Kind for CGColorSpace {
    open spec fn class_id() -> u64 {
        CLS_CG_COLOR_SPACE
    }

    open spec fn class_name() -> Seq<char> {
        "CGColorSpace"@
    }

    fn runtime_class() -> u64 {
        CLS_CG_COLOR_SPACE
    }

    fn runtime_class_name() -> &'static str {
        "CGColorSpace"
    }

    proof fn declared() {
        reveal_strlit("CGColorSpace");
    }
}

impl SubKind for CGColorSpace {
    type Parent = NSObjectPrototype;

    proof fn parent_declared() {
    }
}

/// An owning handle to a `CGColorSpace` object.
pub type ColorSpace = Owned<CGColorSpace>;

} // verus!
