//! Pixel formats and comparison functions.

use vstd::prelude::*;



verus! {

/// Mirrors the foreign `MTLCompareFunction` enumeration.
#[allow(non_camel_case_types)]
#[derive(Clone, Copy, Debug, PartialEq, Eq, Structural)]
pub enum MTLCompareFunction {
    MTLCompareFunctionNever,
    MTLCompareFunctionLess,
    MTLCompareFunctionEqual,
    MTLCompareFunctionLessEqual,
    MTLCompareFunctionGreater,
    MTLCompareFunctionNotEqual,
    MTLCompareFunctionGreaterEqual,
    MTLCompareFunctionAlways,
}

/// Mirrors the foreign `MTLPixelFormat` enumeration.
#[allow(non_camel_case_types)]
#[derive(Clone, Copy, Debug, PartialEq, Eq, Structural)]
pub enum MTLPixelFormat {
    MTLPixelFormatInvalid,
    MTLPixelFormatA8Unorm,
    MTLPixelFormatR8Unorm,
    MTLPixelFormatR8Snorm,
    MTLPixelFormatR8Uint,
    MTLPixelFormatR8Sint,
    MTLPixelFormatR16Unorm,
    MTLPixelFormatR16Snorm,
    MTLPixelFormatR16Uint,
    MTLPixelFormatR16Sint,
    MTLPixelFormatR16Float,
    MTLPixelFormatRG8Unorm,
    MTLPixelFormatRG8Snorm,
    MTLPixelFormatRG8Uint,
    MTLPixelFormatRG8Sint,
    MTLPixelFormatR32Uint,
    MTLPixelFormatR32Sint,
    MTLPixelFormatR32Float,
    MTLPixelFormatRG16Unorm,
    MTLPixelFormatRG16Snorm,
    MTLPixelFormatRG16Uint,
    MTLPixelFormatRG16Sint,
    MTLPixelFormatRG16Float,
    MTLPixelFormatRGBA8Unorm,
    MTLPixelFormatRGBA8Unorm_sRGB,
    MTLPixelFormatRGBA8Snorm,
    MTLPixelFormatRGBA8Uint,
    MTLPixelFormatRGBA8Sint,
    MTLPixelFormatBGRA8Unorm,
    MTLPixelFormatBGRA8Unorm_sRGB,
    MTLPixelFormatRGB10A2Unorm,
    MTLPixelFormatRGB10A2Uint,
    MTLPixelFormatRG11B10Float,
    MTLPixelFormatRGB9E5Float,
    MTLPixelFormatRG32Uint,
    MTLPixelFormatRG32Sint,
    MTLPixelFormatRG32Float,
    MTLPixelFormatRGBA16Unorm,
    MTLPixelFormatRGBA16Snorm,
    MTLPixelFormatRGBA16Uint,
    MTLPixelFormatRGBA16Sint,
    MTLPixelFormatRGBA16Float,
    MTLPixelFormatRGBA32Uint,
    MTLPixelFormatRGBA32Sint,
    MTLPixelFormatRGBA32Float,
    MTLPixelFormatBC1_RGBA,
    MTLPixelFormatBC1_RGBA_sRGB,
    MTLPixelFormatBC2_RGBA,
    MTLPixelFormatBC2_RGBA_sRGB,
    MTLPixelFormatBC3_RGBA,
    MTLPixelFormatBC3_RGBA_sRGB,
    MTLPixelFormatBC4_RUnorm,
    MTLPixelFormatBC4_RSnorm,
    MTLPixelFormatBC5_RGUnorm,
    MTLPixelFormatBC5_RGSnorm,
    MTLPixelFormatBC6H_RGBFloat,
    MTLPixelFormatBC6H_RGBUfloat,
    MTLPixelFormatBC7_RGBAUnorm,
    MTLPixelFormatBC7_RGBAUnorm_sRGB,
    MTLPixelFormatGBGR422,
    MTLPixelFormatBGRG422,
    MTLPixelFormatDepth32Float,
    MTLPixelFormatStencil8,
    MTLPixelFormatDepth24Unorm_Stencil8,
    MTLPixelFormatDepth32Float_Stencil8,
}

} // verus!
