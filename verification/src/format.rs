//! Texture formats understood by the rendering layer.
//!
//! Both enums are subsets of the formats a GPU backend offers: the color
//! formats are the uncompressed, normalized ones, and the depth-stencil
//! formats are the special depth and stencil layouts. Conversion to and from
//! a backend's own format type happens outside the verified core.

use vstd::prelude::*;

verus! {

/// Uncompressed, normalized, color texture formats.
#[derive(Debug, Clone, Copy, PartialEq, Eq, Structural)]
pub enum TextureFormat {
    /// Red channel only, 8 bit integer per channel, normalized.
    R8Unorm,
    /// Red channel only, 8 bit integer per channel, signed normalized.
    R8Snorm,
    /// Red channel only, 16 bit integer per channel, normalized.
    R16Unorm,
    /// Red channel only, 16 bit integer per channel, signed normalized.
    R16Snorm,
    /// Red channel only, 16 bit float per channel.
    R16Float,
    /// Red and green channels, 8 bit integer per channel, normalized.
    Rg8Unorm,
    /// Red and green channels, 8 bit integer per channel, signed normalized.
    Rg8Snorm,
    /// Red channel only, 32 bit integer per channel, unsigned.
    R32Uint,
    /// Red channel only, 32 bit float per channel.
    R32Float,
    /// Red and green channels, 16 bit integer per channel, unsigned.
    Rg16Uint,
    /// Red and green channels, 16 bit integer per channel, normalized.
    Rg16Unorm,
    /// Red and green channels, 16 bit integer per channel, signed normalized.
    Rg16Snorm,
    /// Red and green channels, 16 bit float per channel.
    Rg16Float,
    /// Red, green, blue and alpha channels, 8 bit integer per channel, normalized.
    Rgba8Unorm,
    /// Red, green, blue and alpha channels, 8 bit integer per channel, sRGB-encoded.
    Rgba8UnormSrgb,
    /// Red, green, blue and alpha channels, 8 bit integer per channel, signed normalized.
    Rgba8Snorm,
    /// Red, green, blue and alpha channels, 8 bit integer per channel, unsigned.
    Rgba8Uint,
    /// Blue, green, red and alpha channels, 8 bit integer per channel, normalized.
    Bgra8Unorm,
    /// Blue, green, red and alpha channels, 8 bit integer per channel, sRGB-encoded.
    Bgra8UnormSrgb,
    /// Packed unsigned float, 9 bit mantissa per RGB component with a shared 5 bit exponent.
    Rgb9e5Ufloat,
    /// 10 bit integer RGB channels with a 2 bit integer alpha channel, unsigned.
    Rgb10a2Uint,
    /// 10 bit integer RGB channels with a 2 bit integer alpha channel, normalized.
    Rgb10a2Unorm,
    /// 11 bit unsigned float red and green channels with a 10 bit unsigned float blue channel.
    Rg11b10Ufloat,
    /// Red channel only, 64 bit integer per channel, unsigned.
    R64Uint,
    /// Red and green channels, 32 bit integer per channel, unsigned.
    Rg32Uint,
    /// Red and green channels, 32 bit float per channel.
    Rg32Float,
    /// Red, green, blue and alpha channels, 16 bit integer per channel, unsigned.
    Rgba16Uint,
    /// Red, green, blue and alpha channels, 16 bit integer per channel, normalized.
    Rgba16Unorm,
    /// Red, green, blue and alpha channels, 16 bit integer per channel, signed normalized.
    Rgba16Snorm,
    /// Red, green, blue and alpha channels, 16 bit float per channel.
    Rgba16Float,
    /// Red, green, blue and alpha channels, 32 bit integer per channel, unsigned.
    Rgba32Uint,
    /// Red, green, blue and alpha channels, 32 bit float per channel.
    Rgba32Float,
}

impl TextureFormat {
    /// Color formats never support a depth-stencil view.
    pub fn supports_depth_stencil_view(&self) -> (r: bool)
        ensures
            r == false,
    {
        false
    }

    /// Every format in this enum is normalized or otherwise directly usable
    /// as a color attachment.
    pub fn is_normalized(&self) -> (r: bool)
        ensures
            r == true,
    {
        true
    }
}

/// Depth-stencil texture formats.
#[derive(Debug, Clone, Copy, PartialEq, Eq, Structural)]
pub enum DepthStencilTextureFormat {
    /// Stencil format with 8 bit integer stencil.
    Stencil8,
    /// Depth format with 16 bit integer depth.
    Depth16Unorm,
    /// Depth format with at least 24 bit integer depth.
    Depth24Plus,
    /// Depth-stencil format with at least 24 bit integer depth and 8 bit integer stencil.
    Depth24PlusStencil8,
    /// Depth format with 32 bit floating point depth.
    Depth32Float,
    /// Depth-stencil format with 32 bit floating point depth and 8 bit integer stencil.
    Depth32FloatStencil8,
}

impl DepthStencilTextureFormat {
    /// Depth-stencil formats always support a depth-stencil view.
    pub fn supports_depth_stencil_view(&self) -> (r: bool)
        ensures
            r == true,
    {
        true
    }

    /// Depth-stencil formats are not color-normalized.
    pub fn is_normalized(&self) -> (r: bool)
        ensures
            r == false,
    {
        false
    }
}

} // verus!
