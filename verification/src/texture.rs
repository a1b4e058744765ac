//! Texture formats and their names.

use crate::text::str_eq;
use vstd::prelude::*;

verus! {

/// A texture format that the native library implements.
#[derive(Clone, Copy, Debug, PartialEq, Eq, Hash)]
pub enum TextureFormat {
    // 8-bit formats
    R8Unorm,
    R8Snorm,
    R8Uint,
    R8Sint,
    // 16-bit formats
    R16Uint,
    R16Sint,
    R16Float,
    Rg8Unorm,
    Rg8Snorm,
    Rg8Uint,
    Rg8Sint,
    // 32-bit formats
    R32Uint,
    R32Sint,
    R32Float,
    Rg16Uint,
    Rg16Sint,
    Rg16Float,
    Rgba8Unorm,
    Rgba8UnormSrgb,
    Rgba8Snorm,
    Rgba8Uint,
    Rgba8Sint,
    Bgra8Unorm,
    Bgra8UnormSrgb,
    // Packed 32-bit formats
    Rgb10a2Unorm,
    Rg11b10Float,
    // 64-bit formats
    Rg32Uint,
    Rg32Sint,
    Rg32Float,
    Rgba16Uint,
    Rgba16Sint,
    Rgba16Float,
    // 128-bit formats
    Rgba32Uint,
    Rgba32Sint,
    Rgba32Float,
    // Depth and stencil formats
    Depth24Plus,
    Depth24PlusStencil8,
    Depth32Float,
    // Block-compressed formats
    Bc1RgbaUnorm,
    Bc1RgbaUnormSrgb,
    Bc2RgbaUnorm,
    Bc2RgbaUnormSrgb,
    Bc3RgbaUnorm,
    Bc3RgbaUnormSrgb,
    Bc4RUnorm,
    Bc4RSnorm,
    Bc5RgUnorm,
    Bc5RgSnorm,
    Bc6hRgbUfloat,
    Bc6hRgbSfloat,
    Bc7RgbaUnorm,
    Bc7RgbaUnormSrgb,
}

/// The texture format that a name stands for, if the native library has one
/// for it. Names of formats it lacks, such as the shared-exponent format or
/// the 8-bit stencil format, stand for none.
pub open spec fn texture_format_of(name: Seq<char>) -> Option<TextureFormat> {
    if name == "r8unorm"@ {
        Some(TextureFormat::R8Unorm)
    } else if name == "r8snorm"@ {
        Some(TextureFormat::R8Snorm)
    } else if name == "r8uint"@ {
        Some(TextureFormat::R8Uint)
    } else if name == "r8sint"@ {
        Some(TextureFormat::R8Sint)
    } else if name == "r16uint"@ {
        Some(TextureFormat::R16Uint)
    } else if name == "r16sint"@ {
        Some(TextureFormat::R16Sint)
    } else if name == "r16float"@ {
        Some(TextureFormat::R16Float)
    } else if name == "rg8unorm"@ {
        Some(TextureFormat::Rg8Unorm)
    } else if name == "rg8snorm"@ {
        Some(TextureFormat::Rg8Snorm)
    } else if name == "rg8uint"@ {
        Some(TextureFormat::Rg8Uint)
    } else if name == "rg8sint"@ {
        Some(TextureFormat::Rg8Sint)
    } else if name == "r32uint"@ {
        Some(TextureFormat::R32Uint)
    } else if name == "r32sint"@ {
        Some(TextureFormat::R32Sint)
    } else if name == "r32float"@ {
        Some(TextureFormat::R32Float)
    } else if name == "rg16uint"@ {
        Some(TextureFormat::Rg16Uint)
    } else if name == "rg16sint"@ {
        Some(TextureFormat::Rg16Sint)
    } else if name == "rg16float"@ {
        Some(TextureFormat::Rg16Float)
    } else if name == "rgba8unorm"@ {
        Some(TextureFormat::Rgba8Unorm)
    } else if name == "rgba8unorm-srgb"@ {
        Some(TextureFormat::Rgba8UnormSrgb)
    } else if name == "rgba8snorm"@ {
        Some(TextureFormat::Rgba8Snorm)
    } else if name == "rgba8uint"@ {
        Some(TextureFormat::Rgba8Uint)
    } else if name == "rgba8sint"@ {
        Some(TextureFormat::Rgba8Sint)
    } else if name == "bgra8unorm"@ {
        Some(TextureFormat::Bgra8Unorm)
    } else if name == "bgra8unorm-srgb"@ {
        Some(TextureFormat::Bgra8UnormSrgb)
    } else if name == "rgb10a2unorm"@ {
        Some(TextureFormat::Rgb10a2Unorm)
    } else if name == "rg11b10ufloat"@ {
        Some(TextureFormat::Rg11b10Float)
    } else if name == "rg32uint"@ {
        Some(TextureFormat::Rg32Uint)
    } else if name == "rg32sint"@ {
        Some(TextureFormat::Rg32Sint)
    } else if name == "rg32float"@ {
        Some(TextureFormat::Rg32Float)
    } else if name == "rgba16uint"@ {
        Some(TextureFormat::Rgba16Uint)
    } else if name == "rgba16sint"@ {
        Some(TextureFormat::Rgba16Sint)
    } else if name == "rgba16float"@ {
        Some(TextureFormat::Rgba16Float)
    } else if name == "rgba32uint"@ {
        Some(TextureFormat::Rgba32Uint)
    } else if name == "rgba32sint"@ {
        Some(TextureFormat::Rgba32Sint)
    } else if name == "rgba32float"@ {
        Some(TextureFormat::Rgba32Float)
    } else if name == "depth24plus"@ {
        Some(TextureFormat::Depth24Plus)
    } else if name == "depth24plus-stencil8"@ {
        Some(TextureFormat::Depth24PlusStencil8)
    } else if name == "depth32float"@ {
        Some(TextureFormat::Depth32Float)
    } else if name == "bc1-rgba-unorm"@ {
        Some(TextureFormat::Bc1RgbaUnorm)
    } else if name == "bc1-rgba-unorm-srgb"@ {
        Some(TextureFormat::Bc1RgbaUnormSrgb)
    } else if name == "bc2-rgba-unorm"@ {
        Some(TextureFormat::Bc2RgbaUnorm)
    } else if name == "bc2-rgba-unorm-srgb"@ {
        Some(TextureFormat::Bc2RgbaUnormSrgb)
    } else if name == "bc3-rgba-unorm"@ {
        Some(TextureFormat::Bc3RgbaUnorm)
    } else if name == "bc3-rgba-unorm-srgb"@ {
        Some(TextureFormat::Bc3RgbaUnormSrgb)
    } else if name == "bc4-r-unorm"@ {
        Some(TextureFormat::Bc4RUnorm)
    } else if name == "bc4-r-snorm"@ {
        Some(TextureFormat::Bc4RSnorm)
    } else if name == "bc5-rg-unorm"@ {
        Some(TextureFormat::Bc5RgUnorm)
    } else if name == "bc5-rg-snorm"@ {
        Some(TextureFormat::Bc5RgSnorm)
    } else if name == "bc6h-rgb-ufloat"@ {
        Some(TextureFormat::Bc6hRgbUfloat)
    } else if name == "bc6h-rgb-float"@ {
        Some(TextureFormat::Bc6hRgbSfloat)
    } else if name == "bc7-rgba-unorm"@ {
        Some(TextureFormat::Bc7RgbaUnorm)
    } else if name == "bc7-rgba-unorm-srgb"@ {
        Some(TextureFormat::Bc7RgbaUnormSrgb)
    } else {
        None
    }
}

/// Reads the name of a texture format.
pub fn parse_texture_format(name: &str) -> (format: Option<TextureFormat>)
    ensures
        format == texture_format_of(name@),
{
    if str_eq(name, "r8unorm") {
        Some(TextureFormat::R8Unorm)
    } else if str_eq(name, "r8snorm") {
        Some(TextureFormat::R8Snorm)
    } else if str_eq(name, "r8uint") {
        Some(TextureFormat::R8Uint)
    } else if str_eq(name, "r8sint") {
        Some(TextureFormat::R8Sint)
    } else if str_eq(name, "r16uint") {
        Some(TextureFormat::R16Uint)
    } else if str_eq(name, "r16sint") {
        Some(TextureFormat::R16Sint)
    } else if str_eq(name, "r16float") {
        Some(TextureFormat::R16Float)
    } else if str_eq(name, "rg8unorm") {
        Some(TextureFormat::Rg8Unorm)
    } else if str_eq(name, "rg8snorm") {
        Some(TextureFormat::Rg8Snorm)
    } else if str_eq(name, "rg8uint") {
        Some(TextureFormat::Rg8Uint)
    } else if str_eq(name, "rg8sint") {
        Some(TextureFormat::Rg8Sint)
    } else if str_eq(name, "r32uint") {
        Some(TextureFormat::R32Uint)
    } else if str_eq(name, "r32sint") {
        Some(TextureFormat::R32Sint)
    } else if str_eq(name, "r32float") {
        Some(TextureFormat::R32Float)
    } else if str_eq(name, "rg16uint") {
        Some(TextureFormat::Rg16Uint)
    } else if str_eq(name, "rg16sint") {
        Some(TextureFormat::Rg16Sint)
    } else if str_eq(name, "rg16float") {
        Some(TextureFormat::Rg16Float)
    } else if str_eq(name, "rgba8unorm") {
        Some(TextureFormat::Rgba8Unorm)
    } else if str_eq(name, "rgba8unorm-srgb") {
        Some(TextureFormat::Rgba8UnormSrgb)
    } else if str_eq(name, "rgba8snorm") {
        Some(TextureFormat::Rgba8Snorm)
    } else if str_eq(name, "rgba8uint") {
        Some(TextureFormat::Rgba8Uint)
    } else if str_eq(name, "rgba8sint") {
        Some(TextureFormat::Rgba8Sint)
    } else if str_eq(name, "bgra8unorm") {
        Some(TextureFormat::Bgra8Unorm)
    } else if str_eq(name, "bgra8unorm-srgb") {
        Some(TextureFormat::Bgra8UnormSrgb)
    } else if str_eq(name, "rgb10a2unorm") {
        Some(TextureFormat::Rgb10a2Unorm)
    } else if str_eq(name, "rg11b10ufloat") {
        Some(TextureFormat::Rg11b10Float)
    } else if str_eq(name, "rg32uint") {
        Some(TextureFormat::Rg32Uint)
    } else if str_eq(name, "rg32sint") {
        Some(TextureFormat::Rg32Sint)
    } else if str_eq(name, "rg32float") {
        Some(TextureFormat::Rg32Float)
    } else if str_eq(name, "rgba16uint") {
        Some(TextureFormat::Rgba16Uint)
    } else if str_eq(name, "rgba16sint") {
        Some(TextureFormat::Rgba16Sint)
    } else if str_eq(name, "rgba16float") {
        Some(TextureFormat::Rgba16Float)
    } else if str_eq(name, "rgba32uint") {
        Some(TextureFormat::Rgba32Uint)
    } else if str_eq(name, "rgba32sint") {
        Some(TextureFormat::Rgba32Sint)
    } else if str_eq(name, "rgba32float") {
        Some(TextureFormat::Rgba32Float)
    } else if str_eq(name, "depth24plus") {
        Some(TextureFormat::Depth24Plus)
    } else if str_eq(name, "depth24plus-stencil8") {
        Some(TextureFormat::Depth24PlusStencil8)
    } else if str_eq(name, "depth32float") {
        Some(TextureFormat::Depth32Float)
    } else if str_eq(name, "bc1-rgba-unorm") {
        Some(TextureFormat::Bc1RgbaUnorm)
    } else if str_eq(name, "bc1-rgba-unorm-srgb") {
        Some(TextureFormat::Bc1RgbaUnormSrgb)
    } else if str_eq(name, "bc2-rgba-unorm") {
        Some(TextureFormat::Bc2RgbaUnorm)
    } else if str_eq(name, "bc2-rgba-unorm-srgb") {
        Some(TextureFormat::Bc2RgbaUnormSrgb)
    } else if str_eq(name, "bc3-rgba-unorm") {
        Some(TextureFormat::Bc3RgbaUnorm)
    } else if str_eq(name, "bc3-rgba-unorm-srgb") {
        Some(TextureFormat::Bc3RgbaUnormSrgb)
    } else if str_eq(name, "bc4-r-unorm") {
        Some(TextureFormat::Bc4RUnorm)
    } else if str_eq(name, "bc4-r-snorm") {
        Some(TextureFormat::Bc4RSnorm)
    } else if str_eq(name, "bc5-rg-unorm") {
        Some(TextureFormat::Bc5RgUnorm)
    } else if str_eq(name, "bc5-rg-snorm") {
        Some(TextureFormat::Bc5RgSnorm)
    } else if str_eq(name, "bc6h-rgb-ufloat") {
        Some(TextureFormat::Bc6hRgbUfloat)
    } else if str_eq(name, "bc6h-rgb-float") {
        Some(TextureFormat::Bc6hRgbSfloat)
    } else if str_eq(name, "bc7-rgba-unorm") {
        Some(TextureFormat::Bc7RgbaUnorm)
    } else if str_eq(name, "bc7-rgba-unorm-srgb") {
        Some(TextureFormat::Bc7RgbaUnormSrgb)
    } else {
        None
    }
}

} // verus!
