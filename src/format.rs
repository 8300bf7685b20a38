//! Pixel formats of textures and vertex attributes, and the storage-image
//! formats that shaders can name.

use vstd::prelude::*;

verus! {

/// Block size of an ASTC compressed format.
#[derive(Clone, Copy, Debug, PartialEq, Eq, Structural)]
pub enum AstcBlock {
    B4x4,
    B5x4,
    B5x5,
    B6x5,
    B6x6,
    B8x5,
    B8x6,
    B8x8,
    B10x5,
    B10x6,
    B10x8,
    B10x10,
    B12x10,
    B12x12,
}

/// Channel encoding of an ASTC compressed format.
#[derive(Clone, Copy, Debug, PartialEq, Eq, Structural)]
pub enum AstcChannel {
    Unorm,
    UnormSrgb,
    Hdr,
}

/// A texture format as the graphics API names it.
#[derive(Clone, Copy, Debug, PartialEq, Eq, Structural)]
pub enum TextureFormat {
    R8Unorm,
    R8Snorm,
    R8Uint,
    R8Sint,
    R16Uint,
    R16Sint,
    R16Unorm,
    R16Snorm,
    R16Float,
    Rg8Unorm,
    Rg8Snorm,
    Rg8Uint,
    Rg8Sint,
    R32Uint,
    R32Sint,
    R32Float,
    Rg16Uint,
    Rg16Sint,
    Rg16Unorm,
    Rg16Snorm,
    Rg16Float,
    Rgba8Unorm,
    Rgba8UnormSrgb,
    Rgba8Snorm,
    Rgba8Uint,
    Rgba8Sint,
    Bgra8Unorm,
    Bgra8UnormSrgb,
    Rgb9e5Ufloat,
    Rgb10a2Uint,
    Rgb10a2Unorm,
    Rg11b10Ufloat,
    R64Uint,
    Rg32Uint,
    Rg32Sint,
    Rg32Float,
    Rgba16Uint,
    Rgba16Sint,
    Rgba16Unorm,
    Rgba16Snorm,
    Rgba16Float,
    Rgba32Uint,
    Rgba32Sint,
    Rgba32Float,
    Stencil8,
    Depth16Unorm,
    Depth24Plus,
    Depth24PlusStencil8,
    Depth32Float,
    Depth32FloatStencil8,
    NV12,
    Bc1RgbaUnorm,
    Bc1RgbaUnormSrgb,
    Bc2RgbaUnorm,
    Bc2RgbaUnormSrgb,
    Bc3RgbaUnorm,
    Bc3RgbaUnormSrgb,
    Bc4RUnorm,
    Bc4RSnorm,
    Bc5RgUnorm,
    Bc5RgSnorm,
    Bc6hRgbUfloat,
    Bc6hRgbFloat,
    Bc7RgbaUnorm,
    Bc7RgbaUnormSrgb,
    Etc2Rgb8Unorm,
    Etc2Rgb8UnormSrgb,
    Etc2Rgb8A1Unorm,
    Etc2Rgb8A1UnormSrgb,
    Etc2Rgba8Unorm,
    Etc2Rgba8UnormSrgb,
    EacR11Unorm,
    EacR11Snorm,
    EacRg11Unorm,
    EacRg11Snorm,
    Astc { block: AstcBlock, channel: AstcChannel },
}

/// A storage-image format as the shading language names it.
#[derive(Clone, Copy, Debug, PartialEq, Eq, Structural)]
pub enum StorageFormat {
    R8Unorm,
    R8Snorm,
    R8Uint,
    R8Sint,
    R16Uint,
    R16Sint,
    R16Float,
    Rg8Unorm,
    Rg8Snorm,
    Rg8Uint,
    Rg8Sint,
    R32Uint,
    R32Sint,
    R32Float,
    Rg16Uint,
    Rg16Sint,
    Rg16Float,
    Rgba8Unorm,
    Rgba8Snorm,
    Rgba8Uint,
    Rgba8Sint,
    Bgra8Unorm,
    Rgb10a2Uint,
    Rgb10a2Unorm,
    Rg11b10Ufloat,
    R64Uint,
    Rg32Uint,
    Rg32Sint,
    Rg32Float,
    Rgba16Uint,
    Rgba16Sint,
    Rgba16Float,
    Rgba32Uint,
    Rgba32Sint,
    Rgba32Float,
    R16Unorm,
    R16Snorm,
    Rg16Unorm,
    Rg16Snorm,
    Rgba16Unorm,
    Rgba16Snorm,
}

/// A vertex attribute format as the graphics API names it.
#[derive(Clone, Copy, Debug, PartialEq, Eq, Structural)]
pub enum VertexFormat {
    Uint8,
    Uint8x2,
    Uint8x4,
    Sint8,
    Sint8x2,
    Sint8x4,
    Unorm8,
    Unorm8x2,
    Unorm8x4,
    Snorm8,
    Snorm8x2,
    Snorm8x4,
    Uint16,
    Uint16x2,
    Uint16x4,
    Sint16,
    Sint16x2,
    Sint16x4,
    Unorm16,
    Unorm16x2,
    Unorm16x4,
    Snorm16,
    Snorm16x2,
    Snorm16x4,
    Float16,
    Float16x2,
    Float16x4,
    Float32,
    Float32x2,
    Float32x3,
    Float32x4,
    Uint32,
    Uint32x2,
    Uint32x3,
    Uint32x4,
    Sint32,
    Sint32x2,
    Sint32x3,
    Sint32x4,
    Float64,
    Float64x2,
    Float64x3,
    Float64x4,
    Unorm10_10_10_2,
    Unorm8x4Bgra,
}

/// Formats that hold depth or stencil values, or several planes: none of
/// them has a numeric shape a shader could read or write as a colour.
pub open spec fn is_depth_stencil_or_planar(format: TextureFormat) -> bool {
    match format {
        TextureFormat::Stencil8
        | TextureFormat::Depth16Unorm
        | TextureFormat::Depth24Plus
        | TextureFormat::Depth24PlusStencil8
        | TextureFormat::Depth32Float
        | TextureFormat::Depth32FloatStencil8
        | TextureFormat::NV12 => true,
        _ => false,
    }
}

/// The storage format that a texture format corresponds to, if any.
pub open spec fn storage_format_of(format: TextureFormat) -> Option<StorageFormat> {
    match format {
        TextureFormat::R8Unorm => Some(StorageFormat::R8Unorm),
        TextureFormat::R8Snorm => Some(StorageFormat::R8Snorm),
        TextureFormat::R8Uint => Some(StorageFormat::R8Uint),
        TextureFormat::R8Sint => Some(StorageFormat::R8Sint),
        TextureFormat::R16Uint => Some(StorageFormat::R16Uint),
        TextureFormat::R16Sint => Some(StorageFormat::R16Sint),
        TextureFormat::R16Float => Some(StorageFormat::R16Float),
        TextureFormat::Rg8Unorm => Some(StorageFormat::Rg8Unorm),
        TextureFormat::Rg8Snorm => Some(StorageFormat::Rg8Snorm),
        TextureFormat::Rg8Uint => Some(StorageFormat::Rg8Uint),
        TextureFormat::Rg8Sint => Some(StorageFormat::Rg8Sint),
        TextureFormat::R32Uint => Some(StorageFormat::R32Uint),
        TextureFormat::R32Sint => Some(StorageFormat::R32Sint),
        TextureFormat::R32Float => Some(StorageFormat::R32Float),
        TextureFormat::Rg16Uint => Some(StorageFormat::Rg16Uint),
        TextureFormat::Rg16Sint => Some(StorageFormat::Rg16Sint),
        TextureFormat::Rg16Float => Some(StorageFormat::Rg16Float),
        TextureFormat::Rgba8Unorm => Some(StorageFormat::Rgba8Unorm),
        TextureFormat::Rgba8Snorm => Some(StorageFormat::Rgba8Snorm),
        TextureFormat::Rgba8Uint => Some(StorageFormat::Rgba8Uint),
        TextureFormat::Rgba8Sint => Some(StorageFormat::Rgba8Sint),
        TextureFormat::Bgra8Unorm => Some(StorageFormat::Bgra8Unorm),
        TextureFormat::Rgb10a2Uint => Some(StorageFormat::Rgb10a2Uint),
        TextureFormat::Rgb10a2Unorm => Some(StorageFormat::Rgb10a2Unorm),
        TextureFormat::Rg11b10Ufloat => Some(StorageFormat::Rg11b10Ufloat),
        TextureFormat::R64Uint => Some(StorageFormat::R64Uint),
        TextureFormat::Rg32Uint => Some(StorageFormat::Rg32Uint),
        TextureFormat::Rg32Sint => Some(StorageFormat::Rg32Sint),
        TextureFormat::Rg32Float => Some(StorageFormat::Rg32Float),
        TextureFormat::Rgba16Uint => Some(StorageFormat::Rgba16Uint),
        TextureFormat::Rgba16Sint => Some(StorageFormat::Rgba16Sint),
        TextureFormat::Rgba16Float => Some(StorageFormat::Rgba16Float),
        TextureFormat::Rgba32Uint => Some(StorageFormat::Rgba32Uint),
        TextureFormat::Rgba32Sint => Some(StorageFormat::Rgba32Sint),
        TextureFormat::Rgba32Float => Some(StorageFormat::Rgba32Float),
        TextureFormat::R16Unorm => Some(StorageFormat::R16Unorm),
        TextureFormat::R16Snorm => Some(StorageFormat::R16Snorm),
        TextureFormat::Rg16Unorm => Some(StorageFormat::Rg16Unorm),
        TextureFormat::Rg16Snorm => Some(StorageFormat::Rg16Snorm),
        TextureFormat::Rgba16Unorm => Some(StorageFormat::Rgba16Unorm),
        TextureFormat::Rgba16Snorm => Some(StorageFormat::Rgba16Snorm),
        _ => None,
    }
}

/// The texture format that a storage format corresponds to.
pub open spec fn texture_format_of(format: StorageFormat) -> TextureFormat {
    match format {
        StorageFormat::R8Unorm => TextureFormat::R8Unorm,
        StorageFormat::R8Snorm => TextureFormat::R8Snorm,
        StorageFormat::R8Uint => TextureFormat::R8Uint,
        StorageFormat::R8Sint => TextureFormat::R8Sint,
        StorageFormat::R16Uint => TextureFormat::R16Uint,
        StorageFormat::R16Sint => TextureFormat::R16Sint,
        StorageFormat::R16Float => TextureFormat::R16Float,
        StorageFormat::Rg8Unorm => TextureFormat::Rg8Unorm,
        StorageFormat::Rg8Snorm => TextureFormat::Rg8Snorm,
        StorageFormat::Rg8Uint => TextureFormat::Rg8Uint,
        StorageFormat::Rg8Sint => TextureFormat::Rg8Sint,
        StorageFormat::R32Uint => TextureFormat::R32Uint,
        StorageFormat::R32Sint => TextureFormat::R32Sint,
        StorageFormat::R32Float => TextureFormat::R32Float,
        StorageFormat::Rg16Uint => TextureFormat::Rg16Uint,
        StorageFormat::Rg16Sint => TextureFormat::Rg16Sint,
        StorageFormat::Rg16Float => TextureFormat::Rg16Float,
        StorageFormat::Rgba8Unorm => TextureFormat::Rgba8Unorm,
        StorageFormat::Rgba8Snorm => TextureFormat::Rgba8Snorm,
        StorageFormat::Rgba8Uint => TextureFormat::Rgba8Uint,
        StorageFormat::Rgba8Sint => TextureFormat::Rgba8Sint,
        StorageFormat::Bgra8Unorm => TextureFormat::Bgra8Unorm,
        StorageFormat::Rgb10a2Uint => TextureFormat::Rgb10a2Uint,
        StorageFormat::Rgb10a2Unorm => TextureFormat::Rgb10a2Unorm,
        StorageFormat::Rg11b10Ufloat => TextureFormat::Rg11b10Ufloat,
        StorageFormat::R64Uint => TextureFormat::R64Uint,
        StorageFormat::Rg32Uint => TextureFormat::Rg32Uint,
        StorageFormat::Rg32Sint => TextureFormat::Rg32Sint,
        StorageFormat::Rg32Float => TextureFormat::Rg32Float,
        StorageFormat::Rgba16Uint => TextureFormat::Rgba16Uint,
        StorageFormat::Rgba16Sint => TextureFormat::Rgba16Sint,
        StorageFormat::Rgba16Float => TextureFormat::Rgba16Float,
        StorageFormat::Rgba32Uint => TextureFormat::Rgba32Uint,
        StorageFormat::Rgba32Sint => TextureFormat::Rgba32Sint,
        StorageFormat::Rgba32Float => TextureFormat::Rgba32Float,
        StorageFormat::R16Unorm => TextureFormat::R16Unorm,
        StorageFormat::R16Snorm => TextureFormat::R16Snorm,
        StorageFormat::Rg16Unorm => TextureFormat::Rg16Unorm,
        StorageFormat::Rg16Snorm => TextureFormat::Rg16Snorm,
        StorageFormat::Rgba16Unorm => TextureFormat::Rgba16Unorm,
        StorageFormat::Rgba16Snorm => TextureFormat::Rgba16Snorm,
    }
}

/// Maps a texture format to the shading language's storage format, where
/// the format can be used for storage images.
pub fn map_storage_format_to_naga(format: TextureFormat) -> (r: Option<StorageFormat>)
    ensures
        r == storage_format_of(format),
{
    match format {
        TextureFormat::R8Unorm => Some(StorageFormat::R8Unorm),
        TextureFormat::R8Snorm => Some(StorageFormat::R8Snorm),
        TextureFormat::R8Uint => Some(StorageFormat::R8Uint),
        TextureFormat::R8Sint => Some(StorageFormat::R8Sint),
        TextureFormat::R16Uint => Some(StorageFormat::R16Uint),
        TextureFormat::R16Sint => Some(StorageFormat::R16Sint),
        TextureFormat::R16Float => Some(StorageFormat::R16Float),
        TextureFormat::Rg8Unorm => Some(StorageFormat::Rg8Unorm),
        TextureFormat::Rg8Snorm => Some(StorageFormat::Rg8Snorm),
        TextureFormat::Rg8Uint => Some(StorageFormat::Rg8Uint),
        TextureFormat::Rg8Sint => Some(StorageFormat::Rg8Sint),
        TextureFormat::R32Uint => Some(StorageFormat::R32Uint),
        TextureFormat::R32Sint => Some(StorageFormat::R32Sint),
        TextureFormat::R32Float => Some(StorageFormat::R32Float),
        TextureFormat::Rg16Uint => Some(StorageFormat::Rg16Uint),
        TextureFormat::Rg16Sint => Some(StorageFormat::Rg16Sint),
        TextureFormat::Rg16Float => Some(StorageFormat::Rg16Float),
        TextureFormat::Rgba8Unorm => Some(StorageFormat::Rgba8Unorm),
        TextureFormat::Rgba8Snorm => Some(StorageFormat::Rgba8Snorm),
        TextureFormat::Rgba8Uint => Some(StorageFormat::Rgba8Uint),
        TextureFormat::Rgba8Sint => Some(StorageFormat::Rgba8Sint),
        TextureFormat::Bgra8Unorm => Some(StorageFormat::Bgra8Unorm),
        TextureFormat::Rgb10a2Uint => Some(StorageFormat::Rgb10a2Uint),
        TextureFormat::Rgb10a2Unorm => Some(StorageFormat::Rgb10a2Unorm),
        TextureFormat::Rg11b10Ufloat => Some(StorageFormat::Rg11b10Ufloat),
        TextureFormat::R64Uint => Some(StorageFormat::R64Uint),
        TextureFormat::Rg32Uint => Some(StorageFormat::Rg32Uint),
        TextureFormat::Rg32Sint => Some(StorageFormat::Rg32Sint),
        TextureFormat::Rg32Float => Some(StorageFormat::Rg32Float),
        TextureFormat::Rgba16Uint => Some(StorageFormat::Rgba16Uint),
        TextureFormat::Rgba16Sint => Some(StorageFormat::Rgba16Sint),
        TextureFormat::Rgba16Float => Some(StorageFormat::Rgba16Float),
        TextureFormat::Rgba32Uint => Some(StorageFormat::Rgba32Uint),
        TextureFormat::Rgba32Sint => Some(StorageFormat::Rgba32Sint),
        TextureFormat::Rgba32Float => Some(StorageFormat::Rgba32Float),
        TextureFormat::R16Unorm => Some(StorageFormat::R16Unorm),
        TextureFormat::R16Snorm => Some(StorageFormat::R16Snorm),
        TextureFormat::Rg16Unorm => Some(StorageFormat::Rg16Unorm),
        TextureFormat::Rg16Snorm => Some(StorageFormat::Rg16Snorm),
        TextureFormat::Rgba16Unorm => Some(StorageFormat::Rgba16Unorm),
        TextureFormat::Rgba16Snorm => Some(StorageFormat::Rgba16Snorm),
        _ => None,
    }
}

/// Maps a storage format of the shading language back to the texture format.
pub fn map_storage_format_from_naga(format: StorageFormat) -> (r: TextureFormat)
    ensures
        r == texture_format_of(format),
{
    match format {
        StorageFormat::R8Unorm => TextureFormat::R8Unorm,
        StorageFormat::R8Snorm => TextureFormat::R8Snorm,
        StorageFormat::R8Uint => TextureFormat::R8Uint,
        StorageFormat::R8Sint => TextureFormat::R8Sint,
        StorageFormat::R16Uint => TextureFormat::R16Uint,
        StorageFormat::R16Sint => TextureFormat::R16Sint,
        StorageFormat::R16Float => TextureFormat::R16Float,
        StorageFormat::Rg8Unorm => TextureFormat::Rg8Unorm,
        StorageFormat::Rg8Snorm => TextureFormat::Rg8Snorm,
        StorageFormat::Rg8Uint => TextureFormat::Rg8Uint,
        StorageFormat::Rg8Sint => TextureFormat::Rg8Sint,
        StorageFormat::R32Uint => TextureFormat::R32Uint,
        StorageFormat::R32Sint => TextureFormat::R32Sint,
        StorageFormat::R32Float => TextureFormat::R32Float,
        StorageFormat::Rg16Uint => TextureFormat::Rg16Uint,
        StorageFormat::Rg16Sint => TextureFormat::Rg16Sint,
        StorageFormat::Rg16Float => TextureFormat::Rg16Float,
        StorageFormat::Rgba8Unorm => TextureFormat::Rgba8Unorm,
        StorageFormat::Rgba8Snorm => TextureFormat::Rgba8Snorm,
        StorageFormat::Rgba8Uint => TextureFormat::Rgba8Uint,
        StorageFormat::Rgba8Sint => TextureFormat::Rgba8Sint,
        StorageFormat::Bgra8Unorm => TextureFormat::Bgra8Unorm,
        StorageFormat::Rgb10a2Uint => TextureFormat::Rgb10a2Uint,
        StorageFormat::Rgb10a2Unorm => TextureFormat::Rgb10a2Unorm,
        StorageFormat::Rg11b10Ufloat => TextureFormat::Rg11b10Ufloat,
        StorageFormat::R64Uint => TextureFormat::R64Uint,
        StorageFormat::Rg32Uint => TextureFormat::Rg32Uint,
        StorageFormat::Rg32Sint => TextureFormat::Rg32Sint,
        StorageFormat::Rg32Float => TextureFormat::Rg32Float,
        StorageFormat::Rgba16Uint => TextureFormat::Rgba16Uint,
        StorageFormat::Rgba16Sint => TextureFormat::Rgba16Sint,
        StorageFormat::Rgba16Float => TextureFormat::Rgba16Float,
        StorageFormat::Rgba32Uint => TextureFormat::Rgba32Uint,
        StorageFormat::Rgba32Sint => TextureFormat::Rgba32Sint,
        StorageFormat::Rgba32Float => TextureFormat::Rgba32Float,
        StorageFormat::R16Unorm => TextureFormat::R16Unorm,
        StorageFormat::R16Snorm => TextureFormat::R16Snorm,
        StorageFormat::Rg16Unorm => TextureFormat::Rg16Unorm,
        StorageFormat::Rg16Snorm => TextureFormat::Rg16Snorm,
        StorageFormat::Rgba16Unorm => TextureFormat::Rgba16Unorm,
        StorageFormat::Rgba16Snorm => TextureFormat::Rgba16Snorm,
    }
}

/// Mapping a texture format to a storage format and back gives the texture
/// format again, whenever the first mapping succeeds.
pub proof fn lemma_storage_format_round_trip(format: TextureFormat)
    ensures
        storage_format_of(format) matches Some(s) ==> texture_format_of(s) == format,
{
}

/// Every storage format maps to a texture format that maps back to it.
pub proof fn lemma_storage_format_representable(format: StorageFormat)
    ensures
        storage_format_of(texture_format_of(format)) == Some(format),
{
}

} // verus!
