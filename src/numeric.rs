//! Numeric shapes of shader values (scalars, vectors and matrices) and the
//! subtype order between them.

use vstd::prelude::*;
use crate::format::{TextureFormat, VertexFormat, is_depth_stencil_or_planar};

verus! {

/// The kind of a scalar.
#[derive(Clone, Copy, Debug, PartialEq, Eq, Structural)]
pub enum ScalarKind {
    Sint,
    Uint,
    Float,
    Bool,
    AbstractInt,
    AbstractFloat,
}

/// A scalar type: its kind and its width in bytes.
#[derive(Clone, Copy, Debug, PartialEq, Eq, Structural)]
pub struct Scalar {
    pub kind: ScalarKind,
    pub width: u8,
}

/// The number of components of a vector, or of a matrix's rows or columns.
#[derive(Clone, Copy, Debug, PartialEq, Eq, Structural)]
pub enum VectorSize {
    Bi,
    Tri,
    Quad,
}

impl VectorSize {
    /// The number of components, as a number.
    pub open spec fn spec_count(self) -> nat {
        match self {
            VectorSize::Bi => 2,
            VectorSize::Tri => 3,
            VectorSize::Quad => 4,
        }
    }

    /// The number of components.
    pub fn count(&self) -> (r: u32)
        ensures
            r == self.spec_count(),
    {
        match self {
            VectorSize::Bi => 2,
            VectorSize::Tri => 3,
            VectorSize::Quad => 4,
        }
    }
}

/// The shape of a numeric value.
#[derive(Clone, Copy, Debug, PartialEq, Eq, Structural)]
pub enum NumericDimension {
    Scalar,
    Vector(VectorSize),
    Matrix(VectorSize, VectorSize),
}

impl NumericDimension {
    /// The number of scalar components in a value of this shape.
    pub open spec fn spec_num_components(self) -> nat {
        match self {
            NumericDimension::Scalar => 1,
            NumericDimension::Vector(size) => size.spec_count(),
            NumericDimension::Matrix(columns, rows) => columns.spec_count() * rows.spec_count(),
        }
    }

    /// The number of scalar components in a value of this shape.
    pub fn num_components(&self) -> (r: u32)
        ensures
            r == self.spec_num_components(),
            1 <= r <= 16,
    {
        match self {
            NumericDimension::Scalar => 1,
            NumericDimension::Vector(size) => size.count(),
            NumericDimension::Matrix(columns, rows) => {
                let c = columns.count();
                let r = rows.count();
                assert(c * r <= 16) by (nonlinear_arith)
                    requires
                        2 <= c <= 4,
                        2 <= r <= 4,
                ;
                c * r
            },
        }
    }
}

/// The numeric type of a shader value: a shape and a scalar type.
#[derive(Clone, Copy, Debug, PartialEq, Eq, Structural)]
pub struct NumericType {
    pub dim: NumericDimension,
    pub scalar: Scalar,
}

/// Whether a value of shape `a` may stand where shape `b` is expected:
/// a scalar fits a scalar or any vector, a vector fits a vector of at least
/// as many components, and a matrix fits only a matrix of the same size.
pub open spec fn dimension_fits(a: NumericDimension, b: NumericDimension) -> bool {
    match (a, b) {
        (NumericDimension::Scalar, NumericDimension::Scalar) => true,
        (NumericDimension::Scalar, NumericDimension::Vector(_)) => true,
        (NumericDimension::Vector(s0), NumericDimension::Vector(s1)) => s0.spec_count()
            <= s1.spec_count(),
        (NumericDimension::Matrix(c0, r0), NumericDimension::Matrix(c1, r1)) => c0 == c1 && r0
            == r1,
        _ => false,
    }
}

/// The numeric shape that the shader sees when it reads a texture of this
/// format.
pub open spec fn texture_format_type(format: TextureFormat) -> NumericType
    recommends
        !is_depth_stencil_or_planar(format),
{
    match format {
        TextureFormat::R8Unorm
        | TextureFormat::R8Snorm
        | TextureFormat::R16Unorm
        | TextureFormat::R16Snorm
        | TextureFormat::R16Float
        | TextureFormat::R32Float
        | TextureFormat::Bc4RUnorm
        | TextureFormat::Bc4RSnorm
        | TextureFormat::EacR11Unorm
        | TextureFormat::EacR11Snorm => NumericType {
            dim: NumericDimension::Scalar,
            scalar: Scalar { kind: ScalarKind::Float, width: 4 },
        },
        TextureFormat::R8Uint
        | TextureFormat::R16Uint
        | TextureFormat::R32Uint => NumericType {
            dim: NumericDimension::Scalar,
            scalar: Scalar { kind: ScalarKind::Uint, width: 4 },
        },
        TextureFormat::R8Sint
        | TextureFormat::R16Sint
        | TextureFormat::R32Sint => NumericType {
            dim: NumericDimension::Scalar,
            scalar: Scalar { kind: ScalarKind::Sint, width: 4 },
        },
        TextureFormat::Rg8Unorm
        | TextureFormat::Rg8Snorm
        | TextureFormat::Rg16Unorm
        | TextureFormat::Rg16Snorm
        | TextureFormat::Rg16Float
        | TextureFormat::Rg32Float
        | TextureFormat::Bc5RgUnorm
        | TextureFormat::Bc5RgSnorm
        | TextureFormat::EacRg11Unorm
        | TextureFormat::EacRg11Snorm => NumericType {
            dim: NumericDimension::Vector(VectorSize::Bi),
            scalar: Scalar { kind: ScalarKind::Float, width: 4 },
        },
        TextureFormat::Rg8Uint
        | TextureFormat::Rg16Uint
        | TextureFormat::Rg32Uint => NumericType {
            dim: NumericDimension::Vector(VectorSize::Bi),
            scalar: Scalar { kind: ScalarKind::Uint, width: 4 },
        },
        TextureFormat::Rg8Sint
        | TextureFormat::Rg16Sint
        | TextureFormat::Rg32Sint => NumericType {
            dim: NumericDimension::Vector(VectorSize::Bi),
            scalar: Scalar { kind: ScalarKind::Sint, width: 4 },
        },
        TextureFormat::Rgba8Unorm
        | TextureFormat::Rgba8UnormSrgb
        | TextureFormat::Rgba8Snorm
        | TextureFormat::Bgra8Unorm
        | TextureFormat::Bgra8UnormSrgb
        | TextureFormat::Rgb10a2Unorm
        | TextureFormat::Rgba16Unorm
        | TextureFormat::Rgba16Snorm
        | TextureFormat::Rgba16Float
        | TextureFormat::Rgba32Float
        | TextureFormat::Bc1RgbaUnorm
        | TextureFormat::Bc1RgbaUnormSrgb
        | TextureFormat::Bc2RgbaUnorm
        | TextureFormat::Bc2RgbaUnormSrgb
        | TextureFormat::Bc3RgbaUnorm
        | TextureFormat::Bc3RgbaUnormSrgb
        | TextureFormat::Bc7RgbaUnorm
        | TextureFormat::Bc7RgbaUnormSrgb
        | TextureFormat::Etc2Rgb8A1Unorm
        | TextureFormat::Etc2Rgb8A1UnormSrgb
        | TextureFormat::Etc2Rgba8Unorm
        | TextureFormat::Etc2Rgba8UnormSrgb
        | TextureFormat::Astc { .. } => NumericType {
            dim: NumericDimension::Vector(VectorSize::Quad),
            scalar: Scalar { kind: ScalarKind::Float, width: 4 },
        },
        TextureFormat::Rgba8Uint
        | TextureFormat::Rgb10a2Uint
        | TextureFormat::Rgba16Uint
        | TextureFormat::Rgba32Uint => NumericType {
            dim: NumericDimension::Vector(VectorSize::Quad),
            scalar: Scalar { kind: ScalarKind::Uint, width: 4 },
        },
        TextureFormat::Rgba8Sint
        | TextureFormat::Rgba16Sint
        | TextureFormat::Rgba32Sint => NumericType {
            dim: NumericDimension::Vector(VectorSize::Quad),
            scalar: Scalar { kind: ScalarKind::Sint, width: 4 },
        },
        TextureFormat::Rgb9e5Ufloat
        | TextureFormat::Rg11b10Ufloat
        | TextureFormat::Bc6hRgbUfloat
        | TextureFormat::Bc6hRgbFloat
        | TextureFormat::Etc2Rgb8Unorm
        | TextureFormat::Etc2Rgb8UnormSrgb => NumericType {
            dim: NumericDimension::Vector(VectorSize::Tri),
            scalar: Scalar { kind: ScalarKind::Float, width: 4 },
        },
        TextureFormat::R64Uint => NumericType {
            dim: NumericDimension::Scalar,
            scalar: Scalar { kind: ScalarKind::Uint, width: 8 },
        },
        _ => NumericType {
        dim: NumericDimension::Scalar,
        scalar: Scalar { kind: ScalarKind::Float, width: 4 },
        },
    }
}

/// The numeric shape that the shader sees for a vertex attribute of this
/// format: normalized formats read as floats.
pub open spec fn vertex_format_type(format: VertexFormat) -> NumericType {
    match format {
        VertexFormat::Uint8
        | VertexFormat::Uint16
        | VertexFormat::Uint32 => NumericType {
            dim: NumericDimension::Scalar,
            scalar: Scalar { kind: ScalarKind::Uint, width: 4 },
        },
        VertexFormat::Uint8x2
        | VertexFormat::Uint16x2
        | VertexFormat::Uint32x2 => NumericType {
            dim: NumericDimension::Vector(VectorSize::Bi),
            scalar: Scalar { kind: ScalarKind::Uint, width: 4 },
        },
        VertexFormat::Uint8x4
        | VertexFormat::Uint16x4
        | VertexFormat::Uint32x4 => NumericType {
            dim: NumericDimension::Vector(VectorSize::Quad),
            scalar: Scalar { kind: ScalarKind::Uint, width: 4 },
        },
        VertexFormat::Sint8
        | VertexFormat::Sint16
        | VertexFormat::Sint32 => NumericType {
            dim: NumericDimension::Scalar,
            scalar: Scalar { kind: ScalarKind::Sint, width: 4 },
        },
        VertexFormat::Sint8x2
        | VertexFormat::Sint16x2
        | VertexFormat::Sint32x2 => NumericType {
            dim: NumericDimension::Vector(VectorSize::Bi),
            scalar: Scalar { kind: ScalarKind::Sint, width: 4 },
        },
        VertexFormat::Sint8x4
        | VertexFormat::Sint16x4
        | VertexFormat::Sint32x4 => NumericType {
            dim: NumericDimension::Vector(VectorSize::Quad),
            scalar: Scalar { kind: ScalarKind::Sint, width: 4 },
        },
        VertexFormat::Unorm8
        | VertexFormat::Snorm8
        | VertexFormat::Unorm16
        | VertexFormat::Snorm16
        | VertexFormat::Float16
        | VertexFormat::Float32 => NumericType {
            dim: NumericDimension::Scalar,
            scalar: Scalar { kind: ScalarKind::Float, width: 4 },
        },
        VertexFormat::Unorm8x2
        | VertexFormat::Snorm8x2
        | VertexFormat::Unorm16x2
        | VertexFormat::Snorm16x2
        | VertexFormat::Float16x2
        | VertexFormat::Float32x2 => NumericType {
            dim: NumericDimension::Vector(VectorSize::Bi),
            scalar: Scalar { kind: ScalarKind::Float, width: 4 },
        },
        VertexFormat::Unorm8x4
        | VertexFormat::Snorm8x4
        | VertexFormat::Unorm16x4
        | VertexFormat::Snorm16x4
        | VertexFormat::Float16x4
        | VertexFormat::Float32x4
        | VertexFormat::Unorm10_10_10_2
        | VertexFormat::Unorm8x4Bgra => NumericType {
            dim: NumericDimension::Vector(VectorSize::Quad),
            scalar: Scalar { kind: ScalarKind::Float, width: 4 },
        },
        VertexFormat::Float32x3 => NumericType {
            dim: NumericDimension::Vector(VectorSize::Tri),
            scalar: Scalar { kind: ScalarKind::Float, width: 4 },
        },
        VertexFormat::Uint32x3 => NumericType {
            dim: NumericDimension::Vector(VectorSize::Tri),
            scalar: Scalar { kind: ScalarKind::Uint, width: 4 },
        },
        VertexFormat::Sint32x3 => NumericType {
            dim: NumericDimension::Vector(VectorSize::Tri),
            scalar: Scalar { kind: ScalarKind::Sint, width: 4 },
        },
        VertexFormat::Float64 => NumericType {
            dim: NumericDimension::Scalar,
            scalar: Scalar { kind: ScalarKind::Float, width: 8 },
        },
        VertexFormat::Float64x2 => NumericType {
            dim: NumericDimension::Vector(VectorSize::Bi),
            scalar: Scalar { kind: ScalarKind::Float, width: 8 },
        },
        VertexFormat::Float64x3 => NumericType {
            dim: NumericDimension::Vector(VectorSize::Tri),
            scalar: Scalar { kind: ScalarKind::Float, width: 8 },
        },
        VertexFormat::Float64x4 => NumericType {
            dim: NumericDimension::Vector(VectorSize::Quad),
            scalar: Scalar { kind: ScalarKind::Float, width: 8 },
        },
    }
}

impl NumericType {
    /// The subtype relation: `self` is no wider than `other`, has the same
    /// scalar kind, and its shape fits `other`'s.
    pub open spec fn subtype(self, other: NumericType) -> bool {
        &&& self.scalar.width <= other.scalar.width
        &&& self.scalar.kind == other.scalar.kind
        &&& dimension_fits(self.dim, other.dim)
    }

    /// Whether a value of type `self` may stand where `other` is expected.
    pub fn is_subtype_of(&self, other: &NumericType) -> (r: bool)
        ensures
            r == self.subtype(*other),
    {
        if self.scalar.width > other.scalar.width {
            return false;
        }
        if self.scalar.kind != other.scalar.kind {
            return false;
        }
        match (self.dim, other.dim) {
            (NumericDimension::Scalar, NumericDimension::Scalar) => true,
            (NumericDimension::Scalar, NumericDimension::Vector(_)) => true,
            (NumericDimension::Vector(s0), NumericDimension::Vector(s1)) => s0.count()
                <= s1.count(),
            (NumericDimension::Matrix(c0, r0), NumericDimension::Matrix(c1, r1)) => c0 == c1
                && r0 == r1,
            _ => false,
        }
    }

    /// The type the shader sees for a vertex attribute of the given format.
    pub fn from_vertex_format(format: VertexFormat) -> (r: NumericType)
        ensures
            r == vertex_format_type(format),
    {
        match format {
            VertexFormat::Uint8
            | VertexFormat::Uint16
            | VertexFormat::Uint32 => NumericType {
                dim: NumericDimension::Scalar,
                scalar: Scalar { kind: ScalarKind::Uint, width: 4 },
            },
            VertexFormat::Uint8x2
            | VertexFormat::Uint16x2
            | VertexFormat::Uint32x2 => NumericType {
                dim: NumericDimension::Vector(VectorSize::Bi),
                scalar: Scalar { kind: ScalarKind::Uint, width: 4 },
            },
            VertexFormat::Uint8x4
            | VertexFormat::Uint16x4
            | VertexFormat::Uint32x4 => NumericType {
                dim: NumericDimension::Vector(VectorSize::Quad),
                scalar: Scalar { kind: ScalarKind::Uint, width: 4 },
            },
            VertexFormat::Sint8
            | VertexFormat::Sint16
            | VertexFormat::Sint32 => NumericType {
                dim: NumericDimension::Scalar,
                scalar: Scalar { kind: ScalarKind::Sint, width: 4 },
            },
            VertexFormat::Sint8x2
            | VertexFormat::Sint16x2
            | VertexFormat::Sint32x2 => NumericType {
                dim: NumericDimension::Vector(VectorSize::Bi),
                scalar: Scalar { kind: ScalarKind::Sint, width: 4 },
            },
            VertexFormat::Sint8x4
            | VertexFormat::Sint16x4
            | VertexFormat::Sint32x4 => NumericType {
                dim: NumericDimension::Vector(VectorSize::Quad),
                scalar: Scalar { kind: ScalarKind::Sint, width: 4 },
            },
            VertexFormat::Unorm8
            | VertexFormat::Snorm8
            | VertexFormat::Unorm16
            | VertexFormat::Snorm16
            | VertexFormat::Float16
            | VertexFormat::Float32 => NumericType {
                dim: NumericDimension::Scalar,
                scalar: Scalar { kind: ScalarKind::Float, width: 4 },
            },
            VertexFormat::Unorm8x2
            | VertexFormat::Snorm8x2
            | VertexFormat::Unorm16x2
            | VertexFormat::Snorm16x2
            | VertexFormat::Float16x2
            | VertexFormat::Float32x2 => NumericType {
                dim: NumericDimension::Vector(VectorSize::Bi),
                scalar: Scalar { kind: ScalarKind::Float, width: 4 },
            },
            VertexFormat::Unorm8x4
            | VertexFormat::Snorm8x4
            | VertexFormat::Unorm16x4
            | VertexFormat::Snorm16x4
            | VertexFormat::Float16x4
            | VertexFormat::Float32x4
            | VertexFormat::Unorm10_10_10_2
            | VertexFormat::Unorm8x4Bgra => NumericType {
                dim: NumericDimension::Vector(VectorSize::Quad),
                scalar: Scalar { kind: ScalarKind::Float, width: 4 },
            },
            VertexFormat::Float32x3 => NumericType {
                dim: NumericDimension::Vector(VectorSize::Tri),
                scalar: Scalar { kind: ScalarKind::Float, width: 4 },
            },
            VertexFormat::Uint32x3 => NumericType {
                dim: NumericDimension::Vector(VectorSize::Tri),
                scalar: Scalar { kind: ScalarKind::Uint, width: 4 },
            },
            VertexFormat::Sint32x3 => NumericType {
                dim: NumericDimension::Vector(VectorSize::Tri),
                scalar: Scalar { kind: ScalarKind::Sint, width: 4 },
            },
            VertexFormat::Float64 => NumericType {
                dim: NumericDimension::Scalar,
                scalar: Scalar { kind: ScalarKind::Float, width: 8 },
            },
            VertexFormat::Float64x2 => NumericType {
                dim: NumericDimension::Vector(VectorSize::Bi),
                scalar: Scalar { kind: ScalarKind::Float, width: 8 },
            },
            VertexFormat::Float64x3 => NumericType {
                dim: NumericDimension::Vector(VectorSize::Tri),
                scalar: Scalar { kind: ScalarKind::Float, width: 8 },
            },
            VertexFormat::Float64x4 => NumericType {
                dim: NumericDimension::Vector(VectorSize::Quad),
                scalar: Scalar { kind: ScalarKind::Float, width: 8 },
            },
        }
    }

    /// The type the shader sees for a colour texture of the given format.
    pub fn from_texture_format(format: TextureFormat) -> (r: NumericType)
        requires
            !is_depth_stencil_or_planar(format),
        ensures
            r == texture_format_type(format),
    {
        match format {
            TextureFormat::R8Unorm
            | TextureFormat::R8Snorm
            | TextureFormat::R16Unorm
            | TextureFormat::R16Snorm
            | TextureFormat::R16Float
            | TextureFormat::R32Float
            | TextureFormat::Bc4RUnorm
            | TextureFormat::Bc4RSnorm
            | TextureFormat::EacR11Unorm
            | TextureFormat::EacR11Snorm => NumericType {
                dim: NumericDimension::Scalar,
                scalar: Scalar { kind: ScalarKind::Float, width: 4 },
            },
            TextureFormat::R8Uint
            | TextureFormat::R16Uint
            | TextureFormat::R32Uint => NumericType {
                dim: NumericDimension::Scalar,
                scalar: Scalar { kind: ScalarKind::Uint, width: 4 },
            },
            TextureFormat::R8Sint
            | TextureFormat::R16Sint
            | TextureFormat::R32Sint => NumericType {
                dim: NumericDimension::Scalar,
                scalar: Scalar { kind: ScalarKind::Sint, width: 4 },
            },
            TextureFormat::Rg8Unorm
            | TextureFormat::Rg8Snorm
            | TextureFormat::Rg16Unorm
            | TextureFormat::Rg16Snorm
            | TextureFormat::Rg16Float
            | TextureFormat::Rg32Float
            | TextureFormat::Bc5RgUnorm
            | TextureFormat::Bc5RgSnorm
            | TextureFormat::EacRg11Unorm
            | TextureFormat::EacRg11Snorm => NumericType {
                dim: NumericDimension::Vector(VectorSize::Bi),
                scalar: Scalar { kind: ScalarKind::Float, width: 4 },
            },
            TextureFormat::Rg8Uint
            | TextureFormat::Rg16Uint
            | TextureFormat::Rg32Uint => NumericType {
                dim: NumericDimension::Vector(VectorSize::Bi),
                scalar: Scalar { kind: ScalarKind::Uint, width: 4 },
            },
            TextureFormat::Rg8Sint
            | TextureFormat::Rg16Sint
            | TextureFormat::Rg32Sint => NumericType {
                dim: NumericDimension::Vector(VectorSize::Bi),
                scalar: Scalar { kind: ScalarKind::Sint, width: 4 },
            },
            TextureFormat::Rgba8Unorm
            | TextureFormat::Rgba8UnormSrgb
            | TextureFormat::Rgba8Snorm
            | TextureFormat::Bgra8Unorm
            | TextureFormat::Bgra8UnormSrgb
            | TextureFormat::Rgb10a2Unorm
            | TextureFormat::Rgba16Unorm
            | TextureFormat::Rgba16Snorm
            | TextureFormat::Rgba16Float
            | TextureFormat::Rgba32Float
            | TextureFormat::Bc1RgbaUnorm
            | TextureFormat::Bc1RgbaUnormSrgb
            | TextureFormat::Bc2RgbaUnorm
            | TextureFormat::Bc2RgbaUnormSrgb
            | TextureFormat::Bc3RgbaUnorm
            | TextureFormat::Bc3RgbaUnormSrgb
            | TextureFormat::Bc7RgbaUnorm
            | TextureFormat::Bc7RgbaUnormSrgb
            | TextureFormat::Etc2Rgb8A1Unorm
            | TextureFormat::Etc2Rgb8A1UnormSrgb
            | TextureFormat::Etc2Rgba8Unorm
            | TextureFormat::Etc2Rgba8UnormSrgb
            | TextureFormat::Astc { .. } => NumericType {
                dim: NumericDimension::Vector(VectorSize::Quad),
                scalar: Scalar { kind: ScalarKind::Float, width: 4 },
            },
            TextureFormat::Rgba8Uint
            | TextureFormat::Rgb10a2Uint
            | TextureFormat::Rgba16Uint
            | TextureFormat::Rgba32Uint => NumericType {
                dim: NumericDimension::Vector(VectorSize::Quad),
                scalar: Scalar { kind: ScalarKind::Uint, width: 4 },
            },
            TextureFormat::Rgba8Sint
            | TextureFormat::Rgba16Sint
            | TextureFormat::Rgba32Sint => NumericType {
                dim: NumericDimension::Vector(VectorSize::Quad),
                scalar: Scalar { kind: ScalarKind::Sint, width: 4 },
            },
            TextureFormat::Rgb9e5Ufloat
            | TextureFormat::Rg11b10Ufloat
            | TextureFormat::Bc6hRgbUfloat
            | TextureFormat::Bc6hRgbFloat
            | TextureFormat::Etc2Rgb8Unorm
            | TextureFormat::Etc2Rgb8UnormSrgb => NumericType {
                dim: NumericDimension::Vector(VectorSize::Tri),
                scalar: Scalar { kind: ScalarKind::Float, width: 4 },
            },
            TextureFormat::R64Uint => NumericType {
                dim: NumericDimension::Scalar,
                scalar: Scalar { kind: ScalarKind::Uint, width: 8 },
            },
            _ => NumericType {
            dim: NumericDimension::Scalar,
            scalar: Scalar { kind: ScalarKind::Float, width: 4 },
            },
        }
    }
}

/// Checks that a render target of `format` can hold what a fragment shader
/// writes as `output`; on failure returns the format's own numeric type.
pub fn check_texture_format(format: TextureFormat, output: &NumericType) -> (r: Result<(), NumericType>)
    requires
        !is_depth_stencil_or_planar(format),
    ensures
        texture_format_type(format).subtype(*output) <==> r is Ok,
        r matches Err(nt) ==> nt == texture_format_type(format),
{
    let nt = NumericType::from_texture_format(format);
    if nt.is_subtype_of(output) {
        Ok(())
    } else {
        Err(nt)
    }
}

/// The subtype relation is transitive.
pub proof fn lemma_subtype_transitive(a: NumericType, b: NumericType, c: NumericType)
    requires
        a.subtype(b),
        b.subtype(c),
    ensures
        a.subtype(c),
{
}

/// Two types of equal width and kind that are each a subtype of the other
/// are the same type.
pub proof fn lemma_subtype_antisymmetric(a: NumericType, b: NumericType)
    requires
        a.subtype(b),
        b.subtype(a),
    ensures
        a == b,
{
    assert(a.dim == b.dim) by {
        match (a.dim, b.dim) {
            (NumericDimension::Vector(s0), NumericDimension::Vector(s1)) => {
                assert(s0.spec_count() == s1.spec_count());
            },
            _ => {},
        }
    }
}

} // verus!
