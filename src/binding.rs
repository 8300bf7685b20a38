//! Shader resources, the binding descriptors of a bind group layout, and the
//! two directions between them: checking a resource against a descriptor,
//! and deriving the descriptor that a resource implies.

use vstd::prelude::*;
use crate::format::{
    StorageFormat, TextureFormat, map_storage_format_from_naga, map_storage_format_to_naga,
    storage_format_of, texture_format_of, lemma_storage_format_representable,
};
use crate::numeric::ScalarKind;

verus! {

/// The dimension of an image as the shader declares it.
#[derive(Clone, Copy, Debug, PartialEq, Eq, Structural)]
pub enum ImageDimension {
    D1,
    D2,
    D3,
    Cube,
}

/// The access a shader has to a storage buffer or storage image.
#[derive(Clone, Copy, Debug, PartialEq, Eq, Structural)]
pub struct StorageAccess {
    pub load: bool,
    pub store: bool,
    pub atomic: bool,
}

impl StorageAccess {
    /// Read access only.
    pub open spec fn spec_load() -> StorageAccess {
        StorageAccess { load: true, store: false, atomic: false }
    }

    /// Write access only.
    pub open spec fn spec_store() -> StorageAccess {
        StorageAccess { load: false, store: true, atomic: false }
    }

    /// Read and write access.
    pub open spec fn spec_load_store() -> StorageAccess {
        StorageAccess { load: true, store: true, atomic: false }
    }
}

/// The class of an image: what its texels hold and how they are read.
#[derive(Clone, Copy, Debug, PartialEq, Eq, Structural)]
pub enum ImageClass {
    Sampled { kind: ScalarKind, multi: bool },
    Depth { multi: bool },
    Storage { format: StorageFormat, access: StorageAccess },
}

/// Where a global shader variable lives.
#[derive(Clone, Copy, Debug, PartialEq, Eq, Structural)]
pub enum AddressSpace {
    Function,
    Private,
    WorkGroup,
    Uniform,
    Storage { access: StorageAccess },
    Handle,
    PushConstant,
}

/// The (group, binding) coordinate of a resource.
#[derive(Clone, Copy, Debug, PartialEq, Eq, Structural)]
pub struct ResourceBinding {
    pub group: u32,
    pub binding: u32,
}

/// What kind of resource a global shader variable is.
#[derive(Clone, Copy, Debug, PartialEq, Eq, Structural)]
pub enum ResourceType {
    Buffer { size: u64 },
    Texture { dim: ImageDimension, arrayed: bool, class: ImageClass },
    Sampler { comparison: bool },
    AccelerationStructure { vertex_return: bool },
}

/// A resource that the shader module declares at a binding coordinate.
#[derive(Clone, Debug)]
pub struct Resource {
    pub name: Option<String>,
    pub bind: ResourceBinding,
    pub ty: ResourceType,
    pub class: AddressSpace,
}

/// How a buffer is bound.
#[derive(Clone, Copy, Debug, PartialEq, Eq, Structural)]
pub enum BufferBindingType {
    Uniform,
    Storage { read_only: bool },
}

/// How a sampler is bound.
#[derive(Clone, Copy, Debug, PartialEq, Eq, Structural)]
pub enum SamplerBindingType {
    Filtering,
    NonFiltering,
    Comparison,
}

/// What a sampled texture's texels are read as.
#[derive(Clone, Copy, Debug, PartialEq, Eq, Structural)]
pub enum TextureSampleType {
    Float { filterable: bool },
    Depth,
    Sint,
    Uint,
}

/// The dimension of a texture view.
#[derive(Clone, Copy, Debug, PartialEq, Eq, Structural)]
pub enum TextureViewDimension {
    D1,
    D2,
    D2Array,
    Cube,
    CubeArray,
    D3,
}

/// The access that a storage texture binding grants.
#[derive(Clone, Copy, Debug, PartialEq, Eq, Structural)]
pub enum StorageTextureAccess {
    WriteOnly,
    ReadOnly,
    ReadWrite,
    Atomic,
}

/// A binding descriptor of a bind group layout entry.
#[derive(Clone, Copy, Debug, PartialEq, Eq, Structural)]
pub enum BindingType {
    Buffer { ty: BufferBindingType, has_dynamic_offset: bool, min_binding_size: Option<u64> },
    Sampler(SamplerBindingType),
    Texture {
        sample_type: TextureSampleType,
        view_dimension: TextureViewDimension,
        multisampled: bool,
    },
    StorageTexture {
        access: StorageTextureAccess,
        format: TextureFormat,
        view_dimension: TextureViewDimension,
    },
    AccelerationStructure { vertex_return: bool },
    ExternalTexture,
}

/// The broad kind of a binding, used in error reports.
#[derive(Clone, Copy, Debug, PartialEq, Eq, Structural)]
pub enum BindingTypeName {
    Buffer,
    Texture,
    Sampler,
    AccelerationStructure,
    ExternalTexture,
}

/// A set of shader stages.
#[derive(Clone, Copy, Debug, PartialEq, Eq, Structural)]
pub struct ShaderStages {
    pub vertex: bool,
    pub fragment: bool,
    pub compute: bool,
}

/// One entry of a bind group layout.
#[derive(Clone, Copy, Debug, PartialEq, Eq, Structural)]
pub struct BindGroupLayoutEntry {
    pub binding: u32,
    pub visibility: ShaderStages,
    pub ty: BindingType,
    pub count: Option<u32>,
}

/// Why a resource does not fit a binding.
#[derive(Clone, Copy, Debug, PartialEq, Eq, Structural)]
pub enum BindingError {
    Missing,
    Invisible,
    WrongType { binding: BindingTypeName, shader: BindingTypeName },
    WrongAddressSpace { binding: AddressSpace, shader: AddressSpace },
    WrongBufferAddressSpace { space: AddressSpace },
    WrongBufferSize { buffer_size: u64, min_binding_size: u64 },
    WrongTextureViewDimension { dim: ImageDimension, is_array: bool, binding: BindingType },
    WrongTextureClass { binding: ImageClass, shader: ImageClass },
    WrongSamplerComparison,
    InconsistentlyDerivedType,
    BadStorageFormat(TextureFormat),
}

/// The broad kind of a shader-side resource.
pub open spec fn resource_type_name(ty: ResourceType) -> BindingTypeName {
    match ty {
        ResourceType::Buffer { .. } => BindingTypeName::Buffer,
        ResourceType::Texture { .. } => BindingTypeName::Texture,
        ResourceType::Sampler { .. } => BindingTypeName::Sampler,
        ResourceType::AccelerationStructure { .. } => BindingTypeName::AccelerationStructure,
    }
}

/// The broad kind of a binding descriptor.
pub open spec fn binding_type_name(ty: BindingType) -> BindingTypeName {
    match ty {
        BindingType::Buffer { .. } => BindingTypeName::Buffer,
        BindingType::Texture { .. } => BindingTypeName::Texture,
        BindingType::StorageTexture { .. } => BindingTypeName::Texture,
        BindingType::Sampler(_) => BindingTypeName::Sampler,
        BindingType::AccelerationStructure { .. } => BindingTypeName::AccelerationStructure,
        BindingType::ExternalTexture => BindingTypeName::ExternalTexture,
    }
}

impl BindingTypeName {
    /// The kind of a shader-side resource.
    pub fn of_resource(ty: &ResourceType) -> (r: BindingTypeName)
        ensures
            r == resource_type_name(*ty),
    {
        match ty {
            ResourceType::Buffer { .. } => BindingTypeName::Buffer,
            ResourceType::Texture { .. } => BindingTypeName::Texture,
            ResourceType::Sampler { .. } => BindingTypeName::Sampler,
            ResourceType::AccelerationStructure { .. } => BindingTypeName::AccelerationStructure,
        }
    }

    /// The kind of a binding descriptor.
    pub fn of_binding(ty: &BindingType) -> (r: BindingTypeName)
        ensures
            r == binding_type_name(*ty),
    {
        match ty {
            BindingType::Buffer { .. } => BindingTypeName::Buffer,
            BindingType::Texture { .. } => BindingTypeName::Texture,
            BindingType::StorageTexture { .. } => BindingTypeName::Texture,
            BindingType::Sampler(_) => BindingTypeName::Sampler,
            BindingType::AccelerationStructure { .. } => BindingTypeName::AccelerationStructure,
            BindingType::ExternalTexture => BindingTypeName::ExternalTexture,
        }
    }
}

/// The address space that a buffer binding type stands for.
pub open spec fn buffer_address_space(ty: BufferBindingType) -> AddressSpace {
    match ty {
        BufferBindingType::Uniform => AddressSpace::Uniform,
        BufferBindingType::Storage { read_only } => AddressSpace::Storage {
            access: StorageAccess { load: true, store: !read_only, atomic: false },
        },
    }
}

/// The view dimension that a texture binding declares, if it is one.
pub open spec fn binding_view_dimension(ty: BindingType) -> Option<TextureViewDimension> {
    match ty {
        BindingType::Texture { view_dimension, .. } => Some(view_dimension),
        BindingType::StorageTexture { view_dimension, .. } => Some(view_dimension),
        BindingType::ExternalTexture => Some(TextureViewDimension::D2),
        _ => None,
    }
}

/// Whether an image of dimension `dim`, arrayed or not, can be seen through
/// a view of dimension `view`.
pub open spec fn view_dimension_matches(
    dim: ImageDimension,
    arrayed: bool,
    view: TextureViewDimension,
) -> bool {
    if arrayed {
        ||| (dim == ImageDimension::D2 && view == TextureViewDimension::D2Array)
        ||| (dim == ImageDimension::Cube && view == TextureViewDimension::CubeArray)
    } else {
        ||| (dim == ImageDimension::D1 && view == TextureViewDimension::D1)
        ||| (dim == ImageDimension::D2 && view == TextureViewDimension::D2)
        ||| (dim == ImageDimension::D3 && view == TextureViewDimension::D3)
        ||| (dim == ImageDimension::Cube && view == TextureViewDimension::Cube)
    }
}

/// The shader access that a storage texture binding grants.
pub open spec fn storage_texture_access(access: StorageTextureAccess) -> StorageAccess {
    match access {
        StorageTextureAccess::ReadOnly => StorageAccess::spec_load(),
        StorageTextureAccess::WriteOnly => StorageAccess::spec_store(),
        StorageTextureAccess::ReadWrite => StorageAccess::spec_load_store(),
        StorageTextureAccess::Atomic => StorageAccess { load: true, store: true, atomic: true },
    }
}

/// The image class that a sampled texture binding expects.
pub open spec fn sampled_image_class(sample_type: TextureSampleType, multi: bool) -> ImageClass {
    match sample_type {
        TextureSampleType::Float { .. } => ImageClass::Sampled { kind: ScalarKind::Float, multi },
        TextureSampleType::Sint => ImageClass::Sampled { kind: ScalarKind::Sint, multi },
        TextureSampleType::Uint => ImageClass::Sampled { kind: ScalarKind::Uint, multi },
        TextureSampleType::Depth => ImageClass::Depth { multi },
    }
}

/// Checks an image class against a texture binding whose view dimension
/// already fits.
pub open spec fn texture_class_check(class: ImageClass, ty: BindingType) -> Result<(), BindingError> {
    match ty {
        BindingType::Texture { sample_type, multisampled, .. } => {
            let expected = sampled_image_class(sample_type, multisampled);
            if class != expected {
                Err(BindingError::WrongTextureClass { binding: expected, shader: class })
            } else {
                Ok(())
            }
        },
        BindingType::StorageTexture { access, format, .. } => match storage_format_of(format) {
            None => Err(BindingError::BadStorageFormat(format)),
            Some(f) => {
                let expected = ImageClass::Storage {
                    format: f,
                    access: storage_texture_access(access),
                };
                if class != expected {
                    Err(BindingError::WrongTextureClass { binding: expected, shader: class })
                } else {
                    Ok(())
                }
            },
        },
        _ => Err(
            BindingError::WrongType {
                binding: binding_type_name(ty),
                shader: BindingTypeName::Texture,
            },
        ),
    }
}

/// The result of checking a shader resource against a binding descriptor.
pub open spec fn binding_use(ty: ResourceType, space: AddressSpace, entry: BindingType) -> Result<
    (),
    BindingError,
> {
    match ty {
        ResourceType::Buffer { size } => match entry {
            BindingType::Buffer { ty: bty, min_binding_size, .. } => {
                let expected = buffer_address_space(bty);
                if space != expected {
                    Err(BindingError::WrongAddressSpace { binding: expected, shader: space })
                } else {
                    match min_binding_size {
                        Some(m) if m < size => Err(
                            BindingError::WrongBufferSize { buffer_size: size, min_binding_size: m },
                        ),
                        _ => Ok(()),
                    }
                }
            },
            _ => Err(
                BindingError::WrongType {
                    binding: binding_type_name(entry),
                    shader: BindingTypeName::Buffer,
                },
            ),
        },
        ResourceType::Sampler { comparison } => match entry {
            BindingType::Sampler(sty) => {
                if (sty == SamplerBindingType::Comparison) != comparison {
                    Err(BindingError::WrongSamplerComparison)
                } else {
                    Ok(())
                }
            },
            _ => Err(
                BindingError::WrongType {
                    binding: binding_type_name(entry),
                    shader: BindingTypeName::Sampler,
                },
            ),
        },
        ResourceType::Texture { dim, arrayed, class } => match binding_view_dimension(entry) {
            None => Err(
                BindingError::WrongTextureViewDimension { dim, is_array: false, binding: entry },
            ),
            Some(view) => if !view_dimension_matches(dim, arrayed, view) {
                Err(
                    BindingError::WrongTextureViewDimension {
                        dim,
                        is_array: arrayed,
                        binding: entry,
                    },
                )
            } else {
                texture_class_check(class, entry)
            },
        },
        ResourceType::AccelerationStructure { vertex_return } => match entry {
            BindingType::AccelerationStructure { vertex_return: v } if v == vertex_return => Ok(()),
            _ => Err(
                BindingError::WrongType {
                    binding: binding_type_name(entry),
                    shader: BindingTypeName::AccelerationStructure,
                },
            ),
        },
    }
}

/// The view dimension that an image of dimension `dim` is derived to need.
pub open spec fn derived_view_dimension(dim: ImageDimension, arrayed: bool) -> TextureViewDimension {
    match dim {
        ImageDimension::D1 => TextureViewDimension::D1,
        ImageDimension::D2 => if arrayed {
            TextureViewDimension::D2Array
        } else {
            TextureViewDimension::D2
        },
        ImageDimension::D3 => TextureViewDimension::D3,
        ImageDimension::Cube => if arrayed {
            TextureViewDimension::CubeArray
        } else {
            TextureViewDimension::Cube
        },
    }
}

/// The storage texture access that a shader's storage access is derived to
/// need.
pub open spec fn derived_storage_access(access: StorageAccess) -> StorageTextureAccess {
    if access == StorageAccess::spec_load() {
        StorageTextureAccess::ReadOnly
    } else if access == StorageAccess::spec_store() {
        StorageTextureAccess::WriteOnly
    } else if access == StorageAccess::spec_load_store() {
        StorageTextureAccess::ReadWrite
    } else {
        StorageTextureAccess::Atomic
    }
}

/// The binding descriptor that a resource implies; `filtering` says whether
/// a texture is sampled through a filtering sampler.
pub open spec fn derived_binding(ty: ResourceType, space: AddressSpace, filtering: bool) -> Result<
    BindingType,
    BindingError,
> {
    match ty {
        ResourceType::Buffer { size } => match space {
            AddressSpace::Uniform => Ok(
                BindingType::Buffer {
                    ty: BufferBindingType::Uniform,
                    has_dynamic_offset: false,
                    min_binding_size: Some(size),
                },
            ),
            AddressSpace::Storage { access } => Ok(
                BindingType::Buffer {
                    ty: BufferBindingType::Storage { read_only: access == StorageAccess::spec_load() },
                    has_dynamic_offset: false,
                    min_binding_size: Some(size),
                },
            ),
            _ => Err(BindingError::WrongBufferAddressSpace { space }),
        },
        ResourceType::Sampler { comparison } => Ok(
            BindingType::Sampler(
                if comparison {
                    SamplerBindingType::Comparison
                } else {
                    SamplerBindingType::Filtering
                },
            ),
        ),
        ResourceType::Texture { dim, arrayed, class } => {
            let view_dimension = derived_view_dimension(dim, arrayed);
            match class {
                ImageClass::Sampled { kind, multi } => Ok(
                    BindingType::Texture {
                        sample_type: match kind {
                            ScalarKind::Sint => TextureSampleType::Sint,
                            ScalarKind::Uint => TextureSampleType::Uint,
                            _ => TextureSampleType::Float { filterable: filtering },
                        },
                        view_dimension,
                        multisampled: multi,
                    },
                ),
                ImageClass::Depth { multi } => Ok(
                    BindingType::Texture {
                        sample_type: TextureSampleType::Depth,
                        view_dimension,
                        multisampled: multi,
                    },
                ),
                ImageClass::Storage { format, access } => {
                    let f = texture_format_of(format);
                    if storage_format_of(f) is None {
                        Err(BindingError::BadStorageFormat(f))
                    } else {
                        Ok(
                            BindingType::StorageTexture {
                                access: derived_storage_access(access),
                                format: f,
                                view_dimension,
                            },
                        )
                    }
                },
            }
        },
        ResourceType::AccelerationStructure { vertex_return } => Ok(
            BindingType::AccelerationStructure { vertex_return },
        ),
    }
}

impl ResourceType {
    /// The shapes for which a binding descriptor can be derived: a sampled
    /// image holds floats or integers, and a storage image is read, written,
    /// read and written, or accessed atomically.
    pub open spec fn derivable(self) -> bool {
        match self {
            ResourceType::Texture { class, .. } => match class {
                ImageClass::Sampled { kind, .. } => kind == ScalarKind::Float || kind
                    == ScalarKind::Sint || kind == ScalarKind::Uint,
                ImageClass::Storage { access, .. } => access == StorageAccess::spec_load() || access
                    == StorageAccess::spec_store() || access == StorageAccess::spec_load_store()
                    || access.atomic,
                ImageClass::Depth { .. } => true,
            },
            _ => true,
        }
    }

    /// The shapes that a shader module can declare: only 2D and cube images
    /// are arrayed, sampled images hold floats or integers, and a storage
    /// access is read, write, read-write, or atomic read-write.
    pub open spec fn wf(self) -> bool {
        match self {
            ResourceType::Texture { dim, arrayed, class } => {
                &&& arrayed ==> (dim == ImageDimension::D2 || dim == ImageDimension::Cube)
                &&& match class {
                    ImageClass::Sampled { kind, .. } => kind == ScalarKind::Float || kind
                        == ScalarKind::Sint || kind == ScalarKind::Uint,
                    ImageClass::Storage { access, .. } => access == StorageAccess::spec_load()
                        || access == StorageAccess::spec_store() || access
                        == StorageAccess::spec_load_store() || access == (StorageAccess {
                        load: true,
                        store: true,
                        atomic: true,
                    }),
                    ImageClass::Depth { .. } => true,
                }
            },
            _ => true,
        }
    }
}

impl Resource {
    /// A resource as a shader module can declare it: a well-formed type,
    /// and a storage buffer that is at least readable and has no atomic
    /// access flag. Deriving a descriptor only needs `derivable`; this
    /// stronger condition is the one under which whatever is derived also
    /// passes the check of the same resource.
    pub open spec fn wf(self) -> bool {
        &&& self.ty.wf()
        &&& (self.ty is Buffer && self.class is Storage) ==> ({
            let access = self.class->Storage_access;
            access.load && !access.atomic
        })
    }

    /// Whether a binding descriptor can be derived for this resource.
    pub open spec fn derivable(self) -> bool {
        self.ty.derivable()
    }

    /// Whether a binding descriptor can be derived for this resource.
    pub fn is_derivable(&self) -> (r: bool)
        ensures
            r == self.derivable(),
    {
        match self.ty {
            ResourceType::Texture { class, .. } => match class {
                ImageClass::Sampled { kind, .. } => kind == ScalarKind::Float || kind
                    == ScalarKind::Sint || kind == ScalarKind::Uint,
                ImageClass::Storage { access, .. } => (access.load && !access.store
                    && !access.atomic) || (!access.load && access.store && !access.atomic) || (
                access.load && access.store) || access.atomic,
                ImageClass::Depth { .. } => true,
            },
            _ => true,
        }
    }

    /// Whether this resource is well formed.
    pub fn is_wf(&self) -> (r: bool)
        ensures
            r == self.wf(),
    {
        let type_ok = match self.ty {
            ResourceType::Texture { dim, arrayed, class } => {
                let dim_ok = !arrayed || dim == ImageDimension::D2 || dim == ImageDimension::Cube;
                let class_ok = match class {
                    ImageClass::Sampled { kind, .. } => kind == ScalarKind::Float || kind
                        == ScalarKind::Sint || kind == ScalarKind::Uint,
                    ImageClass::Storage { access, .. } => (access.load && !access.store
                        && !access.atomic) || (!access.load && access.store && !access.atomic) || (
                    access.load && access.store),
                    ImageClass::Depth { .. } => true,
                };
                dim_ok && class_ok
            },
            _ => true,
        };
        let space_ok = match (self.ty, self.class) {
            (ResourceType::Buffer { .. }, AddressSpace::Storage { access }) => access.load
                && !access.atomic,
            _ => true,
        };
        type_ok && space_ok
    }

    /// Checks that this resource can be bound through the layout entry.
    pub fn check_binding_use(&self, entry: &BindGroupLayoutEntry) -> (r: Result<(), BindingError>)
        ensures
            r == binding_use(self.ty, self.class, entry.ty),
    {
        match self.ty {
            ResourceType::Buffer { size } => {
                let min_size = match entry.ty {
                    BindingType::Buffer { ty, has_dynamic_offset: _, min_binding_size } => {
                        let class = match ty {
                            BufferBindingType::Uniform => AddressSpace::Uniform,
                            BufferBindingType::Storage { read_only } => AddressSpace::Storage {
                                access: StorageAccess { load: true, store: !read_only, atomic: false },
                            },
                        };
                        if self.class != class {
                            return Err(
                                BindingError::WrongAddressSpace { binding: class, shader: self.class },
                            );
                        }
                        min_binding_size
                    },
                    _ => {
                        return Err(
                            BindingError::WrongType {
                                binding: BindingTypeName::of_binding(&entry.ty),
                                shader: BindingTypeName::of_resource(&self.ty),
                            },
                        )
                    },
                };
                match min_size {
                    Some(non_zero) => {
                        if non_zero < size {
                            return Err(
                                BindingError::WrongBufferSize {
                                    buffer_size: size,
                                    min_binding_size: non_zero,
                                },
                            );
                        }
                    },
                    None => {},
                }
            },
            ResourceType::Sampler { comparison } => match entry.ty {
                BindingType::Sampler(ty) => {
                    let is_comparison = match ty {
                        SamplerBindingType::Comparison => true,
                        _ => false,
                    };
                    if is_comparison != comparison {
                        return Err(BindingError::WrongSamplerComparison);
                    }
                },
                _ => {
                    return Err(
                        BindingError::WrongType {
                            binding: BindingTypeName::of_binding(&entry.ty),
                            shader: BindingTypeName::of_resource(&self.ty),
                        },
                    )
                },
            },
            ResourceType::Texture { dim, arrayed, class } => {
                let view_dimension = match entry.ty {
                    BindingType::Texture { view_dimension, .. } => view_dimension,
                    BindingType::StorageTexture { view_dimension, .. } => view_dimension,
                    BindingType::ExternalTexture => TextureViewDimension::D2,
                    _ => {
                        return Err(
                            BindingError::WrongTextureViewDimension {
                                dim,
                                is_array: false,
                                binding: entry.ty,
                            },
                        )
                    },
                };
                let fits = if arrayed {
                    match (dim, view_dimension) {
                        (ImageDimension::D2, TextureViewDimension::D2Array) => true,
                        (ImageDimension::Cube, TextureViewDimension::CubeArray) => true,
                        _ => false,
                    }
                } else {
                    match (dim, view_dimension) {
                        (ImageDimension::D1, TextureViewDimension::D1) => true,
                        (ImageDimension::D2, TextureViewDimension::D2) => true,
                        (ImageDimension::D3, TextureViewDimension::D3) => true,
                        (ImageDimension::Cube, TextureViewDimension::Cube) => true,
                        _ => false,
                    }
                };
                if !fits {
                    return Err(
                        BindingError::WrongTextureViewDimension {
                            dim,
                            is_array: arrayed,
                            binding: entry.ty,
                        },
                    );
                }
                let expected_class = match entry.ty {
                    BindingType::Texture { sample_type, view_dimension: _, multisampled: multi } => {
                        match sample_type {
                            TextureSampleType::Float { .. } => ImageClass::Sampled {
                                kind: ScalarKind::Float,
                                multi,
                            },
                            TextureSampleType::Sint => ImageClass::Sampled {
                                kind: ScalarKind::Sint,
                                multi,
                            },
                            TextureSampleType::Uint => ImageClass::Sampled {
                                kind: ScalarKind::Uint,
                                multi,
                            },
                            TextureSampleType::Depth => ImageClass::Depth { multi },
                        }
                    },
                    BindingType::StorageTexture { access, format, view_dimension: _ } => {
                        let shader_format = match map_storage_format_to_naga(format) {
                            Some(f) => f,
                            None => return Err(BindingError::BadStorageFormat(format)),
                        };
                        let shader_access = match access {
                            StorageTextureAccess::ReadOnly => StorageAccess {
                                load: true,
                                store: false,
                                atomic: false,
                            },
                            StorageTextureAccess::WriteOnly => StorageAccess {
                                load: false,
                                store: true,
                                atomic: false,
                            },
                            StorageTextureAccess::ReadWrite => StorageAccess {
                                load: true,
                                store: true,
                                atomic: false,
                            },
                            StorageTextureAccess::Atomic => StorageAccess {
                                load: true,
                                store: true,
                                atomic: true,
                            },
                        };
                        ImageClass::Storage { format: shader_format, access: shader_access }
                    },
                    _ => {
                        return Err(
                            BindingError::WrongType {
                                binding: BindingTypeName::of_binding(&entry.ty),
                                shader: BindingTypeName::of_resource(&self.ty),
                            },
                        )
                    },
                };
                if class != expected_class {
                    return Err(
                        BindingError::WrongTextureClass { binding: expected_class, shader: class },
                    );
                }
            },
            ResourceType::AccelerationStructure { vertex_return } => match entry.ty {
                BindingType::AccelerationStructure { vertex_return: entry_vertex_return } => {
                    if vertex_return != entry_vertex_return {
                        return Err(
                            BindingError::WrongType {
                                binding: BindingTypeName::of_binding(&entry.ty),
                                shader: BindingTypeName::of_resource(&self.ty),
                            },
                        );
                    }
                },
                _ => {
                    return Err(
                        BindingError::WrongType {
                            binding: BindingTypeName::of_binding(&entry.ty),
                            shader: BindingTypeName::of_resource(&self.ty),
                        },
                    )
                },
            },
        };
        Ok(())
    }

    /// Derives the binding descriptor that this resource implies.
    /// `is_reffed_by_sampler_in_entrypoint` marks a texture that the entry
    /// point samples through a filtering sampler, which then needs a
    /// filterable float sample type.
    pub fn derive_binding_type(&self, is_reffed_by_sampler_in_entrypoint: bool) -> (r: Result<
        BindingType,
        BindingError,
    >)
        requires
            self.derivable(),
        ensures
            r == derived_binding(self.ty, self.class, is_reffed_by_sampler_in_entrypoint),
    {
        match self.ty {
            ResourceType::Buffer { size } => {
                let ty = match self.class {
                    AddressSpace::Uniform => BufferBindingType::Uniform,
                    AddressSpace::Storage { access } => BufferBindingType::Storage {
                        read_only: access == StorageAccess { load: true, store: false, atomic: false },
                    },
                    _ => return Err(BindingError::WrongBufferAddressSpace { space: self.class }),
                };
                Ok(BindingType::Buffer { ty, has_dynamic_offset: false, min_binding_size: Some(size) })
            },
            ResourceType::Sampler { comparison } => Ok(
                BindingType::Sampler(
                    if comparison {
                        SamplerBindingType::Comparison
                    } else {
                        SamplerBindingType::Filtering
                    },
                ),
            ),
            ResourceType::Texture { dim, arrayed, class } => {
                let view_dimension = match dim {
                    ImageDimension::D1 => TextureViewDimension::D1,
                    ImageDimension::D2 => if arrayed {
                        TextureViewDimension::D2Array
                    } else {
                        TextureViewDimension::D2
                    },
                    ImageDimension::D3 => TextureViewDimension::D3,
                    ImageDimension::Cube => if arrayed {
                        TextureViewDimension::CubeArray
                    } else {
                        TextureViewDimension::Cube
                    },
                };
                match class {
                    ImageClass::Sampled { multi, kind } => Ok(
                        BindingType::Texture {
                            sample_type: match kind {
                                ScalarKind::Sint => TextureSampleType::Sint,
                                ScalarKind::Uint => TextureSampleType::Uint,
                                _ => TextureSampleType::Float {
                                    filterable: is_reffed_by_sampler_in_entrypoint,
                                },
                            },
                            view_dimension,
                            multisampled: multi,
                        },
                    ),
                    ImageClass::Depth { multi } => Ok(
                        BindingType::Texture {
                            sample_type: TextureSampleType::Depth,
                            view_dimension,
                            multisampled: multi,
                        },
                    ),
                    ImageClass::Storage { format, access } => {
                        let access = if access == (StorageAccess {
                            load: true,
                            store: false,
                            atomic: false,
                        }) {
                            StorageTextureAccess::ReadOnly
                        } else if access == (StorageAccess {
                            load: false,
                            store: true,
                            atomic: false,
                        }) {
                            StorageTextureAccess::WriteOnly
                        } else if access == (StorageAccess {
                            load: true,
                            store: true,
                            atomic: false,
                        }) {
                            StorageTextureAccess::ReadWrite
                        } else {
                            StorageTextureAccess::Atomic
                        };
                        let f = map_storage_format_from_naga(format);
                        match map_storage_format_to_naga(f) {
                            Some(_) => Ok(
                                BindingType::StorageTexture { access, view_dimension, format: f },
                            ),
                            None => Err(BindingError::BadStorageFormat(f)),
                        }
                    },
                }
            },
            ResourceType::AccelerationStructure { vertex_return } => Ok(
                BindingType::AccelerationStructure { vertex_return },
            ),
        }
    }
}

/// Deriving a binding never fails for a well-formed resource in a buffer
/// address space (uniform or storage) or of any other kind, and whatever is
/// derived passes the check of the same resource, for either filtering flag.
pub proof fn lemma_derived_binding_accepted(res: Resource, filtering: bool)
    requires
        res.wf(),
    ensures
        derived_binding(res.ty, res.class, filtering) matches Ok(entry) ==> binding_use(
            res.ty,
            res.class,
            entry,
        ) is Ok,
        (res.ty is Buffer ==> (res.class is Uniform || res.class is Storage)) ==> derived_binding(
            res.ty,
            res.class,
            filtering,
        ) is Ok,
{
    match res.ty {
        ResourceType::Texture { dim, arrayed, class } => {
            match class {
                ImageClass::Storage { format, access } => {
                    lemma_storage_format_representable(format);
                },
                _ => {},
            }
        },
        _ => {},
    }
}

} // verus!
