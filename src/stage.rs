//! The interface between pipeline stages: varyings, the map of values one
//! stage hands to the next, and the errors of stage validation.

use vstd::prelude::*;
use crate::binding::{BindingError, ResourceBinding, ShaderStages};
use crate::format::VertexFormat;
use crate::numeric::{NumericType, vertex_format_type};

verus! {

/// A programmable pipeline stage.
#[derive(Clone, Copy, Debug, PartialEq, Eq, Structural)]
pub enum ShaderStage {
    Vertex,
    Fragment,
    Compute,
}

/// The set that holds just `stage`.
pub open spec fn stage_set(stage: ShaderStage) -> ShaderStages {
    ShaderStages {
        vertex: stage == ShaderStage::Vertex,
        fragment: stage == ShaderStage::Fragment,
        compute: stage == ShaderStage::Compute,
    }
}

/// Whether `stages` includes `stage`.
pub open spec fn stages_contain(stages: ShaderStages, stage: ShaderStage) -> bool {
    match stage {
        ShaderStage::Vertex => stages.vertex,
        ShaderStage::Fragment => stages.fragment,
        ShaderStage::Compute => stages.compute,
    }
}

/// `stages` with `stage` added.
pub open spec fn stages_with(stages: ShaderStages, stage: ShaderStage) -> ShaderStages {
    ShaderStages {
        vertex: stages.vertex || stage == ShaderStage::Vertex,
        fragment: stages.fragment || stage == ShaderStage::Fragment,
        compute: stages.compute || stage == ShaderStage::Compute,
    }
}

impl ShaderStage {
    /// The stage set that holds just this stage.
    pub fn to_stages(&self) -> (r: ShaderStages)
        ensures
            r == stage_set(*self),
    {
        ShaderStages {
            vertex: *self == ShaderStage::Vertex,
            fragment: *self == ShaderStage::Fragment,
            compute: *self == ShaderStage::Compute,
        }
    }
}

impl ShaderStages {
    /// Whether the set includes `stage`.
    pub fn contains(&self, stage: ShaderStage) -> (r: bool)
        ensures
            r == stages_contain(*self, stage),
    {
        match stage {
            ShaderStage::Vertex => self.vertex,
            ShaderStage::Fragment => self.fragment,
            ShaderStage::Compute => self.compute,
        }
    }

    /// The set with `stage` added.
    pub fn with(&self, stage: ShaderStage) -> (r: ShaderStages)
        ensures
            r == stages_with(*self, stage),
    {
        ShaderStages {
            vertex: self.vertex || stage == ShaderStage::Vertex,
            fragment: self.fragment || stage == ShaderStage::Fragment,
            compute: self.compute || stage == ShaderStage::Compute,
        }
    }
}

/// How a varying is interpolated across a primitive.
#[derive(Clone, Copy, Debug, PartialEq, Eq, Structural)]
pub enum Interpolation {
    Perspective,
    Linear,
    Flat,
}

/// Where within a pixel a varying is sampled.
#[derive(Clone, Copy, Debug, PartialEq, Eq, Structural)]
pub enum Sampling {
    Center,
    Centroid,
    Sample,
    First,
    Either,
}

/// A built-in value passed between stages.
#[derive(Clone, Copy, Debug, PartialEq, Eq, Structural)]
pub enum BuiltIn {
    Position { invariant: bool },
    ViewIndex,
    BaseInstance,
    BaseVertex,
    ClipDistance,
    CullDistance,
    InstanceIndex,
    PointSize,
    VertexIndex,
    DrawId,
    FragDepth,
    PointCoord,
    FrontFacing,
    PrimitiveIndex,
    SampleIndex,
    SampleMask,
    GlobalInvocationId,
    LocalInvocationId,
    LocalInvocationIndex,
    WorkGroupId,
    WorkGroupSize,
    NumWorkGroups,
}

/// A depth comparison function of a pipeline.
#[derive(Clone, Copy, Debug, PartialEq, Eq, Structural)]
pub enum CompareFunction {
    Never,
    Less,
    Equal,
    LessEqual,
    Greater,
    NotEqual,
    GreaterEqual,
    Always,
}

/// A value at a numbered location of a stage's interface.
#[derive(Clone, Copy, Debug, PartialEq, Eq, Structural)]
pub struct InterfaceVar {
    pub ty: NumericType,
    pub interpolation: Option<Interpolation>,
    pub sampling: Option<Sampling>,
}

impl InterfaceVar {
    /// The interface value that a vertex buffer attribute of `format`
    /// provides.
    pub fn vertex_attribute(format: VertexFormat) -> (r: InterfaceVar)
        ensures
            r.ty == vertex_format_type(format),
            r.interpolation is None,
            r.sampling is None,
    {
        InterfaceVar {
            ty: NumericType::from_vertex_format(format),
            interpolation: None,
            sampling: None,
        }
    }
}

/// One input or output of an entry point.
#[derive(Clone, Copy, Debug, PartialEq, Eq, Structural)]
pub enum Varying {
    Local { location: u32, iv: InterfaceVar },
    BuiltIn(BuiltIn),
}

/// The value at `location` in a sequence of (location, value) pairs; where
/// a location occurs more than once, the last one counts.
pub open spec fn io_lookup(s: Seq<(u32, InterfaceVar)>, location: u32) -> Option<InterfaceVar>
    decreases s.len(),
{
    if s.len() == 0 {
        None
    } else if s.last().0 == location {
        Some(s.last().1)
    } else {
        io_lookup(s.drop_last(), location)
    }
}

/// The values that one stage hands to the next, by location.
#[derive(Clone, Debug)]
pub struct StageIo {
    pub entries: Vec<(u32, InterfaceVar)>,
}

impl View for StageIo {
    type V = Seq<(u32, InterfaceVar)>;

    open spec fn view(&self) -> Seq<(u32, InterfaceVar)> {
        self.entries@
    }
}

impl StageIo {
    /// An empty map, the inputs of a pipeline's first stage.
    pub fn new() -> (r: StageIo)
        ensures
            r@ == Seq::<(u32, InterfaceVar)>::empty(),
    {
        StageIo { entries: Vec::new() }
    }

    /// Sets the value at `location`.
    pub fn insert(&mut self, location: u32, var: InterfaceVar)
        ensures
            final(self)@ == old(self)@.push((location, var)),
            io_lookup(final(self)@, location) == Some(var),
            forall|l: u32| l != location ==> io_lookup(final(self)@, l) == io_lookup(old(self)@, l),
    {
        self.entries.push((location, var));
        proof {
            assert(final(self)@.drop_last() == old(self)@);
        }
    }

    /// The value at `location`, if any.
    pub fn get(&self, location: u32) -> (r: Option<InterfaceVar>)
        ensures
            r == io_lookup(self@, location),
    {
        let mut i = self.entries.len();
        assert(self@.subrange(0, i as int) == self@);
        while i > 0
            invariant
                i <= self.entries.len(),
                io_lookup(self@, location) == io_lookup(self@.subrange(0, i as int), location),
            decreases i,
        {
            let ghost prefix = self@.subrange(0, i as int);
            assert(prefix.drop_last() == self@.subrange(0, i - 1));
            if self.entries[i - 1].0 == location {
                return Some(self.entries[i - 1].1);
            }
            i = i - 1;
        }
        None
    }
}

/// Why an input of a stage is not met by the previous stage's outputs.
#[derive(Clone, Copy, Debug, PartialEq, Eq, Structural)]
pub enum InputError {
    Missing,
    WrongType(NumericType),
    InterpolationMismatch(Option<Interpolation>),
    SamplingMismatch(Option<Sampling>),
}

/// Why a texture cannot be sampled through a sampler.
#[derive(Clone, Copy, Debug, PartialEq, Eq, Structural)]
pub enum FilteringError {
    Integer,
    Float,
}

/// Errors of validating one programmable stage of a pipeline.
#[derive(Clone, Debug)]
pub enum StageError {
    InvalidWorkgroupSize { current: [u32; 3], current_total: u128, limit: [u32; 3], total: u32 },
    TooManyVaryings { used: u64, limit: u32 },
    MissingEntryPoint(String),
    Binding(ResourceBinding, BindingError),
    Filtering { texture: ResourceBinding, sampler: ResourceBinding, error: FilteringError },
    Input { location: u32, var: InterfaceVar, error: InputError },
    NoEntryPointFound,
    MultipleEntryPointsFound,
    InvalidResource(String),
}

} // verus!
