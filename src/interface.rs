//! A shader module's interface, and the validation of one pipeline stage
//! against a binding layout, the device limits and the previous stage.

use vstd::prelude::*;
use crate::binding::{
    BindGroupLayoutEntry, BindingError, BindingType, Resource, ResourceBinding, ResourceType,
    SamplerBindingType, TextureSampleType, binding_use, derived_binding,
};
use crate::layout::{
    BindingLayoutSource, BindingSizes, EntryMap, Limits, entry_index, groups_view,
    lemma_entry_index_bounds, lemma_entry_index_update, raised_size, size_lookup,
};
use crate::stage::{
    BuiltIn, CompareFunction, FilteringError, InputError, InterfaceVar, Interpolation, Sampling, ShaderStage, StageError, StageIo, Varying,
    io_lookup, stage_set, stages_contain, stages_with,
};

verus! {

/// What one entry point of a shader module uses and declares.
#[derive(Clone, Debug)]
pub struct EntryPoint {
    pub inputs: Vec<Varying>,
    pub outputs: Vec<Varying>,
    /// Indices into the interface's resource table of the resources used.
    pub resources: Vec<usize>,
    /// (texture, sampler) pairs of resource indices sampled together.
    pub sampling_pairs: Vec<(usize, usize)>,
    pub workgroup_size: [u32; 3],
    pub dual_source_blending: bool,
}

/// An entry point with the stage and name that identify it.
#[derive(Clone, Debug)]
pub struct NamedEntryPoint {
    pub stage: ShaderStage,
    pub name: String,
    pub ep: EntryPoint,
}

/// The interface of a shader module: its resources and its entry points.
#[derive(Clone, Debug)]
pub struct Interface {
    pub limits: Limits,
    pub resources: Vec<Resource>,
    pub entry_points: Vec<NamedEntryPoint>,
}

/// The index of the entry point for `stage` and `name`; where several
/// match, the last one counts.
pub open spec fn ep_index(s: Seq<NamedEntryPoint>, stage: ShaderStage, name: Seq<char>) -> Option<
    int,
>
    decreases s.len(),
{
    if s.len() == 0 {
        None
    } else if s.last().stage == stage && s.last().name@ == name {
        Some(s.len() - 1)
    } else {
        ep_index(s.drop_last(), stage, name)
    }
}

/// A found entry point is in range and has the key looked for.
pub proof fn lemma_ep_index_bounds(s: Seq<NamedEntryPoint>, stage: ShaderStage, name: Seq<char>)
    ensures
        ep_index(s, stage, name) matches Some(i) ==> 0 <= i < s.len() && s[i].stage == stage
            && s[i].name@ == name,
    decreases s.len(),
{
    if s.len() > 0 && !(s.last().stage == stage && s.last().name@ == name) {
        lemma_ep_index_bounds(s.drop_last(), stage, name);
    }
}

/// No entry point has a key that the lookup does not find.
pub proof fn lemma_ep_index_none(s: Seq<NamedEntryPoint>, stage: ShaderStage, name: Seq<char>)
    requires
        ep_index(s, stage, name) is None,
    ensures
        forall|i: int| 0 <= i < s.len() ==> !(s[i].stage == stage && s[i].name@ == name),
    decreases s.len(),
{
    if s.len() > 0 {
        lemma_ep_index_none(s.drop_last(), stage, name);
        assert forall|i: int| 0 <= i < s.len() - 1 implies s[i] == s.drop_last()[i] by {}
    }
}

/// Replacing an entry point by one with the same key moves no lookup.
pub proof fn lemma_ep_index_update(
    s: Seq<NamedEntryPoint>,
    i: int,
    e: NamedEntryPoint,
    stage: ShaderStage,
    name: Seq<char>,
)
    requires
        0 <= i < s.len(),
        e.stage == s[i].stage,
        e.name@ == s[i].name@,
    ensures
        ep_index(s.update(i, e), stage, name) == ep_index(s, stage, name),
    decreases s.len(),
{
    let t = s.update(i, e);
    if i < s.len() - 1 {
        assert(t.drop_last() == s.drop_last().update(i, e));
        lemma_ep_index_update(s.drop_last(), i, e, stage, name);
    } else {
        assert(t.drop_last() == s.drop_last());
    }
}

/// The number of entry points for `stage`.
pub open spec fn stage_count(s: Seq<NamedEntryPoint>, stage: ShaderStage) -> nat
    decreases s.len(),
{
    if s.len() == 0 {
        0
    } else {
        stage_count(s.drop_last(), stage) + if s.last().stage == stage {
            1nat
        } else {
            0nat
        }
    }
}

/// The index of the first failure in a sequence of outcomes, or its length
/// where there is none.
pub open spec fn fail_index<E>(s: Seq<Result<(), E>>) -> nat
    decreases s.len(),
{
    if s.len() == 0 {
        0
    } else if s[0] is Err {
        0
    } else {
        1 + fail_index(s.drop_first())
    }
}

/// The first failure in a sequence of outcomes, if any.
pub open spec fn first_failure<E>(s: Seq<Result<(), E>>) -> Result<(), E> {
    if fail_index(s) < s.len() {
        s[fail_index(s) as int]
    } else {
        Ok(())
    }
}

/// The first failure is at `i` when every outcome before `i` passed and
/// the one at `i`, if any, failed.
pub proof fn lemma_fail_index<E>(s: Seq<Result<(), E>>, i: int)
    requires
        0 <= i <= s.len(),
        forall|j: int| 0 <= j < i ==> s[j] is Ok,
        i < s.len() ==> s[i] is Err,
    ensures
        fail_index(s) == i,
    decreases i,
{
    if i > 0 {
        lemma_fail_index(s.drop_first(), i - 1);
    }
}

/// The layout entry at a binding coordinate, if any.
pub open spec fn layout_entry(groups: Seq<Seq<BindGroupLayoutEntry>>, bind: ResourceBinding) -> Option<
    BindGroupLayoutEntry,
> {
    if bind.group < groups.len() {
        match entry_index(groups[bind.group as int], bind.binding) {
            Some(i) => Some(groups[bind.group as int][i]),
            None => None,
        }
    } else {
        None
    }
}

/// Checks a resource against a layout supplied by the caller: the entry
/// must exist, be visible to the stage, and accept the resource.
pub open spec fn provided_check(
    groups: Seq<Seq<BindGroupLayoutEntry>>,
    res: Resource,
    stage: ShaderStage,
) -> Result<(), BindingError> {
    match layout_entry(groups, res.bind) {
        None => Err(BindingError::Missing),
        Some(e) => if !stages_contain(e.visibility, stage) {
            Err(BindingError::Invisible)
        } else {
            binding_use(res.ty, res.class, e.ty)
        },
    }
}

/// Adds a resource's derived descriptor to a derived layout: a new entry
/// visible to `stage`, or `stage` added to an identical entry.
pub open spec fn derive_step(
    groups: Seq<Seq<BindGroupLayoutEntry>>,
    res: Resource,
    filtering: bool,
    stage: ShaderStage,
) -> Result<Seq<Seq<BindGroupLayoutEntry>>, BindingError> {
    let g = res.bind.group as int;
    if res.bind.group >= groups.len() {
        Err(BindingError::Missing)
    } else {
        match derived_binding(res.ty, res.class, filtering) {
            Err(e) => Err(e),
            Ok(ty) => {
                let m = groups[g];
                match entry_index(m, res.bind.binding) {
                    Some(i) => if m[i].ty != ty {
                        Err(BindingError::InconsistentlyDerivedType)
                    } else {
                        Ok(
                            groups.update(
                                g,
                                m.update(
                                    i,
                                    BindGroupLayoutEntry {
                                        visibility: stages_with(m[i].visibility, stage),
                                        ..m[i]
                                    },
                                ),
                            ),
                        )
                    },
                    None => Ok(
                        groups.update(
                            g,
                            m.push(
                                BindGroupLayoutEntry {
                                    binding: res.bind.binding,
                                    visibility: stage_set(stage),
                                    ty,
                                    count: None,
                                },
                            ),
                        ),
                    ),
                }
            },
        }
    }
}

/// Deriving a resource into a layout either fails, or leaves at the
/// resource's binding an entry that holds the derived descriptor and is
/// visible to the stage. An entry already there with another descriptor
/// makes it fail: two stages never derive different descriptors for one
/// binding.
pub proof fn lemma_derive_step_records(
    groups: Seq<Seq<BindGroupLayoutEntry>>,
    res: Resource,
    filtering: bool,
    stage: ShaderStage,
)
    ensures
        derive_step(groups, res, filtering, stage) matches Ok(after) ==> {
            &&& derived_binding(res.ty, res.class, filtering) matches Ok(ty)
            &&& layout_entry(after, res.bind) matches Some(e)
            &&& e.ty == ty
            &&& stages_contain(e.visibility, stage)
        },
        (layout_entry(groups, res.bind) matches Some(e) && derived_binding(
            res.ty,
            res.class,
            filtering,
        ) matches Ok(ty) && e.ty != ty) ==> derive_step(groups, res, filtering, stage)
            == Err::<Seq<Seq<BindGroupLayoutEntry>>, BindingError>(
            BindingError::InconsistentlyDerivedType,
        ),
{
    let g = res.bind.group as int;
    if res.bind.group < groups.len() {
        let m = groups[g];
        lemma_entry_index_bounds(m, res.bind.binding);
        match derived_binding(res.ty, res.class, filtering) {
            Ok(ty) => match entry_index(m, res.bind.binding) {
                Some(i) => {
                    let e = BindGroupLayoutEntry {
                        visibility: stages_with(m[i].visibility, stage),
                        ..m[i]
                    };
                    lemma_entry_index_update(m, i, e, res.bind.binding);
                },
                None => {
                    let e = BindGroupLayoutEntry {
                        binding: res.bind.binding,
                        visibility: stage_set(stage),
                        ty,
                        count: None,
                    };
                    assert(m.push(e).drop_last() == m);
                },
            },
            Err(_) => {},
        }
    }
}

/// Derives the entries of a sequence of resources in turn, each with its
/// filtering flag; stops at the first failure, keeping what came before.
pub open spec fn derive_pass(
    groups: Seq<Seq<BindGroupLayoutEntry>>,
    items: Seq<(Resource, bool)>,
    stage: ShaderStage,
) -> (Seq<Seq<BindGroupLayoutEntry>>, Option<StageError>)
    decreases items.len(),
{
    if items.len() == 0 {
        (groups, None)
    } else {
        let prev = derive_pass(groups, items.drop_last(), stage);
        if prev.1 is Some {
            prev
        } else {
            match derive_step(prev.0, items.last().0, items.last().1, stage) {
                Ok(g) => (g, None),
                Err(e) => (prev.0, Some(StageError::Binding(items.last().0.bind, e))),
            }
        }
    }
}

/// The size records after recording each buffer of `rs` in turn.
pub open spec fn sizes_after(sizes: Seq<(ResourceBinding, u64)>, rs: Seq<Resource>) -> Seq<
    (ResourceBinding, u64),
>
    decreases rs.len(),
{
    if rs.len() == 0 {
        sizes
    } else {
        let prev = sizes_after(sizes, rs.drop_last());
        match rs.last().ty {
            ResourceType::Buffer { size } => prev.push(
                (rs.last().bind, raised_size(size_lookup(prev, rs.last().bind), size)),
            ),
            _ => prev,
        }
    }
}

/// The filtering error of sampling a texture bound at `tex` through a
/// sampler bound at `samp`, if any: a filtering sampler cannot sample an
/// integer or a non-filterable float texture.
pub open spec fn filtering_error(tex: Option<BindGroupLayoutEntry>, samp: Option<BindGroupLayoutEntry>) -> Option<
    FilteringError,
> {
    let sampler_filtering = samp matches Some(s) && s.ty == BindingType::Sampler(
        SamplerBindingType::Filtering,
    );
    let sample_type = match tex {
        Some(t) => match t.ty {
            BindingType::Texture { sample_type, .. } => Some(sample_type),
            BindingType::ExternalTexture => Some(TextureSampleType::Float { filterable: true }),
            _ => None,
        },
        None => None,
    };
    if !sampler_filtering {
        None
    } else {
        match sample_type {
            Some(TextureSampleType::Float { filterable: false }) => Some(FilteringError::Float),
            Some(TextureSampleType::Sint) => Some(FilteringError::Integer),
            Some(TextureSampleType::Uint) => Some(FilteringError::Integer),
            _ => None,
        }
    }
}

/// Whether a workgroup size has no zero dimension and fits the device's
/// per-axis and total limits.
pub open spec fn workgroup_fits(limits: Limits, size: [u32; 3]) -> bool {
    &&& size@[0] != 0 && size@[1] != 0 && size@[2] != 0
    &&& size@[0] <= limits.max_compute_workgroup_size_x
    &&& size@[1] <= limits.max_compute_workgroup_size_y
    &&& size@[2] <= limits.max_compute_workgroup_size_z
    &&& size@[0] * size@[1] * size@[2] <= limits.max_compute_invocations_per_workgroup
}

/// Checks one input of a stage against the previous stage's outputs.
pub open spec fn input_check(stage: ShaderStage, iv: InterfaceVar, provided: Option<InterfaceVar>) -> Result<
    (),
    InputError,
> {
    match provided {
        None => Err(InputError::Missing),
        Some(p) => match stage {
            ShaderStage::Vertex => if iv.ty.scalar.kind == p.ty.scalar.kind {
                Ok(())
            } else {
                Err(InputError::WrongType(p.ty))
            },
            ShaderStage::Fragment => if iv.interpolation != p.interpolation {
                Err(InputError::InterpolationMismatch(p.interpolation))
            } else if iv.sampling != p.sampling {
                Err(InputError::SamplingMismatch(p.sampling))
            } else if iv.ty.subtype(p.ty) {
                Ok(())
            } else {
                Err(InputError::WrongType(p.ty))
            },
            ShaderStage::Compute => Err(InputError::WrongType(p.ty)),
        },
    }
}

/// The outcome of one input varying; built-ins always pass.
pub open spec fn input_outcome(stage: ShaderStage, v: Varying, inputs: Seq<(u32, InterfaceVar)>) -> Result<
    (),
    StageError,
> {
    match v {
        Varying::Local { location, iv } => match input_check(stage, iv, io_lookup(inputs, location)) {
            Ok(_) => Ok(()),
            Err(e) => Err(StageError::Input { location, var: iv, error: e }),
        },
        Varying::BuiltIn(_) => Ok(()),
    }
}

/// The components that a matched input adds to the inter-stage budget:
/// only fragment inputs at a location count.
pub open spec fn input_components(stage: ShaderStage, vs: Seq<Varying>) -> nat
    decreases vs.len(),
{
    if vs.len() == 0 {
        0
    } else {
        input_components(stage, vs.drop_last()) + match vs.last() {
            Varying::Local { iv, .. } => if stage == ShaderStage::Fragment {
                iv.ty.dim.spec_num_components()
            } else {
                0
            },
            Varying::BuiltIn(_) => 0,
        }
    }
}

/// The components of the outputs at a location.
pub open spec fn output_components(vs: Seq<Varying>) -> nat
    decreases vs.len(),
{
    if vs.len() == 0 {
        0
    } else {
        output_components(vs.drop_last()) + match vs.last() {
            Varying::Local { iv, .. } => iv.ty.dim.spec_num_components(),
            Varying::BuiltIn(_) => 0,
        }
    }
}

/// The outputs at a location, in order, without the built-ins.
pub open spec fn local_outputs(vs: Seq<Varying>) -> Seq<(u32, InterfaceVar)>
    decreases vs.len(),
{
    if vs.len() == 0 {
        Seq::empty()
    } else {
        let prev = local_outputs(vs.drop_last());
        match vs.last() {
            Varying::Local { location, iv } => prev.push((location, iv)),
            Varying::BuiltIn(_) => prev,
        }
    }
}

/// `x`, or the largest `u64` where `x` is larger.
pub open spec fn saturate(x: nat) -> u64 {
    if x > u64::MAX {
        u64::MAX
    } else {
        x as u64
    }
}

/// Whether entry point `ep` is well formed for a table of `n` resources:
/// its resource indices and sampling pairs point into the table.
pub open spec fn ep_wf(ep: EntryPoint, n: nat) -> bool {
    &&& forall|k: int| 0 <= k < ep.resources@.len() ==> ep.resources@[k] < n
    &&& forall|k: int|
        0 <= k < ep.sampling_pairs@.len() ==> ep.sampling_pairs@[k].0 < n
            && ep.sampling_pairs@[k].1 < n
}

/// Whether some sampling pair of `pairs` samples the texture `h` through a
/// filtering sampler, that is a sampler that does not compare.
pub open spec fn is_filtered(resources: Seq<Resource>, pairs: Seq<(usize, usize)>, h: usize) -> bool {
    exists|j: int|
        0 <= j < pairs.len() && pairs[j].0 == h && pairs[j].1 < resources.len()
            && resources[pairs[j].1 as int].ty == ResourceType::Sampler { comparison: false }
}

impl Interface {
    /// Every entry point points into the resource table, and no two entry
    /// points share stage and name.
    pub open spec fn wf(&self) -> bool {
        &&& forall|e: int|
            0 <= e < self.entry_points@.len() ==> ep_wf(
                (#[trigger] self.entry_points@[e]).ep,
                self.resources@.len(),
            )
        &&& forall|a: int, b: int|
            0 <= a < b < self.entry_points@.len() ==> !((#[trigger] self.entry_points@[a]).stage
                == (#[trigger] self.entry_points@[b]).stage && self.entry_points@[a].name@
                == self.entry_points@[b].name@)
    }

    /// Whether a binding descriptor can be derived for every resource that
    /// `ep` uses.
    pub open spec fn ep_derivable(&self, ep: EntryPoint) -> bool {
        forall|k: int|
            0 <= k < ep.resources@.len() ==> (#[trigger] self.resources@[ep.resources@[k] as int]).derivable()
    }

    /// Whether a binding descriptor can be derived for every resource that
    /// the entry point for `stage` and `name`, if there is one, uses.
    pub open spec fn entry_derivable(&self, stage: ShaderStage, name: Seq<char>) -> bool {
        ep_index(self.entry_points@, stage, name) matches Some(i) ==> self.ep_derivable(
            self.entry_points@[i].ep,
        )
    }

    /// The resources that `ep` uses, in order.
    pub open spec fn touched(&self, ep: EntryPoint) -> Seq<Resource> {
        Seq::new(ep.resources@.len(), |k: int| self.resources@[ep.resources@[k] as int])
    }

    /// The outcome of checking each resource of `ep` against supplied
    /// layouts.
    pub open spec fn provided_outcomes(
        &self,
        ep: EntryPoint,
        groups: Seq<Seq<BindGroupLayoutEntry>>,
        stage: ShaderStage,
    ) -> Seq<Result<(), StageError>> {
        Seq::new(
            ep.resources@.len(),
            |k: int|
                match provided_check(groups, self.touched(ep)[k], stage) {
                    Ok(_) => Ok(()),
                    Err(e) => Err(StageError::Binding(self.touched(ep)[k].bind, e)),
                },
        )
    }

    /// The size records after checking `ep`'s resources against supplied
    /// layouts: every resource up to and including the first failure is
    /// recorded.
    pub open spec fn provided_sizes(
        &self,
        ep: EntryPoint,
        groups: Seq<Seq<BindGroupLayoutEntry>>,
        sizes: Seq<(ResourceBinding, u64)>,
        stage: ShaderStage,
    ) -> Seq<(ResourceBinding, u64)> {
        let f = fail_index(self.provided_outcomes(ep, groups, stage));
        let n = ep.resources@.len();
        sizes_after(
            sizes,
            self.touched(ep).take(
                if f < n {
                    f + 1int
                } else {
                    n as int
                },
            ),
        )
    }

    /// `ep`'s resources, each with whether it is sampled.
    pub open spec fn derive_items(&self, ep: EntryPoint) -> Seq<(Resource, bool)> {
        Seq::new(
            ep.resources@.len(),
            |k: int|
                (
                    self.touched(ep)[k],
                    is_filtered(self.resources@, ep.sampling_pairs@, ep.resources@[k]),
                ),
        )
    }

    /// The outcome of checking each sampling pair of `ep`.
    pub open spec fn sampling_outcomes(
        &self,
        ep: EntryPoint,
        groups: Seq<Seq<BindGroupLayoutEntry>>,
    ) -> Seq<Result<(), StageError>> {
        Seq::new(
            ep.sampling_pairs@.len(),
            |k: int|
                {
                    let tex = self.resources@[ep.sampling_pairs@[k].0 as int].bind;
                    let samp = self.resources@[ep.sampling_pairs@[k].1 as int].bind;
                    match filtering_error(layout_entry(groups, tex), layout_entry(groups, samp)) {
                        Some(error) => Err(StageError::Filtering { texture: tex, sampler: samp, error }),
                        None => Ok(()),
                    }
                },
        )
    }

    /// The outcome of checking each input of `ep`.
    pub open spec fn input_outcomes(
        &self,
        ep: EntryPoint,
        stage: ShaderStage,
        inputs: Seq<(u32, InterfaceVar)>,
    ) -> Seq<Result<(), StageError>> {
        Seq::new(ep.inputs@.len(), |k: int| input_outcome(stage, ep.inputs@[k], inputs))
    }

    /// The inter-stage components that `ep` uses at `stage`.
    pub open spec fn inter_stage_total(&self, ep: EntryPoint, stage: ShaderStage) -> nat {
        input_components(stage, ep.inputs@) + if stage == ShaderStage::Vertex {
            output_components(ep.outputs@)
        } else {
            0
        }
    }

    /// The outcome of the binding pass over `ep`'s resources.
    pub open spec fn binding_outcome(
        &self,
        ep: EntryPoint,
        provided: bool,
        groups: Seq<Seq<BindGroupLayoutEntry>>,
        stage: ShaderStage,
    ) -> Result<(), StageError> {
        if provided {
            first_failure(self.provided_outcomes(ep, groups, stage))
        } else {
            match derive_pass(groups, self.derive_items(ep), stage).1 {
                Some(e) => Err(e),
                None => Ok(()),
            }
        }
    }

    /// The result of validating entry point `ep` at `stage`: the binding
    /// pass, then (for supplied layouts) texture/sampler filtering, then
    /// (for compute) the workgroup size, then the inputs against the
    /// previous stage's outputs, then the inter-stage budget. On success,
    /// the outputs at a location.
    pub open spec fn stage_result(
        &self,
        ep: EntryPoint,
        provided: bool,
        groups: Seq<Seq<BindGroupLayoutEntry>>,
        stage: ShaderStage,
        inputs: Seq<(u32, InterfaceVar)>,
    ) -> Result<Seq<(u32, InterfaceVar)>, StageError> {
        let bind = self.binding_outcome(ep, provided, groups, stage);
        let sampling = first_failure(self.sampling_outcomes(ep, groups));
        let input = first_failure(self.input_outcomes(ep, stage, inputs));
        let total = self.inter_stage_total(ep, stage);
        if bind is Err {
            Err(bind->Err_0)
        } else if provided && sampling is Err {
            Err(sampling->Err_0)
        } else if stage == ShaderStage::Compute && !workgroup_fits(self.limits, ep.workgroup_size) {
            Err(
                StageError::InvalidWorkgroupSize {
                    current: ep.workgroup_size,
                    current_total: (ep.workgroup_size@[0] * ep.workgroup_size@[1]
                        * ep.workgroup_size@[2]) as u128,
                    limit: [
                        self.limits.max_compute_workgroup_size_x,
                        self.limits.max_compute_workgroup_size_y,
                        self.limits.max_compute_workgroup_size_z,
                    ],
                    total: self.limits.max_compute_invocations_per_workgroup,
                },
            )
        } else if input is Err {
            Err(input->Err_0)
        } else if total > self.limits.max_inter_stage_shader_components {
            Err(
                StageError::TooManyVaryings {
                    used: saturate(total),
                    limit: self.limits.max_inter_stage_shader_components,
                },
            )
        } else {
            Ok(local_outputs(ep.outputs@))
        }
    }
}

/// The position of the entry point for `stage` and `name` in `s`, if any.
pub fn find_named(s: &Vec<NamedEntryPoint>, stage: ShaderStage, name: &String) -> (r: Option<usize>)
    ensures
        r matches Some(i) ==> ep_index(s@, stage, name@) == Some(i as int),
        r is None ==> ep_index(s@, stage, name@) is None,
{
    let mut i = s.len();
    assert(s@.subrange(0, i as int) == s@);
    while i > 0
        invariant
            i <= s@.len(),
            ep_index(s@, stage, name@) == ep_index(s@.subrange(0, i as int), stage, name@),
        decreases i,
    {
        assert(s@.subrange(0, i as int).drop_last() == s@.subrange(0, i - 1));
        if s[i - 1].stage == stage && s[i - 1].name == *name {
            return Some(i - 1);
        }
        i = i - 1;
    }
    None
}

/// Whether some sampling pair samples the texture `h` through a sampler
/// that does not compare.
fn filtered_anywhere(resources: &Vec<Resource>, pairs: &Vec<(usize, usize)>, h: usize) -> (r: bool)
    ensures
        r == is_filtered(resources@, pairs@, h),
{
    let mut j: usize = 0;
    while j < pairs.len()
        invariant
            j <= pairs@.len(),
            forall|jj: int|
                0 <= jj < j ==> !(pairs@[jj].0 == h && pairs@[jj].1 < resources@.len()
                    && resources@[pairs@[jj].1 as int].ty == ResourceType::Sampler {
                    comparison: false,
                }),
        decreases pairs.len() - j,
    {
        let (t, s) = pairs[j];
        if t == h && s < resources.len() {
            match resources[s].ty {
                ResourceType::Sampler { comparison: false } => return true,
                _ => {},
            }
        }
        j = j + 1;
    }
    false
}

/// The layout entry at `bind`, if any.
fn lookup_entry(groups: &Vec<EntryMap>, bind: ResourceBinding) -> (r: Option<BindGroupLayoutEntry>)
    ensures
        r == layout_entry(groups_view(groups@), bind),
{
    let g = bind.group as usize;
    if g >= groups.len() {
        return None;
    }
    groups[g].get(bind.binding)
}

/// Checks one resource against supplied layouts.
fn check_provided_resource(groups: &Vec<EntryMap>, res: &Resource, stage: ShaderStage) -> (r: Result<
    (),
    BindingError,
>)
    ensures
        r == provided_check(groups_view(groups@), *res, stage),
{
    match lookup_entry(groups, res.bind) {
        None => Err(BindingError::Missing),
        Some(e) => if !e.visibility.contains(stage) {
            Err(BindingError::Invisible)
        } else {
            res.check_binding_use(&e)
        },
    }
}

/// Adds one resource's derived descriptor to derived layouts; on failure
/// the layouts are left as they were.
fn derive_entry(groups: &mut Vec<EntryMap>, res: &Resource, filtering: bool, stage: ShaderStage) -> (r:
    Result<(), BindingError>)
    requires
        res.derivable(),
    ensures
        (match derive_step(groups_view(old(groups)@), *res, filtering, stage) {
            Ok(g) => r is Ok && groups_view(final(groups)@) == g,
            Err(e) => r == Err::<(), BindingError>(e) && final(groups)@ == old(groups)@,
        }),
{
    let g = res.bind.group as usize;
    if g >= groups.len() {
        return Err(BindingError::Missing);
    }
    let ty = match res.derive_binding_type(filtering) {
        Ok(t) => t,
        Err(e) => return Err(e),
    };
    let ghost before = groups_view(groups@);
    let found = groups[g].index_of(res.bind.binding);
    proof {
        lemma_entry_index_bounds(groups@[g as int]@, res.bind.binding);
    }
    let mut m = groups.remove(g);
    match found {
        Some(i) => {
            let e = m.entries[i];
            if e.ty != ty {
                groups.insert(g, m);
                proof {
                    assert(groups@ =~= old(groups)@);
                }
                return Err(BindingError::InconsistentlyDerivedType);
            }
            m.entries.set(
                i,
                BindGroupLayoutEntry {
                    binding: e.binding,
                    visibility: e.visibility.with(stage),
                    ty: e.ty,
                    count: e.count,
                },
            );
        },
        None => {
            m.entries.push(
                BindGroupLayoutEntry {
                    binding: res.bind.binding,
                    visibility: stage.to_stages(),
                    ty,
                    count: None,
                },
            );
        },
    }
    let ghost new_map = m@;
    groups.insert(g, m);
    proof {
        assert(groups@ =~= old(groups)@.update(g as int, groups@[g as int]));
        assert(groups_view(groups@) =~= before.update(g as int, new_map));
    }
    Ok(())
}

/// Whether a varying's interpolation modes agree.
fn same_interpolation(a: Option<Interpolation>, b: Option<Interpolation>) -> (r: bool)
    ensures
        r == (a == b),
{
    match (a, b) {
        (None, None) => true,
        (Some(x), Some(y)) => x == y,
        _ => false,
    }
}

/// Whether a varying's sampling modes agree.
fn same_sampling(a: Option<Sampling>, b: Option<Sampling>) -> (r: bool)
    ensures
        r == (a == b),
{
    match (a, b) {
        (None, None) => true,
        (Some(x), Some(y)) => x == y,
        _ => false,
    }
}

/// Checks one input of a stage against what the previous stage provides.
fn check_input_var(stage: ShaderStage, iv: &InterfaceVar, provided: Option<InterfaceVar>) -> (r: Result<
    (),
    InputError,
>)
    ensures
        r == input_check(stage, *iv, provided),
{
    match provided {
        None => Err(InputError::Missing),
        Some(p) => match stage {
            ShaderStage::Vertex => if iv.ty.scalar.kind == p.ty.scalar.kind {
                Ok(())
            } else {
                Err(InputError::WrongType(p.ty))
            },
            ShaderStage::Fragment => if !same_interpolation(iv.interpolation, p.interpolation) {
                Err(InputError::InterpolationMismatch(p.interpolation))
            } else if !same_sampling(iv.sampling, p.sampling) {
                Err(InputError::SamplingMismatch(p.sampling))
            } else if iv.ty.is_subtype_of(&p.ty) {
                Ok(())
            } else {
                Err(InputError::WrongType(p.ty))
            },
            ShaderStage::Compute => Err(InputError::WrongType(p.ty)),
        },
    }
}

/// The filtering error of a texture and sampler entry, if any.
fn check_filtering(tex: Option<BindGroupLayoutEntry>, samp: Option<BindGroupLayoutEntry>) -> (r: Option<
    FilteringError,
>)
    ensures
        r == filtering_error(tex, samp),
{
    let sampler_filtering = match samp {
        Some(s) => match s.ty {
            BindingType::Sampler(SamplerBindingType::Filtering) => true,
            _ => false,
        },
        None => false,
    };
    let sample_type = match tex {
        Some(t) => match t.ty {
            BindingType::Texture { sample_type, .. } => Some(sample_type),
            BindingType::ExternalTexture => Some(TextureSampleType::Float { filterable: true }),
            _ => None,
        },
        None => None,
    };
    if !sampler_filtering {
        return None;
    }
    match sample_type {
        Some(TextureSampleType::Float { filterable: false }) => Some(FilteringError::Float),
        Some(TextureSampleType::Sint) => Some(FilteringError::Integer),
        Some(TextureSampleType::Uint) => Some(FilteringError::Integer),
        _ => None,
    }
}

/// Once a derivation has failed, later resources change nothing.
proof fn lemma_derive_pass_stops(
    groups: Seq<Seq<BindGroupLayoutEntry>>,
    items: Seq<(Resource, bool)>,
    k: int,
    m: int,
    stage: ShaderStage,
)
    requires
        0 <= k <= m <= items.len(),
        derive_pass(groups, items.take(k), stage).1 is Some,
    ensures
        derive_pass(groups, items.take(m), stage) == derive_pass(groups, items.take(k), stage),
    decreases m - k,
{
    if m > k {
        lemma_derive_pass_stops(groups, items, k, m - 1, stage);
        assert(items.take(m).drop_last() == items.take(m - 1));
    }
}

impl Interface {
    /// The position of the entry point for `stage` and `name`, if any.
    pub fn find_entry_point(&self, stage: ShaderStage, name: &String) -> (r: Option<usize>)
        ensures
            r matches Some(i) ==> ep_index(self.entry_points@, stage, name@) == Some(i as int),
            r is None ==> ep_index(self.entry_points@, stage, name@) is None,
    {
        find_named(&self.entry_points, stage, name)
    }

    /// The name of the entry point to use for `stage`: the one given, or
    /// else the only entry point of the module for that stage.
    pub fn finalize_entry_point_name(&self, stage: ShaderStage, entry_point_name: Option<&str>) -> (r:
        Result<String, StageError>)
        ensures
            entry_point_name matches Some(n) ==> r matches Ok(s) && s@ == n@,
            entry_point_name is None ==> {
                let count = stage_count(self.entry_points@, stage);
                &&& (count == 0 <==> r is Err && r->Err_0 is NoEntryPointFound)
                &&& (count >= 2 <==> r is Err && r->Err_0 is MultipleEntryPointsFound)
                &&& (count == 1 <==> r is Ok)
                &&& (r is Ok ==> exists|i: int|
                    0 <= i < self.entry_points@.len() && self.entry_points@[i].stage == stage
                        && self.entry_points@[i].name@ == r->Ok_0@)
            },
    {
        match entry_point_name {
            Some(n) => return Ok(n.to_string()),
            None => {},
        }
        let ghost s = self.entry_points@;
        let mut count: usize = 0;
        let mut first: usize = 0;
        let mut i: usize = 0;
        while i < self.entry_points.len()
            invariant
                i <= s.len(),
                s == self.entry_points@,
                count == stage_count(s.take(i as int), stage),
                count <= i,
                count > 0 ==> first < i && s[first as int].stage == stage,
            decreases s.len() - i,
        {
            assert(s.take(i + 1).drop_last() == s.take(i as int));
            if self.entry_points[i].stage == stage {
                if count == 0 {
                    first = i;
                }
                count = count + 1;
            }
            i = i + 1;
        }
        assert(s.take(s.len() as int) == s);
        if count == 0 {
            Err(StageError::NoEntryPointFound)
        } else if count >= 2 {
            Err(StageError::MultipleEntryPointsFound)
        } else {
            Ok(self.entry_points[first].name.clone())
        }
    }

    /// Whether the fragment entry point `entry_point_name` writes a second
    /// blend source.
    pub fn fragment_uses_dual_source_blending(&self, entry_point_name: &str) -> (r: Result<
        bool,
        StageError,
    >)
        ensures
            (match ep_index(self.entry_points@, ShaderStage::Fragment, entry_point_name@) {
                Some(i) => r == Ok::<bool, StageError>(self.entry_points@[i].ep.dual_source_blending),
                None => r matches Err(StageError::MissingEntryPoint(n)) && n@ == entry_point_name@,
            }),
    {
        let name = entry_point_name.to_string();
        proof {
            lemma_ep_index_bounds(self.entry_points@, ShaderStage::Fragment, entry_point_name@);
        }
        match self.find_entry_point(ShaderStage::Fragment, &name) {
            Some(i) => Ok(self.entry_points[i].ep.dual_source_blending),
            None => Err(StageError::MissingEntryPoint(name)),
        }
    }

    /// Whether a binding descriptor can be derived for every resource that
    /// the entry point for `stage` and `entry_point_name` uses; validating
    /// that entry point against derived layouts asks for it.
    pub fn entry_point_derivable(&self, stage: ShaderStage, entry_point_name: &str) -> (r: bool)
        requires
            self.wf(),
        ensures
            r == self.entry_derivable(stage, entry_point_name@),
    {
        let name = entry_point_name.to_string();
        proof {
            lemma_ep_index_bounds(self.entry_points@, stage, entry_point_name@);
        }
        let idx = match self.find_entry_point(stage, &name) {
            Some(i) => i,
            None => return true,
        };
        let ep = &self.entry_points[idx].ep;
        assert(ep_wf(self.entry_points@[idx as int].ep, self.resources@.len()));
        let mut k: usize = 0;
        while k < ep.resources.len()
            invariant
                k <= ep.resources@.len(),
                ep_wf(*ep, self.resources@.len()),
                *ep == self.entry_points@[idx as int].ep,
                ep_index(self.entry_points@, stage, entry_point_name@) == Some(idx as int),
                forall|j: int|
                    0 <= j < k ==> (#[trigger] self.resources@[ep.resources@[j] as int]).derivable(),
            decreases ep.resources@.len() - k,
        {
            if !self.resources[ep.resources[k]].is_derivable() {
                return false;
            }
            k = k + 1;
        }
        true
    }

    /// Checks `ep`'s resources against supplied layouts, recording the
    /// buffer sizes they need.
    fn check_provided_resources(
        &self,
        ep: &EntryPoint,
        groups: &Vec<EntryMap>,
        sizes: &mut BindingSizes,
        stage: ShaderStage,
    ) -> (r: Result<(), StageError>)
        requires
            ep_wf(*ep, self.resources@.len()),
        ensures
            r == first_failure(self.provided_outcomes(*ep, groups_view(groups@), stage)),
            final(sizes)@ == self.provided_sizes(*ep, groups_view(groups@), old(sizes)@, stage),
    {
        let ghost outcomes = self.provided_outcomes(*ep, groups_view(groups@), stage);
        let ghost touched = self.touched(*ep);
        let ghost n = ep.resources@.len();
        let mut k: usize = 0;
        while k < ep.resources.len()
            invariant
                k <= n,
                n == ep.resources@.len(),
                ep_wf(*ep, self.resources@.len()),
                outcomes == self.provided_outcomes(*ep, groups_view(groups@), stage),
                touched == self.touched(*ep),
                forall|j: int| 0 <= j < k ==> outcomes[j] is Ok,
                sizes@ == sizes_after(old(sizes)@, touched.take(k as int)),
            decreases n - k,
        {
            let h = ep.resources[k];
            let res = &self.resources[h];
            assert(touched.take(k + 1).drop_last() == touched.take(k as int));
            match res.ty {
                ResourceType::Buffer { size } => sizes.record(res.bind, size),
                _ => {},
            }
            match check_provided_resource(groups, res, stage) {
                Err(e) => {
                    proof {
                        lemma_fail_index(outcomes, k as int);
                    }
                    return Err(StageError::Binding(res.bind, e));
                },
                Ok(()) => {},
            }
            k = k + 1;
        }
        proof {
            lemma_fail_index(outcomes, n as int);
            assert(touched.take(n as int) == touched);
        }
        Ok(())
    }

    /// Derives the entries of `ep`'s resources into derived layouts.
    fn derive_resources(&self, ep: &EntryPoint, groups: &mut Vec<EntryMap>, stage: ShaderStage) -> (r:
        Result<(), StageError>)
        requires
            self.ep_derivable(*ep),
            ep_wf(*ep, self.resources@.len()),
        ensures
            ({
                let p = derive_pass(groups_view(old(groups)@), self.derive_items(*ep), stage);
                &&& groups_view(final(groups)@) == p.0
                &&& r == (match p.1 {
                    Some(e) => Err(e),
                    None => Ok(()),
                })
            }),
    {
        let ghost items = self.derive_items(*ep);
        let ghost start = groups_view(groups@);
        let ghost n = ep.resources@.len();
        let mut k: usize = 0;
        assert(items.take(0) == Seq::<(Resource, bool)>::empty());
        while k < ep.resources.len()
            invariant
                k <= n,
                n == ep.resources@.len(),
                self.ep_derivable(*ep),
                ep_wf(*ep, self.resources@.len()),
                items == self.derive_items(*ep),
                start == groups_view(old(groups)@),
                derive_pass(start, items.take(k as int), stage) == (
                    groups_view(groups@),
                    None::<StageError>,
                ),
            decreases n - k,
        {
            let h = ep.resources[k];
            let res = &self.resources[h];
            let filtering = filtered_anywhere(&self.resources, &ep.sampling_pairs, h);
            assert(items.take(k + 1).drop_last() == items.take(k as int));
            assert(self.resources@[ep.resources@[k as int] as int].derivable());
            match derive_entry(groups, res, filtering, stage) {
                Err(e) => {
                    proof {
                        lemma_derive_pass_stops(start, items, k + 1, n as int, stage);
                        assert(items.take(n as int) == items);
                    }
                    return Err(StageError::Binding(res.bind, e));
                },
                Ok(()) => {},
            }
            k = k + 1;
        }
        assert(items.take(n as int) == items);
        Ok(())
    }

    /// Checks that no sampling pair of `ep` filters a texture that cannot
    /// be filtered.
    fn check_sampling(&self, ep: &EntryPoint, groups: &Vec<EntryMap>) -> (r: Result<(), StageError>)
        requires
            ep_wf(*ep, self.resources@.len()),
        ensures
            r == first_failure(self.sampling_outcomes(*ep, groups_view(groups@))),
    {
        let ghost outcomes = self.sampling_outcomes(*ep, groups_view(groups@));
        let mut k: usize = 0;
        while k < ep.sampling_pairs.len()
            invariant
                k <= ep.sampling_pairs@.len(),
                ep_wf(*ep, self.resources@.len()),
                outcomes == self.sampling_outcomes(*ep, groups_view(groups@)),
                forall|j: int| 0 <= j < k ==> outcomes[j] is Ok,
            decreases ep.sampling_pairs@.len() - k,
        {
            let (t, s) = ep.sampling_pairs[k];
            let texture = self.resources[t].bind;
            let sampler = self.resources[s].bind;
            match check_filtering(lookup_entry(groups, texture), lookup_entry(groups, sampler)) {
                Some(error) => {
                    proof {
                        lemma_fail_index(outcomes, k as int);
                    }
                    return Err(StageError::Filtering { texture, sampler, error });
                },
                None => {},
            }
            k = k + 1;
        }
        proof {
            lemma_fail_index(outcomes, outcomes.len() as int);
        }
        Ok(())
    }

    /// Checks `ep`'s inputs against the previous stage's outputs.
    fn check_inputs(&self, ep: &EntryPoint, stage: ShaderStage, inputs: &StageIo) -> (r: Result<
        (),
        StageError,
    >)
        ensures
            r == first_failure(self.input_outcomes(*ep, stage, inputs@)),
    {
        let ghost outcomes = self.input_outcomes(*ep, stage, inputs@);
        let mut k: usize = 0;
        while k < ep.inputs.len()
            invariant
                k <= ep.inputs@.len(),
                outcomes == self.input_outcomes(*ep, stage, inputs@),
                forall|j: int| 0 <= j < k ==> outcomes[j] is Ok,
            decreases ep.inputs@.len() - k,
        {
            match ep.inputs[k] {
                Varying::Local { location, iv } => {
                    match check_input_var(stage, &iv, inputs.get(location)) {
                        Err(error) => {
                            proof {
                                lemma_fail_index(outcomes, k as int);
                            }
                            return Err(StageError::Input { location, var: iv, error });
                        },
                        Ok(()) => {},
                    }
                },
                Varying::BuiltIn(_) => {},
            }
            k = k + 1;
        }
        proof {
            lemma_fail_index(outcomes, outcomes.len() as int);
        }
        Ok(())
    }

    /// The inter-stage components `ep` uses at `stage`, saturated to `u64`.
    fn count_components(&self, ep: &EntryPoint, stage: ShaderStage) -> (r: u64)
        ensures
            r == saturate(self.inter_stage_total(*ep, stage)),
    {
        let ghost ins = ep.inputs@;
        let ghost outs = ep.outputs@;
        let mut total: u64 = 0;
        let mut k: usize = 0;
        assert(ins.take(0) == Seq::<Varying>::empty());
        while k < ep.inputs.len()
            invariant
                k <= ins.len(),
                ins == ep.inputs@,
                total == saturate(input_components(stage, ins.take(k as int))),
            decreases ins.len() - k,
        {
            assert(ins.take(k + 1).drop_last() == ins.take(k as int));
            let c: u32 = match ep.inputs[k] {
                Varying::Local { iv, .. } => if stage == ShaderStage::Fragment {
                    iv.ty.dim.num_components()
                } else {
                    0
                },
                Varying::BuiltIn(_) => 0,
            };
            total = if c as u64 > u64::MAX - total {
                u64::MAX
            } else {
                total + c as u64
            };
            k = k + 1;
        }
        assert(ins.take(ins.len() as int) == ins);
        if stage == ShaderStage::Vertex {
            let mut k: usize = 0;
            assert(outs.take(0) == Seq::<Varying>::empty());
            while k < ep.outputs.len()
                invariant
                    k <= outs.len(),
                    outs == ep.outputs@,
                    total == saturate(input_components(stage, ins) + output_components(outs.take(k as int))),
                decreases outs.len() - k,
            {
                assert(outs.take(k + 1).drop_last() == outs.take(k as int));
                let c: u32 = match ep.outputs[k] {
                    Varying::Local { iv, .. } => iv.ty.dim.num_components(),
                    Varying::BuiltIn(_) => 0,
                };
                total = if c as u64 > u64::MAX - total {
                    u64::MAX
                } else {
                    total + c as u64
                };
                k = k + 1;
            }
            assert(outs.take(outs.len() as int) == outs);
        }
        total
    }

    /// The outputs of `ep` at a location, for the next stage.
    fn collect_outputs(&self, ep: &EntryPoint) -> (r: StageIo)
        ensures
            r@ == local_outputs(ep.outputs@),
    {
        let ghost outs = ep.outputs@;
        let mut io = StageIo::new();
        let mut k: usize = 0;
        assert(outs.take(0) == Seq::<Varying>::empty());
        while k < ep.outputs.len()
            invariant
                k <= outs.len(),
                outs == ep.outputs@,
                io@ == local_outputs(outs.take(k as int)),
            decreases outs.len() - k,
        {
            assert(outs.take(k + 1).drop_last() == outs.take(k as int));
            match ep.outputs[k] {
                Varying::Local { location, iv } => io.insert(location, iv),
                Varying::BuiltIn(_) => {},
            }
            k = k + 1;
        }
        assert(outs.take(outs.len() as int) == outs);
        io
    }

    /// Whether `ep`'s workgroup size fits the device limits, and the total
    /// number of invocations it asks for.
    fn workgroup_size_check(&self, ep: &EntryPoint) -> (r: (bool, u128))
        ensures
            r.0 == workgroup_fits(self.limits, ep.workgroup_size),
            r.1 == ep.workgroup_size@[0] * ep.workgroup_size@[1] * ep.workgroup_size@[2],
    {
        let x = ep.workgroup_size[0] as u128;
        let y = ep.workgroup_size[1] as u128;
        let z = ep.workgroup_size[2] as u128;
        assert(x * y <= 0xFFFF_FFFFu128 * 0xFFFF_FFFFu128) by (nonlinear_arith)
            requires
                x <= 0xFFFF_FFFF,
                y <= 0xFFFF_FFFF,
        ;
        let xy = x * y;
        assert(xy * z <= 0xFFFF_FFFFu128 * 0xFFFF_FFFFu128 * 0xFFFF_FFFFu128) by (nonlinear_arith)
            requires
                xy <= 0xFFFF_FFFFu128 * 0xFFFF_FFFFu128,
                z <= 0xFFFF_FFFF,
        ;
        let total = xy * z;
        let fits = x != 0 && y != 0 && z != 0 && x <= self.limits.max_compute_workgroup_size_x as u128
            && y <= self.limits.max_compute_workgroup_size_y as u128 && z
            <= self.limits.max_compute_workgroup_size_z as u128 && total
            <= self.limits.max_compute_invocations_per_workgroup as u128;
        (fits, total)
    }

    /// Validates the entry point `entry_point_name` of `stage` against the
    /// binding layouts, the device limits and the outputs of the previous
    /// stage, and returns its own outputs for the next stage. Derived
    /// layouts gain the entries the stage needs; with supplied layouts, the
    /// buffer sizes the stage needs are recorded.
    pub fn check_stage(
        &self,
        layouts: &mut BindingLayoutSource,
        shader_binding_sizes: &mut BindingSizes,
        entry_point_name: &str,
        stage: ShaderStage,
        inputs: StageIo,
    ) -> (r: Result<StageIo, StageError>)
        requires
            self.wf(),
            !old(layouts).is_provided() ==> self.entry_derivable(stage, entry_point_name@),
        ensures
            (match ep_index(self.entry_points@, stage, entry_point_name@) {
                None => {
                    &&& r matches Err(StageError::MissingEntryPoint(n)) && n@ == entry_point_name@
                    &&& final(layouts).is_provided() == old(layouts).is_provided()
                    &&& final(layouts).groups() == old(layouts).groups()
                    &&& final(shader_binding_sizes)@ == old(shader_binding_sizes)@
                },
                Some(i) => {
                    let ep = self.entry_points@[i].ep;
                    let provided = old(layouts).is_provided();
                    let groups = old(layouts).groups();
                    let expected = self.stage_result(ep, provided, groups, stage, inputs@);
                    &&& (match r {
                        Ok(io) => expected == Ok::<Seq<(u32, InterfaceVar)>, StageError>(io@),
                        Err(e) => expected == Err::<Seq<(u32, InterfaceVar)>, StageError>(e),
                    })
                    &&& final(layouts).is_provided() == provided
                    &&& final(layouts).groups() == if provided {
                        groups
                    } else {
                        derive_pass(groups, self.derive_items(ep), stage).0
                    }
                    &&& final(shader_binding_sizes)@ == if provided {
                        self.provided_sizes(ep, groups, old(shader_binding_sizes)@, stage)
                    } else {
                        old(shader_binding_sizes)@
                    }
                },
            }),
    {
        let name = entry_point_name.to_string();
        proof {
            lemma_ep_index_bounds(self.entry_points@, stage, entry_point_name@);
        }
        let idx = match self.find_entry_point(stage, &name) {
            Some(i) => i,
            None => return Err(StageError::MissingEntryPoint(name)),
        };
        let ep = &self.entry_points[idx].ep;
        assert(ep_wf(self.entry_points@[idx as int].ep, self.resources@.len()));
        let bound = match layouts {
            BindingLayoutSource::Provided(groups) => self.check_provided_resources(
                ep,
                groups,
                shader_binding_sizes,
                stage,
            ),
            BindingLayoutSource::Derived(groups) => self.derive_resources(ep, groups, stage),
        };
        match bound {
            Err(e) => return Err(e),
            Ok(()) => {},
        }
        let sampled = match layouts {
            BindingLayoutSource::Provided(groups) => self.check_sampling(ep, groups),
            BindingLayoutSource::Derived(_) => Ok(()),
        };
        match sampled {
            Err(e) => return Err(e),
            Ok(()) => {},
        }
        if stage == ShaderStage::Compute {
            let (fits, current_total) = self.workgroup_size_check(ep);
            if !fits {
                return Err(
                    StageError::InvalidWorkgroupSize {
                        current: ep.workgroup_size,
                        current_total,
                        limit: [
                            self.limits.max_compute_workgroup_size_x,
                            self.limits.max_compute_workgroup_size_y,
                            self.limits.max_compute_workgroup_size_z,
                        ],
                        total: self.limits.max_compute_invocations_per_workgroup,
                    },
                );
            }
        }
        match self.check_inputs(ep, stage, &inputs) {
            Err(e) => return Err(e),
            Ok(()) => {},
        }
        let used = self.count_components(ep, stage);
        let limit = self.limits.max_inter_stage_shader_components;
        if used > limit as u64 {
            return Err(StageError::TooManyVaryings { used, limit });
        }
        Ok(self.collect_outputs(ep))
    }
}

/// Whether `vs` holds the position built-in without its invariant
/// qualifier.
pub open spec fn has_variant_position(vs: Seq<Varying>) -> bool {
    exists|k: int|
        0 <= k < vs.len() && vs[k] == Varying::BuiltIn(BuiltIn::Position { invariant: false })
}

impl Interface {
    /// Whether validating the vertex entry point `entry_point_name` in a
    /// pipeline that compares depth with `compare_function` deserves a
    /// warning: an `Equal` or `NotEqual` comparison needs the vertex
    /// position to be computed the same way in every pass, which only the
    /// invariant qualifier guarantees.
    pub fn warns_variant_position(
        &self,
        entry_point_name: &str,
        compare_function: Option<CompareFunction>,
    ) -> (r: bool)
        ensures
            r == ({
                &&& (compare_function == Some(CompareFunction::Equal) || compare_function == Some(
                    CompareFunction::NotEqual,
                ))
                &&& ep_index(self.entry_points@, ShaderStage::Vertex, entry_point_name@) matches Some(
                    i,
                )
                &&& has_variant_position(self.entry_points@[i].ep.outputs@)
            }),
    {
        let exact = match compare_function {
            Some(CompareFunction::Equal) => true,
            Some(CompareFunction::NotEqual) => true,
            _ => false,
        };
        if !exact {
            return false;
        }
        let name = entry_point_name.to_string();
        proof {
            lemma_ep_index_bounds(self.entry_points@, ShaderStage::Vertex, entry_point_name@);
        }
        let idx = match self.find_entry_point(ShaderStage::Vertex, &name) {
            Some(i) => i,
            None => return false,
        };
        let outputs = &self.entry_points[idx].ep.outputs;
        let mut k: usize = 0;
        while k < outputs.len()
            invariant
                k <= outputs@.len(),
                outputs@ == self.entry_points@[idx as int].ep.outputs@,
                ep_index(self.entry_points@, ShaderStage::Vertex, entry_point_name@) == Some(idx as int),
                compare_function == Some(CompareFunction::Equal) || compare_function == Some(
                    CompareFunction::NotEqual,
                ),
                forall|j: int|
                    0 <= j < k ==> outputs@[j] != Varying::BuiltIn(BuiltIn::Position { invariant: false }),
            decreases outputs@.len() - k,
        {
            match outputs[k] {
                Varying::BuiltIn(BuiltIn::Position { invariant: false }) => {
                    assert(self.entry_points@[idx as int].ep.outputs@[k as int] == Varying::BuiltIn(
                        BuiltIn::Position { invariant: false },
                    ));
                    assert(has_variant_position(self.entry_points@[idx as int].ep.outputs@));
                    return true;
                },
                _ => {},
            }
            k = k + 1;
        }
        false
    }
}

} // verus!
