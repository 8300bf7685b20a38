//! The typed shader module that the front end produces, and the extraction
//! of its interface: the resource table and one record per entry point.

use vstd::prelude::*;
use crate::binding::{
    AddressSpace, ImageClass, ImageDimension, Resource, ResourceBinding, ResourceType,
};
use crate::interface::{
    EntryPoint, Interface, NamedEntryPoint, ep_index, ep_wf, find_named, lemma_ep_index_bounds,
    lemma_ep_index_none, lemma_ep_index_update,
};
use crate::layout::Limits;
use crate::numeric::{NumericDimension, NumericType, Scalar, VectorSize};
use crate::stage::{BuiltIn, Interpolation, InterfaceVar, Sampling, ShaderStage, Varying};

verus! {

/// How a function argument, result or struct member is bound.
#[derive(Clone, Copy, Debug, PartialEq, Eq, Structural)]
pub enum Binding {
    BuiltIn(BuiltIn),
    Location {
        location: u32,
        interpolation: Option<Interpolation>,
        sampling: Option<Sampling>,
        blend_src: Option<u32>,
    },
}

/// A member of a struct type.
#[derive(Clone, Copy, Debug, PartialEq, Eq, Structural)]
pub struct StructMember {
    /// Index of the member's type in the module's type table.
    pub ty: usize,
    pub binding: Option<Binding>,
    pub offset: u32,
}

/// A type of the module. Types refer to others by index in the type table.
#[derive(Clone, Debug)]
pub enum TypeInner {
    Scalar(Scalar),
    Vector { size: VectorSize, scalar: Scalar },
    Matrix { columns: VectorSize, rows: VectorSize, scalar: Scalar },
    Atomic(Scalar),
    Pointer { base: usize, space: AddressSpace },
    Array { base: usize, size: Option<u32>, stride: u32 },
    Struct { members: Vec<StructMember>, span: u32 },
    Image { dim: ImageDimension, arrayed: bool, class: ImageClass },
    Sampler { comparison: bool },
    AccelerationStructure { vertex_return: bool },
    BindingArray { base: usize, size: Option<u32> },
}

/// A global variable of the module.
#[derive(Clone, Debug)]
pub struct GlobalVariable {
    pub name: Option<String>,
    pub space: AddressSpace,
    pub binding: Option<ResourceBinding>,
    pub ty: usize,
}

/// An argument of an entry point's function.
#[derive(Clone, Copy, Debug)]
pub struct FunctionArgument {
    pub ty: usize,
    pub binding: Option<Binding>,
}

/// The result of an entry point's function.
#[derive(Clone, Copy, Debug)]
pub struct FunctionResult {
    pub ty: usize,
    pub binding: Option<Binding>,
}

/// An entry point as the module declares it.
#[derive(Clone, Debug)]
pub struct EntryPointDecl {
    pub name: String,
    pub stage: ShaderStage,
    pub workgroup_size: [u32; 3],
    pub arguments: Vec<FunctionArgument>,
    pub result: Option<FunctionResult>,
}

/// A typed shader module.
#[derive(Clone, Debug)]
pub struct Module {
    pub types: Vec<TypeInner>,
    pub global_variables: Vec<GlobalVariable>,
    pub entry_points: Vec<EntryPointDecl>,
}

/// What static analysis found an entry point to use.
#[derive(Clone, Debug)]
pub struct EntryPointInfo {
    /// For each global variable, whether the entry point uses it.
    pub global_uses: Vec<bool>,
    /// (image, sampler) pairs of global variables sampled together.
    pub sampling_set: Vec<(usize, usize)>,
    pub dual_source_blending: bool,
}

/// Static analysis of a module: one record per entry point.
#[derive(Clone, Debug)]
pub struct ModuleInfo {
    pub entry_points: Vec<EntryPointInfo>,
}

/// The alignment factor of a matrix column of `rows` components.
pub open spec fn column_factor(rows: VectorSize) -> nat {
    match rows {
        VectorSize::Bi => 2,
        _ => 4,
    }
}

/// The byte size of a value of type `t`; handles have no size.
pub open spec fn type_size(t: TypeInner) -> nat {
    match t {
        TypeInner::Scalar(s) => s.width as nat,
        TypeInner::Atomic(s) => s.width as nat,
        TypeInner::Vector { size, scalar } => size.spec_count() * (scalar.width as nat),
        TypeInner::Matrix { columns, rows, scalar } => column_factor(rows) * (scalar.width as nat)
            * columns.spec_count(),
        TypeInner::Pointer { .. } => 4,
        TypeInner::Array { size, stride, .. } => match size {
            Some(count) => (count as nat) * (stride as nat),
            None => stride as nat,
        },
        TypeInner::Struct { span, .. } => span as nat,
        _ => 0,
    }
}

/// The type that a global of type `ty` binds: the element type of a
/// binding array, else `ty` itself.
pub open spec fn bound_type(types: Seq<TypeInner>, ty: usize) -> int {
    if ty < types.len() {
        match types[ty as int] {
            TypeInner::BindingArray { base, .. } => base as int,
            _ => ty as int,
        }
    } else {
        ty as int
    }
}

/// What kind of resource a global of type `ty` is: an image, a sampler or
/// an acceleration structure, or else a buffer of the type's size.
pub open spec fn resource_type_of(types: Seq<TypeInner>, ty: usize) -> ResourceType {
    let t = bound_type(types, ty);
    if 0 <= t < types.len() {
        match types[t] {
            TypeInner::Image { dim, arrayed, class } => ResourceType::Texture { dim, arrayed, class },
            TypeInner::Sampler { comparison } => ResourceType::Sampler { comparison },
            TypeInner::AccelerationStructure { vertex_return } => ResourceType::AccelerationStructure {
                vertex_return,
            },
            other => ResourceType::Buffer { size: type_size(other) as u64 },
        }
    } else {
        ResourceType::Buffer { size: 0 }
    }
}

/// The resource that a bound global variable declares.
pub open spec fn resource_of(types: Seq<TypeInner>, var: GlobalVariable) -> Resource {
    Resource {
        name: var.name,
        bind: var.binding->Some_0,
        ty: resource_type_of(types, var.ty),
        class: var.space,
    }
}

/// The resources of the bound globals, in order.
pub open spec fn bound_resources(types: Seq<TypeInner>, globals: Seq<GlobalVariable>) -> Seq<Resource>
    decreases globals.len(),
{
    if globals.len() == 0 {
        Seq::empty()
    } else {
        let prev = bound_resources(types, globals.drop_last());
        if globals.last().binding is Some {
            prev.push(resource_of(types, globals.last()))
        } else {
            prev
        }
    }
}

/// The varying that a value of numeric type `nt` with `binding` is, if any.
pub open spec fn leaf_varying(binding: Option<Binding>, nt: NumericType) -> Seq<Varying> {
    match binding {
        Some(Binding::Location { location, interpolation, sampling, .. }) => seq![
            Varying::Local { location, iv: InterfaceVar { ty: nt, interpolation, sampling } },
        ],
        Some(Binding::BuiltIn(b)) => seq![Varying::BuiltIn(b)],
        None => Seq::empty(),
    }
}

/// The varyings of a value of type `ty` with `binding`: a struct is taken
/// member by member, a scalar, vector or matrix is one varying, anything
/// else is skipped. Members must refer to earlier types.
pub open spec fn flatten(types: Seq<TypeInner>, binding: Option<Binding>, ty: usize) -> Seq<Varying>
    decreases ty + 1, 0nat,
{
    if ty >= types.len() {
        Seq::empty()
    } else {
        match types[ty as int] {
            TypeInner::Scalar(scalar) => leaf_varying(
                binding,
                NumericType { dim: NumericDimension::Scalar, scalar },
            ),
            TypeInner::Vector { size, scalar } => leaf_varying(
                binding,
                NumericType { dim: NumericDimension::Vector(size), scalar },
            ),
            TypeInner::Matrix { columns, rows, scalar } => leaf_varying(
                binding,
                NumericType { dim: NumericDimension::Matrix(columns, rows), scalar },
            ),
            TypeInner::Struct { members, .. } => flatten_members(
                types,
                members@,
                ty,
                members@.len(),
            ),
            _ => Seq::empty(),
        }
    }
}

/// The varyings of the first `k` members of a struct of type `parent`.
pub open spec fn flatten_members(
    types: Seq<TypeInner>,
    members: Seq<StructMember>,
    parent: usize,
    k: nat,
) -> Seq<Varying>
    decreases parent, k,
{
    if k == 0 || k > members.len() {
        Seq::empty()
    } else {
        let m = members[k - 1];
        flatten_members(types, members, parent, (k - 1) as nat) + if m.ty < parent {
            flatten(types, m.binding, m.ty)
        } else {
            Seq::empty()
        }
    }
}

/// The varyings of a function's arguments, in order.
pub open spec fn flatten_arguments(types: Seq<TypeInner>, args: Seq<FunctionArgument>) -> Seq<Varying>
    decreases args.len(),
{
    if args.len() == 0 {
        Seq::empty()
    } else {
        flatten_arguments(types, args.drop_last()) + flatten(
            types,
            args.last().binding,
            args.last().ty,
        )
    }
}

/// The varyings of a function's result.
pub open spec fn flatten_result(types: Seq<TypeInner>, result: Option<FunctionResult>) -> Seq<
    Varying,
> {
    match result {
        Some(r) => flatten(types, r.binding, r.ty),
        None => Seq::empty(),
    }
}

/// The position in the resource table of global `g`, were it bound: the
/// number of bound globals before it.
pub open spec fn resource_index(globals: Seq<GlobalVariable>, g: int) -> nat {
    bound_count(globals.take(g))
}

pub open spec fn bound_count(globals: Seq<GlobalVariable>) -> nat
    decreases globals.len(),
{
    if globals.len() == 0 {
        0
    } else {
        bound_count(globals.drop_last()) + if globals.last().binding is Some {
            1nat
        } else {
            0nat
        }
    }
}

/// Whether the analysis marks global `g` as used.
pub open spec fn uses_global(uses: Seq<bool>, g: int) -> bool {
    0 <= g < uses.len() && uses[g]
}

/// The resource indices of the first `n` globals that are bound and used.
pub open spec fn used_resources(globals: Seq<GlobalVariable>, uses: Seq<bool>, n: int) -> Seq<usize>
    decreases n,
{
    if n <= 0 || n > globals.len() {
        Seq::empty()
    } else {
        let prev = used_resources(globals, uses, n - 1);
        if globals[n - 1].binding is Some && uses_global(uses, n - 1) {
            prev.push(resource_index(globals, n - 1) as usize)
        } else {
            prev
        }
    }
}

/// Whether global `g` exists and is bound.
pub open spec fn is_bound(globals: Seq<GlobalVariable>, g: usize) -> bool {
    g < globals.len() && globals[g as int].binding is Some
}

/// The resource pairs of the sampling pairs whose globals are both bound.
pub open spec fn sampling_resources(globals: Seq<GlobalVariable>, set: Seq<(usize, usize)>) -> Seq<
    (usize, usize),
>
    decreases set.len(),
{
    if set.len() == 0 {
        Seq::empty()
    } else {
        let prev = sampling_resources(globals, set.drop_last());
        let (image, sampler) = set.last();
        if is_bound(globals, image) && is_bound(globals, sampler) {
            prev.push(
                (
                    resource_index(globals, image as int) as usize,
                    resource_index(globals, sampler as int) as usize,
                ),
            )
        } else {
            prev
        }
    }
}

/// Whether `ep` is what the interface records for declaration `d` with
/// analysis `info` (absent analysis: nothing used).
pub open spec fn ep_extracted(
    ep: EntryPoint,
    module: Module,
    d: EntryPointDecl,
    info: Option<EntryPointInfo>,
) -> bool {
    let types = module.types@;
    let globals = module.global_variables@;
    &&& ep.inputs@ == flatten_arguments(types, d.arguments@)
    &&& ep.outputs@ == flatten_result(types, d.result)
    &&& ep.workgroup_size == d.workgroup_size
    &&& match info {
        Some(i) => {
            &&& ep.resources@ == used_resources(globals, i.global_uses@, globals.len() as int)
            &&& ep.sampling_pairs@ == sampling_resources(globals, i.sampling_set@)
            &&& ep.dual_source_blending == i.dual_source_blending
        },
        None => {
            &&& ep.resources@.len() == 0
            &&& ep.sampling_pairs@.len() == 0
            &&& !ep.dual_source_blending
        },
    }
}

/// Whether no declaration after `k` and before `end` has the stage and
/// name of declaration `k`.
pub open spec fn is_last_before(decls: Seq<EntryPointDecl>, k: int, end: int) -> bool {
    forall|j: int|
        k < j < end ==> !(decls[j].stage == decls[k].stage && decls[j].name@ == decls[k].name@)
}

/// Whether declaration `k` is the last one with its stage and name.
pub open spec fn is_last_decl(decls: Seq<EntryPointDecl>, k: int) -> bool {
    is_last_before(decls, k, decls.len() as int)
}

/// Whether one of the first `k` declarations has the stage and name of `e`.
pub open spec fn key_declared(decls: Seq<EntryPointDecl>, k: int, e: NamedEntryPoint) -> bool {
    exists|q: int| 0 <= q < k && decls[q].stage == e.stage && decls[q].name@ == e.name@
}

/// The analysis of entry point `k`, if there is one.
pub open spec fn info_at(info: ModuleInfo, k: int) -> Option<EntryPointInfo> {
    if 0 <= k < info.entry_points@.len() {
        Some(info.entry_points@[k])
    } else {
        None
    }
}

/// The byte size of a value of type `t`.
fn type_size_of(t: &TypeInner) -> (r: u64)
    ensures
        r == type_size(*t),
{
    match t {
        TypeInner::Scalar(s) => s.width as u64,
        TypeInner::Atomic(s) => s.width as u64,
        TypeInner::Vector { size, scalar } => {
            let c = size.count() as u64;
            let w = scalar.width as u64;
            assert(c * w <= 4 * 255) by (nonlinear_arith)
                requires
                    c <= 4,
                    w <= 255,
            ;
            c * w
        },
        TypeInner::Matrix { columns, rows, scalar } => {
            let factor: u64 = match rows {
                VectorSize::Bi => 2,
                _ => 4,
            };
            let w = scalar.width as u64;
            let c = columns.count() as u64;
            assert(factor * w * c <= 4 * 255 * 4) by (nonlinear_arith)
                requires
                    factor <= 4,
                    w <= 255,
                    c <= 4,
            ;
            factor * w * c
        },
        TypeInner::Pointer { .. } => 4,
        TypeInner::Array { size, stride, .. } => match size {
            Some(count) => {
                let c = *count as u64;
                let st = *stride as u64;
                assert(c * st <= 0xFFFF_FFFFu64 * 0xFFFF_FFFFu64) by (nonlinear_arith)
                    requires
                        c <= 0xFFFF_FFFF,
                        st <= 0xFFFF_FFFF,
                ;
                c * st
            },
            None => *stride as u64,
        },
        TypeInner::Struct { span, .. } => *span as u64,
        _ => 0,
    }
}

/// What kind of resource a global of type `ty` is.
fn classify(types: &Vec<TypeInner>, ty: usize) -> (r: ResourceType)
    ensures
        r == resource_type_of(types@, ty),
{
    let t = if ty < types.len() {
        match &types[ty] {
            TypeInner::BindingArray { base, .. } => *base,
            _ => ty,
        }
    } else {
        ty
    };
    if t >= types.len() {
        return ResourceType::Buffer { size: 0 };
    }
    match &types[t] {
        TypeInner::Image { dim, arrayed, class } => ResourceType::Texture {
            dim: *dim,
            arrayed: *arrayed,
            class: *class,
        },
        TypeInner::Sampler { comparison } => ResourceType::Sampler { comparison: *comparison },
        TypeInner::AccelerationStructure { vertex_return } => ResourceType::AccelerationStructure {
            vertex_return: *vertex_return,
        },
        other => ResourceType::Buffer { size: type_size_of(other) },
    }
}

/// A copy of an optional name.
fn copy_name(name: &Option<String>) -> (r: Option<String>)
    ensures
        r == *name,
{
    match name {
        Some(n) => Some(n.clone()),
        None => None,
    }
}

/// Appends the varyings of a value of type `ty` with `binding`.
fn populate(list: &mut Vec<Varying>, binding: Option<Binding>, ty: usize, types: &Vec<TypeInner>)
    ensures
        final(list)@ == old(list)@ + flatten(types@, binding, ty),
    decreases ty,
{
    if ty >= types.len() {
        assert(final(list)@ =~= old(list)@ + Seq::<Varying>::empty());
        return;
    }
    let numeric_ty = match &types[ty] {
        TypeInner::Scalar(scalar) => NumericType { dim: NumericDimension::Scalar, scalar: *scalar },
        TypeInner::Vector { size, scalar } => NumericType {
            dim: NumericDimension::Vector(*size),
            scalar: *scalar,
        },
        TypeInner::Matrix { columns, rows, scalar } => NumericType {
            dim: NumericDimension::Matrix(*columns, *rows),
            scalar: *scalar,
        },
        TypeInner::Struct { members, .. } => {
            let ghost start = list@;
            let mut k: usize = 0;
            assert(list@ =~= start + flatten_members(types@, members@, ty, 0));
            while k < members.len()
                invariant
                    k <= members@.len(),
                    ty < types@.len(),
                    types@[ty as int] is Struct,
                    members@ == types@[ty as int]->Struct_members@,
                    list@ == start + flatten_members(types@, members@, ty, k as nat),
                decreases members@.len() - k,
            {
                let m = members[k];
                let ghost before = list@;
                if m.ty < ty {
                    populate(list, m.binding, m.ty, types);
                    assert(list@ =~= start + flatten_members(types@, members@, ty, (k + 1) as nat));
                } else {
                    assert(list@ =~= start + flatten_members(types@, members@, ty, (k + 1) as nat));
                }
                k = k + 1;
            }
            return;
        },
        _ => {
            assert(final(list)@ =~= old(list)@ + Seq::<Varying>::empty());
            return;
        },
    };
    match binding {
        Some(Binding::Location { location, interpolation, sampling, .. }) => {
            list.push(
                Varying::Local { location, iv: InterfaceVar { ty: numeric_ty, interpolation, sampling } },
            );
        },
        Some(Binding::BuiltIn(b)) => {
            list.push(Varying::BuiltIn(b));
        },
        None => {},
    }
    assert(final(list)@ =~= old(list)@ + flatten(types@, binding, ty));
}

/// The resource indices of the bound globals that `uses` marks as used.
fn used_resource_indices(
    globals: &Vec<GlobalVariable>,
    uses: &Vec<bool>,
    mapping: &Vec<Option<usize>>,
    n_res: usize,
) -> (r: Vec<usize>)
    requires
        mapping@.len() == globals@.len(),
        forall|j: int|
            0 <= j < globals@.len() ==> #[trigger] mapping@[j] == if globals@[j].binding is Some {
                Some(resource_index(globals@, j) as usize)
            } else {
                None::<usize>
            },
        forall|j: int| 0 <= j < globals@.len() && globals@[j].binding is Some ==> resource_index(globals@, j) < n_res,
    ensures
        r@ == used_resources(globals@, uses@, globals@.len() as int),
        forall|k: int| 0 <= k < r@.len() ==> r@[k] < n_res,
{
    let mut out: Vec<usize> = Vec::new();
    let mut g: usize = 0;
    while g < globals.len()
        invariant
            g <= globals@.len(),
            mapping@.len() == globals@.len(),
            forall|j: int|
                0 <= j < globals@.len() ==> #[trigger] mapping@[j] == if globals@[j].binding is Some {
                    Some(resource_index(globals@, j) as usize)
                } else {
                    None::<usize>
                },
            forall|j: int| 0 <= j < globals@.len() && globals@[j].binding is Some ==> resource_index(globals@, j) < n_res,
            out@ == used_resources(globals@, uses@, g as int),
            forall|k: int| 0 <= k < out@.len() ==> out@[k] < n_res,
        decreases globals@.len() - g,
    {
        let used = g < uses.len() && uses[g];
        if used {
            match mapping[g] {
                Some(idx) => out.push(idx),
                None => {},
            }
        }
        g = g + 1;
    }
    out
}

/// The resource pairs of the sampling pairs whose globals are both bound.
fn sampling_resource_pairs(
    globals: &Vec<GlobalVariable>,
    set: &Vec<(usize, usize)>,
    mapping: &Vec<Option<usize>>,
    n_res: usize,
) -> (r: Vec<(usize, usize)>)
    requires
        mapping@.len() == globals@.len(),
        forall|j: int|
            0 <= j < globals@.len() ==> #[trigger] mapping@[j] == if globals@[j].binding is Some {
                Some(resource_index(globals@, j) as usize)
            } else {
                None::<usize>
            },
        forall|j: int| 0 <= j < globals@.len() && globals@[j].binding is Some ==> resource_index(globals@, j) < n_res,
    ensures
        r@ == sampling_resources(globals@, set@),
        forall|k: int| 0 <= k < r@.len() ==> r@[k].0 < n_res && r@[k].1 < n_res,
{
    let mut out: Vec<(usize, usize)> = Vec::new();
    let mut k: usize = 0;
    assert(set@.take(0) == Seq::<(usize, usize)>::empty());
    while k < set.len()
        invariant
            k <= set@.len(),
            mapping@.len() == globals@.len(),
            forall|j: int|
                0 <= j < globals@.len() ==> #[trigger] mapping@[j] == if globals@[j].binding is Some {
                    Some(resource_index(globals@, j) as usize)
                } else {
                    None::<usize>
                },
            forall|j: int| 0 <= j < globals@.len() && globals@[j].binding is Some ==> resource_index(globals@, j) < n_res,
            out@ == sampling_resources(globals@, set@.take(k as int)),
            forall|q: int| 0 <= q < out@.len() ==> out@[q].0 < n_res && out@[q].1 < n_res,
        decreases set@.len() - k,
    {
        assert(set@.take(k + 1).drop_last() == set@.take(k as int));
        let (image, sampler) = set[k];
        if image < globals.len() && sampler < globals.len() {
            match (mapping[image], mapping[sampler]) {
                (Some(i), Some(s)) => out.push((i, s)),
                _ => {},
            }
        }
        k = k + 1;
    }
    assert(set@.take(set@.len() as int) == set@);
    out
}

impl Interface {
    /// Builds the interface of a module: a resource for each bound global,
    /// and for each entry point its varyings, the resources it uses, the
    /// texture/sampler pairs it samples, its workgroup size and whether it
    /// writes a second blend source. A later entry point with the stage and
    /// name of an earlier one replaces it.
    pub fn new(module: &Module, info: &ModuleInfo, limits: Limits) -> (r: Interface)
        ensures
            r.wf(),
            r.limits == limits,
            r.resources@ == bound_resources(module.types@, module.global_variables@),
            forall|k: int|
                0 <= k < module.entry_points@.len() && #[trigger] is_last_decl(module.entry_points@, k) ==> {
                    let d = module.entry_points@[k];
                    &&& ep_index(r.entry_points@, d.stage, d.name@) matches Some(i)
                    &&& ep_extracted(r.entry_points@[i].ep, *module, d, info_at(*info, k))
                },
            forall|i: int|
                0 <= i < r.entry_points@.len() ==> key_declared(
                    module.entry_points@,
                    module.entry_points@.len() as int,
                    #[trigger] r.entry_points@[i],
                ),
    {
        let types = &module.types;
        let globals = &module.global_variables;
        let ghost gs = globals@;
        let mut resources: Vec<Resource> = Vec::new();
        let mut mapping: Vec<Option<usize>> = Vec::new();
        let mut g: usize = 0;
        while g < globals.len()
            invariant
                g <= gs.len(),
                gs == module.global_variables@,
                gs == globals@,
                types@ == module.types@,
                resources@ == bound_resources(types@, gs.take(g as int)),
                resources@.len() == bound_count(gs.take(g as int)),
                mapping@.len() == g,
                forall|j: int|
                    0 <= j < g ==> #[trigger] mapping@[j] == if gs[j].binding is Some {
                        Some(resource_index(gs, j) as usize)
                    } else {
                        None::<usize>
                    },
                forall|j: int| 0 <= j < g && gs[j].binding is Some ==> resource_index(gs, j) < resources@.len(),
            decreases gs.len() - g,
        {
            assert(gs.take(g + 1).drop_last() == gs.take(g as int));
            assert(gs.take(g + 1).last() == gs[g as int]);
            let var = &globals[g];
            match var.binding {
                Some(bind) => {
                    let idx = resources.len();
                    let res = Resource {
                        name: copy_name(&var.name),
                        bind,
                        ty: classify(types, var.ty),
                        class: var.space,
                    };
                    assert(res == resource_of(types@, gs[g as int]));
                    assert(gs[g as int].binding is Some);
                    resources.push(res);
                    mapping.push(Some(idx));
                },
                None => {
                    mapping.push(None);
                },
            }
            g = g + 1;
        }
        assert(gs.take(gs.len() as int) == gs);
        let n_res = resources.len();
        let ghost decls = module.entry_points@;
        let mut entry_points: Vec<NamedEntryPoint> = Vec::new();
        let mut k: usize = 0;
        while k < module.entry_points.len()
            invariant
                k <= decls.len(),
                decls == module.entry_points@,
                gs == module.global_variables@,
                gs == globals@,
                types@ == module.types@,
                n_res == resources@.len(),
                mapping@.len() == gs.len(),
                forall|j: int|
                    0 <= j < gs.len() ==> #[trigger] mapping@[j] == if gs[j].binding is Some {
                        Some(resource_index(gs, j) as usize)
                    } else {
                        None::<usize>
                    },
                forall|j: int| 0 <= j < gs.len() && gs[j].binding is Some ==> resource_index(gs, j) < n_res,
                forall|e: int| 0 <= e < entry_points@.len() ==> ep_wf((#[trigger] entry_points@[e]).ep, n_res as nat),
                forall|a: int, b: int|
                    0 <= a < b < entry_points@.len() ==> !((#[trigger] entry_points@[a]).stage
                        == (#[trigger] entry_points@[b]).stage && entry_points@[a].name@
                        == entry_points@[b].name@),
                forall|q: int|
                    0 <= q < k && #[trigger] is_last_before(decls, q, k as int) ==> {
                        let d = decls[q];
                        &&& ep_index(entry_points@, d.stage, d.name@) matches Some(i)
                        &&& ep_extracted(entry_points@[i].ep, *module, d, info_at(*info, q))
                    },
                forall|i: int|
                    0 <= i < entry_points@.len() ==> key_declared(decls, k as int, #[trigger] entry_points@[i]),
            decreases decls.len() - k,
        {
            let d = &module.entry_points[k];
            let mut inputs: Vec<Varying> = Vec::new();
            let mut j: usize = 0;
            assert(d.arguments@.take(0) == Seq::<FunctionArgument>::empty());
            assert(inputs@ =~= flatten_arguments(types@, d.arguments@.take(0)));
            while j < d.arguments.len()
                invariant
                    j <= d.arguments@.len(),
                    inputs@ == flatten_arguments(types@, d.arguments@.take(j as int)),
                decreases d.arguments@.len() - j,
            {
                assert(d.arguments@.take(j + 1).drop_last() == d.arguments@.take(j as int));
                let arg = d.arguments[j];
                populate(&mut inputs, arg.binding, arg.ty, types);
                j = j + 1;
            }
            assert(d.arguments@.take(d.arguments@.len() as int) == d.arguments@);
            let mut outputs: Vec<Varying> = Vec::new();
            match d.result {
                Some(res) => populate(&mut outputs, res.binding, res.ty, types),
                None => {},
            }
            assert(outputs@ =~= flatten_result(types@, d.result));
            let (used, pairs, dual) = if k < info.entry_points.len() {
                let inf = &info.entry_points[k];
                (
                    used_resource_indices(globals, &inf.global_uses, &mapping, n_res),
                    sampling_resource_pairs(globals, &inf.sampling_set, &mapping, n_res),
                    inf.dual_source_blending,
                )
            } else {
                (Vec::new(), Vec::new(), false)
            };
            let ep = EntryPoint {
                inputs,
                outputs,
                resources: used,
                sampling_pairs: pairs,
                workgroup_size: d.workgroup_size,
                dual_source_blending: dual,
            };
            assert(ep_extracted(ep, *module, decls[k as int], info_at(*info, k as int)));
            let named = NamedEntryPoint { stage: d.stage, name: d.name.clone(), ep };
            let ghost old_eps = entry_points@;
            proof {
                lemma_ep_index_bounds(old_eps, d.stage, d.name@);
            }
            match find_named(&entry_points, d.stage, &d.name) {
                Some(i) => {
                    entry_points.set(i, named);
                    proof {
                        assert forall|q: int|
                            0 <= q < k + 1 && #[trigger] is_last_before(decls, q, k + 1) implies ({
                            let dq = decls[q];
                            &&& ep_index(entry_points@, dq.stage, dq.name@) matches Some(i)
                            &&& ep_extracted(entry_points@[i].ep, *module, dq, info_at(*info, q))
                        }) by {
                            lemma_ep_index_update(old_eps, i as int, named, decls[q].stage, decls[q].name@);
                            lemma_ep_index_bounds(old_eps, decls[q].stage, decls[q].name@);
                            if q < k {
                                assert(is_last_before(decls, q, k as int));
                                assert(!(decls[k as int].stage == decls[q].stage
                                    && decls[k as int].name@ == decls[q].name@));
                            }
                        }
                        assert forall|e: int| 0 <= e < entry_points@.len() implies key_declared(
                            decls,
                            k + 1,
                            #[trigger] entry_points@[e],
                        ) by {
                            if e == i {
                                assert(decls[k as int].stage == entry_points@[e].stage);
                            } else {
                                assert(entry_points@[e] == old_eps[e]);
                                assert(key_declared(decls, k as int, old_eps[e]));
                            }
                        }
                    }
                },
                None => {
                    proof {
                        lemma_ep_index_none(old_eps, d.stage, d.name@);
                    }
                    entry_points.push(named);
                    proof {
                        assert(entry_points@.drop_last() == old_eps);
                        assert forall|q: int|
                            0 <= q < k + 1 && #[trigger] is_last_before(decls, q, k + 1) implies ({
                            let dq = decls[q];
                            &&& ep_index(entry_points@, dq.stage, dq.name@) matches Some(i)
                            &&& ep_extracted(entry_points@[i].ep, *module, dq, info_at(*info, q))
                        }) by {
                            lemma_ep_index_bounds(old_eps, decls[q].stage, decls[q].name@);
                            if q < k {
                                assert(is_last_before(decls, q, k as int));
                                assert(!(decls[k as int].stage == decls[q].stage
                                    && decls[k as int].name@ == decls[q].name@));
                                assert(ep_index(entry_points@, decls[q].stage, decls[q].name@)
                                    == ep_index(old_eps, decls[q].stage, decls[q].name@));
                            }
                        }
                        assert forall|e: int| 0 <= e < entry_points@.len() implies key_declared(
                            decls,
                            k + 1,
                            #[trigger] entry_points@[e],
                        ) by {
                            if e == old_eps.len() {
                                assert(decls[k as int].stage == entry_points@[e].stage);
                            } else {
                                assert(entry_points@[e] == old_eps[e]);
                                assert(key_declared(decls, k as int, old_eps[e]));
                            }
                        }
                    }
                },
            }
            k = k + 1;
        }
        Interface { limits, resources, entry_points }
    }
}

} // verus!
