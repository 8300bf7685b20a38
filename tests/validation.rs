use shader_interface::binding::{
    AddressSpace, BindGroupLayoutEntry, BindingError, BindingType, BufferBindingType, ImageClass,
    ImageDimension, ResourceBinding, SamplerBindingType, ShaderStages, StorageAccess,
    TextureSampleType, TextureViewDimension,
};
use shader_interface::interface::Interface;
use shader_interface::layout::{BindingLayoutSource, BindingSizes, EntryMap, Limits};
use shader_interface::module::{
    Binding, EntryPointDecl, EntryPointInfo, FunctionArgument, FunctionResult, GlobalVariable,
    Module, ModuleInfo, StructMember, TypeInner,
};
use shader_interface::numeric::{NumericDimension, NumericType, Scalar, ScalarKind, VectorSize};
use shader_interface::stage::{
    BuiltIn, CompareFunction, FilteringError, InputError, InterfaceVar, Interpolation, Sampling,
    ShaderStage, StageError, StageIo,
};

fn limits() -> Limits {
    Limits {
        max_bind_groups: 4,
        max_compute_workgroup_size_x: 256,
        max_compute_workgroup_size_y: 256,
        max_compute_workgroup_size_z: 64,
        max_compute_invocations_per_workgroup: 256,
        max_inter_stage_shader_components: 60,
    }
}

fn f32_scalar() -> Scalar {
    Scalar { kind: ScalarKind::Float, width: 4 }
}

fn vec_f32(size: VectorSize) -> NumericType {
    NumericType { dim: NumericDimension::Vector(size), scalar: f32_scalar() }
}

fn location(loc: u32, interpolation: Option<Interpolation>) -> Option<Binding> {
    Some(Binding::Location { location: loc, interpolation, sampling: None, blend_src: None })
}

fn entry(name: &str, stage: ShaderStage) -> EntryPointDecl {
    EntryPointDecl {
        name: name.to_string(),
        stage,
        workgroup_size: [1, 1, 1],
        arguments: Vec::new(),
        result: None,
    }
}

fn info(uses: Vec<bool>, sampling: Vec<(usize, usize)>) -> EntryPointInfo {
    EntryPointInfo { global_uses: uses, sampling_set: sampling, dual_source_blending: false }
}

fn global(space: AddressSpace, group: u32, binding: u32, ty: usize) -> GlobalVariable {
    GlobalVariable { name: None, space, binding: Some(ResourceBinding { group, binding }), ty }
}

fn stages(vertex: bool, fragment: bool, compute: bool) -> ShaderStages {
    ShaderStages { vertex, fragment, compute }
}

fn layout_entry(binding: u32, visibility: ShaderStages, ty: BindingType) -> BindGroupLayoutEntry {
    BindGroupLayoutEntry { binding, visibility, ty, count: None }
}

fn provided(entries: Vec<BindGroupLayoutEntry>) -> BindingLayoutSource {
    let mut map = EntryMap::new();
    for e in entries {
        map.insert(e);
    }
    BindingLayoutSource::Provided(vec![map])
}

fn sampled_texture_module(kind: ScalarKind) -> (Module, ModuleInfo) {
    let module = Module {
        types: vec![
            TypeInner::Image {
                dim: ImageDimension::D2,
                arrayed: false,
                class: ImageClass::Sampled { kind, multi: false },
            },
            TypeInner::Sampler { comparison: false },
        ],
        global_variables: vec![
            global(AddressSpace::Handle, 0, 0, 0),
            global(AddressSpace::Handle, 0, 1, 1),
        ],
        entry_points: vec![entry("fs", ShaderStage::Fragment)],
    };
    let info = ModuleInfo { entry_points: vec![info(vec![true, true], vec![(0, 1)])] };
    (module, info)
}

#[test]
fn compute_zero_workgroup_size_is_invalid() {
    let mut ep = entry("main", ShaderStage::Compute);
    ep.workgroup_size = [0, 1, 1];
    let module = Module { types: vec![], global_variables: vec![], entry_points: vec![ep] };
    let info = ModuleInfo { entry_points: vec![info(vec![], vec![])] };
    let interface = Interface::new(&module, &info, limits());
    let mut layouts = BindingLayoutSource::new_derived(&limits());
    let mut sizes = BindingSizes::new();
    let r = interface.check_stage(&mut layouts, &mut sizes, "main", ShaderStage::Compute, StageIo::new());
    match r {
        Err(StageError::InvalidWorkgroupSize { current, current_total, limit, total }) => {
            assert_eq!(current, [0, 1, 1]);
            assert_eq!(current_total, 0);
            assert_eq!(limit, [256, 256, 64]);
            assert_eq!(total, 256);
        },
        other => panic!("unexpected {:?}", other),
    }
}

#[test]
fn compute_workgroup_over_total_limit_is_invalid() {
    let mut ep = entry("main", ShaderStage::Compute);
    ep.workgroup_size = [16, 16, 2];
    let module = Module { types: vec![], global_variables: vec![], entry_points: vec![ep] };
    let info = ModuleInfo { entry_points: vec![info(vec![], vec![])] };
    let interface = Interface::new(&module, &info, limits());
    let mut layouts = BindingLayoutSource::new_derived(&limits());
    let mut sizes = BindingSizes::new();
    let r = interface.check_stage(&mut layouts, &mut sizes, "main", ShaderStage::Compute, StageIo::new());
    assert!(matches!(r, Err(StageError::InvalidWorkgroupSize { current_total: 512, .. })));
}

#[test]
fn compute_workgroup_within_limits_passes() {
    let mut ep = entry("main", ShaderStage::Compute);
    ep.workgroup_size = [16, 16, 1];
    let module = Module { types: vec![], global_variables: vec![], entry_points: vec![ep] };
    let info = ModuleInfo { entry_points: vec![info(vec![], vec![])] };
    let interface = Interface::new(&module, &info, limits());
    let mut layouts = BindingLayoutSource::new_derived(&limits());
    let mut sizes = BindingSizes::new();
    let r = interface.check_stage(&mut layouts, &mut sizes, "main", ShaderStage::Compute, StageIo::new());
    assert!(r.is_ok());
}

#[test]
fn filtering_sampler_on_uint_texture_fails() {
    let (module, info) = sampled_texture_module(ScalarKind::Uint);
    let interface = Interface::new(&module, &info, limits());
    let mut layouts = provided(vec![
        layout_entry(
            0,
            stages(false, true, false),
            BindingType::Texture {
                sample_type: TextureSampleType::Uint,
                view_dimension: TextureViewDimension::D2,
                multisampled: false,
            },
        ),
        layout_entry(1, stages(false, true, false), BindingType::Sampler(SamplerBindingType::Filtering)),
    ]);
    let mut sizes = BindingSizes::new();
    let r = interface.check_stage(&mut layouts, &mut sizes, "fs", ShaderStage::Fragment, StageIo::new());
    match r {
        Err(StageError::Filtering { texture, sampler, error }) => {
            assert_eq!(texture, ResourceBinding { group: 0, binding: 0 });
            assert_eq!(sampler, ResourceBinding { group: 0, binding: 1 });
            assert_eq!(error, FilteringError::Integer);
        },
        other => panic!("unexpected {:?}", other),
    }
}

#[test]
fn filtering_sampler_on_unfilterable_float_texture_fails() {
    let (module, info) = sampled_texture_module(ScalarKind::Float);
    let interface = Interface::new(&module, &info, limits());
    let mut layouts = provided(vec![
        layout_entry(
            0,
            stages(false, true, false),
            BindingType::Texture {
                sample_type: TextureSampleType::Float { filterable: false },
                view_dimension: TextureViewDimension::D2,
                multisampled: false,
            },
        ),
        layout_entry(1, stages(false, true, false), BindingType::Sampler(SamplerBindingType::Filtering)),
    ]);
    let mut sizes = BindingSizes::new();
    let r = interface.check_stage(&mut layouts, &mut sizes, "fs", ShaderStage::Fragment, StageIo::new());
    assert!(matches!(r, Err(StageError::Filtering { error: FilteringError::Float, .. })));
}

#[test]
fn derived_layout_inconsistent_between_stages() {
    let module = Module {
        types: vec![TypeInner::Struct { members: vec![], span: 16 }],
        global_variables: vec![
            global(AddressSpace::Uniform, 0, 0, 0),
            global(
                AddressSpace::Storage {
                    access: StorageAccess { load: true, store: false, atomic: false },
                },
                0,
                0,
                0,
            ),
        ],
        entry_points: vec![entry("vs", ShaderStage::Vertex), entry("fs", ShaderStage::Fragment)],
    };
    let info = ModuleInfo {
        entry_points: vec![info(vec![true, false], vec![]), info(vec![false, true], vec![])],
    };
    let interface = Interface::new(&module, &info, limits());
    let mut layouts = BindingLayoutSource::new_derived(&limits());
    let mut sizes = BindingSizes::new();
    let out = interface
        .check_stage(&mut layouts, &mut sizes, "vs", ShaderStage::Vertex, StageIo::new())
        .unwrap();
    match &layouts {
        BindingLayoutSource::Derived(groups) => {
            assert_eq!(groups.len(), 4);
            assert_eq!(groups[0].entries.len(), 1);
            assert_eq!(
                groups[0].entries[0].ty,
                BindingType::Buffer {
                    ty: BufferBindingType::Uniform,
                    has_dynamic_offset: false,
                    min_binding_size: Some(16),
                }
            );
            assert_eq!(groups[0].entries[0].visibility, stages(true, false, false));
        },
        _ => panic!("layouts should stay derived"),
    }
    let r = interface.check_stage(&mut layouts, &mut sizes, "fs", ShaderStage::Fragment, out);
    match r {
        Err(StageError::Binding(bind, error)) => {
            assert_eq!(bind, ResourceBinding { group: 0, binding: 0 });
            assert_eq!(error, BindingError::InconsistentlyDerivedType);
        },
        other => panic!("unexpected {:?}", other),
    }
}

#[test]
fn derived_layout_merges_visibility() {
    let module = Module {
        types: vec![TypeInner::Struct { members: vec![], span: 16 }],
        global_variables: vec![global(AddressSpace::Uniform, 1, 3, 0)],
        entry_points: vec![entry("vs", ShaderStage::Vertex), entry("fs", ShaderStage::Fragment)],
    };
    let info = ModuleInfo { entry_points: vec![info(vec![true], vec![]), info(vec![true], vec![])] };
    let interface = Interface::new(&module, &info, limits());
    let mut layouts = BindingLayoutSource::new_derived(&limits());
    let mut sizes = BindingSizes::new();
    let out = interface
        .check_stage(&mut layouts, &mut sizes, "vs", ShaderStage::Vertex, StageIo::new())
        .unwrap();
    interface.check_stage(&mut layouts, &mut sizes, "fs", ShaderStage::Fragment, out).unwrap();
    match &layouts {
        BindingLayoutSource::Derived(groups) => {
            assert_eq!(groups[1].entries.len(), 1);
            assert_eq!(groups[1].entries[0].binding, 3);
            assert_eq!(groups[1].entries[0].visibility, stages(true, true, false));
        },
        _ => panic!("layouts should stay derived"),
    }
}

#[test]
fn fragment_interpolation_mismatch() {
    let mut fs = entry("fs", ShaderStage::Fragment);
    fs.arguments = vec![FunctionArgument { ty: 0, binding: location(2, Some(Interpolation::Flat)) }];
    let module = Module {
        types: vec![TypeInner::Vector { size: VectorSize::Tri, scalar: f32_scalar() }],
        global_variables: vec![],
        entry_points: vec![fs],
    };
    let info = ModuleInfo { entry_points: vec![info(vec![], vec![])] };
    let interface = Interface::new(&module, &info, limits());
    let mut inputs = StageIo::new();
    inputs.insert(
        2,
        InterfaceVar {
            ty: vec_f32(VectorSize::Tri),
            interpolation: Some(Interpolation::Perspective),
            sampling: None,
        },
    );
    let mut layouts = BindingLayoutSource::new_derived(&limits());
    let mut sizes = BindingSizes::new();
    let r = interface.check_stage(&mut layouts, &mut sizes, "fs", ShaderStage::Fragment, inputs);
    match r {
        Err(StageError::Input { location, var, error }) => {
            assert_eq!(location, 2);
            assert_eq!(var.interpolation, Some(Interpolation::Flat));
            assert_eq!(error, InputError::InterpolationMismatch(Some(Interpolation::Perspective)));
        },
        other => panic!("unexpected {:?}", other),
    }
}

#[test]
fn fragment_input_missing_wrong_type_and_sampling() {
    let mut fs = entry("fs", ShaderStage::Fragment);
    fs.arguments = vec![FunctionArgument { ty: 0, binding: location(0, Some(Interpolation::Perspective)) }];
    let module = Module {
        types: vec![TypeInner::Vector { size: VectorSize::Quad, scalar: f32_scalar() }],
        global_variables: vec![],
        entry_points: vec![fs],
    };
    let info = ModuleInfo { entry_points: vec![info(vec![], vec![])] };
    let interface = Interface::new(&module, &info, limits());
    let mut layouts = BindingLayoutSource::new_derived(&limits());
    let mut sizes = BindingSizes::new();

    let r = interface.check_stage(&mut layouts, &mut sizes, "fs", ShaderStage::Fragment, StageIo::new());
    assert!(matches!(r, Err(StageError::Input { location: 0, error: InputError::Missing, .. })));

    let mut narrower = StageIo::new();
    narrower.insert(
        0,
        InterfaceVar {
            ty: vec_f32(VectorSize::Bi),
            interpolation: Some(Interpolation::Perspective),
            sampling: None,
        },
    );
    let r = interface.check_stage(&mut layouts, &mut sizes, "fs", ShaderStage::Fragment, narrower);
    assert!(matches!(
        r,
        Err(StageError::Input { error: InputError::WrongType(t), .. }) if t == vec_f32(VectorSize::Bi)
    ));

    let mut sampled = StageIo::new();
    sampled.insert(
        0,
        InterfaceVar {
            ty: vec_f32(VectorSize::Quad),
            interpolation: Some(Interpolation::Perspective),
            sampling: Some(Sampling::Centroid),
        },
    );
    let r = interface.check_stage(&mut layouts, &mut sizes, "fs", ShaderStage::Fragment, sampled);
    assert!(matches!(
        r,
        Err(StageError::Input { error: InputError::SamplingMismatch(Some(Sampling::Centroid)), .. })
    ));
}

fn four_vec4_outputs_module() -> (Module, ModuleInfo) {
    let members: Vec<StructMember> = (0..4u32)
        .map(|i| StructMember {
            ty: 0,
            binding: location(i, Some(Interpolation::Perspective)),
            offset: i * 16,
        })
        .collect();
    let mut vs = entry("vs", ShaderStage::Vertex);
    vs.result = Some(FunctionResult { ty: 1, binding: None });
    let module = Module {
        types: vec![
            TypeInner::Vector { size: VectorSize::Quad, scalar: f32_scalar() },
            TypeInner::Struct { members, span: 64 },
        ],
        global_variables: vec![],
        entry_points: vec![vs],
    };
    let info = ModuleInfo { entry_points: vec![info(vec![], vec![])] };
    (module, info)
}

#[test]
fn too_many_varyings() {
    let (module, info) = four_vec4_outputs_module();
    let mut small = limits();
    small.max_inter_stage_shader_components = 15;
    let interface = Interface::new(&module, &info, small);
    let mut layouts = BindingLayoutSource::new_derived(&small);
    let mut sizes = BindingSizes::new();
    let r = interface.check_stage(&mut layouts, &mut sizes, "vs", ShaderStage::Vertex, StageIo::new());
    match r {
        Err(StageError::TooManyVaryings { used, limit }) => {
            assert_eq!(used, 16);
            assert_eq!(limit, 15);
        },
        other => panic!("unexpected {:?}", other),
    }
}

#[test]
fn vertex_outputs_chain_into_fragment() {
    let (mut module, _) = four_vec4_outputs_module();
    let mut fs = entry("fs", ShaderStage::Fragment);
    fs.arguments = vec![FunctionArgument { ty: 0, binding: location(3, Some(Interpolation::Perspective)) }];
    module.entry_points.push(fs);
    let info = ModuleInfo { entry_points: vec![info(vec![], vec![]), info(vec![], vec![])] };
    let interface = Interface::new(&module, &info, limits());
    let mut layouts = BindingLayoutSource::new_derived(&limits());
    let mut sizes = BindingSizes::new();
    let out = interface
        .check_stage(&mut layouts, &mut sizes, "vs", ShaderStage::Vertex, StageIo::new())
        .unwrap();
    assert_eq!(out.entries.len(), 4);
    assert_eq!(out.get(3).unwrap().ty, vec_f32(VectorSize::Quad));
    let frag_out = interface
        .check_stage(&mut layouts, &mut sizes, "fs", ShaderStage::Fragment, out)
        .unwrap();
    assert_eq!(frag_out.entries.len(), 0);
}

#[test]
fn ambiguous_entry_point_name() {
    let module = Module {
        types: vec![],
        global_variables: vec![],
        entry_points: vec![
            entry("main", ShaderStage::Vertex),
            entry("main", ShaderStage::Fragment),
            entry("other", ShaderStage::Fragment),
        ],
    };
    let info = ModuleInfo { entry_points: vec![] };
    let interface = Interface::new(&module, &info, limits());
    assert!(matches!(
        interface.finalize_entry_point_name(ShaderStage::Fragment, None),
        Err(StageError::MultipleEntryPointsFound)
    ));
    assert_eq!(interface.finalize_entry_point_name(ShaderStage::Vertex, None).unwrap(), "main");
    assert!(matches!(
        interface.finalize_entry_point_name(ShaderStage::Compute, None),
        Err(StageError::NoEntryPointFound)
    ));
    assert_eq!(
        interface.finalize_entry_point_name(ShaderStage::Fragment, Some("other")).unwrap(),
        "other"
    );
}

#[test]
fn missing_entry_point() {
    let module = Module {
        types: vec![],
        global_variables: vec![],
        entry_points: vec![entry("main", ShaderStage::Vertex)],
    };
    let info = ModuleInfo { entry_points: vec![] };
    let interface = Interface::new(&module, &info, limits());
    let mut layouts = BindingLayoutSource::new_derived(&limits());
    let mut sizes = BindingSizes::new();
    let r = interface.check_stage(&mut layouts, &mut sizes, "main", ShaderStage::Fragment, StageIo::new());
    assert!(matches!(r, Err(StageError::MissingEntryPoint(ref n)) if n == "main"));
    assert!(matches!(
        interface.fragment_uses_dual_source_blending("main"),
        Err(StageError::MissingEntryPoint(_))
    ));
}

#[test]
fn dual_source_blending_is_reported() {
    let module = Module {
        types: vec![],
        global_variables: vec![],
        entry_points: vec![entry("fs", ShaderStage::Fragment)],
    };
    let mut i = info(vec![], vec![]);
    i.dual_source_blending = true;
    let info = ModuleInfo { entry_points: vec![i] };
    let interface = Interface::new(&module, &info, limits());
    assert_eq!(interface.fragment_uses_dual_source_blending("fs").unwrap(), true);
}

#[test]
fn provided_layout_missing_invisible_and_size() {
    let module = Module {
        types: vec![TypeInner::Struct { members: vec![], span: 32 }],
        global_variables: vec![global(AddressSpace::Uniform, 0, 0, 0)],
        entry_points: vec![entry("vs", ShaderStage::Vertex)],
    };
    let info = ModuleInfo { entry_points: vec![info(vec![true], vec![])] };
    let interface = Interface::new(&module, &info, limits());
    let mut sizes = BindingSizes::new();

    let mut empty = provided(vec![]);
    let r = interface.check_stage(&mut empty, &mut sizes, "vs", ShaderStage::Vertex, StageIo::new());
    assert!(matches!(r, Err(StageError::Binding(_, BindingError::Missing))));
    assert_eq!(sizes.get(ResourceBinding { group: 0, binding: 0 }), Some(32));

    let uniform = |min: Option<u64>| BindingType::Buffer {
        ty: BufferBindingType::Uniform,
        has_dynamic_offset: false,
        min_binding_size: min,
    };
    let mut hidden = provided(vec![layout_entry(0, stages(false, true, false), uniform(None))]);
    let r = interface.check_stage(&mut hidden, &mut sizes, "vs", ShaderStage::Vertex, StageIo::new());
    assert!(matches!(r, Err(StageError::Binding(_, BindingError::Invisible))));

    let mut small = provided(vec![layout_entry(0, stages(true, false, false), uniform(Some(16)))]);
    let r = interface.check_stage(&mut small, &mut sizes, "vs", ShaderStage::Vertex, StageIo::new());
    assert!(matches!(
        r,
        Err(StageError::Binding(
            _,
            BindingError::WrongBufferSize { buffer_size: 32, min_binding_size: 16 }
        ))
    ));

    let mut good = provided(vec![layout_entry(0, stages(true, false, false), uniform(Some(32)))]);
    let r = interface.check_stage(&mut good, &mut sizes, "vs", ShaderStage::Vertex, StageIo::new());
    assert!(r.is_ok());
}

#[test]
fn position_without_invariant_warns_with_equal_depth() {
    let mut vs = entry("vs", ShaderStage::Vertex);
    vs.result = Some(FunctionResult {
        ty: 0,
        binding: Some(Binding::BuiltIn(BuiltIn::Position { invariant: false })),
    });
    let module = Module {
        types: vec![TypeInner::Vector { size: VectorSize::Quad, scalar: f32_scalar() }],
        global_variables: vec![],
        entry_points: vec![vs],
    };
    let info = ModuleInfo { entry_points: vec![info(vec![], vec![])] };
    let interface = Interface::new(&module, &info, limits());
    assert!(interface.warns_variant_position("vs", Some(CompareFunction::Equal)));
    assert!(interface.warns_variant_position("vs", Some(CompareFunction::NotEqual)));
    assert!(!interface.warns_variant_position("vs", Some(CompareFunction::Less)));
    assert!(!interface.warns_variant_position("vs", None));
    let mut layouts = BindingLayoutSource::new_derived(&limits());
    let mut sizes = BindingSizes::new();
    let out = interface
        .check_stage(&mut layouts, &mut sizes, "vs", ShaderStage::Vertex, StageIo::new())
        .unwrap();
    assert_eq!(out.entries.len(), 0);
}

#[test]
fn interface_extracts_resources_and_varyings() {
    let (module, info) = sampled_texture_module(ScalarKind::Float);
    let interface = Interface::new(&module, &info, limits());
    assert_eq!(interface.resources.len(), 2);
    assert_eq!(interface.entry_points.len(), 1);
    let ep = &interface.entry_points[0].ep;
    assert_eq!(ep.resources, vec![0, 1]);
    assert_eq!(ep.sampling_pairs, vec![(0, 1)]);

    let mut layouts = BindingLayoutSource::new_derived(&limits());
    let mut sizes = BindingSizes::new();
    interface
        .check_stage(&mut layouts, &mut sizes, "fs", ShaderStage::Fragment, StageIo::new())
        .unwrap();
    match &layouts {
        BindingLayoutSource::Derived(groups) => {
            assert_eq!(
                groups[0].get(0).unwrap().ty,
                BindingType::Texture {
                    sample_type: TextureSampleType::Float { filterable: true },
                    view_dimension: TextureViewDimension::D2,
                    multisampled: false,
                }
            );
            assert_eq!(
                groups[0].get(1).unwrap().ty,
                BindingType::Sampler(SamplerBindingType::Filtering)
            );
        },
        _ => panic!("layouts should stay derived"),
    }
}

#[test]
fn extraction_skips_unmodelled_varyings_and_unwraps_binding_arrays() {
    let members = vec![
        StructMember {
            ty: 0,
            binding: Some(Binding::BuiltIn(BuiltIn::Position { invariant: true })),
            offset: 0,
        },
        StructMember { ty: 1, binding: Some(Binding::BuiltIn(BuiltIn::ClipDistance)), offset: 16 },
        StructMember { ty: 0, binding: location(5, Some(Interpolation::Linear)), offset: 32 },
    ];
    let mut vs = entry("vs", ShaderStage::Vertex);
    vs.result = Some(FunctionResult { ty: 2, binding: None });
    let module = Module {
        types: vec![
            TypeInner::Vector { size: VectorSize::Quad, scalar: f32_scalar() },
            TypeInner::Array { base: 3, size: Some(2), stride: 4 },
            TypeInner::Struct { members, span: 48 },
            TypeInner::Scalar(f32_scalar()),
            TypeInner::Image {
                dim: ImageDimension::D2,
                arrayed: true,
                class: ImageClass::Depth { multi: false },
            },
            TypeInner::BindingArray { base: 4, size: Some(8) },
        ],
        global_variables: vec![
            GlobalVariable { name: Some("unbound".to_string()), space: AddressSpace::Private, binding: None, ty: 3 },
            global(AddressSpace::Handle, 2, 7, 5),
        ],
        entry_points: vec![vs],
    };
    let info = ModuleInfo { entry_points: vec![info(vec![true, true], vec![])] };
    let interface = Interface::new(&module, &info, limits());
    assert_eq!(interface.resources.len(), 1);
    assert_eq!(interface.resources[0].bind, ResourceBinding { group: 2, binding: 7 });
    assert!(matches!(
        interface.resources[0].ty,
        shader_interface::binding::ResourceType::Texture { arrayed: true, class: ImageClass::Depth { multi: false }, .. }
    ));
    let ep = &interface.entry_points[0].ep;
    assert_eq!(ep.resources, vec![0]);
    assert_eq!(ep.outputs.len(), 2);

    let mut layouts = BindingLayoutSource::new_derived(&limits());
    let mut sizes = BindingSizes::new();
    let out = interface
        .check_stage(&mut layouts, &mut sizes, "vs", ShaderStage::Vertex, StageIo::new())
        .unwrap();
    assert_eq!(out.entries.len(), 1);
    assert_eq!(out.get(5).unwrap().interpolation, Some(Interpolation::Linear));
    match &layouts {
        BindingLayoutSource::Derived(groups) => {
            assert_eq!(
                groups[2].get(7).unwrap().ty,
                BindingType::Texture {
                    sample_type: TextureSampleType::Depth,
                    view_dimension: TextureViewDimension::D2Array,
                    multisampled: false,
                }
            );
        },
        _ => panic!("layouts should stay derived"),
    }
}

#[test]
fn later_entry_point_with_same_key_replaces_earlier() {
    let mut first = entry("main", ShaderStage::Compute);
    first.workgroup_size = [0, 0, 0];
    let mut second = entry("main", ShaderStage::Compute);
    second.workgroup_size = [8, 8, 1];
    let module = Module { types: vec![], global_variables: vec![], entry_points: vec![first, second] };
    let info = ModuleInfo { entry_points: vec![] };
    let interface = Interface::new(&module, &info, limits());
    assert_eq!(interface.entry_points.len(), 1);
    let mut layouts = BindingLayoutSource::new_derived(&limits());
    let mut sizes = BindingSizes::new();
    let r = interface.check_stage(&mut layouts, &mut sizes, "main", ShaderStage::Compute, StageIo::new());
    assert!(r.is_ok());
}

#[test]
fn derivability_of_used_resources() {
    let (good, good_info) = sampled_texture_module(ScalarKind::Float);
    let interface = Interface::new(&good, &good_info, limits());
    assert!(interface.entry_point_derivable(ShaderStage::Fragment, "fs"));
    assert!(interface.entry_point_derivable(ShaderStage::Vertex, "absent"));

    let bool_image = Module {
        types: vec![TypeInner::Image {
            dim: ImageDimension::D2,
            arrayed: false,
            class: ImageClass::Sampled { kind: ScalarKind::Bool, multi: false },
        }],
        global_variables: vec![global(AddressSpace::Handle, 0, 0, 0)],
        entry_points: vec![entry("fs", ShaderStage::Fragment)],
    };
    let info = ModuleInfo { entry_points: vec![info(vec![true], vec![])] };
    let interface = Interface::new(&bool_image, &info, limits());
    assert!(!interface.entry_point_derivable(ShaderStage::Fragment, "fs"));
    assert!(!interface.resources[0].is_wf());

    let arrayed_3d = Module {
        types: vec![TypeInner::Image {
            dim: ImageDimension::D3,
            arrayed: true,
            class: ImageClass::Sampled { kind: ScalarKind::Float, multi: false },
        }],
        global_variables: vec![global(AddressSpace::Handle, 0, 0, 0)],
        entry_points: vec![entry("fs", ShaderStage::Fragment)],
    };
    let interface = Interface::new(&arrayed_3d, &info, limits());
    assert!(interface.entry_point_derivable(ShaderStage::Fragment, "fs"));
    assert!(!interface.resources[0].is_wf());
}

#[test]
fn float_texture_sampled_by_comparison_sampler_is_not_filterable() {
    let module = Module {
        types: vec![
            TypeInner::Image {
                dim: ImageDimension::D2,
                arrayed: false,
                class: ImageClass::Sampled { kind: ScalarKind::Float, multi: false },
            },
            TypeInner::Sampler { comparison: true },
        ],
        global_variables: vec![
            global(AddressSpace::Handle, 0, 0, 0),
            global(AddressSpace::Handle, 0, 1, 1),
        ],
        entry_points: vec![entry("fs", ShaderStage::Fragment)],
    };
    let info = ModuleInfo { entry_points: vec![info(vec![true, true], vec![(0, 1)])] };
    let interface = Interface::new(&module, &info, limits());
    let mut layouts = BindingLayoutSource::new_derived(&limits());
    let mut sizes = BindingSizes::new();
    interface
        .check_stage(&mut layouts, &mut sizes, "fs", ShaderStage::Fragment, StageIo::new())
        .unwrap();
    match &layouts {
        BindingLayoutSource::Derived(groups) => {
            assert_eq!(
                groups[0].get(0).unwrap().ty,
                BindingType::Texture {
                    sample_type: TextureSampleType::Float { filterable: false },
                    view_dimension: TextureViewDimension::D2,
                    multisampled: false,
                }
            );
            assert_eq!(
                groups[0].get(1).unwrap().ty,
                BindingType::Sampler(SamplerBindingType::Comparison)
            );
        },
        _ => panic!("layouts should stay derived"),
    }
}
