use slang::reflection::{
    AttributeArgument, BindingRangeRecord, DeclRecord, DescriptorRangeRecord, DescriptorSetRecord,
    EntryPointRecord, FunctionRecord, GenericRecord, GenericSpecializationEntry, Node, Program, ProgramRecords, Shader,
    ShaderRecord, SubObjectRangeRecord, TypeLayoutEntry, TypeLayoutRecord, TypeParameterRecord, TypeSpecializationEntry,
    TypeRecord, UserAttributeRecord, VariableLayoutRecord, VariableRecord,
};
use slang::{
    BindingType, DeclKind, GenericArg, GenericArgType, ImageFormat, LayoutRules, MatrixLayoutMode, Modifier, ModifierID,
    ParameterCategory, ResourceAccess, ResourceShape, ScalarType, Stage, TypeKind,
};

fn ty(kind: TypeKind, name: &str, element_type: Option<usize>, element_count: usize) -> TypeRecord {
    TypeRecord {
        kind,
        name: Some(name.to_string()),
        fields: vec![],
        element_count,
        element_type,
        row_count: 1,
        column_count: 1,
        scalar_type: ScalarType::Float32,
        resource_result_type: None,
        resource_shape: ResourceShape::Unspecified,
        resource_access: ResourceAccess::Unspecified,
        user_attributes: vec![],
        generic_container: None,
        specializations: vec![],
    }
}

fn var(name: &str, ty: Option<usize>) -> VariableRecord {
    VariableRecord {
        name: Some(name.to_string()),
        ty,
        modifiers: vec![],
        user_attributes: vec![],
        has_default_value: false,
        default_value_int: None,
        generic_container: None,
        specializations: vec![],
    }
}

fn type_layout(ty: Option<usize>, kind: TypeKind) -> TypeLayoutRecord {
    TypeLayoutRecord {
        ty,
        kind,
        sizes: vec![],
        strides: vec![],
        alignments: vec![],
        fields: vec![],
        explicit_counter: None,
        element_strides: vec![],
        element_type_layout: None,
        element_var_layout: None,
        container_var_layout: None,
        parameter_category: ParameterCategory::Uniform,
        categories: vec![],
        matrix_layout_mode: MatrixLayoutMode::RowMajor,
        generic_param_index: -1,
        pending_data_type_layout: None,
        specialized_type_pending_data_var_layout: None,
        binding_ranges: vec![],
        field_binding_range_offsets: vec![],
        explicit_counter_binding_range_offset: 0,
        descriptor_sets: vec![],
        sub_object_ranges: vec![],
    }
}

fn var_layout(variable: Option<usize>, type_layout: Option<usize>) -> VariableLayoutRecord {
    VariableLayoutRecord {
        variable,
        type_layout,
        offsets: vec![],
        binding_index: 0,
        binding_space: 0,
        spaces: vec![],
        image_format: ImageFormat::Unknown,
        semantic_name: None,
        semantic_index: 0,
        stage: Stage::Unspecified,
        pending_data_layout: None,
    }
}

fn decl(name: &str, kind: DeclKind, children: Vec<usize>, parent: Option<usize>) -> DeclRecord {
    DeclRecord {
        name: Some(name.to_string()),
        kind,
        children,
        parent,
        ty: None,
        variable: None,
        function: None,
        generic: None,
    }
}

fn root() -> ShaderRecord {
    ShaderRecord {
        parameters: vec![],
        type_parameters: vec![],
        entry_points: vec![],
        global_constant_buffer_binding: 0,
        global_constant_buffer_size: 0,
        type_layouts: vec![],
        type_specializations: vec![],
        generic_specializations: vec![],
        sub_types: vec![],
        hashed_strings: vec![],
        global_params_type_layout: None,
        global_params_var_layout: None,
    }
}

fn empty() -> ProgramRecords {
    ProgramRecords {
        decls: vec![],
        functions: vec![],
        generics: vec![],
        types: vec![],
        type_layouts: vec![],
        variables: vec![],
        variable_layouts: vec![],
        type_parameters: vec![],
        user_attributes: vec![],
        entry_points: vec![],
        root: root(),
    }
}

fn entry_point(name: &str, parameters: Vec<usize>) -> EntryPointRecord {
    EntryPointRecord {
        name: Some(name.to_string()),
        name_override: None,
        parameters,
        function: None,
        stage: Stage::Compute,
        compute_thread_group_size: [8, 8, 1],
        compute_wave_size: 0,
        uses_any_sample_rate_input: false,
        var_layout: None,
        result_var_layout: None,
        has_default_constant_buffer: true,
    }
}

/// A program with one compute entry point `main` and three uniform
/// parameters, as a session with one target reports it.
fn one_entry_three_uniforms() -> ProgramRecords {
    let mut r = empty();
    r.types = vec![ty(TypeKind::Scalar, "float", None, 0)];
    r.type_layouts = vec![type_layout(Some(0), TypeKind::Scalar)];
    r.variables = vec![var("a", Some(0)), var("b", Some(0)), var("c", Some(0))];
    r.variable_layouts = vec![
        var_layout(Some(0), Some(0)),
        var_layout(Some(1), Some(0)),
        var_layout(Some(2), Some(0)),
    ];
    r.entry_points = vec![entry_point("main", vec![])];
    r.root.parameters = vec![0, 1, 2];
    r.root.entry_points = vec![0];
    r
}

#[test]
fn layout_reports_one_entry_point_and_three_parameters() {
    let program = Program::new(one_entry_three_uniforms()).unwrap();
    let reflection = Shader::new(&program);
    assert_eq!(reflection.entry_point_count(), 1);
    assert_eq!(reflection.parameter_count(), 3);
    let names: Vec<&str> = reflection.parameters().iter().map(|p| p.name().unwrap()).collect();
    assert_eq!(names, vec!["a", "b", "c"]);
    let main = reflection.entry_point_by_index(0).unwrap();
    assert_eq!(main.name(), Some("main"));
    assert_eq!(main.stage(), Stage::Compute);
    assert_eq!(main.compute_thread_group_size(), [8, 8, 1]);
    assert!(main.has_default_constant_buffer());
}

#[test]
fn index_access_agrees_with_counts() {
    let mut r = one_entry_three_uniforms();
    r.decls = vec![
        decl("test", DeclKind::Module, vec![1, 2, 3], None),
        decl("S", DeclKind::Struct, vec![], Some(0)),
        decl("main", DeclKind::Func, vec![], Some(0)),
        decl("g", DeclKind::Variable, vec![], Some(0)),
    ];
    let program = Program::new(r).unwrap();
    let module = program_decl(&program);
    assert_eq!(module.child_count(), 3);
    for i in 0..module.child_count() {
        assert!(module.child_by_index(i).is_some());
    }
    assert!(module.child_by_index(module.child_count()).is_none());
    assert_eq!(module.children().len(), 3);
    let child = module.child_by_index(1).unwrap();
    assert_eq!(child.name(), Some("main"));
    assert_eq!(child.kind(), DeclKind::Func);
    assert_eq!(child.parent().unwrap().name(), Some("test"));
    assert!(module.parent().is_none());

    let shader = Shader::new(&program);
    for i in 0..shader.parameter_count() {
        assert!(shader.parameter_by_index(i).is_some());
    }
    assert!(shader.parameter_by_index(shader.parameter_count()).is_none());
    assert!(shader.entry_point_by_index(shader.entry_point_count()).is_none());
}

fn program_decl(program: &Program) -> slang::reflection::Decl<'_> {
    slang::reflection::Decl::at(program, 0)
}

#[test]
fn dangling_links_are_refused() {
    let mut r = one_entry_three_uniforms();
    r.root.parameters = vec![0, 1, 7];
    assert!(Program::new(r).is_none());

    let mut r = empty();
    r.decls = vec![decl("m", DeclKind::Module, vec![4], None)];
    assert!(Program::new(r).is_none());

    // An element type must be recorded before the array that holds it.
    let mut r = empty();
    r.types = vec![ty(TypeKind::Array, "A", Some(0), 2)];
    assert!(Program::new(r).is_none());

    assert!(Program::new(empty()).is_some());
}

fn nested_arrays() -> ProgramRecords {
    let mut r = empty();
    r.types = vec![
        ty(TypeKind::Scalar, "float", None, 0),
        ty(TypeKind::Array, "float[3]", Some(0), 3),
        ty(TypeKind::Array, "float[3][4]", Some(1), 4),
    ];
    r.type_layouts = vec![
        type_layout(Some(0), TypeKind::Scalar),
        TypeLayoutRecord { element_type_layout: Some(0), ..type_layout(Some(1), TypeKind::Array) },
        TypeLayoutRecord { element_type_layout: Some(1), ..type_layout(Some(2), TypeKind::Array) },
        type_layout(None, TypeKind::Struct),
    ];
    r
}

#[test]
fn arrays_unwrap_to_their_innermost_element() {
    let program = Program::new(nested_arrays()).unwrap();
    let outer = slang::reflection::Type::at(&program, 2);
    assert!(outer.is_array());
    assert_eq!(outer.element_count(), 4);
    assert_eq!(outer.element_type().unwrap().name(), Some("float[3]"));
    let inner = outer.unwrap_array();
    assert_eq!(inner.name(), Some("float"));
    assert!(!inner.is_array());
    assert_eq!(inner.unwrap_array().name(), Some("float"));
    assert_eq!(outer.total_array_element_count(), 12);
    assert_eq!(slang::reflection::Type::at(&program, 1).total_array_element_count(), 3);
    assert_eq!(inner.total_array_element_count(), 0);

    let layout = slang::reflection::TypeLayout::at(&program, 2);
    assert!(layout.is_array());
    assert_eq!(layout.unwrap_array().node_index(), 0);
    assert_eq!(layout.total_array_element_count(), 12);
    assert_eq!(layout.element_count(), Some(4));
    assert_eq!(layout.name(), Some("float[3][4]"));
    let untyped = slang::reflection::TypeLayout::at(&program, 3);
    assert!(!untyped.is_array());
    assert_eq!(untyped.total_array_element_count(), 0);
    assert_eq!(untyped.element_count(), None);
    assert_eq!(untyped.unwrap_array().node_index(), 3);
}

#[test]
fn empty_array_level_gives_zero_elements() {
    let mut r = empty();
    r.types = vec![
        ty(TypeKind::Scalar, "int", None, 0),
        ty(TypeKind::Array, "int[0]", Some(0), 0),
        ty(TypeKind::Array, "int[0][5]", Some(1), 5),
    ];
    let program = Program::new(r).unwrap();
    assert_eq!(slang::reflection::Type::at(&program, 2).total_array_element_count(), 0);
}

#[test]
fn type_layout_queries_by_category_and_index() {
    let mut r = nested_arrays();
    r.variables = vec![var("tex", Some(0))];
    r.variable_layouts = vec![VariableLayoutRecord {
        offsets: vec![(ParameterCategory::ShaderResource, 2)],
        spaces: vec![(ParameterCategory::ShaderResource, 1)],
        semantic_name: Some("TEXCOORD".to_string()),
        semantic_index: 1,
        binding_index: 2,
        binding_space: 1,
        ..var_layout(Some(0), Some(0))
    }];
    r.type_layouts[0] = TypeLayoutRecord {
        sizes: vec![(ParameterCategory::Uniform, 4), (ParameterCategory::Uniform, 99)],
        strides: vec![(ParameterCategory::Uniform, 16)],
        alignments: vec![(ParameterCategory::Uniform, 4)],
        categories: vec![ParameterCategory::Uniform, ParameterCategory::ShaderResource],
        binding_ranges: vec![BindingRangeRecord {
            binding_type: BindingType::Texture,
            specializable: true,
            binding_count: 1,
            leaf_type_layout: Some(0),
            leaf_variable: Some(0),
            image_format: ImageFormat::Rgba8,
            descriptor_set_index: 0,
            first_descriptor_range_index: 0,
            descriptor_range_count: 1,
        }],
        field_binding_range_offsets: vec![0, 3],
        descriptor_sets: vec![DescriptorSetRecord {
            space_offset: 2,
            ranges: vec![DescriptorRangeRecord {
                index_offset: 5,
                descriptor_count: 6,
                binding_type: BindingType::Sampler,
                category: ParameterCategory::SamplerState,
            }],
        }],
        sub_object_ranges: vec![SubObjectRangeRecord {
            binding_range_index: 0,
            space_offset: 7,
            offset: Some(0),
        }],
        ..type_layout(Some(0), TypeKind::Scalar)
    };
    let program = Program::new(r).unwrap();
    let tl = slang::reflection::TypeLayout::at(&program, 0);
    assert_eq!(tl.size(ParameterCategory::Uniform), 4);
    assert_eq!(tl.size(ParameterCategory::ShaderResource), 0);
    assert_eq!(tl.stride(ParameterCategory::Uniform), 16);
    assert_eq!(tl.alignment(ParameterCategory::Uniform), 4);
    assert_eq!(tl.alignment(ParameterCategory::Mixed), 0);
    assert_eq!(tl.category_count(), 2);
    assert_eq!(tl.category_by_index(1), ParameterCategory::ShaderResource);
    assert_eq!(tl.category_by_index(2), ParameterCategory::Unspecified);
    assert_eq!(tl.categories(), vec![ParameterCategory::Uniform, ParameterCategory::ShaderResource]);
    assert_eq!(tl.binding_range_count(), 1);
    assert_eq!(tl.binding_range_type(0), BindingType::Texture);
    assert_eq!(tl.binding_range_type(1), BindingType::Unknown);
    assert_eq!(tl.binding_range_type(-1), BindingType::Unknown);
    assert!(tl.is_binding_range_specializable(0));
    assert_eq!(tl.binding_range_image_format(0), ImageFormat::Rgba8);
    assert_eq!(tl.binding_range_leaf_variable(0).unwrap().name(), Some("tex"));
    assert!(tl.binding_range_leaf_type_layout(3).is_none());
    assert_eq!(tl.field_binding_range_offset(1), 3);
    assert_eq!(tl.descriptor_set_count(), 1);
    assert_eq!(tl.descriptor_set_space_offset(0), 2);
    assert_eq!(tl.descriptor_set_descriptor_range_count(0), 1);
    assert_eq!(tl.descriptor_set_descriptor_range_index_offset(0, 0), 5);
    assert_eq!(tl.descriptor_set_descriptor_range_descriptor_count(0, 0), 6);
    assert_eq!(tl.descriptor_set_descriptor_range_type(0, 0), BindingType::Sampler);
    assert_eq!(tl.descriptor_set_descriptor_range_category(0, 0), ParameterCategory::SamplerState);
    assert_eq!(tl.descriptor_set_descriptor_range_category(0, 1), ParameterCategory::Unspecified);
    assert_eq!(tl.sub_object_range_count(), 1);
    assert_eq!(tl.sub_object_range_space_offset(0), 7);
    assert!(tl.sub_object_range_offset(0).is_some());
    assert!(tl.sub_object_range_offset(1).is_none());

    let vl = slang::reflection::VariableLayout::at(&program, 0);
    assert_eq!(vl.name(), Some("tex"));
    assert_eq!(vl.offset(ParameterCategory::ShaderResource), 2);
    assert_eq!(vl.offset(ParameterCategory::Uniform), 0);
    assert_eq!(vl.binding_space_with_category(ParameterCategory::ShaderResource), 1);
    assert_eq!(vl.binding_index(), 2);
    assert_eq!(vl.semantic_name(), Some("TEXCOORD"));
    assert_eq!(vl.semantic_index(), 1);
    assert_eq!(vl.category(), Some(ParameterCategory::Uniform));
    assert_eq!(vl.category_count(), 2);
    assert_eq!(vl.category_by_index(0), Some(ParameterCategory::Uniform));
    assert_eq!(vl.categories().len(), 2);
    assert_eq!(vl.ty().unwrap().name(), Some("float"));
}

fn generic_program() -> ProgramRecords {
    let mut r = empty();
    r.types = vec![ty(TypeKind::Scalar, "int", None, 0), ty(TypeKind::Interface, "IFoo", None, 0)];
    r.variables = vec![
        VariableRecord { modifiers: vec![ModifierID::Const, ModifierID::Static], ..var("T", None) },
        VariableRecord { has_default_value: true, default_value_int: Some(4), ..var("N", Some(0)) },
    ];
    r.type_parameters = vec![TypeParameterRecord { name: Some("T".to_string()), index: 0, constraints: vec![1] }];
    r.decls = vec![decl("f", DeclKind::Generic, vec![], None)];
    r.generics = vec![
        GenericRecord {
            name: Some("f".to_string()),
            decl: Some(0),
            type_parameters: vec![0],
            value_parameters: vec![1],
            constraints: vec![(0, vec![1])],
            inner_decl: Some(0),
            inner_kind: DeclKind::Func,
            outer_generic_container: None,
            concrete_types: vec![(0, 0)],
            concrete_int_vals: vec![(1, 4)],
            specializations: vec![(0, 1)],
        },
        GenericRecord {
            name: Some("f<int, 4>".to_string()),
            decl: None,
            type_parameters: vec![],
            value_parameters: vec![],
            constraints: vec![],
            inner_decl: None,
            inner_kind: DeclKind::Func,
            outer_generic_container: Some(0),
            concrete_types: vec![],
            concrete_int_vals: vec![],
            specializations: vec![],
        },
    ];
    r.user_attributes = vec![UserAttributeRecord {
        name: Some("MaxIters".to_string()),
        arguments: vec![
            AttributeArgument { ty: Some(0), int_value: Some(16), string_value: None },
            AttributeArgument { ty: None, int_value: None, string_value: Some("fast".to_string()) },
        ],
    }];
    r.functions = vec![
        FunctionRecord {
            name: Some("f".to_string()),
            return_type: Some(0),
            parameters: vec![1],
            user_attributes: vec![0],
            modifiers: vec![ModifierID::Export],
            generic_container: Some(0),
            specializations: vec![(1, 1)],
            overloaded: true,
            overloads: vec![0, 1],
            arg_type_specializations: vec![(vec![0, 0], 1)],
        },
        FunctionRecord {
            name: Some("f<int, 4>".to_string()),
            return_type: Some(0),
            parameters: vec![],
            user_attributes: vec![],
            modifiers: vec![],
            generic_container: None,
            specializations: vec![],
            overloaded: false,
            overloads: vec![],
            arg_type_specializations: vec![],
        },
    ];
    r.root.sub_types = vec![(0, 1)];
    r.root.hashed_strings = vec!["alpha".to_string(), "beta".to_string()];
    r.root.type_layouts = vec![TypeLayoutEntry { ty: 0, rules: LayoutRules::Default, layout: 0 }];
    r.root.type_specializations = vec![TypeSpecializationEntry { ty: 1, args: vec![0], layout: 0 }];
    r.root.generic_specializations = vec![GenericSpecializationEntry {
        generic: 0,
        arg_types: vec![GenericArgType::Type, GenericArgType::Int],
        args: vec![GenericArg::Type(0), GenericArg::Int(4)],
        result: 1,
    }];
    r.type_layouts = vec![type_layout(Some(0), TypeKind::Scalar)];
    r
}

#[test]
fn generics_functions_and_attributes() {
    let program = Program::new(generic_program()).unwrap();
    let g = slang::reflection::Generic::at(&program, 0);
    let t = slang::reflection::Variable::at(&program, 0);
    let n = slang::reflection::Variable::at(&program, 1);
    assert_eq!(g.name(), Some("f"));
    assert_eq!(g.type_parameter_count(), 1);
    assert_eq!(g.type_parameter_by_index(0).unwrap().name(), Some("T"));
    assert_eq!(g.type_parameters()[0].constraints()[0].name(), Some("IFoo"));
    assert_eq!(g.value_parameter_count(), 1);
    assert_eq!(g.value_parameters()[0].name(), Some("N"));
    assert_eq!(g.type_parameter_constraint_count(&t), 1);
    assert_eq!(g.type_parameter_constraint_count(&n), 0);
    assert_eq!(g.type_parameter_constraint_by_index(&t, 0).unwrap().name(), Some("IFoo"));
    assert!(g.type_parameter_constraint_by_index(&t, 1).is_none());
    assert_eq!(g.concrete_type(&t).unwrap().name(), Some("int"));
    assert!(g.concrete_type(&n).is_none());
    assert_eq!(g.concrete_int_val(&n), 4);
    assert_eq!(g.concrete_int_val(&t), 0);
    assert_eq!(g.inner_kind(), DeclKind::Func);
    assert_eq!(g.as_decl().unwrap().kind(), DeclKind::Generic);
    let specialized = g.apply_specializations(&g).unwrap();
    assert_eq!(specialized.name(), Some("f<int, 4>"));
    assert_eq!(specialized.outer_generic_container().unwrap().name(), Some("f"));
    assert!(specialized.apply_specializations(&g).is_none());

    assert_eq!(t.find_modifier(ModifierID::Static), Some(Modifier { id: ModifierID::Static }));
    assert_eq!(t.find_modifier(ModifierID::Export), None);
    assert!(n.has_default_value());
    assert_eq!(n.default_value_int(), Some(4));
    assert_eq!(t.default_value_int(), None);

    let f = slang::reflection::Function::at(&program, 0);
    assert_eq!(f.name(), Some("f"));
    assert_eq!(f.return_type().unwrap().name(), Some("int"));
    assert_eq!(f.parameter_count(), 1);
    assert_eq!(f.parameters()[0].name(), Some("N"));
    assert!(f.is_overloaded());
    assert_eq!(f.overload_count(), 2);
    assert_eq!(f.overload_by_index(1).unwrap().name(), Some("f<int, 4>"));
    assert!(f.overload_by_index(2).is_none());
    assert_eq!(f.find_modifier(ModifierID::Export), Some(Modifier { id: ModifierID::Export }));
    assert_eq!(f.generic_container().unwrap().name(), Some("f"));
    let sg = slang::reflection::Generic::at(&program, 1);
    assert_eq!(f.apply_specializations(&sg).unwrap().name(), Some("f<int, 4>"));
    assert!(f.apply_specializations(&g).is_none());

    let attr = f.user_attribute_by_index(0).unwrap();
    assert_eq!(attr.name(), Some("MaxIters"));
    assert_eq!(attr.argument_count(), 2);
    assert_eq!(attr.argument_type(0).unwrap().name(), Some("int"));
    assert!(attr.argument_type(1).is_none());
    assert_eq!(attr.argument_value_int(0), Some(16));
    assert_eq!(attr.argument_value_int(1), None);
    assert_eq!(attr.argument_value_string(1), Some("fast"));
    assert_eq!(attr.argument_value_string(5), None);
    assert_eq!(f.user_attributes().len(), 1);
}

#[test]
fn program_wide_lookups() {
    let program = Program::new(generic_program()).unwrap();
    let shader = Shader::new(&program);
    let int_ty = shader.find_type_by_name("int").unwrap();
    let ifoo = shader.find_type_by_name("IFoo").unwrap();
    assert_eq!(int_ty.kind(), TypeKind::Scalar);
    assert!(shader.find_type_by_name("float").is_none());
    assert!(shader.is_sub_type(&int_ty, &ifoo));
    assert!(!shader.is_sub_type(&ifoo, &int_ty));
    assert_eq!(shader.find_function_by_name("f<int, 4>").unwrap().parameter_count(), 0);
    assert!(shader.find_function_by_name("g").is_none());
    assert!(shader.type_layout(&int_ty, LayoutRules::Default).is_some());
    assert!(shader.type_layout(&int_ty, LayoutRules::MetalArgumentBufferTier2).is_none());
    assert!(shader.type_layout(&ifoo, LayoutRules::Default).is_none());
    assert_eq!(shader.hashed_string_count(), 2);
    assert_eq!(shader.hashed_string(1), Some("beta"));
    assert_eq!(shader.hashed_string(2), None);
    assert_eq!(shader.hashed_strings(), vec!["alpha", "beta"]);
    assert!(shader.global_params_type_layout().is_none());

    let program = Program::new(one_entry_three_uniforms()).unwrap();
    let shader = Shader::new(&program);
    assert_eq!(shader.find_entry_point_by_name("main").unwrap().name(), Some("main"));
    assert!(shader.find_entry_point_by_name("mai").is_none());
}

#[test]
fn fields_are_found_by_name() {
    let mut r = empty();
    r.types = vec![ty(TypeKind::Scalar, "float", None, 0), ty(TypeKind::Struct, "Light", None, 0)];
    r.types[1].fields = vec![0, 1];
    r.variables = vec![var("color", Some(0)), var("intensity", Some(0))];
    let program = Program::new(r).unwrap();
    let shader = Shader::new(&program);
    let light = shader.find_type_by_name("Light").unwrap();
    assert_eq!(light.field_count(), 2);
    assert_eq!(light.field_by_index(1).unwrap().name(), Some("intensity"));
    let found = shader.find_var_by_name_in_type(&light, "intensity").unwrap();
    assert_eq!(found.node_index(), 1);
    assert!(shader.find_var_by_name_in_type(&light, "radius").is_none());
}

#[test]
fn specializations_and_attributes_by_name() {
    let mut table = slang::ObjectTable::new();
    let global_session = slang::GlobalSession(table.create());
    let program = Program::new(generic_program()).unwrap();
    let shader = Shader::new(&program);
    let f = slang::reflection::Function::at(&program, 0);
    let int_ty = shader.find_type_by_name("int").unwrap();
    let ifoo = shader.find_type_by_name("IFoo").unwrap();
    let specialized = f.specialize_with_arg_types(&[int_ty, int_ty]).unwrap();
    assert_eq!(specialized.name(), Some("f<int, 4>"));
    assert!(f.specialize_with_arg_types(&[int_ty]).is_none());
    assert!(f.specialize_with_arg_types(&[int_ty, ifoo]).is_none());
    assert!(shader.specialize_type(&ifoo, &[int_ty]).is_some());
    assert!(shader.specialize_type(&ifoo, &[]).is_none());
    assert!(shader.specialize_type(&int_ty, &[int_ty]).is_none());

    let attr = f.find_user_attribute_by_name(&global_session, "MaxIters").unwrap();
    assert_eq!(attr.argument_value_int(0), Some(16));
    assert!(f.find_user_attribute_by_name(&global_session, "maxiters").is_none());
    let n = slang::reflection::Variable::at(&program, 1);
    assert!(n.find_user_attribute_by_name(&global_session, "MaxIters").is_none());
    assert!(int_ty.find_user_attribute_by_name("MaxIters").is_none());
}

#[test]
fn field_index_is_found_by_name() {
    let mut r = empty();
    r.types = vec![ty(TypeKind::Scalar, "float", None, 0), ty(TypeKind::Struct, "Light", None, 0)];
    r.variables = vec![var("color", Some(0)), var("intensity", Some(0))];
    r.type_layouts = vec![
        type_layout(Some(0), TypeKind::Scalar),
        TypeLayoutRecord { fields: vec![0, 1, 2], ..type_layout(Some(1), TypeKind::Struct) },
    ];
    r.variable_layouts = vec![
        var_layout(Some(0), Some(0)),
        var_layout(Some(1), Some(0)),
        var_layout(None, Some(0)),
    ];
    let program = Program::new(r).unwrap();
    let light = slang::reflection::TypeLayout::at(&program, 1);
    assert_eq!(light.field_count(), 3);
    assert_eq!(light.find_field_index_by_name("intensity"), 1);
    assert_eq!(light.find_field_index_by_name("color"), 0);
    assert_eq!(light.find_field_index_by_name("radius"), -1);
    assert_eq!(light.field_by_index(0).unwrap().type_layout().unwrap().kind(), TypeKind::Scalar);
    assert!(light.field_by_index(2).unwrap().name().is_none());
}

#[test]
fn generics_specialize_for_recorded_arguments() {
    let program = Program::new(generic_program()).unwrap();
    let shader = Shader::new(&program);
    let g = slang::reflection::Generic::at(&program, 0);
    let types = [GenericArgType::Type, GenericArgType::Int];
    let specialized = shader
        .specialize_generic(&g, &types, &[GenericArg::Type(0), GenericArg::Int(4)])
        .unwrap();
    assert_eq!(specialized.name(), Some("f<int, 4>"));
    assert!(shader.specialize_generic(&g, &types, &[GenericArg::Type(0), GenericArg::Int(5)]).is_none());
    assert!(shader.specialize_generic(&g, &types[..1], &[GenericArg::Type(0)]).is_none());
    assert!(shader.specialize_generic(&specialized, &types, &[GenericArg::Type(0), GenericArg::Int(4)]).is_none());
}
