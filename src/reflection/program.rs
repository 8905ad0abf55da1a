//! The reflection data of one linked program, held as an arena of plain
//! records. Nodes refer to one another by index; a `Program` only exists when
//! every such index names a node that is there.

use vstd::prelude::*;
use crate::kinds::{
    BindingType, DeclKind, GenericArg, GenericArgType, ImageFormat, LayoutRules, MatrixLayoutMode, ModifierID,
    ParameterCategory, ResourceAccess, ResourceShape, ScalarType, Stage, TypeKind,
};
use crate::reflection::table::{
    check_link, check_links, check_targets, link_ok, links_ok, targets_ok,
};

verus! {

/// Number of nodes of each kind in a program.
#[derive(Clone, Copy)]
pub struct Counts {
    pub decls: usize,
    pub functions: usize,
    pub generics: usize,
    pub types: usize,
    pub type_layouts: usize,
    pub variables: usize,
    pub variable_layouts: usize,
    pub type_parameters: usize,
    pub user_attributes: usize,
    pub entry_points: usize,
}

/// A record whose links to other nodes can be checked against the node counts.
pub trait Linked {
    /// Every link of the record held at position `id` names a node that exists.
    spec fn links_valid(&self, c: Counts, id: usize) -> bool;

    fn check(&self, c: &Counts, id: usize) -> (r: bool)
        ensures
            r == self.links_valid(*c, id),
    ;
}

pub struct DeclRecord {
    pub name: Option<String>,
    pub kind: DeclKind,
    pub children: Vec<usize>,
    pub parent: Option<usize>,
    pub ty: Option<usize>,
    pub variable: Option<usize>,
    pub function: Option<usize>,
    pub generic: Option<usize>,
}

impl Linked for DeclRecord {
    open spec fn links_valid(&self, c: Counts, id: usize) -> bool {
        &&& links_ok(self.children@, c.decls)
        &&& link_ok(self.parent, c.decls)
        &&& link_ok(self.ty, c.types)
        &&& link_ok(self.variable, c.variables)
        &&& link_ok(self.function, c.functions)
        &&& link_ok(self.generic, c.generics)
    }

    fn check(&self, c: &Counts, id: usize) -> (r: bool) {
        check_links(&self.children, c.decls) && check_link(self.parent, c.decls)
            && check_link(self.ty, c.types) && check_link(self.variable, c.variables)
            && check_link(self.function, c.functions) && check_link(self.generic, c.generics)
    }
}

pub struct FunctionRecord {
    pub name: Option<String>,
    pub return_type: Option<usize>,
    pub parameters: Vec<usize>,
    pub user_attributes: Vec<usize>,
    pub modifiers: Vec<ModifierID>,
    pub generic_container: Option<usize>,
    /// Specialized function for each generic, keyed by the generic's index.
    pub specializations: Vec<(usize, usize)>,
    pub overloaded: bool,
    pub overloads: Vec<usize>,
    /// Specialized function for each list of argument types, keyed by the
    /// types' indices.
    pub arg_type_specializations: Vec<(Vec<usize>, usize)>,
}

impl Linked for FunctionRecord {
    open spec fn links_valid(&self, c: Counts, id: usize) -> bool {
        &&& link_ok(self.return_type, c.types)
        &&& links_ok(self.parameters@, c.variables)
        &&& links_ok(self.user_attributes@, c.user_attributes)
        &&& link_ok(self.generic_container, c.generics)
        &&& targets_ok(self.specializations@, c.functions)
        &&& links_ok(self.overloads@, c.functions)
        &&& targets_ok(self.arg_type_specializations@, c.functions)
    }

    fn check(&self, c: &Counts, id: usize) -> (r: bool) {
        check_link(self.return_type, c.types) && check_links(&self.parameters, c.variables)
            && check_links(&self.user_attributes, c.user_attributes)
            && check_link(self.generic_container, c.generics)
            && check_targets(&self.specializations, c.functions)
            && check_links(&self.overloads, c.functions)
            && check_targets(&self.arg_type_specializations, c.functions)
    }
}

pub struct GenericRecord {
    pub name: Option<String>,
    pub decl: Option<usize>,
    pub type_parameters: Vec<usize>,
    pub value_parameters: Vec<usize>,
    /// Constraint types of each type parameter, keyed by the parameter's
    /// variable index.
    pub constraints: Vec<(usize, Vec<usize>)>,
    pub inner_decl: Option<usize>,
    pub inner_kind: DeclKind,
    pub outer_generic_container: Option<usize>,
    /// Concrete type bound to each type parameter, keyed by variable index.
    pub concrete_types: Vec<(usize, usize)>,
    /// Concrete value bound to each value parameter, keyed by variable index.
    pub concrete_int_vals: Vec<(usize, i64)>,
    /// Specialized generic for each generic, keyed by the generic's index.
    pub specializations: Vec<(usize, usize)>,
}

pub open spec fn constraints_ok(s: Seq<(usize, Vec<usize>)>, n: usize) -> bool {
    forall|i: int| 0 <= i < s.len() ==> links_ok((#[trigger] s[i]).1@, n)
}

fn check_constraints(v: &Vec<(usize, Vec<usize>)>, n: usize) -> (r: bool)
    ensures
        r == constraints_ok(v@, n),
{
    let mut i: usize = 0;
    while i < v.len()
        invariant
            i <= v.len(),
            forall|j: int| 0 <= j < i ==> links_ok((#[trigger] v@[j]).1@, n),
        decreases v.len() - i,
    {
        if !check_links(&v[i].1, n) {
            return false;
        }
        i += 1;
    }
    true
}

impl Linked for GenericRecord {
    open spec fn links_valid(&self, c: Counts, id: usize) -> bool {
        &&& link_ok(self.decl, c.decls)
        &&& links_ok(self.type_parameters@, c.type_parameters)
        &&& links_ok(self.value_parameters@, c.variables)
        &&& constraints_ok(self.constraints@, c.types)
        &&& link_ok(self.inner_decl, c.decls)
        &&& link_ok(self.outer_generic_container, c.generics)
        &&& targets_ok(self.concrete_types@, c.types)
        &&& targets_ok(self.specializations@, c.generics)
    }

    fn check(&self, c: &Counts, id: usize) -> (r: bool) {
        check_link(self.decl, c.decls) && check_links(&self.type_parameters, c.type_parameters)
            && check_links(&self.value_parameters, c.variables)
            && check_constraints(&self.constraints, c.types)
            && check_link(self.inner_decl, c.decls)
            && check_link(self.outer_generic_container, c.generics)
            && check_targets(&self.concrete_types, c.types)
            && check_targets(&self.specializations, c.generics)
    }
}

pub struct TypeRecord {
    pub kind: TypeKind,
    pub name: Option<String>,
    pub fields: Vec<usize>,
    pub element_count: usize,
    /// Element type; it is recorded before the type that contains it.
    pub element_type: Option<usize>,
    pub row_count: u32,
    pub column_count: u32,
    pub scalar_type: ScalarType,
    pub resource_result_type: Option<usize>,
    pub resource_shape: ResourceShape,
    pub resource_access: ResourceAccess,
    pub user_attributes: Vec<usize>,
    pub generic_container: Option<usize>,
    /// Specialized type for each generic, keyed by the generic's index.
    pub specializations: Vec<(usize, usize)>,
}

impl Linked for TypeRecord {
    open spec fn links_valid(&self, c: Counts, id: usize) -> bool {
        &&& links_ok(self.fields@, c.variables)
        &&& link_ok(self.element_type, id)
        &&& link_ok(self.resource_result_type, c.types)
        &&& links_ok(self.user_attributes@, c.user_attributes)
        &&& link_ok(self.generic_container, c.generics)
        &&& targets_ok(self.specializations@, c.types)
    }

    fn check(&self, c: &Counts, id: usize) -> (r: bool) {
        check_links(&self.fields, c.variables) && check_link(self.element_type, id)
            && check_link(self.resource_result_type, c.types)
            && check_links(&self.user_attributes, c.user_attributes)
            && check_link(self.generic_container, c.generics)
            && check_targets(&self.specializations, c.types)
    }
}

/// One binding range of a type layout.
pub struct BindingRangeRecord {
    pub binding_type: BindingType,
    pub specializable: bool,
    pub binding_count: i64,
    pub leaf_type_layout: Option<usize>,
    pub leaf_variable: Option<usize>,
    pub image_format: ImageFormat,
    pub descriptor_set_index: i64,
    pub first_descriptor_range_index: i64,
    pub descriptor_range_count: i64,
}

/// One descriptor range inside a descriptor set.
pub struct DescriptorRangeRecord {
    pub index_offset: i64,
    pub descriptor_count: i64,
    pub binding_type: BindingType,
    pub category: ParameterCategory,
}

/// One descriptor set of a type layout.
pub struct DescriptorSetRecord {
    pub space_offset: i64,
    pub ranges: Vec<DescriptorRangeRecord>,
}

/// One sub-object range of a type layout.
pub struct SubObjectRangeRecord {
    pub binding_range_index: i64,
    pub space_offset: i64,
    pub offset: Option<usize>,
}

pub open spec fn binding_ranges_ok(s: Seq<BindingRangeRecord>, c: Counts) -> bool {
    forall|i: int|
        0 <= i < s.len() ==> link_ok((#[trigger] s[i]).leaf_type_layout, c.type_layouts)
            && link_ok(s[i].leaf_variable, c.variables)
}

fn check_binding_ranges(v: &Vec<BindingRangeRecord>, c: &Counts) -> (r: bool)
    ensures
        r == binding_ranges_ok(v@, *c),
{
    let mut i: usize = 0;
    while i < v.len()
        invariant
            i <= v.len(),
            forall|j: int|
                0 <= j < i ==> link_ok((#[trigger] v@[j]).leaf_type_layout, c.type_layouts)
                    && link_ok(v@[j].leaf_variable, c.variables),
        decreases v.len() - i,
    {
        if !(check_link(v[i].leaf_type_layout, c.type_layouts)
            && check_link(v[i].leaf_variable, c.variables)) {
            return false;
        }
        i += 1;
    }
    true
}

pub open spec fn sub_object_ranges_ok(s: Seq<SubObjectRangeRecord>, n: usize) -> bool {
    forall|i: int| 0 <= i < s.len() ==> link_ok((#[trigger] s[i]).offset, n)
}

fn check_sub_object_ranges(v: &Vec<SubObjectRangeRecord>, n: usize) -> (r: bool)
    ensures
        r == sub_object_ranges_ok(v@, n),
{
    let mut i: usize = 0;
    while i < v.len()
        invariant
            i <= v.len(),
            forall|j: int| 0 <= j < i ==> link_ok((#[trigger] v@[j]).offset, n),
        decreases v.len() - i,
    {
        if !check_link(v[i].offset, n) {
            return false;
        }
        i += 1;
    }
    true
}

pub struct TypeLayoutRecord {
    pub ty: Option<usize>,
    pub kind: TypeKind,
    pub sizes: Vec<(ParameterCategory, usize)>,
    pub strides: Vec<(ParameterCategory, usize)>,
    pub alignments: Vec<(ParameterCategory, i32)>,
    pub fields: Vec<usize>,
    pub explicit_counter: Option<usize>,
    pub element_strides: Vec<(ParameterCategory, usize)>,
    /// Element layout; it is recorded before the layout that contains it.
    pub element_type_layout: Option<usize>,
    pub element_var_layout: Option<usize>,
    pub container_var_layout: Option<usize>,
    pub parameter_category: ParameterCategory,
    pub categories: Vec<ParameterCategory>,
    pub matrix_layout_mode: MatrixLayoutMode,
    pub generic_param_index: i32,
    pub pending_data_type_layout: Option<usize>,
    pub specialized_type_pending_data_var_layout: Option<usize>,
    pub binding_ranges: Vec<BindingRangeRecord>,
    pub field_binding_range_offsets: Vec<i64>,
    pub explicit_counter_binding_range_offset: i64,
    pub descriptor_sets: Vec<DescriptorSetRecord>,
    pub sub_object_ranges: Vec<SubObjectRangeRecord>,
}

pub open spec fn descriptor_sets_ok(s: Seq<DescriptorSetRecord>) -> bool {
    forall|i: int| 0 <= i < s.len() ==> (#[trigger] s[i]).ranges@.len() <= i64::MAX
}

fn check_descriptor_sets(v: &Vec<DescriptorSetRecord>) -> (r: bool)
    ensures
        r == descriptor_sets_ok(v@),
{
    let mut i: usize = 0;
    while i < v.len()
        invariant
            i <= v.len(),
            forall|j: int| 0 <= j < i ==> (#[trigger] v@[j]).ranges@.len() <= i64::MAX,
        decreases v.len() - i,
    {
        if v[i].ranges.len() as u64 > i64::MAX as u64 {
            return false;
        }
        i += 1;
    }
    true
}

impl Linked for TypeLayoutRecord {
    open spec fn links_valid(&self, c: Counts, id: usize) -> bool {
        &&& self.binding_ranges@.len() <= i64::MAX
        &&& self.descriptor_sets@.len() <= i64::MAX
        &&& self.sub_object_ranges@.len() <= i64::MAX
        &&& descriptor_sets_ok(self.descriptor_sets@)
        &&& link_ok(self.ty, c.types)
        &&& links_ok(self.fields@, c.variable_layouts)
        &&& link_ok(self.explicit_counter, c.variable_layouts)
        &&& link_ok(self.element_type_layout, id)
        &&& link_ok(self.element_var_layout, c.variable_layouts)
        &&& link_ok(self.container_var_layout, c.variable_layouts)
        &&& self.categories@.len() <= u32::MAX
        &&& link_ok(self.pending_data_type_layout, c.type_layouts)
        &&& link_ok(self.specialized_type_pending_data_var_layout, c.variable_layouts)
        &&& binding_ranges_ok(self.binding_ranges@, c)
        &&& sub_object_ranges_ok(self.sub_object_ranges@, c.variable_layouts)
    }

    fn check(&self, c: &Counts, id: usize) -> (r: bool) {
        self.binding_ranges.len() as u64 <= i64::MAX as u64
            && self.descriptor_sets.len() as u64 <= i64::MAX as u64
            && self.sub_object_ranges.len() as u64 <= i64::MAX as u64
            && check_descriptor_sets(&self.descriptor_sets)
            && check_link(self.ty, c.types) && check_links(&self.fields, c.variable_layouts)
            && check_link(self.explicit_counter, c.variable_layouts)
            && check_link(self.element_type_layout, id)
            && check_link(self.element_var_layout, c.variable_layouts)
            && check_link(self.container_var_layout, c.variable_layouts)
            && self.categories.len() <= u32::MAX as usize
            && check_link(self.pending_data_type_layout, c.type_layouts)
            && check_link(self.specialized_type_pending_data_var_layout, c.variable_layouts)
            && check_binding_ranges(&self.binding_ranges, c)
            && check_sub_object_ranges(&self.sub_object_ranges, c.variable_layouts)
    }
}

pub struct VariableRecord {
    pub name: Option<String>,
    pub ty: Option<usize>,
    pub modifiers: Vec<ModifierID>,
    pub user_attributes: Vec<usize>,
    pub has_default_value: bool,
    pub default_value_int: Option<i64>,
    pub generic_container: Option<usize>,
    /// Specialized variable for each generic, keyed by the generic's index.
    pub specializations: Vec<(usize, usize)>,
}

impl Linked for VariableRecord {
    open spec fn links_valid(&self, c: Counts, id: usize) -> bool {
        &&& link_ok(self.ty, c.types)
        &&& links_ok(self.user_attributes@, c.user_attributes)
        &&& link_ok(self.generic_container, c.generics)
        &&& targets_ok(self.specializations@, c.variables)
    }

    fn check(&self, c: &Counts, id: usize) -> (r: bool) {
        check_link(self.ty, c.types) && check_links(&self.user_attributes, c.user_attributes)
            && check_link(self.generic_container, c.generics)
            && check_targets(&self.specializations, c.variables)
    }
}

pub struct VariableLayoutRecord {
    pub variable: Option<usize>,
    pub type_layout: Option<usize>,
    pub offsets: Vec<(ParameterCategory, usize)>,
    pub binding_index: u32,
    pub binding_space: u32,
    pub spaces: Vec<(ParameterCategory, usize)>,
    pub image_format: ImageFormat,
    pub semantic_name: Option<String>,
    pub semantic_index: usize,
    pub stage: Stage,
    pub pending_data_layout: Option<usize>,
}

impl Linked for VariableLayoutRecord {
    open spec fn links_valid(&self, c: Counts, id: usize) -> bool {
        &&& link_ok(self.variable, c.variables)
        &&& link_ok(self.type_layout, c.type_layouts)
        &&& link_ok(self.pending_data_layout, c.variable_layouts)
    }

    fn check(&self, c: &Counts, id: usize) -> (r: bool) {
        check_link(self.variable, c.variables) && check_link(self.type_layout, c.type_layouts)
            && check_link(self.pending_data_layout, c.variable_layouts)
    }
}

pub struct TypeParameterRecord {
    pub name: Option<String>,
    pub index: u32,
    pub constraints: Vec<usize>,
}

impl Linked for TypeParameterRecord {
    open spec fn links_valid(&self, c: Counts, id: usize) -> bool {
        links_ok(self.constraints@, c.types)
    }

    fn check(&self, c: &Counts, id: usize) -> (r: bool) {
        check_links(&self.constraints, c.types)
    }
}

/// One argument of a user attribute.
pub struct AttributeArgument {
    pub ty: Option<usize>,
    pub int_value: Option<i32>,
    pub string_value: Option<String>,
}

pub struct UserAttributeRecord {
    pub name: Option<String>,
    pub arguments: Vec<AttributeArgument>,
}

impl Linked for UserAttributeRecord {
    open spec fn links_valid(&self, c: Counts, id: usize) -> bool {
        &&& self.arguments@.len() <= u32::MAX
        &&& forall|i: int|
            0 <= i < self.arguments@.len() ==> link_ok((#[trigger] self.arguments@[i]).ty, c.types)
    }

    fn check(&self, c: &Counts, id: usize) -> (r: bool) {
        if self.arguments.len() > u32::MAX as usize {
            return false;
        }
        let mut i: usize = 0;
        while i < self.arguments.len()
            invariant
                i <= self.arguments@.len(),
                forall|j: int| 0 <= j < i ==> link_ok((#[trigger] self.arguments@[j]).ty, c.types),
            decreases self.arguments.len() - i,
        {
            if !check_link(self.arguments[i].ty, c.types) {
                return false;
            }
            i += 1;
        }
        true
    }
}

pub struct EntryPointRecord {
    pub name: Option<String>,
    pub name_override: Option<String>,
    pub parameters: Vec<usize>,
    pub function: Option<usize>,
    pub stage: Stage,
    pub compute_thread_group_size: [u64; 3],
    pub compute_wave_size: u64,
    pub uses_any_sample_rate_input: bool,
    pub var_layout: Option<usize>,
    pub result_var_layout: Option<usize>,
    pub has_default_constant_buffer: bool,
}

impl Linked for EntryPointRecord {
    open spec fn links_valid(&self, c: Counts, id: usize) -> bool {
        &&& links_ok(self.parameters@, c.variable_layouts)
        &&& link_ok(self.function, c.functions)
        &&& link_ok(self.var_layout, c.variable_layouts)
        &&& link_ok(self.result_var_layout, c.variable_layouts)
    }

    fn check(&self, c: &Counts, id: usize) -> (r: bool) {
        check_links(&self.parameters, c.variable_layouts) && check_link(self.function, c.functions)
            && check_link(self.var_layout, c.variable_layouts)
            && check_link(self.result_var_layout, c.variable_layouts)
    }
}

/// Layout computed for a type under given rules.
pub struct TypeLayoutEntry {
    pub ty: usize,
    pub rules: LayoutRules,
    pub layout: usize,
}

/// Layout of a type specialized for given argument types.
pub struct TypeSpecializationEntry {
    pub ty: usize,
    pub args: Vec<usize>,
    pub layout: usize,
}

/// A generic specialized for given arguments.
pub struct GenericSpecializationEntry {
    pub generic: usize,
    pub arg_types: Vec<GenericArgType>,
    pub args: Vec<GenericArg>,
    pub result: usize,
}

/// The root of a program's layout.
pub struct ShaderRecord {
    pub parameters: Vec<usize>,
    pub type_parameters: Vec<usize>,
    pub entry_points: Vec<usize>,
    pub global_constant_buffer_binding: u64,
    pub global_constant_buffer_size: usize,
    pub type_layouts: Vec<TypeLayoutEntry>,
    pub type_specializations: Vec<TypeSpecializationEntry>,
    pub generic_specializations: Vec<GenericSpecializationEntry>,
    /// Pairs `(sub, sup)` of type indices where `sub` is a subtype of `sup`.
    pub sub_types: Vec<(usize, usize)>,
    pub hashed_strings: Vec<String>,
    pub global_params_type_layout: Option<usize>,
    pub global_params_var_layout: Option<usize>,
}

pub open spec fn type_layout_entries_ok(s: Seq<TypeLayoutEntry>, n: usize) -> bool {
    forall|i: int| 0 <= i < s.len() ==> (#[trigger] s[i]).layout < n
}

impl Linked for ShaderRecord {
    open spec fn links_valid(&self, c: Counts, id: usize) -> bool {
        &&& links_ok(self.parameters@, c.variable_layouts)
        &&& links_ok(self.type_parameters@, c.type_parameters)
        &&& links_ok(self.entry_points@, c.entry_points)
        &&& type_layout_entries_ok(self.type_layouts@, c.type_layouts)
        &&& forall|i: int| 0 <= i < self.type_specializations@.len()
            ==> (#[trigger] self.type_specializations@[i]).layout < c.type_layouts
        &&& forall|i: int| 0 <= i < self.generic_specializations@.len()
            ==> (#[trigger] self.generic_specializations@[i]).result < c.generics
        &&& self.hashed_strings@.len() <= u64::MAX
        &&& link_ok(self.global_params_type_layout, c.type_layouts)
        &&& link_ok(self.global_params_var_layout, c.variable_layouts)
    }

    fn check(&self, c: &Counts, id: usize) -> (r: bool) {
        if !(check_links(&self.parameters, c.variable_layouts)
            && check_links(&self.type_parameters, c.type_parameters)
            && check_links(&self.entry_points, c.entry_points)
            && self.hashed_strings.len() as u64 <= u64::MAX
            && check_link(self.global_params_type_layout, c.type_layouts)
            && check_link(self.global_params_var_layout, c.variable_layouts)) {
            return false;
        }
        let mut i: usize = 0;
        while i < self.type_layouts.len()
            invariant
                i <= self.type_layouts@.len(),
                forall|j: int| 0 <= j < i ==> (#[trigger] self.type_layouts@[j]).layout < c.type_layouts,
            decreases self.type_layouts.len() - i,
        {
            if self.type_layouts[i].layout >= c.type_layouts {
                return false;
            }
            i += 1;
        }
        let mut i: usize = 0;
        while i < self.type_specializations.len()
            invariant
                i <= self.type_specializations@.len(),
                forall|j: int| 0 <= j < i ==> (#[trigger] self.type_specializations@[j]).layout < c.type_layouts,
            decreases self.type_specializations.len() - i,
        {
            if self.type_specializations[i].layout >= c.type_layouts {
                return false;
            }
            i += 1;
        }
        let mut i: usize = 0;
        while i < self.generic_specializations.len()
            invariant
                i <= self.generic_specializations@.len(),
                forall|j: int| 0 <= j < i ==> (#[trigger] self.generic_specializations@[j]).result < c.generics,
            decreases self.generic_specializations.len() - i,
        {
            if self.generic_specializations[i].result >= c.generics {
                return false;
            }
            i += 1;
        }
        true
    }
}

/// Every record of the list has valid links.
pub open spec fn records_valid<T: Linked>(s: Seq<T>, c: Counts) -> bool {
    forall|i: int| 0 <= i < s.len() ==> (#[trigger] s[i]).links_valid(c, i as usize)
}

fn check_records<T: Linked>(v: &Vec<T>, c: &Counts) -> (r: bool)
    ensures
        r == records_valid(v@, *c),
{
    let mut i: usize = 0;
    while i < v.len()
        invariant
            i <= v.len(),
            forall|j: int| 0 <= j < i ==> (#[trigger] v@[j]).links_valid(*c, j as usize),
        decreases v.len() - i,
    {
        if !v[i].check(c, i) {
            return false;
        }
        i += 1;
    }
    true
}

/// The records of every node of a program, as the compiler reported them.
pub struct ProgramRecords {
    pub decls: Vec<DeclRecord>,
    pub functions: Vec<FunctionRecord>,
    pub generics: Vec<GenericRecord>,
    pub types: Vec<TypeRecord>,
    pub type_layouts: Vec<TypeLayoutRecord>,
    pub variables: Vec<VariableRecord>,
    pub variable_layouts: Vec<VariableLayoutRecord>,
    pub type_parameters: Vec<TypeParameterRecord>,
    pub user_attributes: Vec<UserAttributeRecord>,
    pub entry_points: Vec<EntryPointRecord>,
    pub root: ShaderRecord,
}

impl ProgramRecords {
    pub open spec fn counts(&self) -> Counts {
        Counts {
            decls: self.decls@.len() as usize,
            functions: self.functions@.len() as usize,
            generics: self.generics@.len() as usize,
            types: self.types@.len() as usize,
            type_layouts: self.type_layouts@.len() as usize,
            variables: self.variables@.len() as usize,
            variable_layouts: self.variable_layouts@.len() as usize,
            type_parameters: self.type_parameters@.len() as usize,
            user_attributes: self.user_attributes@.len() as usize,
            entry_points: self.entry_points@.len() as usize,
        }
    }

    /// Every link held anywhere in the records names a node that exists.
    pub open spec fn wf(&self) -> bool {
        let c = self.counts();
        &&& self.decls@.len() <= usize::MAX && self.functions@.len() <= usize::MAX
        &&& self.generics@.len() <= usize::MAX && self.types@.len() <= usize::MAX
        &&& self.type_layouts@.len() <= usize::MAX && self.variables@.len() <= usize::MAX
        &&& self.variable_layouts@.len() <= usize::MAX
        &&& self.type_parameters@.len() <= usize::MAX
        &&& self.user_attributes@.len() <= usize::MAX && self.entry_points@.len() <= usize::MAX
        &&& records_valid(self.decls@, c)
        &&& records_valid(self.functions@, c)
        &&& records_valid(self.generics@, c)
        &&& records_valid(self.types@, c)
        &&& records_valid(self.type_layouts@, c)
        &&& records_valid(self.variables@, c)
        &&& records_valid(self.variable_layouts@, c)
        &&& records_valid(self.type_parameters@, c)
        &&& records_valid(self.user_attributes@, c)
        &&& records_valid(self.entry_points@, c)
        &&& self.root.links_valid(c, 0)
    }
}

/// The reflection data of one linked program, with every link checked.
pub struct Program {
    records: ProgramRecords,
}

impl Program {
    #[verifier::type_invariant]
    spec fn inv(self) -> bool {
        self.records.wf()
    }

    /// The records this program was built from.
    pub closed spec fn records(&self) -> ProgramRecords {
        self.records
    }

    /// Builds a program from its records; absent when some link names a node
    /// that is not there.
    pub fn new(records: ProgramRecords) -> (r: Option<Program>)
        ensures
            r is Some <==> records.wf(),
            r is Some ==> r->0.records() == records,
    {
        let c = Counts {
            decls: records.decls.len(),
            functions: records.functions.len(),
            generics: records.generics.len(),
            types: records.types.len(),
            type_layouts: records.type_layouts.len(),
            variables: records.variables.len(),
            variable_layouts: records.variable_layouts.len(),
            type_parameters: records.type_parameters.len(),
            user_attributes: records.user_attributes.len(),
            entry_points: records.entry_points.len(),
        };
        assert(c == records.counts());
        if check_records(&records.decls, &c) && check_records(&records.functions, &c)
            && check_records(&records.generics, &c) && check_records(&records.types, &c)
            && check_records(&records.type_layouts, &c) && check_records(&records.variables, &c)
            && check_records(&records.variable_layouts, &c)
            && check_records(&records.type_parameters, &c)
            && check_records(&records.user_attributes, &c)
            && check_records(&records.entry_points, &c) && records.root.check(&c, 0) {
            Some(Program { records })
        } else {
            None
        }
    }

    /// The records, which are known to be well linked.
    pub fn records_ref(&self) -> (r: &ProgramRecords)
        ensures
            *r == self.records(),
            r.wf(),
    {
        proof { use_type_invariant(self); }
        &self.records
    }
}

} // verus!
