use vstd::prelude::*;
use crate::kinds::{GenericArg, GenericArgType, LayoutRules};
use crate::reflection::generic::Generic;
use crate::reflection::table::{same_arg_types, same_args};
use crate::reflection::entry_point::EntryPoint;
use crate::reflection::function::Function;
use crate::reflection::node::{
    all_located, at_all, at_index, at_link, has_name, is_same_nodes, located, located_at,
    name_matches, same_nodes, Node,
};
use crate::reflection::program::{GenericSpecializationEntry, Linked, Program, ShaderRecord};
use crate::reflection::ty::Type;
use crate::reflection::type_layout::TypeLayout;
use crate::reflection::type_parameter::TypeParameter;
use crate::reflection::variable::Variable;
use crate::reflection::variable_layout::VariableLayout;

verus! {

/// Entry `e` records the specialization of generic `id` for these arguments.
pub open spec fn specializes(
    e: GenericSpecializationEntry,
    id: usize,
    arg_types: Seq<GenericArgType>,
    args: Seq<GenericArg>,
) -> bool {
    e.generic == id && e.arg_types@ == arg_types && e.args@ == args
}

/// The root of a program's layout: its global parameters, entry points and
/// the program-wide queries.
#[derive(Clone, Copy)]
pub struct Shader<'a> {
    program: &'a Program,
}

impl<'a> Shader<'a> {
    /// The layout root of `program`.
    pub fn new(program: &'a Program) -> (r: Shader<'a>)
        ensures
            r.node_program() == *program,
    {
        Shader { program }
    }

    /// The program this root belongs to.
    pub closed spec fn node_program(&self) -> Program {
        *self.program
    }

    /// The root record of the program.
    pub open spec fn record(&self) -> ShaderRecord {
        self.node_program().records().root
    }

    fn root(&self) -> (r: &'a ShaderRecord)
        ensures
            *r == self.record(),
            r.links_valid(self.program.records().counts(), 0),
            self.program.records().wf(),
    {
        &self.program.records_ref().root
    }

    pub fn parameter_count(&self) -> (r: u32)
        ensures
            r == self.record().parameters@.len(),
    {
        self.root().parameters.len() as u32
    }

    pub fn parameter_by_index(&self, index: u32) -> (r: Option<VariableLayout<'a>>)
        ensures
            located_at(r, self.node_program(), self.record().parameters@, index as int),
    {
        at_index(self.program, &self.root().parameters, index)
    }

    pub fn parameters(&self) -> (r: Vec<VariableLayout<'a>>)
        ensures
            all_located(r@, self.node_program(), self.record().parameters@),
    {
        at_all(self.program, &self.root().parameters)
    }

    pub fn type_parameter_count(&self) -> (r: u32)
        ensures
            r == self.record().type_parameters@.len(),
    {
        self.root().type_parameters.len() as u32
    }

    pub fn type_parameter_by_index(&self, index: u32) -> (r: Option<TypeParameter<'a>>)
        ensures
            located_at(r, self.node_program(), self.record().type_parameters@, index as int),
    {
        at_index(self.program, &self.root().type_parameters, index)
    }

    pub fn type_parameters(&self) -> (r: Vec<TypeParameter<'a>>)
        ensures
            all_located(r@, self.node_program(), self.record().type_parameters@),
    {
        at_all(self.program, &self.root().type_parameters)
    }

    /// The first of the program's type parameters named `name`.
    pub fn find_type_parameter_by_name(&self, name: &str) -> (r: Option<TypeParameter<'a>>)
        ensures
            match r {
                Some(v) => v.node_program() == self.node_program() && exists|k: int|
                    0 <= k < self.record().type_parameters@.len()
                    && self.record().type_parameters@[k] == v.node_id()
                    && name_matches(v.record().name, name@)
                    && forall|j: int| 0 <= j < k ==> !name_matches(
                        #[trigger] self.node_program().records().type_parameters@[self.record().type_parameters@[j] as int].name, name@),
                None => forall|j: int| 0 <= j < self.record().type_parameters@.len() ==> !name_matches(
                    #[trigger] self.node_program().records().type_parameters@[self.record().type_parameters@[j] as int].name, name@),
            },
    {
        let q = name.to_owned();
        let root = self.root();
        let records = self.program.records_ref();
        let mut i: usize = 0;
        while i < root.type_parameters.len()
            invariant
                i <= root.type_parameters@.len(),
                q@ == name@,
                records.wf(),
                *records == self.program.records(),
                *root == records.root,
                forall|j: int| 0 <= j < i ==> !name_matches(
                    #[trigger] records.type_parameters@[root.type_parameters@[j] as int].name, name@),
            decreases root.type_parameters.len() - i,
        {
            let t = root.type_parameters[i];
            if has_name(&records.type_parameters[t].name, &q) {
                let r = TypeParameter::at(self.program, t);
                assert(root.type_parameters@[i as int] == r.node_id());
                return Some(r);
            }
            i += 1;
        }
        None
    }

    pub fn entry_point_count(&self) -> (r: u32)
        ensures
            r == self.record().entry_points@.len(),
    {
        self.root().entry_points.len() as u32
    }

    pub fn entry_point_by_index(&self, index: u32) -> (r: Option<EntryPoint<'a>>)
        ensures
            located_at(r, self.node_program(), self.record().entry_points@, index as int),
    {
        at_index(self.program, &self.root().entry_points, index)
    }

    pub fn entry_points(&self) -> (r: Vec<EntryPoint<'a>>)
        ensures
            all_located(r@, self.node_program(), self.record().entry_points@),
    {
        at_all(self.program, &self.root().entry_points)
    }

    /// The first of the program's entry points named `name`.
    pub fn find_entry_point_by_name(&self, name: &str) -> (r: Option<EntryPoint<'a>>)
        ensures
            match r {
                Some(v) => v.node_program() == self.node_program() && exists|k: int|
                    0 <= k < self.record().entry_points@.len()
                    && self.record().entry_points@[k] == v.node_id()
                    && name_matches(v.record().name, name@)
                    && forall|j: int| 0 <= j < k ==> !name_matches(
                        #[trigger] self.node_program().records().entry_points@[self.record().entry_points@[j] as int].name, name@),
                None => forall|j: int| 0 <= j < self.record().entry_points@.len() ==> !name_matches(
                    #[trigger] self.node_program().records().entry_points@[self.record().entry_points@[j] as int].name, name@),
            },
    {
        let q = name.to_owned();
        let root = self.root();
        let records = self.program.records_ref();
        let mut i: usize = 0;
        while i < root.entry_points.len()
            invariant
                i <= root.entry_points@.len(),
                q@ == name@,
                records.wf(),
                *records == self.program.records(),
                *root == records.root,
                forall|j: int| 0 <= j < i ==> !name_matches(
                    #[trigger] records.entry_points@[root.entry_points@[j] as int].name, name@),
            decreases root.entry_points.len() - i,
        {
            let t = root.entry_points[i];
            if has_name(&records.entry_points[t].name, &q) {
                let r = EntryPoint::at(self.program, t);
                assert(root.entry_points@[i as int] == r.node_id());
                return Some(r);
            }
            i += 1;
        }
        None
    }

    pub fn global_constant_buffer_binding(&self) -> (r: u64)
        ensures
            r == self.record().global_constant_buffer_binding,
    {
        self.root().global_constant_buffer_binding
    }

    pub fn global_constant_buffer_size(&self) -> (r: usize)
        ensures
            r == self.record().global_constant_buffer_size,
    {
        self.root().global_constant_buffer_size
    }

    /// The first type of the program named `name`.
    pub fn find_type_by_name(&self, name: &str) -> (r: Option<Type<'a>>)
        ensures
            match r {
                Some(v) => v.node_program() == self.node_program()
                    && name_matches(self.node_program().records().types@[v.node_id() as int].name, name@)
                    && forall|j: int| 0 <= j < v.node_id() ==>
                        !name_matches(#[trigger] self.node_program().records().types@[j].name, name@),
                None => forall|j: int| 0 <= j < self.node_program().records().types@.len() ==>
                    !name_matches(#[trigger] self.node_program().records().types@[j].name, name@),
            },
    {
        let q = name.to_owned();
        let records = self.program.records_ref();
        let mut i: usize = 0;
        while i < records.types.len()
            invariant
                i <= records.types@.len(),
                q@ == name@,
                records.wf(),
                *records == self.program.records(),
                forall|j: int| 0 <= j < i ==> !name_matches(#[trigger] records.types@[j].name, name@),
            decreases records.types.len() - i,
        {
            if has_name(&records.types[i].name, &q) {
                return Some(Type::at(self.program, i));
            }
            i += 1;
        }
        None
    }

    /// The first function of the program named `name`.
    pub fn find_function_by_name(&self, name: &str) -> (r: Option<Function<'a>>)
        ensures
            match r {
                Some(v) => v.node_program() == self.node_program()
                    && name_matches(self.node_program().records().functions@[v.node_id() as int].name, name@)
                    && forall|j: int| 0 <= j < v.node_id() ==>
                        !name_matches(#[trigger] self.node_program().records().functions@[j].name, name@),
                None => forall|j: int| 0 <= j < self.node_program().records().functions@.len() ==>
                    !name_matches(#[trigger] self.node_program().records().functions@[j].name, name@),
            },
    {
        let q = name.to_owned();
        let records = self.program.records_ref();
        let mut i: usize = 0;
        while i < records.functions.len()
            invariant
                i <= records.functions@.len(),
                q@ == name@,
                records.wf(),
                *records == self.program.records(),
                forall|j: int| 0 <= j < i ==> !name_matches(#[trigger] records.functions@[j].name, name@),
            decreases records.functions.len() - i,
        {
            if has_name(&records.functions[i].name, &q) {
                return Some(Function::at(self.program, i));
            }
            i += 1;
        }
        None
    }

    /// The first field of type `ty` named `name`.
    pub fn find_var_by_name_in_type(&self, ty: &Type<'a>, name: &str) -> (r: Option<Variable<'a>>)
        ensures
            match r {
                Some(v) => v.node_program() == ty.node_program() && exists|k: int|
                    0 <= k < ty.record().fields@.len()
                    && ty.record().fields@[k] == v.node_id()
                    && name_matches(v.record().name, name@)
                    && forall|j: int| 0 <= j < k ==> !name_matches(
                        #[trigger] ty.node_program().records().variables@[ty.record().fields@[j] as int].name, name@),
                None => forall|j: int| 0 <= j < ty.record().fields@.len() ==> !name_matches(
                    #[trigger] ty.node_program().records().variables@[ty.record().fields@[j] as int].name, name@),
            },
    {
        let fields = ty.fields();
        let q = name.to_owned();
        let mut i: usize = 0;
        while i < fields.len()
            invariant
                i <= fields@.len(),
                q@ == name@,
                all_located(fields@, ty.node_program(), ty.record().fields@),
                forall|j: int| 0 <= j < i ==> !name_matches(
                    #[trigger] ty.node_program().records().variables@[ty.record().fields@[j] as int].name, name@),
            decreases fields.len() - i,
        {
            if fields[i].is_named(&q) {
                return Some(fields[i]);
            }
            i += 1;
        }
        None
    }

    /// The layout the program records for `ty` under `rules`.
    pub fn type_layout(&self, ty: &Type, rules: LayoutRules) -> (r: Option<TypeLayout<'a>>)
        ensures
            match r {
                Some(l) => l.node_program() == self.node_program() && exists|k: int|
                    0 <= k < self.record().type_layouts@.len()
                    && self.record().type_layouts@[k].ty == ty.node_id()
                    && self.record().type_layouts@[k].rules == rules
                    && self.record().type_layouts@[k].layout == l.node_id()
                    && forall|j: int| 0 <= j < k ==> !(#[trigger] self.record().type_layouts@[j].ty == ty.node_id()
                        && self.record().type_layouts@[j].rules == rules),
                None => forall|j: int| 0 <= j < self.record().type_layouts@.len() ==>
                    !(#[trigger] self.record().type_layouts@[j].ty == ty.node_id()
                        && self.record().type_layouts@[j].rules == rules),
            },
    {
        let root = self.root();
        let id = ty.node_index();
        let mut i: usize = 0;
        while i < root.type_layouts.len()
            invariant
                i <= root.type_layouts@.len(),
                *root == self.record(),
                id == ty.node_id(),
                self.node_program().records().wf(),
                forall|j: int| 0 <= j < i ==> !(#[trigger] root.type_layouts@[j].ty == id
                    && root.type_layouts@[j].rules == rules),
            decreases root.type_layouts.len() - i,
        {
            let e = &root.type_layouts[i];
            if e.ty == id && e.rules == rules {
                return Some(TypeLayout::at(self.program, e.layout));
            }
            i += 1;
        }
        None
    }

    /// The layout of `ty` specialized for the argument types
    /// `specialization_args`, where the program records one.
    pub fn specialize_type(
        &self,
        ty: &Type,
        specialization_args: &[Type],
    ) -> (r: Option<TypeLayout<'a>>)
        ensures
            match r {
                Some(l) => l.node_program() == self.node_program() && exists|k: int|
                    0 <= k < self.record().type_specializations@.len()
                    && self.record().type_specializations@[k].ty == ty.node_id()
                    && same_nodes(specialization_args@, self.record().type_specializations@[k].args@)
                    && self.record().type_specializations@[k].layout == l.node_id(),
                None => forall|k: int| 0 <= k < self.record().type_specializations@.len() ==>
                    !((#[trigger] self.record().type_specializations@[k]).ty == ty.node_id()
                        && same_nodes(specialization_args@, self.record().type_specializations@[k].args@)),
            },
    {
        let root = self.root();
        let id = ty.node_index();
        let mut i: usize = 0;
        while i < root.type_specializations.len()
            invariant
                i <= root.type_specializations@.len(),
                *root == self.record(),
                id == ty.node_id(),
                self.node_program().records().wf(),
                forall|k: int| 0 <= k < i ==>
                    !((#[trigger] root.type_specializations@[k]).ty == id
                        && same_nodes(specialization_args@, root.type_specializations@[k].args@)),
            decreases root.type_specializations.len() - i,
        {
            let e = &root.type_specializations[i];
            if e.ty == id && is_same_nodes(specialization_args, &e.args) {
                return Some(TypeLayout::at(self.program, e.layout));
            }
            i += 1;
        }
        None
    }

    /// The specialization of `generic` for the arguments whose kinds are
    /// `specialization_arg_types` and whose values are
    /// `specialization_arg_vals`, where the program records one.
    pub fn specialize_generic(
        &self,
        generic: &Generic,
        specialization_arg_types: &[GenericArgType],
        specialization_arg_vals: &[GenericArg],
    ) -> (r: Option<Generic<'a>>)
        ensures
            match r {
                Some(g) => g.node_program() == self.node_program() && exists|k: int|
                    0 <= k < self.record().generic_specializations@.len()
                    && specializes(self.record().generic_specializations@[k], generic.node_id(),
                        specialization_arg_types@, specialization_arg_vals@)
                    && self.record().generic_specializations@[k].result == g.node_id(),
                None => forall|k: int| 0 <= k < self.record().generic_specializations@.len() ==>
                    !specializes(#[trigger] self.record().generic_specializations@[k], generic.node_id(),
                        specialization_arg_types@, specialization_arg_vals@),
            },
    {
        let root = self.root();
        let id = generic.node_index();
        let mut i: usize = 0;
        while i < root.generic_specializations.len()
            invariant
                i <= root.generic_specializations@.len(),
                *root == self.record(),
                id == generic.node_id(),
                self.node_program().records().wf(),
                forall|k: int| 0 <= k < i ==> !specializes(#[trigger] root.generic_specializations@[k], id,
                    specialization_arg_types@, specialization_arg_vals@),
            decreases root.generic_specializations.len() - i,
        {
            let e = &root.generic_specializations[i];
            if e.generic == id && same_arg_types(specialization_arg_types, &e.arg_types)
                && same_args(specialization_arg_vals, &e.args) {
                return Some(Generic::at(self.program, e.result));
            }
            i += 1;
        }
        None
    }

    /// Whether the program records `sub_type` as a subtype of `super_type`.
    pub fn is_sub_type(&self, sub_type: &Type, super_type: &Type) -> (r: bool)
        ensures
            r == self.record().sub_types@.contains((sub_type.node_id(), super_type.node_id())),
    {
        let root = self.root();
        let pair = (sub_type.node_index(), super_type.node_index());
        let mut i: usize = 0;
        while i < root.sub_types.len()
            invariant
                i <= root.sub_types@.len(),
                *root == self.record(),
                pair == (sub_type.node_id(), super_type.node_id()),
                forall|j: int| 0 <= j < i ==> root.sub_types@[j] != pair,
            decreases root.sub_types.len() - i,
        {
            if root.sub_types[i].0 == pair.0 && root.sub_types[i].1 == pair.1 {
                assert(root.sub_types@[i as int] == pair);
                return true;
            }
            i += 1;
        }
        false
    }

    pub fn hashed_string_count(&self) -> (r: u64)
        ensures
            r == self.record().hashed_strings@.len(),
    {
        self.root().hashed_strings.len() as u64
    }

    pub fn hashed_string(&self, index: u64) -> (r: Option<&'a str>)
        ensures
            match r {
                Some(s) => index < self.record().hashed_strings@.len()
                    && s@ == self.record().hashed_strings@[index as int]@,
                None => index >= self.record().hashed_strings@.len(),
            },
    {
        let root = self.root();
        if index < root.hashed_strings.len() as u64 {
            Some(root.hashed_strings[index as usize].as_str())
        } else {
            None
        }
    }

    pub fn hashed_strings(&self) -> (r: Vec<&'a str>)
        ensures
            r@.len() == self.record().hashed_strings@.len(),
            forall|i: int| 0 <= i < r@.len() ==> (#[trigger] r@[i])@ == self.record().hashed_strings@[i]@,
    {
        let root = self.root();
        let mut r: Vec<&'a str> = Vec::new();
        let mut i: usize = 0;
        while i < root.hashed_strings.len()
            invariant
                i <= root.hashed_strings@.len(),
                r@.len() == i,
                forall|j: int| 0 <= j < i ==> (#[trigger] r@[j])@ == root.hashed_strings@[j]@,
            decreases root.hashed_strings.len() - i,
        {
            r.push(root.hashed_strings[i].as_str());
            i += 1;
        }
        r
    }

    pub fn global_params_type_layout(&self) -> (r: Option<TypeLayout<'a>>)
        ensures
            located(r, self.node_program(), self.record().global_params_type_layout),
    {
        at_link(self.program, self.root().global_params_type_layout)
    }

    pub fn global_params_var_layout(&self) -> (r: Option<VariableLayout<'a>>)
        ensures
            located(r, self.node_program(), self.record().global_params_var_layout),
    {
        at_link(self.program, self.root().global_params_var_layout)
    }
}

} // verus!
