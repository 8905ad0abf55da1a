use vstd::prelude::*;
use crate::reflection::node::{
    all_located, at_all, at_index, at_link, located, located_at, name_of, named, Node,
};
use crate::kinds::DeclKind;
use crate::reflection::decl::Decl;
use crate::reflection::table::{find_index_key, links_ok, lemma_lookup_target, lookup, lookup_index};
use crate::reflection::ty::Type;
use crate::reflection::type_parameter::TypeParameter;
use crate::reflection::variable::Variable;
use crate::reflection::program::{GenericRecord, Linked, Program};

verus! {

/// A generic declaration of a program, with its parameters and bindings.
#[derive(Clone, Copy)]
pub struct Generic<'a> {
    program: &'a Program,
    id: usize,
}

impl<'a> Node<'a> for Generic<'a> {
    closed spec fn node_id(&self) -> usize {
        self.id
    }

    closed spec fn node_program(&self) -> Program {
        *self.program
    }

    open spec fn count_in(p: Program) -> usize {
        p.records().generics@.len() as usize
    }

    fn node_index(&self) -> (r: usize) {
        self.id
    }

    fn at(program: &'a Program, id: usize) -> (r: Self) {
        Generic { program, id }
    }
}

impl<'a> Generic<'a> {
    #[verifier::type_invariant]
    spec fn inv(self) -> bool {
        self.id < self.program.records().generics@.len()
    }

    /// The record of the viewed node.
    pub open spec fn record(&self) -> GenericRecord {
        self.node_program().records().generics@[self.node_id() as int]
    }

    fn rec(&self) -> (r: &'a GenericRecord)
        ensures
            *r == self.record(),
            r.links_valid(self.program.records().counts(), self.id),
            self.program.records().wf(),
    {
        proof { use_type_invariant(self); }
        let records = self.program.records_ref();
        &records.generics[self.id]
    }

    pub fn as_decl(&self) -> (r: Option<Decl<'a>>)
        ensures
            located(r, self.node_program(), self.record().decl),
    {
        at_link(self.program, self.rec().decl)
    }

    pub fn name(&self) -> (r: Option<&'a str>)
        ensures
            named(r, self.record().name),
    {
        name_of(&self.rec().name)
    }

    pub fn type_parameter_count(&self) -> (r: u32)
        ensures
            r == self.record().type_parameters@.len(),
    {
        self.rec().type_parameters.len() as u32
    }

    pub fn type_parameter_by_index(&self, index: u32) -> (r: Option<TypeParameter<'a>>)
        ensures
            located_at(r, self.node_program(), self.record().type_parameters@, index as int),
    {
        at_index(self.program, &self.rec().type_parameters, index)
    }

    pub fn type_parameters(&self) -> (r: Vec<TypeParameter<'a>>)
        ensures
            all_located(r@, self.node_program(), self.record().type_parameters@),
    {
        at_all(self.program, &self.rec().type_parameters)
    }

    pub fn value_parameter_count(&self) -> (r: u32)
        ensures
            r == self.record().value_parameters@.len(),
    {
        self.rec().value_parameters.len() as u32
    }

    pub fn value_parameter_by_index(&self, index: u32) -> (r: Option<Variable<'a>>)
        ensures
            located_at(r, self.node_program(), self.record().value_parameters@, index as int),
    {
        at_index(self.program, &self.rec().value_parameters, index)
    }

    pub fn value_parameters(&self) -> (r: Vec<Variable<'a>>)
        ensures
            all_located(r@, self.node_program(), self.record().value_parameters@),
    {
        at_all(self.program, &self.rec().value_parameters)
    }

    /// Constraint types recorded for the type parameter `param`.
    pub open spec fn constraints_of(&self, param: usize) -> Seq<usize> {
        match lookup(self.record().constraints@, param) {
            Some(l) => l@,
            None => Seq::empty(),
        }
    }

    pub fn type_parameter_constraint_count(&self, type_param: &Variable) -> (r: u32)
        ensures
            r == self.constraints_of(type_param.node_id()).len(),
    {
        let rec = self.rec();
        match find_index_key(&rec.constraints, type_param.node_index()) {
            Some(p) => {
                assert(links_ok(rec.constraints@[p as int].1@, Type::count_in(*self.program)));
                rec.constraints[p].1.len() as u32
            },
            None => 0,
        }
    }

    pub fn type_parameter_constraint_by_index(

        &self,

        type_param: &Variable,

        index: u32,

    ) -> (r: Option<Type<'a>>)
        ensures
            located_at(r, self.node_program(), self.constraints_of(type_param.node_id()), index as int),
    {
        let rec = self.rec();
        match find_index_key(&rec.constraints, type_param.node_index()) {
            Some(p) => {
                assert(links_ok(rec.constraints@[p as int].1@, Type::count_in(*self.program)));
                at_index(self.program, &rec.constraints[p].1, index)
            },
            None => None,
        }
    }

    pub fn inner_decl(&self) -> (r: Option<Decl<'a>>)
        ensures
            located(r, self.node_program(), self.record().inner_decl),
    {
        at_link(self.program, self.rec().inner_decl)
    }

    pub fn inner_kind(&self) -> (r: DeclKind)
        ensures
            r == self.record().inner_kind,
    {
        self.rec().inner_kind
    }

    pub fn outer_generic_container(&self) -> (r: Option<Generic<'a>>)
        ensures
            located(r, self.node_program(), self.record().outer_generic_container),
    {
        at_link(self.program, self.rec().outer_generic_container)
    }

    /// The concrete type bound to the type parameter `type_param`, where the
    /// program records one.
    pub fn concrete_type(&self, type_param: &Variable) -> (r: Option<Type<'a>>)
        ensures
            located(r, self.node_program(), lookup(self.record().concrete_types@, type_param.node_id())),
    {
        let rec = self.rec();
        proof { lemma_lookup_target(rec.concrete_types@, type_param.node_id(), Type::count_in(*self.program)); }
        at_link(self.program, lookup_index(&rec.concrete_types, type_param.node_index()))
    }

    /// The value bound to the value parameter `value_param`, or zero where
    /// none is recorded.
    pub fn concrete_int_val(&self, value_param: &Variable) -> (r: i64)
        ensures
            r == match lookup(self.record().concrete_int_vals@, value_param.node_id()) {
                Some(v) => v,
                None => 0,
            },
    {
        let rec = self.rec();
        match find_index_key(&rec.concrete_int_vals, value_param.node_index()) {
            Some(p) => rec.concrete_int_vals[p].1,
            None => 0,
        }
    }

    /// The specialization of this node for `generic`, where the program
    /// records one.
    pub fn apply_specializations(&self, generic: &Generic) -> (r: Option<Generic<'a>>)
        ensures
            located(r, self.node_program(), lookup(self.record().specializations@, generic.node_id())),
    {
        let rec = self.rec();
        proof { lemma_lookup_target(rec.specializations@, generic.node_id(), Generic::count_in(*self.program)); }
        at_link(self.program, lookup_index(&rec.specializations, generic.node_index()))
    }
}

} // verus!
