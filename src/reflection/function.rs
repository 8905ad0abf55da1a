use vstd::prelude::*;
use crate::component::GlobalSession;
use crate::reflection::node::{
    all_located, at_all, at_index, at_link, located, located_at, is_same_nodes, same_nodes,
    name_matches, name_of, named, Node,
};
use crate::kinds::{Modifier, ModifierID};
use crate::reflection::generic::Generic;
use crate::reflection::table::{targets_ok, has_modifier, lemma_lookup_target, lookup, lookup_index};
use crate::reflection::ty::Type;
use crate::reflection::user_attribute::UserAttribute;
use crate::reflection::variable::Variable;
use crate::reflection::program::{FunctionRecord, Linked, Program};

verus! {

/// A function declaration of a program.
#[derive(Clone, Copy)]
pub struct Function<'a> {
    program: &'a Program,
    id: usize,
}

impl<'a> Node<'a> for Function<'a> {
    closed spec fn node_id(&self) -> usize {
        self.id
    }

    closed spec fn node_program(&self) -> Program {
        *self.program
    }

    open spec fn count_in(p: Program) -> usize {
        p.records().functions@.len() as usize
    }

    fn node_index(&self) -> (r: usize) {
        self.id
    }

    fn at(program: &'a Program, id: usize) -> (r: Self) {
        Function { program, id }
    }
}

impl<'a> Function<'a> {
    #[verifier::type_invariant]
    spec fn inv(self) -> bool {
        self.id < self.program.records().functions@.len()
    }

    /// The record of the viewed node.
    pub open spec fn record(&self) -> FunctionRecord {
        self.node_program().records().functions@[self.node_id() as int]
    }

    fn rec(&self) -> (r: &'a FunctionRecord)
        ensures
            *r == self.record(),
            r.links_valid(self.program.records().counts(), self.id),
            self.program.records().wf(),
    {
        proof { use_type_invariant(self); }
        let records = self.program.records_ref();
        &records.functions[self.id]
    }

    pub fn name(&self) -> (r: Option<&'a str>)
        ensures
            named(r, self.record().name),
    {
        name_of(&self.rec().name)
    }

    pub fn return_type(&self) -> (r: Option<Type<'a>>)
        ensures
            located(r, self.node_program(), self.record().return_type),
    {
        at_link(self.program, self.rec().return_type)
    }

    pub fn parameter_count(&self) -> (r: u32)
        ensures
            r == self.record().parameters@.len(),
    {
        self.rec().parameters.len() as u32
    }

    pub fn parameter_by_index(&self, index: u32) -> (r: Option<Variable<'a>>)
        ensures
            located_at(r, self.node_program(), self.record().parameters@, index as int),
    {
        at_index(self.program, &self.rec().parameters, index)
    }

    pub fn parameters(&self) -> (r: Vec<Variable<'a>>)
        ensures
            all_located(r@, self.node_program(), self.record().parameters@),
    {
        at_all(self.program, &self.rec().parameters)
    }

    pub fn user_attribute_count(&self) -> (r: u32)
        ensures
            r == self.record().user_attributes@.len(),
    {
        self.rec().user_attributes.len() as u32
    }

    pub fn user_attribute_by_index(&self, index: u32) -> (r: Option<UserAttribute<'a>>)
        ensures
            located_at(r, self.node_program(), self.record().user_attributes@, index as int),
    {
        at_index(self.program, &self.rec().user_attributes, index)
    }

    pub fn user_attributes(&self) -> (r: Vec<UserAttribute<'a>>)
        ensures
            all_located(r@, self.node_program(), self.record().user_attributes@),
    {
        at_all(self.program, &self.rec().user_attributes)
    }

    /// The first of this node's user attributes named `name`.
    pub fn find_user_attribute_by_name(
        &self,
        global_session: &GlobalSession,
        name: &str,
    ) -> (r: Option<UserAttribute<'a>>)
        ensures
            match r {
                Some(v) => v.node_program() == self.node_program() && exists|k: int|
                    0 <= k < self.record().user_attributes@.len()
                    && self.record().user_attributes@[k] == v.node_id()
                    && name_matches(v.record().name, name@)
                    && forall|j: int| 0 <= j < k ==> !name_matches(
                        #[trigger] self.node_program().records().user_attributes@[self.record().user_attributes@[j] as int].name, name@),
                None => forall|j: int| 0 <= j < self.record().user_attributes@.len() ==> !name_matches(
                    #[trigger] self.node_program().records().user_attributes@[self.record().user_attributes@[j] as int].name, name@),
            },
    {
        let attributes = self.user_attributes();
        let q = name.to_owned();
        let mut i: usize = 0;
        while i < attributes.len()
            invariant
                i <= attributes@.len(),
                q@ == name@,
                all_located(attributes@, self.node_program(), self.record().user_attributes@),
                forall|j: int| 0 <= j < i ==> !name_matches(
                    #[trigger] self.node_program().records().user_attributes@[self.record().user_attributes@[j] as int].name, name@),
            decreases attributes.len() - i,
        {
            if attributes[i].is_named(&q) {
                return Some(attributes[i]);
            }
            i += 1;
        }
        None
    }

    pub fn find_modifier(&self, id: ModifierID) -> (r: Option<Modifier>)
        ensures
            r == (if self.record().modifiers@.contains(id) { Some(Modifier { id }) } else { None }),
    {
        if has_modifier(&self.rec().modifiers, id) {
            Some(Modifier { id })
        } else {
            None
        }
    }

    pub fn generic_container(&self) -> (r: Option<Generic<'a>>)
        ensures
            located(r, self.node_program(), self.record().generic_container),
    {
        at_link(self.program, self.rec().generic_container)
    }

    /// The specialization of this node for `generic`, where the program
    /// records one.
    pub fn apply_specializations(&self, generic: &Generic) -> (r: Option<Function<'a>>)
        ensures
            located(r, self.node_program(), lookup(self.record().specializations@, generic.node_id())),
    {
        let rec = self.rec();
        proof { lemma_lookup_target(rec.specializations@, generic.node_id(), Function::count_in(*self.program)); }
        at_link(self.program, lookup_index(&rec.specializations, generic.node_index()))
    }

    /// The specialization of this function for the argument types `types`,
    /// where the program records one.
    pub fn specialize_with_arg_types(&self, types: &[Type]) -> (r: Option<Function<'a>>)
        ensures
            match r {
                Some(f) => f.node_program() == self.node_program() && exists|k: int|
                    0 <= k < self.record().arg_type_specializations@.len()
                    && same_nodes(types@, self.record().arg_type_specializations@[k].0@)
                    && self.record().arg_type_specializations@[k].1 == f.node_id(),
                None => forall|k: int| 0 <= k < self.record().arg_type_specializations@.len() ==>
                    !same_nodes(types@, (#[trigger] self.record().arg_type_specializations@[k]).0@),
            },
    {
        let rec = self.rec();
        let table = &rec.arg_type_specializations;
        let mut i: usize = 0;
        while i < table.len()
            invariant
                i <= table@.len(),
                *table == self.record().arg_type_specializations,
                targets_ok(table@, Function::count_in(*self.program)),
                forall|k: int| 0 <= k < i ==> !same_nodes(types@, (#[trigger] table@[k]).0@),
            decreases table.len() - i,
        {
            if is_same_nodes(types, &table[i].0) {
                assert(table@[i as int].1 < Function::count_in(*self.program));
                return Some(Function::at(self.program, table[i].1));
            }
            i += 1;
        }
        None
    }

    pub fn is_overloaded(&self) -> (r: bool)
        ensures
            r == self.record().overloaded,
    {
        self.rec().overloaded
    }

    pub fn overload_count(&self) -> (r: u32)
        ensures
            r == self.record().overloads@.len(),
    {
        self.rec().overloads.len() as u32
    }

    pub fn overload_by_index(&self, index: u32) -> (r: Option<Function<'a>>)
        ensures
            located_at(r, self.node_program(), self.record().overloads@, index as int),
    {
        at_index(self.program, &self.rec().overloads, index)
    }

    pub fn overloads(&self) -> (r: Vec<Function<'a>>)
        ensures
            all_located(r@, self.node_program(), self.record().overloads@),
    {
        at_all(self.program, &self.rec().overloads)
    }
}

} // verus!
