use vstd::prelude::*;
use crate::component::GlobalSession;
use crate::reflection::node::{
    all_located, at_all, at_index, at_link, located, located_at, has_name, name_matches, name_of,
    named, Node,
};
use crate::kinds::{Modifier, ModifierID};
use crate::reflection::generic::Generic;
use crate::reflection::table::{has_modifier, lemma_lookup_target, lookup, lookup_index};
use crate::reflection::ty::Type;
use crate::reflection::user_attribute::UserAttribute;
use crate::reflection::program::{VariableRecord, Linked, Program};

verus! {

/// A variable, field or parameter declaration of a program.
#[derive(Clone, Copy)]
pub struct Variable<'a> {
    program: &'a Program,
    id: usize,
}

impl<'a> Node<'a> for Variable<'a> {
    closed spec fn node_id(&self) -> usize {
        self.id
    }

    closed spec fn node_program(&self) -> Program {
        *self.program
    }

    open spec fn count_in(p: Program) -> usize {
        p.records().variables@.len() as usize
    }

    fn node_index(&self) -> (r: usize) {
        self.id
    }

    fn at(program: &'a Program, id: usize) -> (r: Self) {
        Variable { program, id }
    }
}

impl<'a> Variable<'a> {
    #[verifier::type_invariant]
    spec fn inv(self) -> bool {
        self.id < self.program.records().variables@.len()
    }

    /// The record of the viewed node.
    pub open spec fn record(&self) -> VariableRecord {
        self.node_program().records().variables@[self.node_id() as int]
    }

    fn rec(&self) -> (r: &'a VariableRecord)
        ensures
            *r == self.record(),
            r.links_valid(self.program.records().counts(), self.id),
            self.program.records().wf(),
    {
        proof { use_type_invariant(self); }
        let records = self.program.records_ref();
        &records.variables[self.id]
    }

    /// Whether the variable is named exactly `q`.
    pub fn is_named(&self, q: &String) -> (r: bool)
        ensures
            r == name_matches(self.record().name, q@),
    {
        has_name(&self.rec().name, q)
    }

    pub fn name(&self) -> (r: Option<&'a str>)
        ensures
            named(r, self.record().name),
    {
        name_of(&self.rec().name)
    }

    pub fn ty(&self) -> (r: Option<Type<'a>>)
        ensures
            located(r, self.node_program(), self.record().ty),
    {
        at_link(self.program, self.rec().ty)
    }

    pub fn find_modifier(&self, id: ModifierID) -> (r: Option<Modifier>)
        ensures
            r == (if self.record().modifiers@.contains(id) { Some(Modifier { id }) } else { None }),
    {
        if has_modifier(&self.rec().modifiers, id) {
            Some(Modifier { id })
        } else {
            None
        }
    }

    pub fn user_attribute_count(&self) -> (r: u32)
        ensures
            r == self.record().user_attributes@.len(),
    {
        self.rec().user_attributes.len() as u32
    }

    pub fn user_attribute_by_index(&self, index: u32) -> (r: Option<UserAttribute<'a>>)
        ensures
            located_at(r, self.node_program(), self.record().user_attributes@, index as int),
    {
        at_index(self.program, &self.rec().user_attributes, index)
    }

    pub fn user_attributes(&self) -> (r: Vec<UserAttribute<'a>>)
        ensures
            all_located(r@, self.node_program(), self.record().user_attributes@),
    {
        at_all(self.program, &self.rec().user_attributes)
    }

    /// The first of this node's user attributes named `name`.
    pub fn find_user_attribute_by_name(
        &self,
        global_session: &GlobalSession,
        name: &str,
    ) -> (r: Option<UserAttribute<'a>>)
        ensures
            match r {
                Some(v) => v.node_program() == self.node_program() && exists|k: int|
                    0 <= k < self.record().user_attributes@.len()
                    && self.record().user_attributes@[k] == v.node_id()
                    && name_matches(v.record().name, name@)
                    && forall|j: int| 0 <= j < k ==> !name_matches(
                        #[trigger] self.node_program().records().user_attributes@[self.record().user_attributes@[j] as int].name, name@),
                None => forall|j: int| 0 <= j < self.record().user_attributes@.len() ==> !name_matches(
                    #[trigger] self.node_program().records().user_attributes@[self.record().user_attributes@[j] as int].name, name@),
            },
    {
        let attributes = self.user_attributes();
        let q = name.to_owned();
        let mut i: usize = 0;
        while i < attributes.len()
            invariant
                i <= attributes@.len(),
                q@ == name@,
                all_located(attributes@, self.node_program(), self.record().user_attributes@),
                forall|j: int| 0 <= j < i ==> !name_matches(
                    #[trigger] self.node_program().records().user_attributes@[self.record().user_attributes@[j] as int].name, name@),
            decreases attributes.len() - i,
        {
            if attributes[i].is_named(&q) {
                return Some(attributes[i]);
            }
            i += 1;
        }
        None
    }

    pub fn has_default_value(&self) -> (r: bool)
        ensures
            r == self.record().has_default_value,
    {
        self.rec().has_default_value
    }

    /// The default value of the variable as an integer, where it has one.
    pub fn default_value_int(&self) -> (r: Option<i64>)
        ensures
            r == self.record().default_value_int,
    {
        self.rec().default_value_int
    }

    pub fn generic_container(&self) -> (r: Option<Generic<'a>>)
        ensures
            located(r, self.node_program(), self.record().generic_container),
    {
        at_link(self.program, self.rec().generic_container)
    }

    /// The specialization of this node for `generic`, where the program
    /// records one.
    pub fn apply_specializations(&self, generic: &Generic) -> (r: Option<Variable<'a>>)
        ensures
            located(r, self.node_program(), lookup(self.record().specializations@, generic.node_id())),
    {
        let rec = self.rec();
        proof { lemma_lookup_target(rec.specializations@, generic.node_id(), Variable::count_in(*self.program)); }
        at_link(self.program, lookup_index(&rec.specializations, generic.node_index()))
    }
}

} // verus!
