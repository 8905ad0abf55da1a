use vstd::prelude::*;
use crate::reflection::node::{all_located, at_all, at_index, located_at, name_of, named, Node};
use crate::reflection::ty::Type;
use crate::reflection::program::{TypeParameterRecord, Linked, Program};

verus! {

/// A type parameter of a program or of a generic.
#[derive(Clone, Copy)]
pub struct TypeParameter<'a> {
    program: &'a Program,
    id: usize,
}

impl<'a> Node<'a> for TypeParameter<'a> {
    closed spec fn node_id(&self) -> usize {
        self.id
    }

    closed spec fn node_program(&self) -> Program {
        *self.program
    }

    open spec fn count_in(p: Program) -> usize {
        p.records().type_parameters@.len() as usize
    }

    fn node_index(&self) -> (r: usize) {
        self.id
    }

    fn at(program: &'a Program, id: usize) -> (r: Self) {
        TypeParameter { program, id }
    }
}

impl<'a> TypeParameter<'a> {
    #[verifier::type_invariant]
    spec fn inv(self) -> bool {
        self.id < self.program.records().type_parameters@.len()
    }

    /// The record of the viewed node.
    pub open spec fn record(&self) -> TypeParameterRecord {
        self.node_program().records().type_parameters@[self.node_id() as int]
    }

    fn rec(&self) -> (r: &'a TypeParameterRecord)
        ensures
            *r == self.record(),
            r.links_valid(self.program.records().counts(), self.id),
            self.program.records().wf(),
    {
        proof { use_type_invariant(self); }
        let records = self.program.records_ref();
        &records.type_parameters[self.id]
    }

    pub fn name(&self) -> (r: Option<&'a str>)
        ensures
            named(r, self.record().name),
    {
        name_of(&self.rec().name)
    }

    pub fn index(&self) -> (r: u32)
        ensures
            r == self.record().index,
    {
        self.rec().index
    }

    pub fn constraint_count(&self) -> (r: u32)
        ensures
            r == self.record().constraints@.len(),
    {
        self.rec().constraints.len() as u32
    }

    pub fn constraint_by_index(&self, index: u32) -> (r: Option<Type<'a>>)
        ensures
            located_at(r, self.node_program(), self.record().constraints@, index as int),
    {
        at_index(self.program, &self.rec().constraints, index)
    }

    pub fn constraints(&self) -> (r: Vec<Type<'a>>)
        ensures
            all_located(r@, self.node_program(), self.record().constraints@),
    {
        at_all(self.program, &self.rec().constraints)
    }
}

} // verus!
