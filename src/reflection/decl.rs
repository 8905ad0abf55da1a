use vstd::prelude::*;
use crate::kinds::DeclKind;
use crate::reflection::function::Function;
use crate::reflection::generic::Generic;
use crate::reflection::node::{
    all_located, at_all, at_index, at_link, located, located_at, name_of, named, Node,
};
use crate::reflection::program::{DeclRecord, Linked, Program};
use crate::reflection::ty::Type;
use crate::reflection::variable::Variable;

verus! {

/// A declaration of a program: a module, struct, function, generic,
/// variable or namespace.
#[derive(Clone, Copy)]
pub struct Decl<'a> {
    program: &'a Program,
    id: usize,
}

impl<'a> Node<'a> for Decl<'a> {
    closed spec fn node_id(&self) -> usize {
        self.id
    }

    closed spec fn node_program(&self) -> Program {
        *self.program
    }

    open spec fn count_in(p: Program) -> usize {
        p.records().decls@.len() as usize
    }

    fn node_index(&self) -> (r: usize) {
        self.id
    }

    fn at(program: &'a Program, id: usize) -> (r: Self) {
        Decl { program, id }
    }
}

impl<'a> Decl<'a> {
    #[verifier::type_invariant]
    spec fn inv(self) -> bool {
        self.id < self.program.records().decls@.len()
    }

    /// The record of the viewed declaration.
    pub open spec fn record(&self) -> DeclRecord {
        self.node_program().records().decls@[self.node_id() as int]
    }

    fn rec(&self) -> (r: &'a DeclRecord)
        ensures
            *r == self.record(),
            r.links_valid(self.program.records().counts(), self.id),
            self.program.records().wf(),
    {
        proof { use_type_invariant(self); }
        let records = self.program.records_ref();
        &records.decls[self.id]
    }

    pub fn name(&self) -> (r: Option<&'a str>)
        ensures
            named(r, self.record().name),
    {
        name_of(&self.rec().name)
    }

    pub fn kind(&self) -> (r: DeclKind)
        ensures
            r == self.record().kind,
    {
        self.rec().kind
    }

    pub fn child_count(&self) -> (r: u32)
        ensures
            r == self.record().children@.len(),
    {
        self.rec().children.len() as u32
    }

    pub fn child_by_index(&self, index: u32) -> (r: Option<Decl<'a>>)
        ensures
            located_at(r, self.node_program(), self.record().children@, index as int),
    {
        at_index(self.program, &self.rec().children, index)
    }

    pub fn children(&self) -> (r: Vec<Decl<'a>>)
        ensures
            all_located(r@, self.node_program(), self.record().children@),
    {
        at_all(self.program, &self.rec().children)
    }

    pub fn ty(&self) -> (r: Option<Type<'a>>)
        ensures
            located(r, self.node_program(), self.record().ty),
    {
        at_link(self.program, self.rec().ty)
    }

    pub fn as_variable(&self) -> (r: Option<Variable<'a>>)
        ensures
            located(r, self.node_program(), self.record().variable),
    {
        at_link(self.program, self.rec().variable)
    }

    pub fn as_function(&self) -> (r: Option<Function<'a>>)
        ensures
            located(r, self.node_program(), self.record().function),
    {
        at_link(self.program, self.rec().function)
    }

    pub fn as_generic(&self) -> (r: Option<Generic<'a>>)
        ensures
            located(r, self.node_program(), self.record().generic),
    {
        at_link(self.program, self.rec().generic)
    }

    pub fn parent(&self) -> (r: Option<Decl<'a>>)
        ensures
            located(r, self.node_program(), self.record().parent),
    {
        at_link(self.program, self.rec().parent)
    }
}

} // verus!
