use vstd::prelude::*;
use crate::reflection::node::{at_link, located, has_name, name_matches, name_of, named, Node};
use crate::reflection::ty::Type;
use crate::reflection::program::{UserAttributeRecord, Linked, Program};

verus! {

/// A user-defined attribute attached to a declaration.
#[derive(Clone, Copy)]
pub struct UserAttribute<'a> {
    program: &'a Program,
    id: usize,
}

impl<'a> Node<'a> for UserAttribute<'a> {
    closed spec fn node_id(&self) -> usize {
        self.id
    }

    closed spec fn node_program(&self) -> Program {
        *self.program
    }

    open spec fn count_in(p: Program) -> usize {
        p.records().user_attributes@.len() as usize
    }

    fn node_index(&self) -> (r: usize) {
        self.id
    }

    fn at(program: &'a Program, id: usize) -> (r: Self) {
        UserAttribute { program, id }
    }
}

impl<'a> UserAttribute<'a> {
    #[verifier::type_invariant]
    spec fn inv(self) -> bool {
        self.id < self.program.records().user_attributes@.len()
    }

    /// The record of the viewed node.
    pub open spec fn record(&self) -> UserAttributeRecord {
        self.node_program().records().user_attributes@[self.node_id() as int]
    }

    fn rec(&self) -> (r: &'a UserAttributeRecord)
        ensures
            *r == self.record(),
            r.links_valid(self.program.records().counts(), self.id),
            self.program.records().wf(),
    {
        proof { use_type_invariant(self); }
        let records = self.program.records_ref();
        &records.user_attributes[self.id]
    }

    /// Whether the attribute is named exactly `q`.
    pub fn is_named(&self, q: &String) -> (r: bool)
        ensures
            r == name_matches(self.record().name, q@),
    {
        has_name(&self.rec().name, q)
    }

    pub fn name(&self) -> (r: Option<&'a str>)
        ensures
            named(r, self.record().name),
    {
        name_of(&self.rec().name)
    }

    pub fn argument_count(&self) -> (r: u32)
        ensures
            r == self.record().arguments@.len(),
    {
        self.rec().arguments.len() as u32
    }

    pub fn argument_type(&self, index: u32) -> (r: Option<Type<'a>>)
        ensures
            located(
                r,
                self.node_program(),
                if index < self.record().arguments@.len() { self.record().arguments@[index as int].ty } else { None },
            ),
    {
        let rec = self.rec();
        if (index as usize) < rec.arguments.len() {
            at_link(self.program, rec.arguments[index as usize].ty)
        } else {
            None
        }
    }

    pub fn argument_value_int(&self, index: u32) -> (r: Option<i32>)
        ensures
            r == (if index < self.record().arguments@.len() { self.record().arguments@[index as int].int_value } else { None }),
    {
        let rec = self.rec();
        if (index as usize) < rec.arguments.len() {
            rec.arguments[index as usize].int_value
        } else {
            None
        }
    }

    pub fn argument_value_string(&self, index: u32) -> (r: Option<&'a str>)
        ensures
            named(
                r,
                if index < self.record().arguments@.len() { self.record().arguments@[index as int].string_value } else { None },
            ),
    {
        let rec = self.rec();
        if (index as usize) < rec.arguments.len() {
            name_of(&rec.arguments[index as usize].string_value)
        } else {
            None
        }
    }
}

} // verus!
