use vstd::prelude::*;
use crate::reflection::node::{
    all_located, at_all, at_index, at_link, located, located_at, name_of, named, Node,
};
use crate::kinds::Stage;
use crate::reflection::function::Function;
use crate::reflection::type_layout::TypeLayout;
use crate::reflection::variable_layout::VariableLayout;

use crate::reflection::program::{EntryPointRecord, Linked, Program};

verus! {

/// An entry point of a program, as laid out for one target.
#[derive(Clone, Copy)]
pub struct EntryPoint<'a> {
    program: &'a Program,
    id: usize,
}

impl<'a> Node<'a> for EntryPoint<'a> {
    closed spec fn node_id(&self) -> usize {
        self.id
    }

    closed spec fn node_program(&self) -> Program {
        *self.program
    }

    open spec fn count_in(p: Program) -> usize {
        p.records().entry_points@.len() as usize
    }

    fn node_index(&self) -> (r: usize) {
        self.id
    }

    fn at(program: &'a Program, id: usize) -> (r: Self) {
        EntryPoint { program, id }
    }
}

impl<'a> EntryPoint<'a> {
    #[verifier::type_invariant]
    spec fn inv(self) -> bool {
        self.id < self.program.records().entry_points@.len()
    }

    /// The record of the viewed node.
    pub open spec fn record(&self) -> EntryPointRecord {
        self.node_program().records().entry_points@[self.node_id() as int]
    }

    fn rec(&self) -> (r: &'a EntryPointRecord)
        ensures
            *r == self.record(),
            r.links_valid(self.program.records().counts(), self.id),
            self.program.records().wf(),
    {
        proof { use_type_invariant(self); }
        let records = self.program.records_ref();
        &records.entry_points[self.id]
    }

    pub fn name(&self) -> (r: Option<&'a str>)
        ensures
            named(r, self.record().name),
    {
        name_of(&self.rec().name)
    }

    pub fn name_override(&self) -> (r: Option<&'a str>)
        ensures
            named(r, self.record().name_override),
    {
        name_of(&self.rec().name_override)
    }

    pub fn parameter_count(&self) -> (r: u32)
        ensures
            r == self.record().parameters@.len(),
    {
        self.rec().parameters.len() as u32
    }

    pub fn parameter_by_index(&self, index: u32) -> (r: Option<VariableLayout<'a>>)
        ensures
            located_at(r, self.node_program(), self.record().parameters@, index as int),
    {
        at_index(self.program, &self.rec().parameters, index)
    }

    pub fn parameters(&self) -> (r: Vec<VariableLayout<'a>>)
        ensures
            all_located(r@, self.node_program(), self.record().parameters@),
    {
        at_all(self.program, &self.rec().parameters)
    }

    pub fn function(&self) -> (r: Option<Function<'a>>)
        ensures
            located(r, self.node_program(), self.record().function),
    {
        at_link(self.program, self.rec().function)
    }

    pub fn stage(&self) -> (r: Stage)
        ensures
            r == self.record().stage,
    {
        self.rec().stage
    }

    pub fn compute_thread_group_size(&self) -> (r: [u64; 3])
        ensures
            r == self.record().compute_thread_group_size,
    {
        self.rec().compute_thread_group_size
    }

    pub fn compute_wave_size(&self) -> (r: u64)
        ensures
            r == self.record().compute_wave_size,
    {
        self.rec().compute_wave_size
    }

    pub fn uses_any_sample_rate_input(&self) -> (r: bool)
        ensures
            r == self.record().uses_any_sample_rate_input,
    {
        self.rec().uses_any_sample_rate_input
    }

    pub fn var_layout(&self) -> (r: Option<VariableLayout<'a>>)
        ensures
            located(r, self.node_program(), self.record().var_layout),
    {
        at_link(self.program, self.rec().var_layout)
    }

    /// The type layout of the entry point's parameter block.
    pub fn type_layout(&self) -> (r: Option<TypeLayout<'a>>)
        ensures
            located(r, self.node_program(), match self.record().var_layout {
                Some(v) => self.node_program().records().variable_layouts@[v as int].type_layout,
                None => None,
            }),
    {
        match self.var_layout() {
            Some(v) => v.type_layout(),
            None => None,
        }
    }

    pub fn result_var_layout(&self) -> (r: Option<VariableLayout<'a>>)
        ensures
            located(r, self.node_program(), self.record().result_var_layout),
    {
        at_link(self.program, self.rec().result_var_layout)
    }

    pub fn has_default_constant_buffer(&self) -> (r: bool)
        ensures
            r == self.record().has_default_constant_buffer,
    {
        self.rec().has_default_constant_buffer
    }
}

} // verus!
