use vstd::prelude::*;
use crate::reflection::node::{at_link, located, name_matches, name_of, named, Node};
use crate::kinds::{ImageFormat, Modifier, ModifierID, ParameterCategory, Stage};
use crate::reflection::program::{TypeLayoutRecord, VariableRecord};
use crate::reflection::table::{amount_for, lookup};
use crate::reflection::ty::Type;
use crate::reflection::type_layout::TypeLayout;
use crate::reflection::variable::Variable;

use crate::reflection::program::{VariableLayoutRecord, Linked, Program};

verus! {

/// The layout of a variable or parameter for one target.
#[derive(Clone, Copy)]
pub struct VariableLayout<'a> {
    program: &'a Program,
    id: usize,
}

impl<'a> Node<'a> for VariableLayout<'a> {
    closed spec fn node_id(&self) -> usize {
        self.id
    }

    closed spec fn node_program(&self) -> Program {
        *self.program
    }

    open spec fn count_in(p: Program) -> usize {
        p.records().variable_layouts@.len() as usize
    }

    fn node_index(&self) -> (r: usize) {
        self.id
    }

    fn at(program: &'a Program, id: usize) -> (r: Self) {
        VariableLayout { program, id }
    }
}

impl<'a> VariableLayout<'a> {
    #[verifier::type_invariant]
    spec fn inv(self) -> bool {
        self.id < self.program.records().variable_layouts@.len()
    }

    /// The record of the laid-out variable, where the layout names one.
    pub open spec fn variable_record(&self) -> Option<VariableRecord> {
        match self.record().variable {
            Some(v) => Some(self.node_program().records().variables@[v as int]),
            None => None,
        }
    }

    /// The record of the type layout, where the layout names one.
    pub open spec fn type_layout_record(&self) -> Option<TypeLayoutRecord> {
        match self.record().type_layout {
            Some(t) => Some(self.node_program().records().type_layouts@[t as int]),
            None => None,
        }
    }

    /// The record of the viewed node.
    pub open spec fn record(&self) -> VariableLayoutRecord {
        self.node_program().records().variable_layouts@[self.node_id() as int]
    }

    fn rec(&self) -> (r: &'a VariableLayoutRecord)
        ensures
            *r == self.record(),
            r.links_valid(self.program.records().counts(), self.id),
            self.program.records().wf(),
    {
        proof { use_type_invariant(self); }
        let records = self.program.records_ref();
        &records.variable_layouts[self.id]
    }

    pub fn variable(&self) -> (r: Option<Variable<'a>>)
        ensures
            located(r, self.node_program(), self.record().variable),
    {
        at_link(self.program, self.rec().variable)
    }

    /// The name of the laid-out variable.
    pub fn name(&self) -> (r: Option<&'a str>)
        ensures
            named(r, match self.variable_record() {
                Some(v) => v.name,
                None => None,
            }),
    {
        match self.variable() {
            Some(v) => v.name(),
            None => None,
        }
    }

    /// Whether the laid-out variable is named exactly `q`.
    pub fn is_named(&self, q: &String) -> (r: bool)
        ensures
            r == match self.variable_record() {
                Some(v) => name_matches(v.name, q@),
                None => false,
            },
    {
        match self.variable() {
            Some(v) => v.is_named(q),
            None => false,
        }
    }

    pub fn find_modifier(&self, id: ModifierID) -> (r: Option<Modifier>)
        ensures
            r == match self.variable_record() {
                Some(v) => if v.modifiers@.contains(id) { Some(Modifier { id }) } else { None },
                None => None,
            },
    {
        match self.variable() {
            Some(v) => v.find_modifier(id),
            None => None,
        }
    }

    pub fn type_layout(&self) -> (r: Option<TypeLayout<'a>>)
        ensures
            located(r, self.node_program(), self.record().type_layout),
    {
        at_link(self.program, self.rec().type_layout)
    }

    pub fn category(&self) -> (r: Option<ParameterCategory>)
        ensures
            r == match self.type_layout_record() {
                Some(t) => Some(t.parameter_category),
                None => None,
            },
    {
        match self.type_layout() {
            Some(t) => Some(t.parameter_category()),
            None => None,
        }
    }

    pub fn category_count(&self) -> (r: u32)
        ensures
            r == match self.type_layout_record() {
                Some(t) => t.categories@.len(),
                None => 0,
            },
    {
        match self.type_layout() {
            Some(t) => t.category_count(),
            None => 0,
        }
    }

    pub fn category_by_index(&self, index: u32) -> (r: Option<ParameterCategory>)
        ensures
            r == match self.type_layout_record() {
                Some(t) => Some(if index < t.categories@.len() {
                    t.categories@[index as int]
                } else {
                    ParameterCategory::Unspecified
                }),
                None => None,
            },
    {
        match self.type_layout() {
            Some(t) => Some(t.category_by_index(index)),
            None => None,
        }
    }

    pub fn categories(&self) -> (r: Vec<ParameterCategory>)
        ensures
            r@ == match self.type_layout_record() {
                Some(t) => t.categories@,
                None => Seq::empty(),
            },
    {
        match self.type_layout() {
            Some(t) => t.categories(),
            None => Vec::new(),
        }
    }

    pub fn offset(&self, category: ParameterCategory) -> (r: usize)
        ensures
            r == match lookup(self.record().offsets@, category) {
                Some(a) => a,
                None => 0,
            },
    {
        amount_for(&self.rec().offsets, category)
    }

    /// The type of the laid-out variable.
    pub fn ty(&self) -> (r: Option<Type<'a>>)
        ensures
            located(r, self.node_program(), match self.variable_record() {
                Some(v) => v.ty,
                None => None,
            }),
    {
        match self.variable() {
            Some(v) => v.ty(),
            None => None,
        }
    }

    pub fn binding_index(&self) -> (r: u32)
        ensures
            r == self.record().binding_index,
    {
        self.rec().binding_index
    }

    pub fn binding_space(&self) -> (r: u32)
        ensures
            r == self.record().binding_space,
    {
        self.rec().binding_space
    }

    pub fn binding_space_with_category(&self, category: ParameterCategory) -> (r: usize)
        ensures
            r == match lookup(self.record().spaces@, category) {
                Some(a) => a,
                None => 0,
            },
    {
        amount_for(&self.rec().spaces, category)
    }

    pub fn image_format(&self) -> (r: ImageFormat)
        ensures
            r == self.record().image_format,
    {
        self.rec().image_format
    }

    pub fn semantic_name(&self) -> (r: Option<&'a str>)
        ensures
            named(r, self.record().semantic_name),
    {
        name_of(&self.rec().semantic_name)
    }

    pub fn semantic_index(&self) -> (r: usize)
        ensures
            r == self.record().semantic_index,
    {
        self.rec().semantic_index
    }

    pub fn stage(&self) -> (r: Stage)
        ensures
            r == self.record().stage,
    {
        self.rec().stage
    }

    pub fn pending_data_layout(&self) -> (r: Option<VariableLayout<'a>>)
        ensures
            located(r, self.node_program(), self.record().pending_data_layout),
    {
        at_link(self.program, self.rec().pending_data_layout)
    }
}

} // verus!
