use vstd::prelude::*;
use crate::reflection::node::{
    all_located, at_all, at_index, at_link, located, located_at, name_matches, named, Node,
};
use crate::kinds::{
    BindingType, ImageFormat, MatrixLayoutMode, ParameterCategory, ResourceAccess, ResourceShape,
    ScalarType, TypeKind,
};
use crate::reflection::program::{ProgramRecords, TypeRecord};
use crate::reflection::table::{entry, find_category_key, link_ok, lookup, position};
use crate::reflection::ty::{element_product, product_fits, Type};
use crate::reflection::variable::Variable;
use crate::reflection::variable_layout::VariableLayout;

use crate::reflection::program::{TypeLayoutRecord, Linked, Program};

verus! {

/// The laid-out type of layout `id` is an array type.
pub open spec fn layout_is_array(rs: ProgramRecords, id: int) -> bool {
    match rs.type_layouts@[id].ty {
        Some(t) => rs.types@[t as int].kind == TypeKind::Array,
        None => false,
    }
}

/// The layout reached from layout `id` by following element layouts through
/// every array level.
pub open spec fn unwrapped_layout(rs: ProgramRecords, id: int) -> int
    decreases id,
{
    if 0 <= id < rs.type_layouts@.len() && layout_is_array(rs, id)
        && rs.type_layouts@[id].element_type_layout is Some
        && (rs.type_layouts@[id].element_type_layout->0 as int) < id {
        unwrapped_layout(rs, rs.type_layouts@[id].element_type_layout->0 as int)
    } else {
        id
    }
}

/// The variable layout `vl` lays out a variable named exactly `q`.
pub open spec fn field_named(rs: ProgramRecords, vl: usize, q: Seq<char>) -> bool {
    match rs.variable_layouts@[vl as int].variable {
        Some(v) => name_matches(rs.variables@[v as int].name, q),
        None => false,
    }
}

/// The layout of a type for one target.
#[derive(Clone, Copy)]
pub struct TypeLayout<'a> {
    program: &'a Program,
    id: usize,
}

impl<'a> Node<'a> for TypeLayout<'a> {
    closed spec fn node_id(&self) -> usize {
        self.id
    }

    closed spec fn node_program(&self) -> Program {
        *self.program
    }

    open spec fn count_in(p: Program) -> usize {
        p.records().type_layouts@.len() as usize
    }

    fn node_index(&self) -> (r: usize) {
        self.id
    }

    fn at(program: &'a Program, id: usize) -> (r: Self) {
        TypeLayout { program, id }
    }
}

impl<'a> TypeLayout<'a> {
    #[verifier::type_invariant]
    spec fn inv(self) -> bool {
        self.id < self.program.records().type_layouts@.len()
    }

    /// The record of the laid-out type, where the layout names one.
    pub open spec fn type_record(&self) -> Option<TypeRecord> {
        match self.record().ty {
            Some(t) => Some(self.node_program().records().types@[t as int]),
            None => None,
        }
    }

    /// The record of the viewed node.
    pub open spec fn record(&self) -> TypeLayoutRecord {
        self.node_program().records().type_layouts@[self.node_id() as int]
    }

    fn rec(&self) -> (r: &'a TypeLayoutRecord)
        ensures
            *r == self.record(),
            r.links_valid(self.program.records().counts(), self.id),
            self.program.records().wf(),
    {
        proof { use_type_invariant(self); }
        let records = self.program.records_ref();
        &records.type_layouts[self.id]
    }

    pub fn ty(&self) -> (r: Option<Type<'a>>)
        ensures
            located(r, self.node_program(), self.record().ty),
    {
        at_link(self.program, self.rec().ty)
    }

    pub fn kind(&self) -> (r: TypeKind)
        ensures
            r == self.record().kind,
    {
        self.rec().kind
    }

    pub fn size(&self, category: ParameterCategory) -> (r: usize)
        ensures
            r == match lookup(self.record().sizes@, category) {
                Some(a) => a,
                None => 0,
            },
    {
        let rec = self.rec();
        match find_category_key(&rec.sizes, category) {
            Some(p) => rec.sizes[p].1,
            None => 0,
        }
    }

    pub fn stride(&self, category: ParameterCategory) -> (r: usize)
        ensures
            r == match lookup(self.record().strides@, category) {
                Some(a) => a,
                None => 0,
            },
    {
        let rec = self.rec();
        match find_category_key(&rec.strides, category) {
            Some(p) => rec.strides[p].1,
            None => 0,
        }
    }

    pub fn alignment(&self, category: ParameterCategory) -> (r: i32)
        ensures
            r == match lookup(self.record().alignments@, category) {
                Some(a) => a,
                None => 0,
            },
    {
        let rec = self.rec();
        match find_category_key(&rec.alignments, category) {
            Some(p) => rec.alignments[p].1,
            None => 0,
        }
    }

    pub fn field_count(&self) -> (r: u32)
        ensures
            r == self.record().fields@.len(),
    {
        self.rec().fields.len() as u32
    }

    pub fn field_by_index(&self, index: u32) -> (r: Option<VariableLayout<'a>>)
        ensures
            located_at(r, self.node_program(), self.record().fields@, index as int),
    {
        at_index(self.program, &self.rec().fields, index)
    }

    pub fn fields(&self) -> (r: Vec<VariableLayout<'a>>)
        ensures
            all_located(r@, self.node_program(), self.record().fields@),
    {
        at_all(self.program, &self.rec().fields)
    }

    /// Position among this layout's fields of the first field named
    /// `name`, or -1 where there is none.
    pub fn find_field_index_by_name(&self, name: &str) -> (r: i64)
        ensures
            -1 <= r < self.record().fields@.len(),
            r >= 0 ==> field_named(self.node_program().records(), self.record().fields@[r as int], name@)
                && forall|j: int| 0 <= j < r ==> !field_named(
                    self.node_program().records(), #[trigger] self.record().fields@[j], name@),
            r == -1 ==> forall|j: int| 0 <= j < self.record().fields@.len() ==> !field_named(
                self.node_program().records(), #[trigger] self.record().fields@[j], name@),
    {
        let count = self.field_count();
        let fields = self.fields();
        let q = name.to_owned();
        let mut i: usize = 0;
        while i < fields.len()
            invariant
                i <= fields@.len(),
                q@ == name@,
                fields@.len() == count,
                all_located(fields@, self.node_program(), self.record().fields@),
                forall|j: int| 0 <= j < i ==> !field_named(
                    self.node_program().records(), #[trigger] self.record().fields@[j], name@),
            decreases fields.len() - i,
        {
            if fields[i].is_named(&q) {
                return i as i64;
            }
            i += 1;
        }
        -1
    }

    pub fn explicit_counter(&self) -> (r: Option<VariableLayout<'a>>)
        ensures
            located(r, self.node_program(), self.record().explicit_counter),
    {
        at_link(self.program, self.rec().explicit_counter)
    }

    pub fn is_array(&self) -> (r: bool)
        ensures
            r == layout_is_array(self.node_program().records(), self.node_id() as int),
    {
        match self.ty() {
            Some(t) => t.is_array(),
            None => false,
        }
    }

    /// The innermost element layout of this layout once every array level is
    /// stripped; the layout itself when its type is no array.
    pub fn unwrap_array(&self) -> (r: TypeLayout<'a>)
        ensures
            r.node_program() == self.node_program(),
            r.node_id() == unwrapped_layout(self.node_program().records(), self.node_id() as int),
    {
        proof { use_type_invariant(self); }
        let records = self.program.records_ref();
        let mut cur: TypeLayout<'a> = TypeLayout::at(self.program, self.id);
        loop
            invariant
                records.wf(),
                *records == self.program.records(),
                cur.node_program() == self.node_program(),
                cur.node_id() < TypeLayout::count_in(*self.program),
                unwrapped_layout(self.node_program().records(), self.id as int)
                    == unwrapped_layout(self.node_program().records(), cur.node_id() as int),
            decreases cur.node_id(),
        {
            if !cur.is_array() {
                return cur;
            }
            match cur.element_type_layout() {
                Some(e) => {
                    assert(records.type_layouts@[cur.node_id() as int].links_valid(records.counts(), cur.node_id()));
                    cur = e;
                },
                None => {
                    return cur;
                },
            }
        }
    }

    /// The number of elements of the laid-out type when it is a (possibly
    /// nested) array; zero otherwise.
    pub fn total_array_element_count(&self) -> (r: usize)
        requires
            match self.record().ty {
                Some(t) => product_fits(self.node_program().records().types@, t as int, 1),
                None => true,
            },
        ensures
            r == match self.type_record() {
                Some(t) => if t.kind == TypeKind::Array {
                    element_product(self.node_program().records().types@, self.record().ty->0 as int, 1)
                } else {
                    0
                },
                None => 0,
            },
    {
        match self.ty() {
            Some(t) => t.total_array_element_count(),
            None => 0,
        }
    }

    pub fn element_count(&self) -> (r: Option<usize>)
        ensures
            r == match self.type_record() {
                Some(t) => Some(t.element_count),
                None => None,
            },
    {
        match self.ty() {
            Some(t) => Some(t.element_count()),
            None => None,
        }
    }

    pub fn element_stride(&self, category: ParameterCategory) -> (r: usize)
        ensures
            r == match lookup(self.record().element_strides@, category) {
                Some(a) => a,
                None => 0,
            },
    {
        let rec = self.rec();
        match find_category_key(&rec.element_strides, category) {
            Some(p) => rec.element_strides[p].1,
            None => 0,
        }
    }

    pub fn element_type_layout(&self) -> (r: Option<TypeLayout<'a>>)
        ensures
            located(r, self.node_program(), self.record().element_type_layout),
    {
        proof { use_type_invariant(self); }
        at_link(self.program, self.rec().element_type_layout)
    }

    pub fn element_var_layout(&self) -> (r: Option<VariableLayout<'a>>)
        ensures
            located(r, self.node_program(), self.record().element_var_layout),
    {
        at_link(self.program, self.rec().element_var_layout)
    }

    pub fn container_var_layout(&self) -> (r: Option<VariableLayout<'a>>)
        ensures
            located(r, self.node_program(), self.record().container_var_layout),
    {
        at_link(self.program, self.rec().container_var_layout)
    }

    pub fn parameter_category(&self) -> (r: ParameterCategory)
        ensures
            r == self.record().parameter_category,
    {
        self.rec().parameter_category
    }

    pub fn category_count(&self) -> (r: u32)
        ensures
            r == self.record().categories@.len(),
    {
        self.rec().categories.len() as u32
    }

    /// The category at `index`; `ParameterCategory::Unspecified` past the end.
    pub fn category_by_index(&self, index: u32) -> (r: ParameterCategory)
        ensures
            r == (if index < self.record().categories@.len() {
                self.record().categories@[index as int]
            } else {
                ParameterCategory::Unspecified
            }),
    {
        let rec = self.rec();
        if (index as usize) < rec.categories.len() {
            rec.categories[index as usize]
        } else {
            ParameterCategory::Unspecified
        }
    }

    pub fn categories(&self) -> (r: Vec<ParameterCategory>)
        ensures
            r@ == self.record().categories@,
    {
        let rec = self.rec();
        let mut r: Vec<ParameterCategory> = Vec::new();
        let mut i: usize = 0;
        while i < rec.categories.len()
            invariant
                i <= rec.categories@.len(),
                r@ == rec.categories@.subrange(0, i as int),
            decreases rec.categories.len() - i,
        {
            r.push(rec.categories[i]);
            i += 1;
        }
        assert(r@ == rec.categories@.subrange(0, rec.categories@.len() as int));
        r
    }

    pub fn row_count(&self) -> (r: Option<u32>)
        ensures
            r == match self.type_record() {
                Some(t) => Some(t.row_count),
                None => None,
            },
    {
        match self.ty() {
            Some(t) => Some(t.row_count()),
            None => None,
        }
    }

    pub fn column_count(&self) -> (r: Option<u32>)
        ensures
            r == match self.type_record() {
                Some(t) => Some(t.column_count),
                None => None,
            },
    {
        match self.ty() {
            Some(t) => Some(t.column_count()),
            None => None,
        }
    }

    pub fn scalar_type(&self) -> (r: Option<ScalarType>)
        ensures
            r == match self.type_record() {
                Some(t) => Some(t.scalar_type),
                None => None,
            },
    {
        match self.ty() {
            Some(t) => Some(t.scalar_type()),
            None => None,
        }
    }

    pub fn resource_result_type(&self) -> (r: Option<Type<'a>>)
        ensures
            located(r, self.node_program(), match self.type_record() {
                Some(t) => t.resource_result_type,
                None => None,
            }),
    {
        match self.ty() {
            Some(t) => t.resource_result_type(),
            None => None,
        }
    }

    pub fn resource_shape(&self) -> (r: Option<ResourceShape>)
        ensures
            r == match self.type_record() {
                Some(t) => Some(t.resource_shape),
                None => None,
            },
    {
        match self.ty() {
            Some(t) => Some(t.resource_shape()),
            None => None,
        }
    }

    pub fn resource_access(&self) -> (r: Option<ResourceAccess>)
        ensures
            r == match self.type_record() {
                Some(t) => Some(t.resource_access),
                None => None,
            },
    {
        match self.ty() {
            Some(t) => Some(t.resource_access()),
            None => None,
        }
    }

    pub fn name(&self) -> (r: Option<&'a str>)
        ensures
            named(r, match self.type_record() {
                Some(t) => t.name,
                None => None,
            }),
    {
        match self.ty() {
            Some(t) => t.name(),
            None => None,
        }
    }

    pub fn matrix_layout_mode(&self) -> (r: MatrixLayoutMode)
        ensures
            r == self.record().matrix_layout_mode,
    {
        self.rec().matrix_layout_mode
    }

    pub fn generic_param_index(&self) -> (r: i32)
        ensures
            r == self.record().generic_param_index,
    {
        self.rec().generic_param_index
    }

    pub fn pending_data_type_layout(&self) -> (r: Option<TypeLayout<'a>>)
        ensures
            located(r, self.node_program(), self.record().pending_data_type_layout),
    {
        at_link(self.program, self.rec().pending_data_type_layout)
    }

    pub fn specialized_type_pending_data_var_layout(&self) -> (r: Option<VariableLayout<'a>>)
        ensures
            located(r, self.node_program(), self.record().specialized_type_pending_data_var_layout),
    {
        at_link(self.program, self.rec().specialized_type_pending_data_var_layout)
    }

    pub fn binding_range_count(&self) -> (r: i64)
        ensures
            r == self.record().binding_ranges@.len(),
    {
        self.rec().binding_ranges.len() as i64
    }

    pub fn binding_range_type(&self, index: i64) -> (r: BindingType)
        ensures
            r == match entry(self.record().binding_ranges@, index) {
                Some(e) => e.binding_type,
                None => BindingType::Unknown,
            },
    {
        let rec = self.rec();
        match position(rec.binding_ranges.len(), index) {
            Some(p) => rec.binding_ranges[p].binding_type,
            None => BindingType::Unknown,
        }
    }

    pub fn is_binding_range_specializable(&self, index: i64) -> (r: bool)
        ensures
            r == match entry(self.record().binding_ranges@, index) {
                Some(e) => e.specializable,
                None => false,
            },
    {
        let rec = self.rec();
        match position(rec.binding_ranges.len(), index) {
            Some(p) => rec.binding_ranges[p].specializable,
            None => false,
        }
    }

    pub fn binding_range_binding_count(&self, index: i64) -> (r: i64)
        ensures
            r == match entry(self.record().binding_ranges@, index) {
                Some(e) => e.binding_count,
                None => 0,
            },
    {
        let rec = self.rec();
        match position(rec.binding_ranges.len(), index) {
            Some(p) => rec.binding_ranges[p].binding_count,
            None => 0,
        }
    }

    pub fn field_binding_range_offset(&self, field_index: i64) -> (r: i64)
        ensures
            r == match entry(self.record().field_binding_range_offsets@, field_index) {
                Some(o) => o,
                None => 0,
            },
    {
        let rec = self.rec();
        match position(rec.field_binding_range_offsets.len(), field_index) {
            Some(p) => rec.field_binding_range_offsets[p],
            None => 0,
        }
    }

    pub fn explicit_counter_binding_range_offset(&self) -> (r: i64)
        ensures
            r == self.record().explicit_counter_binding_range_offset,
    {
        self.rec().explicit_counter_binding_range_offset
    }

    pub fn binding_range_leaf_type_layout(&self, index: i64) -> (r: Option<TypeLayout<'a>>)
        ensures
            located(r, self.node_program(), match entry(self.record().binding_ranges@, index) {
                Some(b) => b.leaf_type_layout,
                None => None,
            }),
    {
        let rec = self.rec();
        match position(rec.binding_ranges.len(), index) {
            Some(p) => {
                assert(link_ok(rec.binding_ranges@[p as int].leaf_type_layout, TypeLayout::count_in(*self.program)));
                at_link(self.program, rec.binding_ranges[p].leaf_type_layout)
            },
            None => None,
        }
    }

    pub fn binding_range_leaf_variable(&self, index: i64) -> (r: Option<Variable<'a>>)
        ensures
            located(r, self.node_program(), match entry(self.record().binding_ranges@, index) {
                Some(b) => b.leaf_variable,
                None => None,
            }),
    {
        let rec = self.rec();
        match position(rec.binding_ranges.len(), index) {
            Some(p) => {
                assert(link_ok(rec.binding_ranges@[p as int].leaf_variable, Variable::count_in(*self.program)));
                at_link(self.program, rec.binding_ranges[p].leaf_variable)
            },
            None => None,
        }
    }

    pub fn binding_range_image_format(&self, index: i64) -> (r: ImageFormat)
        ensures
            r == match entry(self.record().binding_ranges@, index) {
                Some(e) => e.image_format,
                None => ImageFormat::Unknown,
            },
    {
        let rec = self.rec();
        match position(rec.binding_ranges.len(), index) {
            Some(p) => rec.binding_ranges[p].image_format,
            None => ImageFormat::Unknown,
        }
    }

    pub fn binding_range_descriptor_set_index(&self, index: i64) -> (r: i64)
        ensures
            r == match entry(self.record().binding_ranges@, index) {
                Some(e) => e.descriptor_set_index,
                None => 0,
            },
    {
        let rec = self.rec();
        match position(rec.binding_ranges.len(), index) {
            Some(p) => rec.binding_ranges[p].descriptor_set_index,
            None => 0,
        }
    }

    pub fn binding_range_first_descriptor_range_index(&self, index: i64) -> (r: i64)
        ensures
            r == match entry(self.record().binding_ranges@, index) {
                Some(e) => e.first_descriptor_range_index,
                None => 0,
            },
    {
        let rec = self.rec();
        match position(rec.binding_ranges.len(), index) {
            Some(p) => rec.binding_ranges[p].first_descriptor_range_index,
            None => 0,
        }
    }

    pub fn binding_range_descriptor_range_count(&self, index: i64) -> (r: i64)
        ensures
            r == match entry(self.record().binding_ranges@, index) {
                Some(e) => e.descriptor_range_count,
                None => 0,
            },
    {
        let rec = self.rec();
        match position(rec.binding_ranges.len(), index) {
            Some(p) => rec.binding_ranges[p].descriptor_range_count,
            None => 0,
        }
    }

    pub fn descriptor_set_count(&self) -> (r: i64)
        ensures
            r == self.record().descriptor_sets@.len(),
    {
        self.rec().descriptor_sets.len() as i64
    }

    pub fn descriptor_set_space_offset(&self, set_index: i64) -> (r: i64)
        ensures
            r == match entry(self.record().descriptor_sets@, set_index) {
                Some(e) => e.space_offset,
                None => 0,
            },
    {
        let rec = self.rec();
        match position(rec.descriptor_sets.len(), set_index) {
            Some(p) => rec.descriptor_sets[p].space_offset,
            None => 0,
        }
    }

    pub fn descriptor_set_descriptor_range_count(&self, set_index: i64) -> (r: i64)
        ensures
            r == match entry(self.record().descriptor_sets@, set_index) {
                Some(s) => s.ranges@.len() as i64,
                None => 0,
            },
    {
        let rec = self.rec();
        match position(rec.descriptor_sets.len(), set_index) {
            Some(p) => rec.descriptor_sets[p].ranges.len() as i64,
            None => 0,
        }
    }

    pub fn descriptor_set_descriptor_range_index_offset(

        &self,

        set_index: i64,

        range_index: i64,

    ) -> (r: i64)
        ensures
            r == match entry(self.record().descriptor_sets@, set_index) {
                Some(s) => match entry(s.ranges@, range_index) {
                    Some(d) => d.index_offset,
                    None => 0,
                },
                None => 0,
            },
    {
        let rec = self.rec();
        match position(rec.descriptor_sets.len(), set_index) {
            Some(p) => match position(rec.descriptor_sets[p].ranges.len(), range_index) {
                Some(q) => rec.descriptor_sets[p].ranges[q].index_offset,
                None => 0,
            },
            None => 0,
        }
    }

    pub fn descriptor_set_descriptor_range_descriptor_count(

        &self,

        set_index: i64,

        range_index: i64,

    ) -> (r: i64)
        ensures
            r == match entry(self.record().descriptor_sets@, set_index) {
                Some(s) => match entry(s.ranges@, range_index) {
                    Some(d) => d.descriptor_count,
                    None => 0,
                },
                None => 0,
            },
    {
        let rec = self.rec();
        match position(rec.descriptor_sets.len(), set_index) {
            Some(p) => match position(rec.descriptor_sets[p].ranges.len(), range_index) {
                Some(q) => rec.descriptor_sets[p].ranges[q].descriptor_count,
                None => 0,
            },
            None => 0,
        }
    }

    pub fn descriptor_set_descriptor_range_type(

        &self,

        set_index: i64,

        range_index: i64,

    ) -> (r: BindingType)
        ensures
            r == match entry(self.record().descriptor_sets@, set_index) {
                Some(s) => match entry(s.ranges@, range_index) {
                    Some(d) => d.binding_type,
                    None => BindingType::Unknown,
                },
                None => BindingType::Unknown,
            },
    {
        let rec = self.rec();
        match position(rec.descriptor_sets.len(), set_index) {
            Some(p) => match position(rec.descriptor_sets[p].ranges.len(), range_index) {
                Some(q) => rec.descriptor_sets[p].ranges[q].binding_type,
                None => BindingType::Unknown,
            },
            None => BindingType::Unknown,
        }
    }

    pub fn descriptor_set_descriptor_range_category(

        &self,

        set_index: i64,

        range_index: i64,

    ) -> (r: ParameterCategory)
        ensures
            r == match entry(self.record().descriptor_sets@, set_index) {
                Some(s) => match entry(s.ranges@, range_index) {
                    Some(d) => d.category,
                    None => ParameterCategory::Unspecified,
                },
                None => ParameterCategory::Unspecified,
            },
    {
        let rec = self.rec();
        match position(rec.descriptor_sets.len(), set_index) {
            Some(p) => match position(rec.descriptor_sets[p].ranges.len(), range_index) {
                Some(q) => rec.descriptor_sets[p].ranges[q].category,
                None => ParameterCategory::Unspecified,
            },
            None => ParameterCategory::Unspecified,
        }
    }

    pub fn sub_object_range_count(&self) -> (r: i64)
        ensures
            r == self.record().sub_object_ranges@.len(),
    {
        self.rec().sub_object_ranges.len() as i64
    }

    pub fn sub_object_range_binding_range_index(&self, sub_object_range_index: i64) -> (r: i64)
        ensures
            r == match entry(self.record().sub_object_ranges@, sub_object_range_index) {
                Some(e) => e.binding_range_index,
                None => 0,
            },
    {
        let rec = self.rec();
        match position(rec.sub_object_ranges.len(), sub_object_range_index) {
            Some(p) => rec.sub_object_ranges[p].binding_range_index,
            None => 0,
        }
    }

    pub fn sub_object_range_space_offset(&self, sub_object_range_index: i64) -> (r: i64)
        ensures
            r == match entry(self.record().sub_object_ranges@, sub_object_range_index) {
                Some(e) => e.space_offset,
                None => 0,
            },
    {
        let rec = self.rec();
        match position(rec.sub_object_ranges.len(), sub_object_range_index) {
            Some(p) => rec.sub_object_ranges[p].space_offset,
            None => 0,
        }
    }

    pub fn sub_object_range_offset(

        &self,

        sub_object_range_index: i64,

    ) -> (r: Option<VariableLayout<'a>>)
        ensures
            located(r, self.node_program(), match entry(self.record().sub_object_ranges@, sub_object_range_index) {
                Some(s) => s.offset,
                None => None,
            }),
    {
        let rec = self.rec();
        match position(rec.sub_object_ranges.len(), sub_object_range_index) {
            Some(p) => {
                assert(link_ok(rec.sub_object_ranges@[p as int].offset, VariableLayout::count_in(*self.program)));
                at_link(self.program, rec.sub_object_ranges[p].offset)
            },
            None => None,
        }
    }
}

} // verus!
