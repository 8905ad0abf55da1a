use vstd::prelude::*;
use crate::reflection::node::{
    all_located, at_all, at_index, at_link, located, located_at, name_matches, name_of, named, Node,
};
use crate::kinds::{ResourceAccess, ResourceShape, ScalarType, TypeKind};
use crate::reflection::generic::Generic;
use crate::reflection::table::{lemma_lookup_target, lookup, lookup_index};
use crate::reflection::user_attribute::UserAttribute;
use crate::reflection::variable::Variable;
use crate::reflection::program::{TypeRecord, Linked, Program};

verus! {

/// The type reached from type `id` by following element types through every
/// array level.
pub open spec fn unwrapped(types: Seq<TypeRecord>, id: int) -> int
    decreases id,
{
    if 0 <= id < types.len() && types[id].kind == TypeKind::Array && types[id].element_type is Some
        && (types[id].element_type->0 as int) < id {
        unwrapped(types, types[id].element_type->0 as int)
    } else {
        id
    }
}

/// `acc` times the element counts of the array levels met from type `id`
/// inward.
pub open spec fn element_product(types: Seq<TypeRecord>, id: int, acc: int) -> int
    decreases id,
{
    if 0 <= id < types.len() && types[id].kind == TypeKind::Array {
        let a = acc * types[id].element_count;
        match types[id].element_type {
            Some(e) => if (e as int) < id { element_product(types, e as int, a) } else { a },
            None => a,
        }
    } else {
        acc
    }
}

/// Every partial product that `element_product(types, id, acc)` forms fits
/// in a `usize`.
pub open spec fn product_fits(types: Seq<TypeRecord>, id: int, acc: int) -> bool
    decreases id,
{
    if 0 <= id < types.len() && types[id].kind == TypeKind::Array {
        let a = acc * types[id].element_count;
        a <= usize::MAX && match types[id].element_type {
            Some(e) => if (e as int) < id { product_fits(types, e as int, a) } else { true },
            None => true,
        }
    } else {
        true
    }
}

/// A type of a program.
#[derive(Clone, Copy)]
pub struct Type<'a> {
    program: &'a Program,
    id: usize,
}

impl<'a> Node<'a> for Type<'a> {
    closed spec fn node_id(&self) -> usize {
        self.id
    }

    closed spec fn node_program(&self) -> Program {
        *self.program
    }

    open spec fn count_in(p: Program) -> usize {
        p.records().types@.len() as usize
    }

    fn node_index(&self) -> (r: usize) {
        self.id
    }

    fn at(program: &'a Program, id: usize) -> (r: Self) {
        Type { program, id }
    }
}

impl<'a> Type<'a> {
    #[verifier::type_invariant]
    spec fn inv(self) -> bool {
        self.id < self.program.records().types@.len()
    }

    /// The record of the viewed node.
    pub open spec fn record(&self) -> TypeRecord {
        self.node_program().records().types@[self.node_id() as int]
    }

    fn rec(&self) -> (r: &'a TypeRecord)
        ensures
            *r == self.record(),
            r.links_valid(self.program.records().counts(), self.id),
            self.program.records().wf(),
    {
        proof { use_type_invariant(self); }
        let records = self.program.records_ref();
        &records.types[self.id]
    }

    pub fn kind(&self) -> (r: TypeKind)
        ensures
            r == self.record().kind,
    {
        self.rec().kind
    }

    pub fn field_count(&self) -> (r: u32)
        ensures
            r == self.record().fields@.len(),
    {
        self.rec().fields.len() as u32
    }

    pub fn field_by_index(&self, index: u32) -> (r: Option<Variable<'a>>)
        ensures
            located_at(r, self.node_program(), self.record().fields@, index as int),
    {
        at_index(self.program, &self.rec().fields, index)
    }

    pub fn fields(&self) -> (r: Vec<Variable<'a>>)
        ensures
            all_located(r@, self.node_program(), self.record().fields@),
    {
        at_all(self.program, &self.rec().fields)
    }

    pub fn is_array(&self) -> (r: bool)
        ensures
            r == (self.record().kind == TypeKind::Array),
    {
        self.rec().kind == TypeKind::Array
    }

    /// The innermost element type of this type once every array level is
    /// stripped; the type itself when it is no array.
    pub fn unwrap_array(&self) -> (r: Type<'a>)
        ensures
            r.node_program() == self.node_program(),
            r.node_id() == unwrapped(self.node_program().records().types@, self.node_id() as int),
    {
        proof { use_type_invariant(self); }
        let records = self.program.records_ref();
        let types = &records.types;
        let mut cur: usize = self.id;
        loop
            invariant
                cur < types@.len(),
                records.wf(),
                types == &records.types,
                *records == self.program.records(),
                unwrapped(types@, self.id as int) == unwrapped(types@, cur as int),
            decreases cur,
        {
            assert(types@[cur as int].links_valid(records.counts(), cur));
            if types[cur].kind != TypeKind::Array {
                return Type::at(self.program, cur);
            }
            match types[cur].element_type {
                Some(e) => {
                    cur = e;
                },
                None => {
                    return Type::at(self.program, cur);
                },
            }
        }
    }

    /// The number of elements of a (possibly nested) array type: the product
    /// of the element counts of its array levels; zero for a type that is no
    /// array.
    pub fn total_array_element_count(&self) -> (r: usize)
        requires
            product_fits(self.node_program().records().types@, self.node_id() as int, 1),
        ensures
            r == (if self.record().kind == TypeKind::Array {
                element_product(self.node_program().records().types@, self.node_id() as int, 1)
            } else {
                0
            }),
    {
        proof { use_type_invariant(self); }
        let records = self.program.records_ref();
        let types = &records.types;
        if types[self.id].kind != TypeKind::Array {
            return 0;
        }
        let mut result: usize = 1;
        let mut cur: usize = self.id;
        loop
            invariant
                cur < types@.len(),
                records.wf(),
                types == &records.types,
                *records == self.program.records(),
                types@[cur as int].kind == TypeKind::Array,
                types@[self.id as int].kind == TypeKind::Array,
                element_product(types@, self.id as int, 1) == element_product(types@, cur as int, result as int),
                product_fits(types@, cur as int, result as int),
            decreases cur,
        {
            assert(types@[cur as int].links_valid(records.counts(), cur));
            let ghost prev = result as int;
            result = result * types[cur].element_count;
            match types[cur].element_type {
                Some(e) => {
                    if types[e].kind != TypeKind::Array {
                        assert(element_product(types@, e as int, result as int) == result);
                        return result;
                    }
                    cur = e;
                },
                None => {
                    assert(element_product(types@, cur as int, prev) == result);
                    return result;
                },
            }
        }
    }

    pub fn element_count(&self) -> (r: usize)
        ensures
            r == self.record().element_count,
    {
        self.rec().element_count
    }

    pub fn element_type(&self) -> (r: Option<Type<'a>>)
        ensures
            located(r, self.node_program(), self.record().element_type),
    {
        proof { use_type_invariant(self); }
        let rec = self.rec();
        at_link(self.program, rec.element_type)
    }

    pub fn row_count(&self) -> (r: u32)
        ensures
            r == self.record().row_count,
    {
        self.rec().row_count
    }

    pub fn column_count(&self) -> (r: u32)
        ensures
            r == self.record().column_count,
    {
        self.rec().column_count
    }

    pub fn scalar_type(&self) -> (r: ScalarType)
        ensures
            r == self.record().scalar_type,
    {
        self.rec().scalar_type
    }

    pub fn resource_result_type(&self) -> (r: Option<Type<'a>>)
        ensures
            located(r, self.node_program(), self.record().resource_result_type),
    {
        at_link(self.program, self.rec().resource_result_type)
    }

    pub fn resource_shape(&self) -> (r: ResourceShape)
        ensures
            r == self.record().resource_shape,
    {
        self.rec().resource_shape
    }

    pub fn resource_access(&self) -> (r: ResourceAccess)
        ensures
            r == self.record().resource_access,
    {
        self.rec().resource_access
    }

    pub fn name(&self) -> (r: Option<&'a str>)
        ensures
            named(r, self.record().name),
    {
        name_of(&self.rec().name)
    }

    pub fn user_attribute_count(&self) -> (r: u32)
        ensures
            r == self.record().user_attributes@.len(),
    {
        self.rec().user_attributes.len() as u32
    }

    pub fn user_attribute_by_index(&self, index: u32) -> (r: Option<UserAttribute<'a>>)
        ensures
            located_at(r, self.node_program(), self.record().user_attributes@, index as int),
    {
        at_index(self.program, &self.rec().user_attributes, index)
    }

    pub fn user_attributes(&self) -> (r: Vec<UserAttribute<'a>>)
        ensures
            all_located(r@, self.node_program(), self.record().user_attributes@),
    {
        at_all(self.program, &self.rec().user_attributes)
    }

    /// The first of this node's user attributes named `name`.
    pub fn find_user_attribute_by_name(&self, name: &str) -> (r: Option<UserAttribute<'a>>)
        ensures
            match r {
                Some(v) => v.node_program() == self.node_program() && exists|k: int|
                    0 <= k < self.record().user_attributes@.len()
                    && self.record().user_attributes@[k] == v.node_id()
                    && name_matches(v.record().name, name@)
                    && forall|j: int| 0 <= j < k ==> !name_matches(
                        #[trigger] self.node_program().records().user_attributes@[self.record().user_attributes@[j] as int].name, name@),
                None => forall|j: int| 0 <= j < self.record().user_attributes@.len() ==> !name_matches(
                    #[trigger] self.node_program().records().user_attributes@[self.record().user_attributes@[j] as int].name, name@),
            },
    {
        let attributes = self.user_attributes();
        let q = name.to_owned();
        let mut i: usize = 0;
        while i < attributes.len()
            invariant
                i <= attributes@.len(),
                q@ == name@,
                all_located(attributes@, self.node_program(), self.record().user_attributes@),
                forall|j: int| 0 <= j < i ==> !name_matches(
                    #[trigger] self.node_program().records().user_attributes@[self.record().user_attributes@[j] as int].name, name@),
            decreases attributes.len() - i,
        {
            if attributes[i].is_named(&q) {
                return Some(attributes[i]);
            }
            i += 1;
        }
        None
    }

    pub fn generic_container(&self) -> (r: Option<Generic<'a>>)
        ensures
            located(r, self.node_program(), self.record().generic_container),
    {
        at_link(self.program, self.rec().generic_container)
    }

    /// The specialization of this node for `generic`, where the program
    /// records one.
    pub fn apply_specializations(&self, generic: &Generic) -> (r: Option<Type<'a>>)
        ensures
            located(r, self.node_program(), lookup(self.record().specializations@, generic.node_id())),
    {
        let rec = self.rec();
        proof { lemma_lookup_target(rec.specializations@, generic.node_id(), Type::count_in(*self.program)); }
        at_link(self.program, lookup_index(&rec.specializations, generic.node_index()))
    }
}

} // verus!
