//! What all borrowed views share: a view names one node of a program by its
//! index, and can be made from a link that names such a node.

use vstd::prelude::*;
use crate::reflection::program::Program;
use crate::reflection::table::{link_ok, links_ok};

verus! {

pub trait Node<'a>: Sized {
    /// Index of the viewed node among the nodes of its kind.
    spec fn node_id(&self) -> usize;

    /// The program the viewed node belongs to.
    spec fn node_program(&self) -> Program;

    /// Number of nodes of this kind in `p`.
    spec fn count_in(p: Program) -> usize;

    /// Index of the viewed node among the nodes of its kind.
    fn node_index(&self) -> (r: usize)
        ensures
            r == self.node_id(),
    ;

    fn at(program: &'a Program, id: usize) -> (r: Self)
        requires
            id < Self::count_in(*program),
        ensures
            r.node_id() == id,
            r.node_program() == *program,
    ;
}

/// `r` views the node that `link` names in `p`, and is absent exactly when
/// `link` is.
pub open spec fn located<'a, V: Node<'a>>(r: Option<V>, p: Program, link: Option<usize>) -> bool {
    match r {
        Some(v) => link == Some(v.node_id()) && v.node_program() == p,
        None => link is None,
    }
}

/// `r` views the node named at position `index` of `s`, and is absent exactly
/// when `index` is not a position of `s`.
pub open spec fn located_at<'a, V: Node<'a>>(r: Option<V>, p: Program, s: Seq<usize>, index: int) -> bool {
    match r {
        Some(v) => 0 <= index < s.len() && v.node_id() == s[index] && v.node_program() == p,
        None => !(0 <= index < s.len()),
    }
}

/// `r` views, in order, each node that `s` names.
pub open spec fn all_located<'a, V: Node<'a>>(r: Seq<V>, p: Program, s: Seq<usize>) -> bool {
    &&& r.len() == s.len()
    &&& forall|i: int| 0 <= i < s.len() ==> (#[trigger] r[i]).node_id() == s[i] && r[i].node_program() == p
}

pub fn at_link<'a, V: Node<'a>>(program: &'a Program, link: Option<usize>) -> (r: Option<V>)
    requires
        link_ok(link, V::count_in(*program)),
    ensures
        located(r, *program, link),
{
    match link {
        Some(id) => Some(V::at(program, id)),
        None => None,
    }
}

pub fn at_index<'a, V: Node<'a>>(program: &'a Program, s: &Vec<usize>, index: u32) -> (r: Option<V>)
    requires
        links_ok(s@, V::count_in(*program)),
    ensures
        located_at(r, *program, s@, index as int),
{
    if (index as usize) < s.len() {
        Some(V::at(program, s[index as usize]))
    } else {
        None
    }
}

pub fn at_all<'a, V: Node<'a>>(program: &'a Program, s: &Vec<usize>) -> (r: Vec<V>)
    requires
        links_ok(s@, V::count_in(*program)),
    ensures
        all_located(r@, *program, s@),
{
    let mut r: Vec<V> = Vec::new();
    let mut i: usize = 0;
    while i < s.len()
        invariant
            i <= s.len(),
            links_ok(s@, V::count_in(*program)),
            r@.len() == i,
            forall|j: int| 0 <= j < i ==> (#[trigger] r@[j]).node_id() == s@[j] && r@[j].node_program() == *program,
        decreases s.len() - i,
    {
        r.push(V::at(program, s[i]));
        i += 1;
    }
    r
}

/// `r` is the name `n` holds, and is absent exactly when `n` is.
pub open spec fn named(r: Option<&str>, n: Option<String>) -> bool {
    match r {
        Some(s) => n is Some && s@ == n->0@,
        None => n is None,
    }
}

/// `views` names, in order, exactly the nodes of `ids`.
pub open spec fn same_nodes<'a, V: Node<'a>>(views: Seq<V>, ids: Seq<usize>) -> bool {
    &&& views.len() == ids.len()
    &&& forall|i: int| 0 <= i < ids.len() ==> (#[trigger] views[i]).node_id() == ids[i]
}

pub fn is_same_nodes<'a, V: Node<'a>>(views: &[V], ids: &Vec<usize>) -> (r: bool)
    ensures
        r == same_nodes(views@, ids@),
{
    if views.len() != ids.len() {
        return false;
    }
    let mut i: usize = 0;
    while i < ids.len()
        invariant
            i <= ids@.len(),
            views@.len() == ids@.len(),
            forall|j: int| 0 <= j < i ==> (#[trigger] views@[j]).node_id() == ids@[j],
        decreases ids.len() - i,
    {
        if views[i].node_index() != ids[i] {
            return false;
        }
        i += 1;
    }
    true
}

/// `n` holds exactly the name `q`.
pub open spec fn name_matches(n: Option<String>, q: Seq<char>) -> bool {
    n is Some && n->0@ == q
}

/// Whether `n` holds exactly the name `q`.
pub fn has_name(n: &Option<String>, q: &String) -> (r: bool)
    ensures
        r == name_matches(*n, q@),
{
    match n {
        Some(s) => s.eq(q),
        None => false,
    }
}

/// A name, borrowed from the record that holds it.
pub fn name_of(n: &Option<String>) -> (r: Option<&str>)
    ensures
        named(r, *n),
{
    match n {
        Some(s) => Some(s.as_str()),
        None => None,
    }
}

} // verus!
