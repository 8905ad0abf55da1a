//! Index checks and keyed lookups over the plain tables that reflection
//! records hold.

use vstd::prelude::*;
use crate::kinds::{GenericArg, GenericArgType, ModifierID, ParameterCategory};

verus! {

/// An optional link that is either absent or names one of `n` nodes.
pub open spec fn link_ok(o: Option<usize>, n: usize) -> bool {
    o is Some ==> o->0 < n
}

/// A list of links, each naming one of `n` nodes, short enough to be counted
/// with a `u32`.
pub open spec fn links_ok(s: Seq<usize>, n: usize) -> bool {
    s.len() <= u32::MAX && forall|i: int| 0 <= i < s.len() ==> #[trigger] s[i] < n
}

/// The second component of each pair names one of `n` nodes.
pub open spec fn targets_ok<K>(s: Seq<(K, usize)>, n: usize) -> bool {
    forall|i: int| 0 <= i < s.len() ==> (#[trigger] s[i]).1 < n
}

/// Position of the first pair at or after `i` whose key is `k`.
pub open spec fn key_pos_from<K, V>(s: Seq<(K, V)>, k: K, i: int) -> Option<int>
    decreases s.len() - i,
{
    if i < 0 || i >= s.len() {
        None
    } else if s[i].0 == k {
        Some(i)
    } else {
        key_pos_from(s, k, i + 1)
    }
}

/// Position of the first pair whose key is `k`.
pub open spec fn key_pos<K, V>(s: Seq<(K, V)>, k: K) -> Option<int> {
    key_pos_from(s, k, 0)
}

/// The value paired with the first occurrence of `k`, if any.
pub open spec fn lookup<K, V>(s: Seq<(K, V)>, k: K) -> Option<V> {
    match key_pos(s, k) {
        Some(p) => Some(s[p].1),
        None => None,
    }
}

pub proof fn lemma_key_pos_in_range<K, V>(s: Seq<(K, V)>, k: K, i: int)
    ensures
        key_pos_from(s, k, i) is Some ==> {
            let p = key_pos_from(s, k, i)->0;
            0 <= i <= p < s.len() && s[p].0 == k
        },
    decreases s.len() - i,
{
    if 0 <= i < s.len() && s[i].0 != k {
        lemma_key_pos_in_range(s, k, i + 1);
    }
}

/// A value found among pairs whose values all name one of `n` nodes names
/// one of them too.
pub proof fn lemma_lookup_target<K>(s: Seq<(K, usize)>, k: K, n: usize)
    requires
        targets_ok(s, n),
    ensures
        link_ok(lookup(s, k), n),
{
    lemma_key_pos_in_range(s, k, 0);
}

/// The element at position `i` of `s`, where there is one.
pub open spec fn entry<T>(s: Seq<T>, i: i64) -> Option<T> {
    if 0 <= i < s.len() {
        Some(s[i as int])
    } else {
        None
    }
}

/// `i` as a position of a list of `len` elements, where it is one.
pub fn position(len: usize, i: i64) -> (r: Option<usize>)
    ensures
        match r {
            Some(p) => 0 <= i < len && p == i,
            None => !(0 <= i < len),
        },
{
    if i >= 0 && (i as u64) < (len as u64) {
        Some(i as usize)
    } else {
        None
    }
}

pub fn check_link(o: Option<usize>, n: usize) -> (r: bool)
    ensures
        r == link_ok(o, n),
{
    match o {
        Some(i) => i < n,
        None => true,
    }
}

pub fn check_links(v: &Vec<usize>, n: usize) -> (r: bool)
    ensures
        r == links_ok(v@, n),
{
    if v.len() > u32::MAX as usize {
        return false;
    }
    let mut i: usize = 0;
    while i < v.len()
        invariant
            i <= v.len(),
            forall|j: int| 0 <= j < i ==> #[trigger] v@[j] < n,
        decreases v.len() - i,
    {
        if v[i] >= n {
            return false;
        }
        i += 1;
    }
    true
}

pub fn check_targets<K>(v: &Vec<(K, usize)>, n: usize) -> (r: bool)
    ensures
        r == targets_ok(v@, n),
{
    let mut i: usize = 0;
    while i < v.len()
        invariant
            i <= v.len(),
            forall|j: int| 0 <= j < i ==> (#[trigger] v@[j]).1 < n,
        decreases v.len() - i,
    {
        if v[i].1 >= n {
            return false;
        }
        i += 1;
    }
    true
}

/// Whether `a` and `b` hold the same elements in the same order.
pub fn same_arg_types(a: &[GenericArgType], b: &Vec<GenericArgType>) -> (r: bool)
    ensures
        r == (a@ == b@),
{
    if a.len() != b.len() {
        return false;
    }
    let mut i: usize = 0;
    while i < a.len()
        invariant
            i <= a@.len(),
            a@.len() == b@.len(),
            forall|j: int| 0 <= j < i ==> a@[j] == b@[j],
        decreases a.len() - i,
    {
        if !(a[i] == b[i]) {
            return false;
        }
        i += 1;
    }
    assert(a@ =~= b@);
    true
}

/// Whether `a` and `b` hold the same elements in the same order.
pub fn same_args(a: &[GenericArg], b: &Vec<GenericArg>) -> (r: bool)
    ensures
        r == (a@ == b@),
{
    if a.len() != b.len() {
        return false;
    }
    let mut i: usize = 0;
    while i < a.len()
        invariant
            i <= a@.len(),
            a@.len() == b@.len(),
            forall|j: int| 0 <= j < i ==> a@[j] == b@[j],
        decreases a.len() - i,
    {
        if !(a[i] == b[i]) {
            return false;
        }
        i += 1;
    }
    assert(a@ =~= b@);
    true
}

/// Position of the first entry keyed by the node index `k`.
pub fn find_index_key<V>(v: &Vec<(usize, V)>, k: usize) -> (r: Option<usize>)
    ensures
        match r {
            Some(p) => key_pos(v@, k) == Some(p as int) && p < v.len(),
            None => key_pos(v@, k) is None,
        },
{
    let mut i: usize = 0;
    while i < v.len()
        invariant
            i <= v.len(),
            key_pos(v@, k) == key_pos_from(v@, k, i as int),
        decreases v.len() - i,
    {
        if v[i].0 == k {
            return Some(i);
        }
        i += 1;
    }
    None
}

/// Position of the first entry keyed by the category `k`.
pub fn find_category_key<V>(
    v: &Vec<(ParameterCategory, V)>,
    k: ParameterCategory,
) -> (r: Option<usize>)
    ensures
        match r {
            Some(p) => key_pos(v@, k) == Some(p as int) && p < v.len(),
            None => key_pos(v@, k) is None,
        },
{
    let mut i: usize = 0;
    while i < v.len()
        invariant
            i <= v.len(),
            key_pos(v@, k) == key_pos_from(v@, k, i as int),
        decreases v.len() - i,
    {
        if v[i].0 == k {
            return Some(i);
        }
        i += 1;
    }
    None
}

/// The node index paired with `k`, if any.
pub fn lookup_index(v: &Vec<(usize, usize)>, k: usize) -> (r: Option<usize>)
    ensures
        r == lookup(v@, k),
{
    match find_index_key(v, k) {
        Some(p) => Some(v[p].1),
        None => None,
    }
}

/// The amount recorded for category `k`, or zero where none is recorded.
pub fn amount_for(v: &Vec<(ParameterCategory, usize)>, k: ParameterCategory) -> (r: usize)
    ensures
        r == match lookup(v@, k) {
            Some(a) => a,
            None => 0,
        },
{
    match find_category_key(v, k) {
        Some(p) => v[p].1,
        None => 0,
    }
}

/// Whether `k` occurs in the list of modifiers.
pub fn has_modifier(v: &Vec<ModifierID>, k: ModifierID) -> (r: bool)
    ensures
        r == v@.contains(k),
{
    let mut i: usize = 0;
    while i < v.len()
        invariant
            i <= v.len(),
            forall|j: int| 0 <= j < i ==> v@[j] != k,
        decreases v.len() - i,
    {
        if v[i] == k {
            proof { assert(v@[i as int] == k); }
            return true;
        }
        i += 1;
    }
    false
}

} // verus!
