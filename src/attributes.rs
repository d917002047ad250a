//! Attribute sets of spans: an ordered list of name/value pairs read as a
//! mapping in which a later entry for a name wins over an earlier one.

use vstd::prelude::*;

verus! {

/// One name/value pair of an attribute set.
pub struct Attribute {
    pub key: String,
    pub value: String,
}

impl View for Attribute {
    type V = (Seq<char>, Seq<char>);

    open spec fn view(&self) -> (Seq<char>, Seq<char>) {
        (self.key@, self.value@)
    }
}

/// The mathematical form of an attribute list.
pub open spec fn attrs_view(v: Seq<Attribute>) -> Seq<(Seq<char>, Seq<char>)> {
    v.map_values(|a: Attribute| a@)
}

/// The value an attribute list gives to `k`: that of its last entry named `k`.
pub open spec fn lookup(s: Seq<(Seq<char>, Seq<char>)>, k: Seq<char>) -> Option<Seq<char>>
    decreases s.len(),
{
    if s.len() == 0 {
        None
    } else if s.last().0 == k {
        Some(s.last().1)
    } else {
        lookup(s.drop_last(), k)
    }
}

/// The mapping a child gets from its parent's set `p` and its own set `s`:
/// the child's own values win on a shared name.
pub open spec fn merged(p: Seq<(Seq<char>, Seq<char>)>, s: Seq<(Seq<char>, Seq<char>)>, k: Seq<char>) -> Option<Seq<char>> {
    match lookup(s, k) {
        Some(v) => Some(v),
        None => lookup(p, k),
    }
}

impl Attribute {
    /// An attribute from borrowed text.
    pub fn new(key: &str, value: &str) -> (r: Attribute)
        ensures
            r@ == (key@, value@),
    {
        Attribute { key: key.to_string(), value: value.to_string() }
    }

    /// A copy of this attribute.
    pub fn duplicate(&self) -> (r: Attribute)
        ensures
            r@ == self@,
    {
        Attribute { key: self.key.clone(), value: self.value.clone() }
    }
}

/// A copy of an attribute list.
pub fn copy_attributes(v: &Vec<Attribute>) -> (r: Vec<Attribute>)
    ensures
        attrs_view(r@) == attrs_view(v@),
{
    let mut r: Vec<Attribute> = Vec::new();
    let mut i: usize = 0;
    while i < v.len()
        invariant
            i <= v.len(),
            attrs_view(r@) == attrs_view(v@.take(i as int)),
        decreases v.len() - i,
    {
        let ghost before = r@;
        let a = v[i].duplicate();
        r.push(a);
        proof {
            assert(attrs_view(r@) =~= attrs_view(before).push(v@[i as int]@));
            assert(attrs_view(v@.take(i as int + 1)) =~= attrs_view(v@.take(i as int)).push(v@[i as int]@));
        }
        i += 1;
    }
    assert(v@.take(v.len() as int) =~= v@);
    r
}

/// Whether the list names `key`.
pub fn contains_key(s: &Vec<Attribute>, key: &String) -> (r: bool)
    ensures
        r == lookup(attrs_view(s@), key@) is Some,
{
    let mut found = false;
    let mut j: usize = 0;
    while j < s.len()
        invariant
            j <= s.len(),
            found == lookup(attrs_view(s@.take(j as int)), key@) is Some,
        decreases s.len() - j,
    {
        proof {
            let t = attrs_view(s@.take(j as int + 1));
            assert(t.drop_last() =~= attrs_view(s@.take(j as int)));
            assert(t.last() == s@[j as int]@);
        }
        if s[j].key == *key {
            found = true;
        }
        j += 1;
    }
    assert(s@.take(s.len() as int) =~= s@);
    found
}

/// The attribute set of a child span: the parent's entries whose names the
/// child does not supply, then the child's own entries.
pub fn merge_attributes(parent: &Vec<Attribute>, supplied: &Vec<Attribute>) -> (r: Vec<Attribute>)
    ensures
        forall|k: Seq<char>|
            #[trigger] lookup(attrs_view(r@), k) == merged(attrs_view(parent@), attrs_view(supplied@), k),
{
    let ghost sv = attrs_view(supplied@);
    let mut r: Vec<Attribute> = Vec::new();
    let mut i: usize = 0;
    while i < parent.len()
        invariant
            i <= parent.len(),
            sv == attrs_view(supplied@),
            forall|k: Seq<char>| #[trigger] lookup(attrs_view(r@), k) == (
                if lookup(sv, k) is Some { None } else { lookup(attrs_view(parent@.take(i as int)), k) }),
        decreases parent.len() - i,
    {
        let ghost before = r@;
        proof {
            let t = attrs_view(parent@.take(i as int + 1));
            assert(t.drop_last() =~= attrs_view(parent@.take(i as int)));
            assert(t.last() == parent@[i as int]@);
        }
        if !contains_key(supplied, &parent[i].key) {
            let a = parent[i].duplicate();
            r.push(a);
            proof {
                let t = attrs_view(r@);
                assert(t.drop_last() =~= attrs_view(before));
                assert(t.last() == parent@[i as int]@);
                assert forall|k: Seq<char>| #[trigger] lookup(attrs_view(r@), k) == (
                    if lookup(sv, k) is Some { None } else { lookup(attrs_view(parent@.take(i as int + 1)), k) }) by {
                    assert(lookup(attrs_view(before), k) == (
                        if lookup(sv, k) is Some { None } else { lookup(attrs_view(parent@.take(i as int)), k) }));
                }
            }
        } else {
            proof {
                assert forall|k: Seq<char>| #[trigger] lookup(attrs_view(r@), k) == (
                    if lookup(sv, k) is Some { None } else { lookup(attrs_view(parent@.take(i as int + 1)), k) }) by {
                    assert(lookup(attrs_view(before), k) == (
                        if lookup(sv, k) is Some { None } else { lookup(attrs_view(parent@.take(i as int)), k) }));
                }
            }
        }
        i += 1;
    }
    assert(parent@.take(parent.len() as int) =~= parent@);
    let ghost base = r@;
    let mut j: usize = 0;
    while j < supplied.len()
        invariant
            j <= supplied.len(),
            sv == attrs_view(supplied@),
            forall|k: Seq<char>| #[trigger] lookup(attrs_view(base), k) == (
                if lookup(sv, k) is Some { None } else { lookup(attrs_view(parent@), k) }),
            forall|k: Seq<char>| #[trigger] lookup(attrs_view(r@), k) == (
                match lookup(attrs_view(supplied@.take(j as int)), k) {
                    Some(v) => Some(v),
                    None => lookup(attrs_view(base), k),
                }),
        decreases supplied.len() - j,
    {
        let ghost before = r@;
        let a = supplied[j].duplicate();
        r.push(a);
        proof {
            let t = attrs_view(supplied@.take(j as int + 1));
            assert(t.drop_last() =~= attrs_view(supplied@.take(j as int)));
            assert(t.last() == supplied@[j as int]@);
            let u = attrs_view(r@);
            assert(u.drop_last() =~= attrs_view(before));
            assert(u.last() == supplied@[j as int]@);
            assert forall|k: Seq<char>| #[trigger] lookup(attrs_view(r@), k) == (
                match lookup(attrs_view(supplied@.take(j as int + 1)), k) {
                    Some(v) => Some(v),
                    None => lookup(attrs_view(base), k),
                }) by {
                assert(lookup(attrs_view(before), k) == (
                    match lookup(attrs_view(supplied@.take(j as int)), k) {
                        Some(v) => Some(v),
                        None => lookup(attrs_view(base), k),
                    }));
            }
        }
        j += 1;
    }
    assert(supplied@.take(supplied.len() as int) =~= supplied@);
    r
}

} // verus!
