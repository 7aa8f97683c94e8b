use vstd::prelude::*;

use crate::kvmap::lookup;

verus! {

/// After `set(k, v)`, `get(k)` returns `v`.
pub proof fn law_get_after_set(m: Map<Seq<char>, Seq<char>>, k: Seq<char>, v: Seq<char>)
    ensures
        lookup(m.insert(k, v), k) == Some(v),
{
}

/// After `delete(k)`, `get(k)` returns nothing, whether or not `k` was there.
pub proof fn law_get_after_delete(m: Map<Seq<char>, Seq<char>>, k: Seq<char>)
    ensures
        lookup(m.remove(k), k) == None::<Seq<char>>,
{
}

/// A second `delete(k)` finds `k` absent and changes nothing.
pub proof fn law_delete_twice(m: Map<Seq<char>, Seq<char>>, k: Seq<char>)
    ensures
        !m.remove(k).contains_key(k),
        m.remove(k).remove(k) == m.remove(k),
{
    assert(m.remove(k).remove(k) =~= m.remove(k));
}

/// Of two writes to one key, the last one is read back.
pub proof fn law_last_write_wins(
    m: Map<Seq<char>, Seq<char>>,
    k: Seq<char>,
    a: Seq<char>,
    b: Seq<char>,
)
    ensures
        lookup(m.insert(k, a).insert(k, b), k) == Some(b),
{
}

/// Setting `a` and then `b`, and deleting `a`, leaves `a` absent and `b`
/// holding its value, on any store that starts from the same entries.
pub proof fn law_set_set_delete(
    m: Map<Seq<char>, Seq<char>>,
    a: Seq<char>,
    va: Seq<char>,
    b: Seq<char>,
    vb: Seq<char>,
)
    requires
        a != b,
    ensures
        lookup(m.insert(a, va).insert(b, vb).remove(a), a) == None::<Seq<char>>,
        lookup(m.insert(a, va).insert(b, vb).remove(a), b) == Some(vb),
{
}

} // verus!
