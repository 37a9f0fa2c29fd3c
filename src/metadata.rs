//! Looking up annotation values, with each key allowed at most once per scope.

use vstd::prelude::*;
use crate::description::MetaEntry;

verus! {

/// What a scope holds for one `(namespace, key)` pair.
pub enum Lookup {
    Absent,
    Found(Seq<char>),
    Duplicate,
}

/// Whether an annotation entry is the one for `(ns, key)`.
pub open spec fn entry_is(e: MetaEntry, ns: Seq<char>, key: Seq<char>) -> bool {
    e.namespace@ == ns && e.key@ == key
}

/// What the entries `m` hold for `(ns, key)`: nothing, exactly one value, or
/// more than one entry.
pub open spec fn lookup(m: Seq<MetaEntry>, ns: Seq<char>, key: Seq<char>) -> Lookup
    decreases m.len(),
{
    if m.len() == 0 {
        Lookup::Absent
    } else {
        let rest = lookup(m.drop_last(), ns, key);
        if entry_is(m.last(), ns, key) {
            match rest {
                Lookup::Absent => Lookup::Found(m.last().value@),
                _ => Lookup::Duplicate,
            }
        } else {
            rest
        }
    }
}

/// A key given twice in a prefix of the entries is given twice in all of them.
proof fn lemma_duplicate_persists(m: Seq<MetaEntry>, j: int, ns: Seq<char>, key: Seq<char>)
    requires
        0 <= j <= m.len(),
        lookup(m.take(j), ns, key) is Duplicate,
    ensures
        lookup(m, ns, key) is Duplicate,
    decreases m.len(),
{
    if j == m.len() {
        assert(m.take(j) =~= m);
    } else {
        assert(m.drop_last().take(j) =~= m.take(j));
        lemma_duplicate_persists(m.drop_last(), j, ns, key);
    }
}

/// The same key was given more than once in one scope.
#[derive(Clone, Copy, Debug, PartialEq, Eq)]
pub struct DuplicateKey;

/// Whether `r` reports the lookup result `l` (a duplicate is only ever an error).
pub open spec fn reports(r: Result<Option<String>, DuplicateKey>, l: Lookup) -> bool {
    match l {
        Lookup::Absent => r == Ok::<Option<String>, DuplicateKey>(None),
        Lookup::Found(v) => r is Ok && r->Ok_0 is Some && r->Ok_0->Some_0@ == v,
        Lookup::Duplicate => r is Err,
    }
}

/// The single value given for `(namespace, key)` among `meta`, `None` when
/// there is none, and an error when there are two or more.
pub fn find_unique(meta: &Vec<MetaEntry>, namespace: &str, key: &str) -> (r: Result<
    Option<String>,
    DuplicateKey,
>)
    ensures
        reports(r, lookup(meta@, namespace@, key@)),
{
    let ns = namespace.to_owned();
    let k = key.to_owned();
    let mut found: Option<String> = None;
    let mut i: usize = 0;
    while i < meta.len()
        invariant
            i <= meta@.len(),
            ns@ == namespace@,
            k@ == key@,
            reports(Ok(found), lookup(meta@.take(i as int), namespace@, key@)),
        decreases meta@.len() - i,
    {
        proof {
            let t = meta@.take(i as int + 1);
            assert(t.drop_last() =~= meta@.take(i as int));
            assert(t.last() == meta@[i as int]);
        }
        let e = &meta[i];
        if e.namespace == ns && e.key == k {
            if found.is_some() {
                proof {
                    lemma_duplicate_persists(meta@, i as int + 1, namespace@, key@);
                }
                return Err(DuplicateKey);
            }
            found = Some(e.value.clone());
        }
        i = i + 1;
    }
    assert(meta@.take(meta@.len() as int) =~= meta@);
    Ok(found)
}

} // verus!
