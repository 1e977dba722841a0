//! Byte-string helpers shared by the bridge: equality, membership and
//! distinct counting over sequences of byte strings.

use vstd::prelude::*;

verus! {

broadcast use vstd::seq_lib::group_seq_properties, vstd::set::group_set_axioms;

/// The byte strings held by a vector of byte vectors.
pub open spec fn keys_of(v: Seq<Vec<u8>>) -> Seq<Seq<u8>> {
    v.map_values(|k: Vec<u8>| k@)
}

/// The predicate "differs from `v`".
pub open spec fn differs_from(v: Seq<u8>) -> spec_fn(Seq<u8>) -> bool {
    |k: Seq<u8>| k != v
}

/// Compares two byte strings.
pub fn bytes_equal(a: &[u8], b: &[u8]) -> (r: bool)
    ensures
        r == (a@ == b@),
{
    if a.len() != b.len() {
        return false;
    }
    let mut i: usize = 0;
    while i < a.len()
        invariant
            a@.len() == b@.len(),
            i <= a@.len(),
            forall|j: int| 0 <= j < i ==> a@[j] == b@[j],
        decreases a@.len() - i,
    {
        if a[i] != b[i] {
            return false;
        }
        i = i + 1;
    }
    assert(a@ =~= b@);
    true
}

/// Copies a byte vector.
pub fn copy_bytes(a: &[u8]) -> (r: Vec<u8>)
    ensures
        r@ == a@,
{
    let mut out: Vec<u8> = Vec::new();
    let mut i: usize = 0;
    while i < a.len()
        invariant
            i <= a@.len(),
            out@ =~= a@.take(i as int),
        decreases a@.len() - i,
    {
        out.push(a[i]);
        i = i + 1;
    }
    assert(a@.take(a@.len() as int) =~= a@);
    out
}

/// Copies a list of byte vectors, element by element.
pub fn copy_key_list(v: &Vec<Vec<u8>>) -> (r: Vec<Vec<u8>>)
    ensures
        keys_of(r@) == keys_of(v@),
{
    let mut out: Vec<Vec<u8>> = Vec::new();
    let mut i: usize = 0;
    while i < v.len()
        invariant
            i <= v@.len(),
            keys_of(out@) =~= keys_of(v@).take(i as int),
        decreases v@.len() - i,
    {
        let k = copy_bytes(v[i].as_slice());
        let ghost prev = out@;
        out.push(k);
        assert(keys_of(out@) =~= keys_of(prev).push(k@));
        assert(keys_of(v@).take(i + 1) =~= keys_of(v@).take(i as int).push(k@));
        i = i + 1;
    }
    assert(keys_of(v@).take(v@.len() as int) =~= keys_of(v@));
    out
}

/// Returns `true` when `needle` occurs among the first `end` entries of `hay`.
pub fn contains_key_before(hay: &Vec<Vec<u8>>, end: usize, needle: &[u8]) -> (r: bool)
    requires
        end <= hay@.len(),
    ensures
        r == keys_of(hay@).take(end as int).contains(needle@),
{
    let mut i: usize = 0;
    while i < end
        invariant
            end <= hay@.len(),
            i <= end,
            forall|j: int| 0 <= j < i ==> keys_of(hay@)[j] != needle@,
        decreases end - i,
    {
        if bytes_equal(hay[i].as_slice(), needle) {
            assert(keys_of(hay@).take(end as int)[i as int] == needle@);
            return true;
        }
        i = i + 1;
    }
    assert(!keys_of(hay@).take(end as int).contains(needle@)) by {
        if keys_of(hay@).take(end as int).contains(needle@) {
            let j = choose|j: int|
                0 <= j < end && keys_of(hay@).take(end as int)[j] == needle@;
            assert(keys_of(hay@)[j] == needle@);
        }
    }
    false
}

/// Returns `true` when `needle` occurs anywhere in `hay`.
pub fn contains_key(hay: &Vec<Vec<u8>>, needle: &[u8]) -> (r: bool)
    ensures
        r == keys_of(hay@).contains(needle@),
{
    let r = contains_key_before(hay, hay.len(), needle);
    assert(keys_of(hay@).take(hay@.len() as int) =~= keys_of(hay@));
    r
}

/// Number of distinct byte strings among the entries of `v` that are not in
/// `excluded`.
pub fn count_distinct_outside(v: &Vec<Vec<u8>>, excluded: &Vec<Vec<u8>>) -> (n: usize)
    ensures
        n == keys_of(v@).to_set().difference(keys_of(excluded@).to_set()).len(),
{
    let ghost ex = keys_of(excluded@).to_set();
    let mut count: usize = 0;
    let mut i: usize = 0;
    assert(keys_of(v@).take(0).to_set().difference(ex) =~= Set::<Seq<u8>>::empty());
    while i < v.len()
        invariant
            i <= v@.len(),
            ex == keys_of(excluded@).to_set(),
            count == keys_of(v@).take(i as int).to_set().difference(ex).len(),
            count <= i,
        decreases v@.len() - i,
    {
        let ghost before = keys_of(v@).take(i as int).to_set().difference(ex);
        let k = v[i].as_slice();
        assert(keys_of(v@).take(i + 1) =~= keys_of(v@).take(i as int).push(k@));
        proof { keys_of(v@).take(i as int).lemma_push_to_set_commute(k@); }
        let seen = contains_key_before(v, i, k);
        let skip = contains_key(excluded, k);
        if !seen && !skip {
            assert(keys_of(v@).take(i + 1).to_set().difference(ex) =~= before.insert(k@));
            assert(!before.contains(k@));
            count = count + 1;
        } else {
            assert(keys_of(v@).take(i + 1).to_set().difference(ex) =~= before);
        }
        i = i + 1;
    }
    assert(keys_of(v@).take(v@.len() as int) =~= keys_of(v@));
    count
}

/// Number of distinct byte strings among the entries of `v`.
pub fn count_distinct(v: &Vec<Vec<u8>>) -> (n: usize)
    ensures
        n == keys_of(v@).to_set().len(),
{
    let none: Vec<Vec<u8>> = Vec::new();
    let n = count_distinct_outside(v, &none);
    assert(keys_of(none@).to_set() =~= Set::<Seq<u8>>::empty());
    assert(keys_of(v@).to_set().difference(keys_of(none@).to_set()) =~= keys_of(v@).to_set());
    n
}

/// Whether some byte string occurs twice in `v`.
pub fn has_duplicate(v: &Vec<Vec<u8>>) -> (r: bool)
    ensures
        r == !keys_of(v@).no_duplicates(),
{
    let mut i: usize = 0;
    while i < v.len()
        invariant
            i <= v@.len(),
            keys_of(v@).take(i as int).no_duplicates(),
        decreases v@.len() - i,
    {
        if contains_key_before(v, i, v[i].as_slice()) {
            let ghost k = keys_of(v@)[i as int];
            let ghost j = choose|j: int| 0 <= j < i && keys_of(v@).take(i as int)[j] == k;
            assert(keys_of(v@)[j] == keys_of(v@)[i as int]);
            return true;
        }
        assert(keys_of(v@).take(i + 1) =~= keys_of(v@).take(i as int).push(keys_of(v@)[i as int]));
        i = i + 1;
    }
    assert(keys_of(v@).take(v@.len() as int) =~= keys_of(v@));
    false
}

/// The concatenation `prefix || suffix`.
pub fn concat_prefixed(prefix: &[u8], suffix: &[u8]) -> (r: Vec<u8>)
    ensures
        r@ == prefix@ + suffix@,
{
    let mut out = copy_bytes(prefix);
    let mut i: usize = 0;
    while i < suffix.len()
        invariant
            i <= suffix@.len(),
            out@ =~= prefix@ + suffix@.take(i as int),
        decreases suffix@.len() - i,
    {
        out.push(suffix[i]);
        assert(suffix@.take(i + 1) =~= suffix@.take(i as int).push(suffix@[i as int]));
        i = i + 1;
    }
    assert(suffix@.take(suffix@.len() as int) =~= suffix@);
    out
}

/// The entries of `v` other than `key`, in order.
pub fn without_key(v: &Vec<Vec<u8>>, key: &[u8]) -> (r: Vec<Vec<u8>>)
    ensures
        keys_of(r@) == keys_of(v@).filter(differs_from(key@)),
{
    let ghost f = differs_from(key@);
    let mut out: Vec<Vec<u8>> = Vec::new();
    let mut i: usize = 0;
    assert(keys_of(v@).take(0) =~= Seq::<Seq<u8>>::empty());
    assert(Seq::<Seq<u8>>::empty().filter(f) =~= Seq::<Seq<u8>>::empty());
    while i < v.len()
        invariant
            i <= v@.len(),
            f == differs_from(key@),
            keys_of(out@) =~= keys_of(v@).take(i as int).filter(f),
        decreases v@.len() - i,
    {
        let k = v[i].as_slice();
        assert(keys_of(v@).take(i + 1) =~= keys_of(v@).take(i as int).push(k@));
        proof { keys_of(v@).take(i as int).lemma_filter_push(k@, f); }
        if !bytes_equal(k, key) {
            let ghost prev = out@;
            out.push(copy_bytes(k));
            assert(keys_of(out@) =~= keys_of(prev).push(k@));
        }
        i = i + 1;
    }
    assert(keys_of(v@).take(v@.len() as int) =~= keys_of(v@));
    out
}

} // verus!
