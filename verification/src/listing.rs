use vstd::prelude::*;

verus! {

/// Whether `a` comes before `b` in the order of byte strings: by the first
/// byte in which they differ, a proper prefix first.
pub open spec fn bytes_lt(a: Seq<u8>, b: Seq<u8>) -> bool
    decreases a.len(),
{
    if b.len() == 0 {
        false
    } else if a.len() == 0 {
        true
    } else if a[0] != b[0] {
        a[0] < b[0]
    } else {
        bytes_lt(a.drop_first(), b.drop_first())
    }
}

/// `keys` lists the set `dom` in ascending order, each key once.
pub open spec fn lists_keys(keys: Seq<Seq<u8>>, dom: Set<Seq<u8>>) -> bool {
    &&& forall|i: int| 0 <= i < keys.len() ==> dom.contains(#[trigger] keys[i])
    &&& forall|k: Seq<u8>| dom.contains(k) ==> exists|i: int| 0 <= i < keys.len() && keys[i] == k
    &&& forall|i: int, j: int| 0 <= i < j < keys.len() ==> bytes_lt(keys[i], keys[j])
}

/// The keys of `dom` in ascending order, where the set can be listed.
pub open spec fn sorted_keys(dom: Set<Seq<u8>>) -> Seq<Seq<u8>> {
    choose|keys: Seq<Seq<u8>>| lists_keys(keys, dom)
}

/// The byte strings that a vector of keys stands for.
pub open spec fn key_views<const N: usize>(keys: Seq<[u8; N]>) -> Seq<Seq<u8>> {
    Seq::new(keys.len(), |i: int| keys[i]@)
}

/// No byte string comes before itself.
pub proof fn lemma_lt_irreflexive(a: Seq<u8>)
    ensures
        !bytes_lt(a, a),
    decreases a.len(),
{
    if a.len() > 0 {
        lemma_lt_irreflexive(a.drop_first());
    }
}

/// What comes before something that comes before a third comes before the
/// third.
pub proof fn lemma_lt_transitive(a: Seq<u8>, b: Seq<u8>, c: Seq<u8>)
    requires
        bytes_lt(a, b),
        bytes_lt(b, c),
    ensures
        bytes_lt(a, c),
    decreases a.len(),
{
    if a.len() > 0 && b.len() > 0 && c.len() > 0 && a[0] == b[0] && b[0] == c[0] {
        lemma_lt_transitive(a.drop_first(), b.drop_first(), c.drop_first());
    }
}

/// Two ascending lists of the same set end with the same key.
proof fn lemma_same_last(x: Seq<Seq<u8>>, y: Seq<Seq<u8>>, dom: Set<Seq<u8>>)
    requires
        lists_keys(x, dom),
        lists_keys(y, dom),
        x.len() > 0,
    ensures
        y.len() > 0,
        x.last() == y.last(),
{
    let j = choose|j: int| 0 <= j < y.len() && y[j] == x.last();
    if j < y.len() - 1 {
        let k = choose|k: int| 0 <= k < x.len() && x[k] == y.last();
        if k < x.len() - 1 {
            lemma_lt_transitive(x[k], x.last(), y.last());
        }
        lemma_lt_irreflexive(y.last());
    }
}

/// A set has at most one ascending list.
pub proof fn lemma_listing_unique(x: Seq<Seq<u8>>, y: Seq<Seq<u8>>, dom: Set<Seq<u8>>)
    requires
        lists_keys(x, dom),
        lists_keys(y, dom),
    ensures
        x == y,
    decreases x.len(),
{
    if x.len() == 0 {
        if y.len() > 0 {
            assert(dom.contains(y[0]));
        }
    } else {
        lemma_same_last(x, y, dom);
        let last = x.last();
        let rest = dom.remove(last);
        let xs = x.drop_last();
        let ys = y.drop_last();
        lemma_lt_irreflexive(last);
        assert forall|k: Seq<u8>| rest.contains(k) implies exists|i: int|
            0 <= i < xs.len() && xs[i] == k by {
            let i = choose|i: int| 0 <= i < x.len() && x[i] == k;
            assert(xs[i] == k);
        }
        assert forall|k: Seq<u8>| rest.contains(k) implies exists|i: int|
            0 <= i < ys.len() && ys[i] == k by {
            let i = choose|i: int| 0 <= i < y.len() && y[i] == k;
            assert(ys[i] == k);
        }
        lemma_listing_unique(xs, ys, rest);
        assert(y =~= ys.push(last));
    }
}

/// An ascending list of a set is the list of its sorted keys.
pub proof fn lemma_sorted_keys(keys: Seq<Seq<u8>>, dom: Set<Seq<u8>>)
    requires
        lists_keys(keys, dom),
    ensures
        keys == sorted_keys(dom),
        lists_keys(sorted_keys(dom), dom),
{
    lemma_listing_unique(keys, sorted_keys(dom), dom);
}

} // verus!
