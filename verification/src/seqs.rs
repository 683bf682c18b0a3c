//! Facts about sequences that the laws of the passes rest on.

use vstd::prelude::*;
use vstd::seq_lib::lemma_flatten_concat;

verus! {

/// Mapping each element to a sequence and concatenating distributes over
/// concatenation.
pub proof fn lemma_flat_map_add<A, B>(a: Seq<A>, b: Seq<A>, f: spec_fn(A) -> Seq<B>)
    ensures
        (a + b).flat_map(f) == a.flat_map(f) + b.flat_map(f),
{
    assert((a + b).map_values(f) =~= a.map_values(f) + b.map_values(f));
    lemma_flatten_concat(a.map_values(f), b.map_values(f));
}

/// The result for the element at `k` stands between the results for the
/// elements before it and those after it.
pub proof fn lemma_flat_map_split<A, B>(s: Seq<A>, f: spec_fn(A) -> Seq<B>, k: int)
    requires
        0 <= k < s.len(),
    ensures
        s.flat_map(f) == s.take(k).flat_map(f) + f(s[k]) + s.skip(k + 1).flat_map(f),
{
    let one = seq![s[k]];
    assert(s =~= s.take(k) + one + s.skip(k + 1));
    lemma_flat_map_add(s.take(k) + one, s.skip(k + 1), f);
    lemma_flat_map_add(s.take(k), one, f);
    one.lemma_flat_map_singleton(f);
}

/// What the result for one element holds, the whole result holds.
pub proof fn lemma_flat_map_contains<A, B>(s: Seq<A>, f: spec_fn(A) -> Seq<B>, k: int, x: B)
    requires
        0 <= k < s.len(),
        f(s[k]).contains(x),
    ensures
        s.flat_map(f).contains(x),
{
    lemma_flat_map_split(s, f, k);
    let before = s.take(k).flat_map(f);
    let here = f(s[k]);
    let j = choose|j: int| 0 <= j < here.len() && here[j] == x;
    assert(s.flat_map(f)[before.len() + j] == x);
}

/// What the whole result holds, the result for some element holds.
pub proof fn lemma_flat_map_member<A, B>(s: Seq<A>, f: spec_fn(A) -> Seq<B>, x: B) -> (k: int)
    requires
        s.flat_map(f).contains(x),
    ensures
        0 <= k < s.len(),
        f(s[k]).contains(x),
    decreases s.len(),
{
    if s.len() == 0 {
        assert(s.map_values(f) =~= Seq::empty());
        assert(s.flat_map(f) =~= Seq::empty());
        0
    } else {
        let rest = s.drop_last();
        assert(s =~= rest.push(s.last()));
        rest.lemma_flat_map_push(f, s.last());
        let whole = s.flat_map(f);
        let j = choose|j: int| 0 <= j < whole.len() && whole[j] == x;
        if j < rest.flat_map(f).len() {
            assert(rest.flat_map(f)[j] == x);
            let k = lemma_flat_map_member(rest, f, x);
            assert(rest[k] == s[k]);
            k
        } else {
            assert(f(s.last())[j - rest.flat_map(f).len()] == x);
            s.len() - 1
        }
    }
}

/// Mapping each element distributes over concatenation.
pub proof fn lemma_map_add<A, B>(a: Seq<A>, b: Seq<A>, f: spec_fn(A) -> B)
    ensures
        (a + b).map_values(f) == a.map_values(f) + b.map_values(f),
{
    assert((a + b).map_values(f) =~= a.map_values(f) + b.map_values(f));
}

/// A concatenation holds what one of its parts holds.
pub proof fn lemma_contains_add<A>(p: Seq<A>, q: Seq<A>, x: A)
    ensures
        (p + q).contains(x) <==> p.contains(x) || q.contains(x),
{
    if p.contains(x) {
        let i = choose|i: int| 0 <= i < p.len() && p[i] == x;
        assert((p + q)[i] == x);
    }
    if q.contains(x) {
        let j = choose|j: int| 0 <= j < q.len() && q[j] == x;
        assert((p + q)[p.len() + j] == x);
    }
    if (p + q).contains(x) {
        let s = p + q;
        let i = choose|i: int| 0 <= i < s.len() && s[i] == x;
        if i < p.len() {
            assert(p[i] == x);
        } else {
            assert(q[i - p.len()] == x);
        }
    }
}

/// The parts of a concatenation without duplicates have none, and share no
/// element.
pub proof fn lemma_no_dup_parts<A>(p: Seq<A>, q: Seq<A>)
    requires
        (p + q).no_duplicates(),
    ensures
        p.no_duplicates(),
        q.no_duplicates(),
        forall|x: A| p.contains(x) ==> !q.contains(x),
{
    let s = p + q;
    assert forall|i: int, j: int| 0 <= i < p.len() && 0 <= j < p.len() && i != j implies p[i]
        != p[j] by {
        assert(s[i] == p[i] && s[j] == p[j]);
    }
    assert forall|i: int, j: int| 0 <= i < q.len() && 0 <= j < q.len() && i != j implies q[i]
        != q[j] by {
        assert(s[p.len() + i] == q[i] && s[p.len() + j] == q[j]);
    }
    assert forall|x: A| p.contains(x) implies !q.contains(x) by {
        if q.contains(x) {
            let i = choose|i: int| 0 <= i < p.len() && p[i] == x;
            let j = choose|j: int| 0 <= j < q.len() && q[j] == x;
            assert(s[i] == x && s[p.len() + j] == x);
        }
    }
}

/// Two sequences without duplicates that share no element concatenate to one
/// without duplicates.
pub proof fn lemma_no_dup_join<A>(p: Seq<A>, q: Seq<A>)
    requires
        p.no_duplicates(),
        q.no_duplicates(),
        forall|x: A| p.contains(x) ==> !q.contains(x),
    ensures
        (p + q).no_duplicates(),
{
    assert forall|i: int, j: int| 0 <= i < p.len() && 0 <= j < q.len() implies p[i] != q[j] by {
        assert(p.contains(p[i]));
        assert(q.contains(q[j]));
    }
    vstd::seq_lib::lemma_no_dup_in_concat(p, q);
}

} // verus!
