//! Wait ids in ascending order.

use vstd::prelude::*;

verus! {

/// No id before a smaller one.
pub open spec fn sorted(ids: Seq<u32>) -> bool {
    forall|i: int, j: int| 0 <= i < j < ids.len() ==> ids[i] <= ids[j]
}

/// Each id before every larger one, and none twice.
pub open spec fn ascending(ids: Seq<u32>) -> bool {
    forall|i: int, j: int| 0 <= i < j < ids.len() ==> ids[i] < ids[j]
}

/// `listed` names exactly the members of `ids`, each once, in ascending order.
pub open spec fn lists(listed: Seq<u32>, ids: Set<u32>) -> bool {
    &&& ascending(listed)
    &&& listed.to_set() == ids
}

/// There is only one ascending list of a set: two of them are the same list.
pub proof fn lemma_list_is_unique(a: Seq<u32>, b: Seq<u32>, ids: Set<u32>)
    requires
        lists(a, ids),
        lists(b, ids),
    ensures
        a == b,
    decreases a.len(),
{
    if a.len() == 0 {
        if b.len() > 0 {
            assert(b.to_set().contains(b[0]));
            assert(a.to_set().contains(b[0]));
        }
        assert(a == b);
    } else {
        assert(a.to_set().contains(a.last()));
        assert(b.to_set().contains(a.last()));
        assert(b.to_set().contains(b.last()));
        assert(a.to_set().contains(b.last()));
        assert(a.last() == b.last());
        let rest = ids.remove(a.last());
        assert(lists(a.drop_last(), rest)) by {
            lemma_without_last(a);
        }
        assert(lists(b.drop_last(), rest)) by {
            lemma_without_last(b);
        }
        lemma_list_is_unique(a.drop_last(), b.drop_last(), rest);
        assert(a == a.drop_last().push(a.last()));
        assert(b == b.drop_last().push(b.last()));
    }
}

proof fn lemma_without_last(a: Seq<u32>)
    requires
        ascending(a),
        a.len() > 0,
    ensures
        lists(a.drop_last(), a.to_set().remove(a.last())),
{
    let rest = a.drop_last();
    assert forall|x: u32| rest.to_set().contains(x) == a.to_set().remove(a.last()).contains(x) by {
        if rest.to_set().contains(x) {
            let i = choose|i: int| 0 <= i < rest.len() && rest[i] == x;
            assert(a[i] == x);
        }
        if a.to_set().remove(a.last()).contains(x) {
            let i = choose|i: int| 0 <= i < a.len() && a[i] == x;
            assert(rest[i] == x);
        }
    }
    assert(rest.to_set() == a.to_set().remove(a.last()));
}

/// Puts ids in ascending order, keeping each as often as it occurs.
pub fn sort_ids(ids: &Vec<u32>) -> (res: Vec<u32>)
    ensures
        sorted(res@),
        res@.to_multiset() == ids@.to_multiset(),
{
    let mut res: Vec<u32> = Vec::new();
    assert(ids@.take(0) == res@);
    for n in 0..ids.len()
        invariant
            sorted(res@),
            res@.to_multiset() == ids@.take(n as int).to_multiset(),
    {
        let id: u32 = ids[n];
        let mut at: usize = res.len();
        while at > 0 && res[at - 1] > id
            invariant
                at <= res.len(),
                sorted(res@),
                forall|k: int| at <= k < res.len() ==> res[k] > id,
            decreases at,
        {
            at = at - 1;
        }
        let ghost before = res@;
        res.insert(at, id);
        assert(ids@.take(n + 1) == ids@.take(n as int).push(id));
        proof {
            vstd::seq_lib::to_multiset_insert(before, at as int, id);
            vstd::seq_lib::to_multiset_build(ids@.take(n as int), id);
        }
    }
    assert(ids@.take(ids.len() as int) == ids@);
    res
}

/// The ascending list of ids that are known to be distinct.
pub fn list_distinct(ids: &Vec<u32>) -> (res: Vec<u32>)
    requires
        ids@.no_duplicates(),
    ensures
        lists(res@, ids@.to_set()),
        res.len() == ids.len(),
{
    broadcast use vstd::seq_lib::group_to_multiset_ensures;

    let res = sort_ids(ids);
    proof {
        ids@.lemma_multiset_has_no_duplicates();
        res@.lemma_multiset_has_no_duplicates_conv();
        assert forall|x: u32| res@.to_set().contains(x) == ids@.to_set().contains(x) by {
            assert(res@.contains(x) <==> res@.to_multiset().count(x) > 0);
            assert(ids@.contains(x) <==> ids@.to_multiset().count(x) > 0);
        }
        assert(res@.to_set() == ids@.to_set());
        assert(ids@.to_multiset().len() == ids@.len());
        assert(res@.to_multiset().len() == res@.len());
    }
    res
}

} // verus!
