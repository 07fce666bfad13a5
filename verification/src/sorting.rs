//! Ordering the preview players: a verified selection sort by descending
//! damage dealt, preserving the multiset of entries.

use vstd::prelude::*;

verus! {

/// Descending by the damage component.
pub open spec fn spec_sorted_desc(s: Seq<(u32, String, i64)>) -> bool {
    forall|i: int, j: int| 0 <= i < j < s.len() ==> (#[trigger] s[i]).2 >= (#[trigger] s[j]).2
}

/// Sorts the (class id, name, damage dealt) triples by descending damage.
pub fn sort_by_damage_desc(v: Vec<(u32, String, i64)>) -> (r: Vec<(u32, String, i64)>)
    ensures
        r@.len() == v@.len(),
        r@.to_multiset() == v@.to_multiset(),
        spec_sorted_desc(r@),
{
    broadcast use vstd::seq_lib::group_to_multiset_ensures;

    let mut src = v;
    let ghost orig = src@;
    let mut out: Vec<(u32, String, i64)> = Vec::new();
    proof {
        assert(out@.to_multiset().add(src@.to_multiset()) =~= orig.to_multiset());
    }
    while src.len() > 0
        invariant
            out@.to_multiset().add(src@.to_multiset()) == orig.to_multiset(),
            out@.len() + src@.len() == orig.len(),
            spec_sorted_desc(out@),
            forall|i: int, j: int|
                0 <= i < out@.len() && 0 <= j < src@.len() ==> (#[trigger] out@[i]).2 >= (
                #[trigger] src@[j]).2,
        decreases src@.len(),
    {
        let mut m: usize = 0;
        let mut k: usize = 1;
        while k < src.len()
            invariant
                0 <= m < k <= src@.len(),
                forall|j: int| 0 <= j < k ==> (#[trigger] src@[j]).2 <= src@[m as int].2,
            decreases src@.len() - k,
        {
            if src[k].2 > src[m].2 {
                m = k;
            }
            k = k + 1;
        }
        let ghost pre_src = src@;
        let ghost pre_out = out@;
        let x = src.remove(m);
        out.push(x);
        proof {
            broadcast use vstd::seq_lib::group_to_multiset_ensures;

            assert(src@ =~= pre_src.remove(m as int));
            assert(pre_src.remove(m as int).to_multiset() =~= pre_src.to_multiset().remove(
                pre_src[m as int],
            ));
            assert(out@ =~= pre_out.push(x));
            assert(pre_out.push(x).to_multiset() =~= pre_out.to_multiset().insert(x));
            assert(src@.to_multiset() == pre_src.to_multiset().remove(pre_src[m as int]));
            assert(out@.to_multiset() == pre_out.to_multiset().insert(x));
            assert(out@.to_multiset().add(src@.to_multiset()) =~= orig.to_multiset());
            assert(forall|j: int|
                0 <= j < src@.len() ==> (#[trigger] src@[j]).2 <= x.2) by {
                assert(forall|j: int|
                    0 <= j < src@.len() ==> src@[j] == pre_src[j] || src@[j] == pre_src[j + 1]);
            }
            assert(spec_sorted_desc(out@)) by {
                assert(forall|i: int|
                    0 <= i < pre_out.len() ==> (#[trigger] out@[i]) == pre_out[i]);
                assert(out@.last() == x);
            }
        }
    }
    proof {
        assert(src@.to_multiset() =~= Seq::<(u32, String, i64)>::empty().to_multiset());
        assert(out@.to_multiset() =~= orig.to_multiset());
    }
    out
}

} // verus!
