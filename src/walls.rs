use vstd::prelude::*;

verus! {

/// Wall `a` comes before wall `b`: its closest point is nearer the origin,
/// or as near and `a` was listed first.
pub open spec fn comes_before(closest: Seq<u64>, a: int, b: int) -> bool {
    closest[a] < closest[b] || (closest[a] == closest[b] && a < b)
}

/// `order` lists each of the walls `0..closest.len()` exactly once, nearest
/// first, walls equally near in the order in which they were listed.
pub open spec fn is_nearest_first(closest: Seq<u64>, order: Seq<usize>) -> bool {
    &&& order.len() == closest.len()
    &&& forall|i: int| 0 <= i < order.len() ==> #[trigger] order[i] < closest.len()
    &&& forall|w: usize| w < closest.len() ==> #[trigger] order.contains(w)
    &&& forall|i: int, j: int|
        0 <= i < j < order.len() ==> comes_before(closest, #[trigger] order[i] as int, #[trigger] order[j] as int)
}

/// The order in which to keep the walls of a map, nearest first:
/// `closest[k]` is the distance from the origin to the nearest endpoint of
/// wall `k`. Of walls equally near, the one listed first stays first.
pub fn wall_order(closest: &Vec<u64>) -> (order: Vec<usize>)
    ensures
        is_nearest_first(closest@, order@),
{
    let n = closest.len();
    let mut order: Vec<usize> = Vec::new();
    let mut k: usize = 0;
    while k < n
        invariant
            n == closest@.len(),
            k <= n,
            order@.len() == k,
            forall|i: int| 0 <= i < order@.len() ==> #[trigger] order@[i] < k,
            forall|w: usize| w < k ==> #[trigger] order@.contains(w),
            forall|i: int, j: int|
                0 <= i < j < order@.len() ==> comes_before(
                    closest@,
                    #[trigger] order@[i] as int,
                    #[trigger] order@[j] as int,
                ),
        decreases n - k,
    {
        let key = closest[k];
        let mut pos: usize = 0;
        while pos < order.len() && closest[order[pos]] <= key
            invariant
                n == closest@.len(),
                k < n,
                order@.len() == k,
                pos <= order@.len(),
                forall|i: int| 0 <= i < order@.len() ==> #[trigger] order@[i] < k,
                forall|i: int| 0 <= i < pos ==> closest@[#[trigger] order@[i] as int] <= key,
            decreases order@.len() - pos,
        {
            pos = pos + 1;
        }
        let ghost before = order@;
        proof {
            before.insert_ensures(pos as int, k);
            if pos < before.len() {
                assert forall|j: int| pos <= j < before.len() implies key < closest@[
                #[trigger] before[j] as int] by {
                    if j > pos {
                        assert(comes_before(closest@, before[pos as int] as int, before[j] as int));
                    }
                }
            }
        }
        order.insert(pos, k);
        proof {
            let after = order@;
            assert forall|i: int, j: int|
                0 <= i < j < after.len() implies comes_before(
                closest@,
                #[trigger] after[i] as int,
                #[trigger] after[j] as int,
            ) by {
                if j < pos {
                    assert(after[i] == before[i] && after[j] == before[j]);
                } else if j == pos {
                    assert(after[i] == before[i]);
                } else if i < pos {
                    assert(after[i] == before[i] && after[j] == before[j - 1]);
                } else if i == pos {
                    assert(after[j] == before[j - 1]);
                } else {
                    assert(after[i] == before[i - 1] && after[j] == before[j - 1]);
                }
            }
            assert forall|i: int| 0 <= i < after.len() implies #[trigger] after[i] < k + 1 by {
                if i < pos {
                    assert(after[i] == before[i]);
                } else if i > pos {
                    assert(after[i] == before[i - 1]);
                }
            }
            assert forall|w: usize| w < k + 1 implies #[trigger] after.contains(w) by {
                if w == k {
                    assert(after[pos as int] == k);
                } else {
                    assert(before.contains(w));
                    let i = choose|i: int| 0 <= i < before.len() && before[i] == w;
                    if i < pos {
                        assert(after[i] == w);
                    } else {
                        assert(after[i + 1] == w);
                    }
                }
            }
        }
        k = k + 1;
    }
    order
}

} // verus!
