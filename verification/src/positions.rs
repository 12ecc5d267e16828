//! Selecting positions of a sequence by a predicate. Both the cleaning of a
//! series and the search in the catalog keep the entries at the wanted
//! positions and leave their order alone.

use vstd::prelude::*;

verus! {

/// The positions below `n` that satisfy `wanted`, in ascending order.
pub open spec fn positions_where(n: nat, wanted: spec_fn(int) -> bool) -> Seq<int> {
    Seq::new(n, |i: int| i).filter(wanted)
}

/// Looking at one more position appends it when it is wanted and changes
/// nothing otherwise.
pub proof fn lemma_positions_step(n: nat, wanted: spec_fn(int) -> bool)
    ensures
        positions_where(n + 1, wanted) == (if wanted(n as int) {
            positions_where(n, wanted).push(n as int)
        } else {
            positions_where(n, wanted)
        }),
        positions_where(0, wanted) == Seq::<int>::empty(),
{
    let all = Seq::new(n, |i: int| i);
    assert(Seq::new(n + 1, |i: int| i) =~= all.push(n as int));
    all.lemma_filter_push(n as int, wanted);
    reveal(Seq::filter);
    assert(Seq::new(0, |i: int| i).filter(wanted) =~= Seq::<int>::empty());
}

/// The selected positions are exactly the wanted positions below `n`, each
/// once and in ascending order.
pub proof fn lemma_positions_ascending(n: nat, wanted: spec_fn(int) -> bool)
    ensures
        positions_where(n, wanted).len() <= n,
        forall|k: int|
            0 <= k < positions_where(n, wanted).len() ==> 0 <= #[trigger] positions_where(
                n,
                wanted,
            )[k] < n && wanted(positions_where(n, wanted)[k]),
        forall|j: int, k: int|
            0 <= j < k < positions_where(n, wanted).len() ==> positions_where(n, wanted)[j]
                < positions_where(n, wanted)[k],
        forall|i: int|
            0 <= i < n && #[trigger] wanted(i) ==> positions_where(n, wanted).contains(i),
    decreases n,
{
    if n == 0 {
        lemma_positions_step(0, wanted);
    } else {
        let m = (n - 1) as nat;
        lemma_positions_ascending(m, wanted);
        lemma_positions_step(m, wanted);
        let before = positions_where(m, wanted);
        let now = positions_where(n, wanted);
        assert forall|i: int| 0 <= i < n && #[trigger] wanted(i) implies now.contains(i) by {
            if i < m {
                assert(before.contains(i));
                let k = choose|k: int| 0 <= k < before.len() && before[k] == i;
                assert(now[k] == i);
            } else {
                assert(now[now.len() - 1] == i);
            }
        }
    }
}

/// Where every position is wanted, all of them are selected.
pub proof fn lemma_positions_all(n: nat, wanted: spec_fn(int) -> bool)
    requires
        forall|i: int| 0 <= i < n ==> #[trigger] wanted(i),
    ensures
        positions_where(n, wanted) == Seq::new(n, |i: int| i),
    decreases n,
{
    if n == 0 {
        lemma_positions_step(0, wanted);
        assert(positions_where(0, wanted) =~= Seq::new(0, |i: int| i));
    } else {
        let m = (n - 1) as nat;
        lemma_positions_all(m, wanted);
        lemma_positions_step(m, wanted);
        assert(positions_where(n, wanted) =~= Seq::new(n, |i: int| i));
    }
}

} // verus!
