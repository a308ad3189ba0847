//! The order of the listing: highest key first, and among records of the
//! same key the one that came later first. This is the order that a stable
//! ascending sort by key gives once it is reversed as a whole.

use vstd::prelude::*;

verus! {

/// Whether record `a` stands before record `b` in the listing: it has the
/// higher key, or the same key and the later place in the record set.
pub open spec fn precedes(keys: Seq<u64>, a: int, b: int) -> bool {
    keys[a] > keys[b] || (keys[a] == keys[b] && a > b)
}

/// Whether `order` lists each of the first `n` records once, each before
/// all those that it precedes.
pub open spec fn is_ordered(keys: Seq<u64>, order: Seq<usize>, n: int) -> bool {
    &&& order.len() == n
    &&& forall|i: int| 0 <= i < order.len() ==> #[trigger] order[i] < n
    &&& forall|i: int, j: int|
        0 <= i < j < order.len() ==> precedes(keys, #[trigger] order[i] as int, #[trigger] order[j] as int)
    &&& forall|r: int| 0 <= r < n ==> order.contains(#[trigger] (r as usize))
}

/// Whether `order` is the order of the listing for `keys`.
pub open spec fn is_listing_order(keys: Seq<u64>, order: Seq<usize>) -> bool {
    is_ordered(keys, order, keys.len() as int)
}

/// The place in `order`, at or after `i`, where record `r` goes: before the
/// first record whose key is not higher than its own.
pub open spec fn slot_for(keys: Seq<u64>, order: Seq<usize>, r: int, i: int) -> int
    decreases order.len() - i,
{
    if i < 0 || i >= order.len() || keys[order[i] as int] <= keys[r] {
        i
    } else {
        slot_for(keys, order, r, i + 1)
    }
}

/// The order of the first `n` records: each record in turn takes its place
/// among those before it.
pub open spec fn order_of_first(keys: Seq<u64>, n: int) -> Seq<usize>
    decreases n,
{
    if n <= 0 {
        Seq::empty()
    } else {
        let earlier = order_of_first(keys, n - 1);
        earlier.insert(slot_for(keys, earlier, n - 1, 0), (n - 1) as usize)
    }
}

/// The order of the listing for `keys`, as places in the record set.
pub open spec fn listing_order(keys: Seq<u64>) -> Seq<usize> {
    order_of_first(keys, keys.len() as int)
}

/// The place that `slot_for` finds lies within `order`; every record before
/// it has a higher key than `r`, and the record at it has none.
pub proof fn slot_for_bounds(keys: Seq<u64>, order: Seq<usize>, r: int, i: int)
    requires
        0 <= i <= order.len(),
    ensures
        i <= slot_for(keys, order, r, i) <= order.len(),
        forall|k: int|
            i <= k < slot_for(keys, order, r, i) ==> keys[#[trigger] order[k] as int] > keys[r],
        slot_for(keys, order, r, i) < order.len() ==> keys[order[slot_for(keys, order, r, i)] as int]
            <= keys[r],
    decreases order.len() - i,
{
    if i < order.len() && keys[order[i] as int] > keys[r] {
        slot_for_bounds(keys, order, r, i + 1);
    }
}

/// Putting the next record at its place keeps the order.
pub proof fn insert_keeps_order(keys: Seq<u64>, order: Seq<usize>, n: int)
    requires
        0 <= n < keys.len(),
        n < usize::MAX,
        is_ordered(keys, order, n),
    ensures
        is_ordered(keys, order.insert(slot_for(keys, order, n, 0), n as usize), n + 1),
{
    let p = slot_for(keys, order, n, 0);
    slot_for_bounds(keys, order, n, 0);
    let next = order.insert(p, n as usize);
    assert forall|i: int, j: int| 0 <= i < j < next.len() implies precedes(
        keys,
        #[trigger] next[i] as int,
        #[trigger] next[j] as int,
    ) by {
        if j < p {
            assert(next[i] == order[i] && next[j] == order[j]);
        } else if j == p {
            assert(next[i] == order[i]);
        } else if i < p {
            assert(next[i] == order[i] && next[j] == order[j - 1]);
        } else if i == p {
            assert(next[j] == order[j - 1]);
            if j - 1 > p {
                assert(precedes(keys, order[p] as int, order[j - 1] as int));
            }
        } else {
            assert(next[i] == order[i - 1] && next[j] == order[j - 1]);
        }
    }
    assert forall|r: int| 0 <= r < n + 1 implies next.contains(#[trigger] (r as usize)) by {
        if r == n {
            assert(next[p] == n as usize);
        } else {
            assert(order.contains(r as usize));
            let k = choose|k: int| 0 <= k < order.len() && order[k] == r as usize;
            if k < p {
                assert(next[k] == r as usize);
            } else {
                assert(next[k + 1] == r as usize);
            }
        }
    }
    assert forall|i: int| 0 <= i < next.len() implies #[trigger] next[i] < n + 1 by {
        if i < p {
            assert(next[i] == order[i]);
        } else if i > p {
            assert(next[i] == order[i - 1]);
        }
    }
}

/// The order of the first `n` records lists each of them once, each before
/// all those that it precedes.
pub proof fn order_of_first_is_ordered(keys: Seq<u64>, n: int)
    requires
        0 <= n <= keys.len(),
        n <= usize::MAX,
    ensures
        is_ordered(keys, order_of_first(keys, n), n),
    decreases n,
{
    if n > 0 {
        order_of_first_is_ordered(keys, n - 1);
        insert_keeps_order(keys, order_of_first(keys, n - 1), n - 1);
    }
}

/// The places of the records in the order of the listing: highest key
/// first, later record first among equal keys.
pub fn sort_listing(keys: &Vec<u64>) -> (order: Vec<usize>)
    ensures
        order@ == listing_order(keys@),
        is_listing_order(keys@, order@),
{
    let mut order: Vec<usize> = Vec::new();
    let mut r: usize = 0;
    while r < keys.len()
        invariant
            r <= keys.len(),
            order@ == order_of_first(keys@, r as int),
            is_ordered(keys@, order@, r as int),
        decreases keys.len() - r,
    {
        let mut p: usize = 0;
        while p < order.len() && keys[order[p]] > keys[r]
            invariant
                p <= order.len(),
                r < keys.len(),
                is_ordered(keys@, order@, r as int),
                slot_for(keys@, order@, r as int, p as int) == slot_for(keys@, order@, r as int, 0),
            decreases order.len() - p,
        {
            p += 1;
        }
        proof {
            insert_keeps_order(keys@, order@, r as int);
        }
        order.insert(p, r);
        r += 1;
    }
    order
}

/// Whether each of `places` stands before all those that it precedes.
pub open spec fn is_descending(keys: Seq<u64>, places: Seq<usize>) -> bool {
    forall|i: int, j: int|
        0 <= i < j < places.len() ==> precedes(
            keys,
            #[trigger] places[i] as int,
            #[trigger] places[j] as int,
        )
}

/// Two descending lists of the same records are the same list.
pub proof fn descending_is_unique(keys: Seq<u64>, a: Seq<usize>, b: Seq<usize>)
    requires
        is_descending(keys, a),
        is_descending(keys, b),
        a.len() == b.len(),
        forall|x: usize| a.contains(x) <==> b.contains(x),
    ensures
        a == b,
    decreases a.len(),
{
    if a.len() == 0 {
        assert(a =~= b);
    } else {
        assert(a.contains(a[0]));
        let k = choose|k: int| 0 <= k < b.len() && b[k] == a[0];
        assert(b.contains(b[0]));
        let m = choose|m: int| 0 <= m < a.len() && a[m] == b[0];
        if k > 0 {
            assert(precedes(keys, b[0] as int, b[k] as int));
            assert(m > 0);
            assert(precedes(keys, a[0] as int, a[m] as int));
            assert(false);
        }
        let rest_a = a.skip(1);
        let rest_b = b.skip(1);
        assert forall|x: usize| rest_a.contains(x) <==> rest_b.contains(x) by {
            if rest_a.contains(x) {
                let i = choose|i: int| 0 <= i < rest_a.len() && rest_a[i] == x;
                assert(a[i + 1] == x);
                assert(precedes(keys, a[0] as int, a[i + 1] as int));
                assert(a.contains(x));
                let j = choose|j: int| 0 <= j < b.len() && b[j] == x;
                assert(j > 0);
                assert(rest_b[j - 1] == x);
            }
            if rest_b.contains(x) {
                let i = choose|i: int| 0 <= i < rest_b.len() && rest_b[i] == x;
                assert(b[i + 1] == x);
                assert(precedes(keys, b[0] as int, b[i + 1] as int));
                assert(b.contains(x));
                let j = choose|j: int| 0 <= j < a.len() && a[j] == x;
                assert(j > 0);
                assert(rest_a[j - 1] == x);
            }
        }
        assert(is_descending(keys, rest_a)) by {
            assert forall|i: int, j: int| 0 <= i < j < rest_a.len() implies precedes(
                keys,
                #[trigger] rest_a[i] as int,
                #[trigger] rest_a[j] as int,
            ) by {
                assert(precedes(keys, a[i + 1] as int, a[j + 1] as int));
            }
        }
        assert(is_descending(keys, rest_b)) by {
            assert forall|i: int, j: int| 0 <= i < j < rest_b.len() implies precedes(
                keys,
                #[trigger] rest_b[i] as int,
                #[trigger] rest_b[j] as int,
            ) by {
                assert(precedes(keys, b[i + 1] as int, b[j + 1] as int));
            }
        }
        descending_is_unique(keys, rest_a, rest_b);
        assert(a =~= seq![a[0]] + rest_a);
        assert(b =~= seq![b[0]] + rest_b);
    }
}

/// There is one order of the listing: any list of all records, each once,
/// each before all those that it precedes, is `listing_order`.
pub proof fn listing_order_is_unique(keys: Seq<u64>, order: Seq<usize>)
    requires
        keys.len() <= usize::MAX,
        is_listing_order(keys, order),
    ensures
        order == listing_order(keys),
{
    let n = keys.len() as int;
    let mine = listing_order(keys);
    order_of_first_is_ordered(keys, n);
    assert forall|x: usize| order.contains(x) <==> mine.contains(x) by {
        if order.contains(x) {
            let i = choose|i: int| 0 <= i < order.len() && order[i] == x;
            assert(order[i] < n);
            assert(mine.contains((x as int) as usize));
        }
        if mine.contains(x) {
            let i = choose|i: int| 0 <= i < mine.len() && mine[i] == x;
            assert(mine[i] < n);
            assert(order.contains((x as int) as usize));
        }
    }
    descending_is_unique(keys, order, mine);
}

} // verus!
