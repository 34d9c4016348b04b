//! The order in which selected catalog filters are applied: ascending by
//! priority, and in catalog order among filters of equal priority.

use vstd::prelude::*;
use crate::models::{FilterEntry, VideoFilter, filter_entries};

verus! {

/// True when catalog entry `i` is applied before catalog entry `j`: the
/// lower priority first, the earlier catalog row first among equals.
pub open spec fn applies_before(catalog: Seq<FilterEntry>, i: int, j: int) -> bool {
    catalog[i].priority < catalog[j].priority || (catalog[i].priority == catalog[j].priority
        && i < j)
}

/// True when `i` is a catalog row whose short name is among `names`.
pub open spec fn is_selected(catalog: Seq<FilterEntry>, names: Seq<Seq<char>>, i: int) -> bool {
    0 <= i < catalog.len() && names.contains(catalog[i].short_name)
}

/// True when `order` lists exactly the selected rows among the first `n`
/// catalog rows, each once, every row before those that apply after it.
pub open spec fn orders_first(
    catalog: Seq<FilterEntry>,
    names: Seq<Seq<char>>,
    n: int,
    order: Seq<int>,
) -> bool {
    &&& forall|k: int|
        0 <= k < order.len() ==> #[trigger] order[k] < n && is_selected(catalog, names, order[k])
    &&& forall|i: int| 0 <= i < n && is_selected(catalog, names, i) ==> order.contains(i)
    &&& forall|k: int, l: int|
        0 <= k < l < order.len() ==> applies_before(catalog, #[trigger] order[k], #[trigger] order[l])
}

/// True when `order` lists exactly the selected catalog rows, each once,
/// in the order of application.
pub open spec fn is_application_order(
    catalog: Seq<FilterEntry>,
    names: Seq<Seq<char>>,
    order: Seq<int>,
) -> bool {
    orders_first(catalog, names, catalog.len() as int, order)
}

/// The selected catalog rows in the order of application.
pub open spec fn application_order(catalog: Seq<FilterEntry>, names: Seq<Seq<char>>) -> Seq<int> {
    choose|order: Seq<int>| is_application_order(catalog, names, order)
}

/// A sequence of row numbers held as machine integers, as mathematical ones.
pub open spec fn row_numbers(order: Seq<usize>) -> Seq<int> {
    Seq::new(order.len(), |k: int| order[k] as int)
}

/// Two sequences that hold the same rows, each sorted strictly by
/// `applies_before`, are the same sequence.
proof fn lemma_sorted_rows_unique(catalog: Seq<FilterEntry>, a: Seq<int>, b: Seq<int>)
    requires
        forall|k: int, l: int|
            0 <= k < l < a.len() ==> applies_before(catalog, #[trigger] a[k], #[trigger] a[l]),
        forall|k: int, l: int|
            0 <= k < l < b.len() ==> applies_before(catalog, #[trigger] b[k], #[trigger] b[l]),
        forall|x: int| a.contains(x) <==> b.contains(x),
    ensures
        a == b,
    decreases a.len(),
{
    if a.len() == 0 {
        if b.len() > 0 {
            assert(b.contains(b[0]));
            assert(a.contains(b[0]));
        }
        assert(a =~= b);
    } else {
        let x = a.last();
        assert(a.contains(x));
        assert(b.contains(x));
        let y = b.last();
        assert(b.contains(y));
        assert(a.contains(y));
        let p = choose|p: int| 0 <= p < b.len() && b[p] == x;
        let q = choose|q: int| 0 <= q < a.len() && a[q] == y;
        if x != y {
            assert(p < b.len() - 1);
            assert(q < a.len() - 1);
            assert(applies_before(catalog, b[p], b[b.len() - 1]));
            assert(applies_before(catalog, a[q], a[a.len() - 1]));
            assert(false);
        }
        let a0 = a.drop_last();
        let b0 = b.drop_last();
        assert forall|z: int| a0.contains(z) <==> b0.contains(z) by {
            if a0.contains(z) {
                let k = choose|k: int| 0 <= k < a0.len() && a0[k] == z;
                assert(a[k] == z);
                assert(applies_before(catalog, a[k], a[a.len() - 1]));
                assert(z != x);
                assert(a.contains(z));
                assert(b.contains(z));
                let l = choose|l: int| 0 <= l < b.len() && b[l] == z;
                assert(l < b.len() - 1);
                assert(b0[l] == z);
            }
            if b0.contains(z) {
                let k = choose|k: int| 0 <= k < b0.len() && b0[k] == z;
                assert(b[k] == z);
                assert(applies_before(catalog, b[k], b[b.len() - 1]));
                assert(z != y);
                assert(b.contains(z));
                assert(a.contains(z));
                let l = choose|l: int| 0 <= l < a.len() && a[l] == z;
                assert(l < a.len() - 1);
                assert(a0[l] == z);
            }
        }
        assert forall|k: int, l: int| 0 <= k < l < a0.len() implies applies_before(
            catalog,
            #[trigger] a0[k],
            #[trigger] a0[l],
        ) by {
            assert(a0[k] == a[k] && a0[l] == a[l]);
        }
        assert forall|k: int, l: int| 0 <= k < l < b0.len() implies applies_before(
            catalog,
            #[trigger] b0[k],
            #[trigger] b0[l],
        ) by {
            assert(b0[k] == b[k] && b0[l] == b[l]);
        }
        lemma_sorted_rows_unique(catalog, a0, b0);
        assert(a =~= a0.push(x));
        assert(b =~= b0.push(y));
    }
}

/// No two sequences order the same selection.
pub proof fn lemma_application_order_unique(
    catalog: Seq<FilterEntry>,
    names: Seq<Seq<char>>,
    a: Seq<int>,
    b: Seq<int>,
)
    requires
        is_application_order(catalog, names, a),
        is_application_order(catalog, names, b),
    ensures
        a == b,
{
    assert forall|x: int| a.contains(x) <==> b.contains(x) by {
        if a.contains(x) {
            let k = choose|k: int| 0 <= k < a.len() && a[k] == x;
            assert(is_selected(catalog, names, a[k]));
        }
        if b.contains(x) {
            let k = choose|k: int| 0 <= k < b.len() && b[k] == x;
            assert(is_selected(catalog, names, b[k]));
        }
    }
    lemma_sorted_rows_unique(catalog, a, b);
}

/// Putting row `n` behind the rows of no higher priority, and before the
/// rows of higher priority, extends an order of the first `n` rows to one of
/// the first `n + 1`.
proof fn lemma_insert_row(
    catalog: Seq<FilterEntry>,
    names: Seq<Seq<char>>,
    n: int,
    order: Seq<int>,
    p: int,
)
    requires
        orders_first(catalog, names, n, order),
        is_selected(catalog, names, n),
        0 <= p <= order.len(),
        forall|k: int| 0 <= k < p ==> catalog[#[trigger] order[k]].priority <= catalog[n].priority,
        forall|k: int|
            p <= k < order.len() ==> catalog[#[trigger] order[k]].priority > catalog[n].priority,
    ensures
        orders_first(catalog, names, n + 1, order.insert(p, n)),
{
    let next = order.insert(p, n);
    assert forall|k: int| 0 <= k < next.len() implies #[trigger] next[k] < n + 1 && is_selected(
        catalog,
        names,
        next[k],
    ) by {
        if k < p {
            assert(next[k] == order[k]);
        } else if k > p {
            assert(next[k] == order[k - 1]);
        }
    }
    assert forall|i: int| 0 <= i < n + 1 && is_selected(catalog, names, i) implies next.contains(
        i,
    ) by {
        if i == n {
            assert(next[p] == n);
        } else {
            assert(order.contains(i));
            let k = choose|k: int| 0 <= k < order.len() && order[k] == i;
            if k < p {
                assert(next[k] == i);
            } else {
                assert(next[k + 1] == i);
            }
        }
    }
    assert forall|k: int, l: int| 0 <= k < l < next.len() implies applies_before(
        catalog,
        #[trigger] next[k],
        #[trigger] next[l],
    ) by {
        let a = if k < p {
            k
        } else {
            k - 1
        };
        let b = if l < p {
            l
        } else {
            l - 1
        };
        if k != p {
            assert(next[k] == order[a]);
        }
        if l != p {
            assert(next[l] == order[b]);
        }
        if k != p && l != p {
            assert(applies_before(catalog, order[a], order[b]));
        }
    }
}

/// Skipping a row that is not selected keeps an order of the first `n` rows
/// an order of the first `n + 1`.
proof fn lemma_skip_row(catalog: Seq<FilterEntry>, names: Seq<Seq<char>>, n: int, order: Seq<int>)
    requires
        orders_first(catalog, names, n, order),
        !is_selected(catalog, names, n),
    ensures
        orders_first(catalog, names, n + 1, order),
{
}

/// Where row `n` goes into `order`: behind every row of no higher priority.
proof fn lemma_insertion_point(
    catalog: Seq<FilterEntry>,
    names: Seq<Seq<char>>,
    n: int,
    order: Seq<int>,
    from: int,
) -> (p: int)
    requires
        orders_first(catalog, names, n, order),
        0 <= from <= order.len(),
        forall|k: int|
            0 <= k < from ==> catalog[#[trigger] order[k]].priority <= catalog[n].priority,
    ensures
        0 <= p <= order.len(),
        forall|k: int| 0 <= k < p ==> catalog[#[trigger] order[k]].priority <= catalog[n].priority,
        forall|k: int|
            p <= k < order.len() ==> catalog[#[trigger] order[k]].priority > catalog[n].priority,
    decreases order.len() - from,
{
    if from == order.len() {
        from
    } else if catalog[order[from]].priority > catalog[n].priority {
        assert forall|k: int| from <= k < order.len() implies catalog[#[trigger] order[k]].priority
            > catalog[n].priority by {
            if from < k {
                assert(applies_before(catalog, order[from], order[k]));
            }
        }
        from
    } else {
        lemma_insertion_point(catalog, names, n, order, from + 1)
    }
}

/// Some sequence orders the selected rows among the first `n`.
proof fn lemma_order_exists(catalog: Seq<FilterEntry>, names: Seq<Seq<char>>, n: int) -> (order:
    Seq<int>)
    requires
        0 <= n <= catalog.len(),
    ensures
        orders_first(catalog, names, n, order),
    decreases n,
{
    if n == 0 {
        Seq::empty()
    } else {
        let before = lemma_order_exists(catalog, names, n - 1);
        if is_selected(catalog, names, n - 1) {
            let p = lemma_insertion_point(catalog, names, n - 1, before, 0);
            lemma_insert_row(catalog, names, n - 1, before, p);
            before.insert(p, n - 1)
        } else {
            lemma_skip_row(catalog, names, n - 1, before);
            before
        }
    }
}

/// Whatever the catalog and the selection, the order of application lists
/// exactly the selected rows, each once, in non-decreasing priority, and
/// rows of equal priority in catalog order.
pub proof fn lemma_application_order_sorted_and_stable(
    catalog: Seq<FilterEntry>,
    names: Seq<Seq<char>>,
)
    ensures
        is_application_order(catalog, names, application_order(catalog, names)),
        forall|k: int, l: int|
            #![trigger application_order(catalog, names)[k], application_order(catalog, names)[l]]
            0 <= k < l < application_order(catalog, names).len() ==> {
                let first = application_order(catalog, names)[k];
                let second = application_order(catalog, names)[l];
                &&& catalog[first].priority <= catalog[second].priority
                &&& catalog[first].priority == catalog[second].priority ==> first < second
            },
{
    let witness = lemma_order_exists(catalog, names, catalog.len() as int);
    assert(is_application_order(catalog, names, witness));
    let order = application_order(catalog, names);
    assert forall|k: int, l: int| 0 <= k < l < order.len() implies {
        &&& catalog[order[k]].priority <= catalog[order[l]].priority
        &&& catalog[order[k]].priority == catalog[order[l]].priority ==> order[k] < order[l]
    } by {
        assert(applies_before(catalog, order[k], order[l]));
    }
}

/// Tests whether `name` is among `names`.
pub fn is_named(names: &Vec<String>, name: &String) -> (found: bool)
    ensures
        found == names.deep_view().contains(name@),
{
    let mut k: usize = 0;
    while k < names.len()
        invariant
            k <= names.len(),
            forall|j: int| 0 <= j < k ==> names.deep_view()[j] != name@,
        decreases names.len() - k,
    {
        if names[k] == *name {
            assert(names.deep_view()[k as int] == name@);
            return true;
        }
        k += 1;
    }
    false
}

/// The rows of `catalog` that `names` selects, in the order of application.
/// A name that no row carries selects nothing; a name given twice selects
/// its rows once.
pub fn selection_order(catalog: &Vec<VideoFilter>, names: &Vec<String>) -> (order: Vec<usize>)
    ensures
        row_numbers(order@) == application_order(filter_entries(catalog@), names.deep_view()),
        is_application_order(filter_entries(catalog@), names.deep_view(), row_numbers(order@)),
{
    let ghost entries = filter_entries(catalog@);
    let ghost wanted = names.deep_view();
    let mut order: Vec<usize> = Vec::new();
    let mut n: usize = 0;
    while n < catalog.len()
        invariant
            n <= catalog.len(),
            entries == filter_entries(catalog@),
            wanted == names.deep_view(),
            orders_first(entries, wanted, n as int, row_numbers(order@)),
        decreases catalog.len() - n,
    {
        let ghost before = row_numbers(order@);
        if is_named(names, &catalog[n].short_name) {
            let priority = catalog[n].priority;
            let mut p: usize = 0;
            assert forall|k: int| 0 <= k < order.len() implies #[trigger] order@[k] < n by {
                assert(before[k] == order@[k]);
            }
            while p < order.len() && catalog[order[p]].priority <= priority
                invariant
                    p <= order.len(),
                    n < catalog.len(),
                    priority == catalog@[n as int].priority,
                    entries == filter_entries(catalog@),
                    before == row_numbers(order@),
                    forall|k: int| 0 <= k < order.len() ==> #[trigger] order@[k] < n,
                    orders_first(entries, wanted, n as int, before),
                    forall|k: int|
                        0 <= k < p ==> entries[#[trigger] before[k]].priority
                            <= entries[n as int].priority,
                decreases order.len() - p,
            {
                p += 1;
            }
            proof {
                assert forall|k: int| p <= k < before.len() implies entries[#[trigger] before[k]].priority
                    > entries[n as int].priority by {
                    assert(before[p as int] == order@[p as int]);
                    if p < k {
                        assert(applies_before(entries, before[p as int], before[k]));
                    }
                }
                lemma_insert_row(entries, wanted, n as int, before, p as int);
                assert(row_numbers(order@.insert(p as int, n)) =~= before.insert(
                    p as int,
                    n as int,
                ));
            }
            order.insert(p, n);
        } else {
            proof {
                lemma_skip_row(entries, wanted, n as int, before);
            }
        }
        n += 1;
    }
    proof {
        lemma_application_order_sorted_and_stable(entries, wanted);
        lemma_application_order_unique(
            entries,
            wanted,
            row_numbers(order@),
            application_order(entries, wanted),
        );
    }
    order
}

} // verus!
