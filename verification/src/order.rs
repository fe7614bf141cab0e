//! The order of the list, and what holds of a list brought into it.

use vstd::prelude::*;
use crate::item::ItemView;
use crate::text::lemma_lex_irreflexive;
use crate::text::lemma_lex_total;
use crate::text::lemma_lex_transitive;
use crate::text::lex_less;
use crate::text::lowercased;

verus! {

/// The name by which an entry is ordered: its process name in lower case.
pub open spec fn sort_name(item: ItemView) -> Seq<char> {
    lowercased(item.process_name)
}

/// The order of the list: running entries stand before entries that are not
/// running, and within each group entries are ordered by their process name,
/// compared in lower case.
pub open spec fn sorts_before(a: ItemView, b: ItemView) -> bool {
    if a.is_running != b.is_running {
        a.is_running
    } else {
        lex_less(sort_name(a), sort_name(b))
    }
}

/// `sorted` with `x` put behind every entry that does not have to follow it.
pub open spec fn inserted(sorted: Seq<ItemView>, x: ItemView) -> Seq<ItemView>
    decreases sorted.len(),
{
    if sorted.len() > 0 && sorts_before(x, sorted.last()) {
        inserted(sorted.drop_last(), x).push(sorted.last())
    } else {
        sorted.push(x)
    }
}

/// The entries of `items` in the order of [`sorts_before`], entries that the
/// order does not tell apart staying in the order in which they came.
pub open spec fn stable_sorted(items: Seq<ItemView>) -> Seq<ItemView>
    decreases items.len(),
{
    if items.len() == 0 {
        items
    } else {
        inserted(stable_sorted(items.drop_last()), items.last())
    }
}

/// Where [`inserted`] puts `x`: behind the last entry that does not have to
/// follow it.
pub proof fn lemma_inserted_at(s: Seq<ItemView>, x: ItemView, p: int)
    requires
        0 <= p <= s.len(),
        forall|k: int| p <= k < s.len() ==> sorts_before(x, #[trigger] s[k]),
        p > 0 ==> !sorts_before(x, s[p - 1]),
    ensures
        inserted(s, x) == s.insert(p, x),
    decreases s.len() - p,
{
    if p == s.len() {
        assert(s.insert(p, x) =~= s.push(x));
    } else {
        let front = s.drop_last();
        assert(sorts_before(x, s[s.len() - 1]));
        assert forall|k: int| p <= k < front.len() implies sorts_before(x, #[trigger] front[k]) by {
            assert(front[k] == s[k]);
        }
        lemma_inserted_at(front, x, p);
        assert(front.insert(p, x).push(s.last()) =~= s.insert(p, x));
    }
}

/// No entry of `items` has to stand before an earlier one.
pub open spec fn ordered(items: Seq<ItemView>) -> bool {
    forall|i: int, j: int| 0 <= i < j < items.len() ==> !sorts_before(items[j], items[i])
}

/// The order tells `a` and `b` apart in neither direction: both are running
/// or both are not, and their names are the same in lower case.
pub open spec fn tied(a: ItemView, b: ItemView) -> bool {
    !sorts_before(a, b) && !sorts_before(b, a)
}

/// The test of being tied with `x`.
pub open spec fn tied_with(x: ItemView) -> spec_fn(ItemView) -> bool {
    |y: ItemView| tied(x, y)
}

/// Two entries are never each before the other.
pub proof fn lemma_order_asymmetric(a: ItemView, b: ItemView)
    requires
        sorts_before(a, b),
    ensures
        !sorts_before(b, a),
{
    if a.is_running == b.is_running && lex_less(sort_name(b), sort_name(a)) {
        lemma_lex_transitive(sort_name(a), sort_name(b), sort_name(a));
        lemma_lex_irreflexive(sort_name(a));
    }
}

/// If `a` is not before `b` and `b` is not before `c`,
/// then `a` is not before `c`.
pub proof fn lemma_order_negatively_transitive(a: ItemView, b: ItemView, c: ItemView)
    requires
        !sorts_before(a, b),
        !sorts_before(b, c),
    ensures
        !sorts_before(a, c),
{
    if a.is_running == b.is_running && b.is_running == c.is_running {
        let x = sort_name(a);
        let y = sort_name(b);
        let z = sort_name(c);
        if lex_less(x, z) {
            lemma_lex_total(x, y);
            lemma_lex_total(y, z);
            if lex_less(y, x) {
                lemma_lex_transitive(y, x, z);
            }
        }
    }
}

/// Entries are tied exactly when they agree on the running flag and on the
/// lower-case process name.
pub proof fn lemma_tied_means_same_key(a: ItemView, b: ItemView)
    ensures
        tied(a, b) <==> (a.is_running == b.is_running && sort_name(a) == sort_name(b)),
{
    lemma_lex_total(sort_name(a), sort_name(b));
    lemma_lex_irreflexive(sort_name(a));
}

/// The place at which [`inserted`] puts `x`: every entry from there on has to
/// follow `x`, and the entry just before it has not.
pub proof fn lemma_inserted_place(s: Seq<ItemView>, x: ItemView) -> (p: int)
    ensures
        0 <= p <= s.len(),
        inserted(s, x) == s.insert(p, x),
        forall|k: int| p <= k < s.len() ==> sorts_before(x, #[trigger] s[k]),
        p > 0 ==> !sorts_before(x, s[p - 1]),
    decreases s.len(),
{
    if s.len() > 0 && sorts_before(x, s.last()) {
        let front = s.drop_last();
        let p = lemma_inserted_place(front, x);
        assert forall|k: int| p <= k < s.len() implies sorts_before(x, #[trigger] s[k]) by {
            if k < front.len() {
                assert(front[k] == s[k]);
            }
        }
        if p > 0 {
            assert(front[p - 1] == s[p - 1]);
        }
        lemma_inserted_at(s, x, p);
        p
    } else {
        let p = s.len() as int;
        lemma_inserted_at(s, x, p);
        p
    }
}

/// Putting an entry into an ordered list leaves it ordered.
pub proof fn lemma_inserted_ordered(s: Seq<ItemView>, x: ItemView)
    requires
        ordered(s),
    ensures
        ordered(inserted(s, x)),
{
    let p = lemma_inserted_place(s, x);
    let t = s.insert(p, x);
    assert forall|i: int, j: int| 0 <= i < j < t.len() implies !sorts_before(t[j], t[i]) by {
        if j < p {
            assert(t[i] == s[i] && t[j] == s[j]);
        } else if j == p {
            assert(t[i] == s[i]);
            if i < p - 1 {
                lemma_order_negatively_transitive(x, s[p - 1], s[i]);
            }
        } else if i == p {
            assert(t[j] == s[j - 1]);
            lemma_order_asymmetric(x, s[j - 1]);
        } else if i < p {
            assert(t[i] == s[i] && t[j] == s[j - 1]);
        } else {
            assert(t[i] == s[i - 1] && t[j] == s[j - 1]);
        }
    }
}

/// A sorted list is ordered: running entries stand first, and within the
/// running and the other entries the lower-case process names ascend.
pub proof fn lemma_sorted_is_ordered(items: Seq<ItemView>)
    ensures
        ordered(stable_sorted(items)),
    decreases items.len(),
{
    if items.len() > 0 {
        lemma_sorted_is_ordered(items.drop_last());
        lemma_inserted_ordered(stable_sorted(items.drop_last()), items.last());
    }
}

/// Sorting neither adds nor drops an entry: the sorted list holds each entry
/// as often as the list it was made from.
pub proof fn lemma_sorted_same_entries(items: Seq<ItemView>)
    ensures
        stable_sorted(items).to_multiset() == items.to_multiset(),
        stable_sorted(items).len() == items.len(),
    decreases items.len(),
{
    broadcast use vstd::seq_lib::group_to_multiset_ensures;

    if items.len() > 0 {
        let front = items.drop_last();
        let x = items.last();
        lemma_sorted_same_entries(front);
        let s = stable_sorted(front);
        let p = lemma_inserted_place(s, x);
        assert(items == front.push(x));
        assert(s.insert(p, x).to_multiset() =~= s.to_multiset().insert(x));
        assert(front.push(x).to_multiset() =~= front.to_multiset().insert(x));
    }
}

/// Every entry of a sorted list is an entry of the list it was made from,
/// and the other way round.
pub proof fn lemma_sorted_contains(items: Seq<ItemView>, x: ItemView)
    ensures
        stable_sorted(items).contains(x) <==> items.contains(x),
{
    lemma_sorted_same_entries(items);
    vstd::seq_lib::to_multiset_contains(stable_sorted(items), x);
    vstd::seq_lib::to_multiset_contains(items, x);
}

/// Sorting keeps ties in place: the entries tied with `x` stand in the sorted
/// list in the order in which they stood in the list it was made from.
pub proof fn lemma_sorted_keeps_ties(items: Seq<ItemView>, x: ItemView)
    ensures
        stable_sorted(items).filter(tied_with(x)) == items.filter(tied_with(x)),
    decreases items.len(),
{
    let f = tied_with(x);
    if items.len() > 0 {
        let front = items.drop_last();
        let y = items.last();
        lemma_sorted_keeps_ties(front, x);
        let s = stable_sorted(front);
        let p = lemma_inserted_place(s, y);
        let head = s.take(p);
        let tail = s.skip(p);
        assert(items == front.push(y));
        assert(s == head + tail);
        assert(s.insert(p, y) == head.push(y) + tail);
        Seq::filter_distributes_over_add(head, tail, f);
        Seq::filter_distributes_over_add(head.push(y), tail, f);
        head.lemma_filter_push(y, f);
        front.lemma_filter_push(y, f);
        if f(y) {
            if tail.filter(f).len() > 0 {
                let e = tail.filter(f)[0];
                tail.lemma_filter_pred(f, 0);
                assert(tail.filter(f).contains(e));
                tail.lemma_filter_contains_rev(f, e);
                let k = choose|k: int| 0 <= k < tail.len() && tail[k] == e;
                assert(tail[k] == s[p + k]);
                lemma_order_negatively_transitive(y, x, e);
            }
            assert(tail.filter(f) == Seq::<ItemView>::empty());
            assert(head.filter(f).push(y) + tail.filter(f) == (head.filter(f) + tail.filter(
                f,
            )).push(y));
        }
    } else {
        reveal(Seq::filter);
    }
}

/// The filter of a list by `f`, split at the list's first entry.
proof fn lemma_filter_first(s: Seq<ItemView>, f: spec_fn(ItemView) -> bool)
    requires
        s.len() > 0,
    ensures
        s.filter(f) == if f(s[0]) {
            seq![s[0]] + s.drop_first().filter(f)
        } else {
            s.drop_first().filter(f)
        },
{
    let head = seq![s[0]];
    assert(s == head + s.drop_first());
    Seq::filter_distributes_over_add(head, s.drop_first(), f);
    assert(head.filter(f) == if f(s[0]) {
        head
    } else {
        Seq::<ItemView>::empty()
    }) by {
        reveal_with_fuel(Seq::filter, 2);
        assert(head.drop_last() == Seq::<ItemView>::empty());
    }
    assert(Seq::<ItemView>::empty() + s.drop_first().filter(f) == s.drop_first().filter(f));
}

/// Two ordered lists that hold the same entries tied with `x`, in the same
/// order, for every `x`, are the same list.
pub proof fn lemma_ordered_lists_agree(a: Seq<ItemView>, b: Seq<ItemView>)
    requires
        ordered(a),
        ordered(b),
        forall|x: ItemView| #[trigger] a.filter(tied_with(x)) == b.filter(tied_with(x)),
    ensures
        a == b,
    decreases a.len() + b.len(),
{
    if a.len() == 0 && b.len() == 0 {
        assert(a == b);
    } else {
        // The list that is not empty gives an entry that both lists hold.
        let first = if a.len() > 0 {
            a[0]
        } else {
            b[0]
        };
        lemma_lex_irreflexive(sort_name(first));
        assert(tied_with(first)(first));
        if a.len() > 0 {
            lemma_filter_first(a, tied_with(first));
        } else {
            lemma_filter_first(b, tied_with(first));
        }
        let shared = a.filter(tied_with(first));
        assert(shared == b.filter(tied_with(first)));
        assert(shared.len() > 0);
        assert(shared.contains(shared[0]));
        a.lemma_filter_contains_rev(tied_with(first), shared[0]);
        b.lemma_filter_contains_rev(tied_with(first), shared[0]);
        assert(a.len() > 0 && b.len() > 0);
        let h = a[0];
        let g = b[0];
        lemma_lex_irreflexive(sort_name(h));
        lemma_lex_irreflexive(sort_name(g));
        // Each first entry stands in the other list too.
        lemma_filter_first(a, tied_with(h));
        assert(a.filter(tied_with(h)).contains(h)) by {
            assert(a.filter(tied_with(h))[0] == h);
        }
        b.lemma_filter_contains_rev(tied_with(h), h);
        let j = choose|j: int| 0 <= j < b.len() && b[j] == h;
        lemma_filter_first(b, tied_with(g));
        assert(b.filter(tied_with(g)).contains(g)) by {
            assert(b.filter(tied_with(g))[0] == g);
        }
        a.lemma_filter_contains_rev(tied_with(g), g);
        let i = choose|i: int| 0 <= i < a.len() && a[i] == g;
        // So neither is before the other.
        assert(!sorts_before(h, g)) by {
            if j > 0 {
                assert(!sorts_before(b[j], b[0]));
            }
        }
        assert(!sorts_before(g, h)) by {
            if i > 0 {
                assert(!sorts_before(a[i], a[0]));
            }
        }
        assert(tied(h, g));
        // Both are the first of the entries tied with `h`.
        lemma_filter_first(b, tied_with(h));
        assert(a.filter(tied_with(h))[0] == h);
        assert(b.filter(tied_with(h))[0] == g);
        assert(h == g);
        // The rest of the two lists agrees in the same way.
        let ra = a.drop_first();
        let rb = b.drop_first();
        assert forall|x: ItemView| #[trigger] ra.filter(tied_with(x)) == rb.filter(tied_with(x)) by {
            lemma_filter_first(a, tied_with(x));
            lemma_filter_first(b, tied_with(x));
            let fa = ra.filter(tied_with(x));
            let fb = rb.filter(tied_with(x));
            assert(a.filter(tied_with(x)) == b.filter(tied_with(x)));
            if tied_with(x)(h) {
                let whole = seq![h] + fa;
                assert(whole == seq![h] + fb);
                assert(whole.drop_first() == fa);
                assert(whole.drop_first() == fb);
            }
        }
        assert forall|m: int, n: int| 0 <= m < n < ra.len() implies !sorts_before(ra[n], ra[m]) by {
            assert(ra[m] == a[m + 1] && ra[n] == a[n + 1]);
        }
        assert forall|m: int, n: int| 0 <= m < n < rb.len() implies !sorts_before(rb[n], rb[m]) by {
            assert(rb[m] == b[m + 1] && rb[n] == b[n + 1]);
        }
        lemma_ordered_lists_agree(ra, rb);
        assert(a == seq![h] + ra);
        assert(b == seq![g] + rb);
    }
}

/// What sorting gives is the only list that is ordered and keeps the ties of
/// the list it was made from.
pub proof fn lemma_sorted_is_unique(items: Seq<ItemView>, list: Seq<ItemView>)
    requires
        ordered(list),
        forall|x: ItemView| #[trigger] list.filter(tied_with(x)) == items.filter(tied_with(x)),
    ensures
        list == stable_sorted(items),
{
    lemma_sorted_is_ordered(items);
    assert forall|x: ItemView| #[trigger] list.filter(tied_with(x)) == stable_sorted(items).filter(
        tied_with(x),
    ) by {
        lemma_sorted_keeps_ties(items, x);
    }
    lemma_ordered_lists_agree(list, stable_sorted(items));
}

/// Sorting an ordered list changes nothing: a list that was sorted once stays
/// as it is when it is sorted again.
pub proof fn lemma_sorting_ordered_is_identity(items: Seq<ItemView>)
    requires
        ordered(items),
    ensures
        stable_sorted(items) == items,
    decreases items.len(),
{
    if items.len() > 0 {
        let front = items.drop_last();
        assert forall|i: int, j: int| 0 <= i < j < front.len() implies !sorts_before(
            front[j],
            front[i],
        ) by {
            assert(front[i] == items[i] && front[j] == items[j]);
        }
        lemma_sorting_ordered_is_identity(front);
        assert forall|k: int| front.len() <= k < front.len() implies sorts_before(
            items.last(),
            #[trigger] front[k],
        ) by {}
        if front.len() > 0 {
            assert(front[front.len() - 1] == items[front.len() - 1]);
        }
        lemma_inserted_at(front, items.last(), front.len() as int);
        assert(front.insert(front.len() as int, items.last()) =~= items);
    }
}

/// Sorting twice gives what sorting once gives.
pub proof fn lemma_sorting_is_idempotent(items: Seq<ItemView>)
    ensures
        stable_sorted(stable_sorted(items)) == stable_sorted(items),
{
    lemma_sorted_is_ordered(items);
    lemma_sorting_ordered_is_identity(stable_sorted(items));
}

} // verus!
