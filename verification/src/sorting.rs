//! Stable sorting, and the order of texts.
use vstd::prelude::*;
use vstd::relations::{strongly_connected, transitive};
use crate::text::chars_of;

verus! {

/// How many leading items of `s` are at or before `x`: where `x` goes in so
/// that it stands behind its equals.
pub open spec fn place<T>(s: Seq<T>, x: T, leq: spec_fn(T, T) -> bool) -> int
    decreases s.len(),
{
    if s.len() == 0 || !leq(s[0], x) {
        0
    } else {
        1 + place(s.subrange(1, s.len() as int), x, leq)
    }
}

/// `s` sorted by `leq`, equals in the order in which they stand in `s`.
pub open spec fn stably_sorted<T>(s: Seq<T>, leq: spec_fn(T, T) -> bool) -> Seq<T>
    decreases s.len(),
{
    if s.len() == 0 {
        s
    } else {
        let front = stably_sorted(s.drop_last(), leq);
        front.insert(place(front, s.last(), leq), s.last())
    }
}

/// Whether `leq` can sort: any two items compare, and comparisons chain.
pub open spec fn orders<T>(leq: spec_fn(T, T) -> bool) -> bool {
    strongly_connected(leq) && transitive(leq)
}

/// Whether no item stands behind one that it should precede.
pub open spec fn in_order<T>(s: Seq<T>, leq: spec_fn(T, T) -> bool) -> bool {
    forall|i: int, j: int| 0 <= i < j < s.len() ==> leq(#[trigger] s[i], #[trigger] s[j])
}

proof fn lemma_place<T>(s: Seq<T>, x: T, leq: spec_fn(T, T) -> bool)
    ensures
        0 <= place(s, x, leq) <= s.len(),
        forall|i: int| 0 <= i < place(s, x, leq) ==> leq(#[trigger] s[i], x),
        place(s, x, leq) < s.len() ==> !leq(s[place(s, x, leq)], x),
    decreases s.len(),
{
    if s.len() > 0 && leq(s[0], x) {
        let rest = s.subrange(1, s.len() as int);
        lemma_place(rest, x, leq);
        assert forall|i: int| 0 <= i < place(s, x, leq) implies leq(#[trigger] s[i], x) by {
            if i > 0 {
                assert(s[i] == rest[i - 1]);
            }
        }
    }
}

/// Where an item goes in is determined by what stands before and at the place.
pub proof fn lemma_place_is<T>(s: Seq<T>, x: T, leq: spec_fn(T, T) -> bool, n: int)
    requires
        0 <= n <= s.len(),
        forall|i: int| 0 <= i < n ==> leq(#[trigger] s[i], x),
        n < s.len() ==> !leq(s[n], x),
    ensures
        place(s, x, leq) == n,
    decreases s.len(),
{
    if n > 0 {
        let rest = s.subrange(1, s.len() as int);
        assert(leq(s[0], x));
        assert forall|i: int| 0 <= i < n - 1 implies leq(#[trigger] rest[i], x) by {
            assert(rest[i] == s[i + 1]);
        }
        lemma_place_is(rest, x, leq, n - 1);
    }
}

proof fn lemma_insert_in_order<T>(front: Seq<T>, x: T, leq: spec_fn(T, T) -> bool)
    requires
        orders(leq),
        in_order(front, leq),
    ensures
        in_order(front.insert(place(front, x, leq), x), leq),
{
    lemma_place(front, x, leq);
    let at = place(front, x, leq);
    let all = front.insert(at, x);
    assert forall|i: int, j: int| 0 <= i < j < all.len() implies leq(
        #[trigger] all[i],
        #[trigger] all[j],
    ) by {
        let a = if i < at { i } else { i - 1 };
        let b = if j < at { j } else { j - 1 };
        if i != at && j != at {
            assert(all[i] == front[a]);
            assert(all[j] == front[b]);
        } else if j == at {
            assert(all[i] == front[i]);
        } else {
            assert(all[j] == front[b]);
            assert(!leq(front[at], x));
            assert(leq(x, front[at]));
            if b > at {
                assert(leq(front[at], front[b]));
            }
        }
    }
}

pub(crate) proof fn lemma_sort_keeps_items<T>(s: Seq<T>, leq: spec_fn(T, T) -> bool)
    ensures
        stably_sorted(s, leq).to_multiset() == s.to_multiset(),
        stably_sorted(s, leq).len() == s.len(),
    decreases s.len(),
{
    if s.len() > 0 {
        let front = stably_sorted(s.drop_last(), leq);
        let x = s.last();
        lemma_sort_keeps_items(s.drop_last(), leq);
        lemma_place(front, x, leq);
        vstd::seq_lib::to_multiset_insert(front, place(front, x, leq), x);
        vstd::seq_lib::to_multiset_build(s.drop_last(), x);
        assert(s =~= s.drop_last().push(x));
    }
}

/// Sorting gives the same items, in order.
pub proof fn sorting_orders<T>(s: Seq<T>, leq: spec_fn(T, T) -> bool)
    requires
        orders(leq),
    ensures
        in_order(stably_sorted(s, leq), leq),
        stably_sorted(s, leq).to_multiset() == s.to_multiset(),
        stably_sorted(s, leq).len() == s.len(),
    decreases s.len(),
{
    lemma_sort_keeps_items(s, leq);
    if s.len() > 0 {
        sorting_orders(s.drop_last(), leq);
        lemma_insert_in_order(stably_sorted(s.drop_last(), leq), s.last(), leq);
    }
}

/// What is in order stays as it is.
pub proof fn sorted_stays<T>(s: Seq<T>, leq: spec_fn(T, T) -> bool)
    requires
        in_order(s, leq),
    ensures
        stably_sorted(s, leq) == s,
    decreases s.len(),
{
    if s.len() > 0 {
        let front = s.drop_last();
        assert forall|i: int, j: int| 0 <= i < j < front.len() implies leq(
            #[trigger] front[i],
            #[trigger] front[j],
        ) by {
            assert(front[i] == s[i] && front[j] == s[j]);
        }
        sorted_stays(front, leq);
        assert forall|i: int| 0 <= i < front.len() implies leq(#[trigger] front[i], s.last()) by {
            assert(front[i] == s[i]);
            assert(leq(s[i], s[s.len() - 1]));
        }
        lemma_place_is(front, s.last(), leq, front.len() as int);
        assert(front.insert(front.len() as int, s.last()) =~= s);
    }
}

proof fn lemma_filter_insert<T>(s: Seq<T>, at: int, x: T, keep: spec_fn(T) -> bool)
    requires
        0 <= at <= s.len(),
    ensures
        s.insert(at, x).filter(keep) == s.subrange(0, at).filter(keep) + (if keep(x) {
            seq![x]
        } else {
            Seq::empty()
        }) + s.subrange(at, s.len() as int).filter(keep),
{
    let a = s.subrange(0, at);
    let b = s.subrange(at, s.len() as int);
    let one = seq![x];
    assert(s.insert(at, x) =~= (a + one) + b);
    Seq::filter_distributes_over_add(a + one, b, keep);
    Seq::filter_distributes_over_add(a, one, keep);
    assert(one =~= Seq::<T>::empty().push(x));
    assert(one.drop_last() =~= Seq::<T>::empty());
    reveal_with_fuel(Seq::filter, 2);
    assert(one.filter(keep) =~= if keep(x) {
        seq![x]
    } else {
        Seq::empty()
    });
}

proof fn lemma_filter_none<T>(s: Seq<T>, keep: spec_fn(T) -> bool)
    requires
        forall|i: int| 0 <= i < s.len() ==> !keep(#[trigger] s[i]),
    ensures
        s.filter(keep) == Seq::<T>::empty(),
    decreases s.len(),
{
    reveal(Seq::filter);
    if s.len() > 0 {
        let front = s.drop_last();
        assert forall|i: int| 0 <= i < front.len() implies !keep(#[trigger] front[i]) by {
            assert(front[i] == s[i]);
        }
        lemma_filter_none(front, keep);
    }
}

/// Sorting keeps equals in the order in which they came.
pub proof fn sorting_is_stable<T>(s: Seq<T>, leq: spec_fn(T, T) -> bool, x: T)
    requires
        orders(leq),
    ensures
        stably_sorted(s, leq).filter(|e: T| leq(e, x) && leq(x, e)) == s.filter(
            |e: T| leq(e, x) && leq(x, e),
        ),
    decreases s.len(),
{
    let keep = |e: T| leq(e, x) && leq(x, e);
    if s.len() > 0 {
        let front = stably_sorted(s.drop_last(), leq);
        let y = s.last();
        sorting_is_stable(s.drop_last(), leq, x);
        sorting_orders(s.drop_last(), leq);
        lemma_place(front, y, leq);
        let at = place(front, y, leq);
        lemma_filter_insert(front, at, y, keep);
        let a = front.subrange(0, at);
        let b = front.subrange(at, front.len() as int);
        assert(front =~= a + b);
        Seq::filter_distributes_over_add(a, b, keep);
        reveal(Seq::filter);
        if keep(y) {
            assert forall|i: int| 0 <= i < b.len() implies !keep(#[trigger] b[i]) by {
                assert(b[i] == front[at + i]);
                assert(!leq(front[at], y));
                if i > 0 {
                    assert(leq(front[at], front[at + i]));
                }
                if keep(b[i]) {
                    assert(leq(b[i], x) && leq(x, y));
                    assert(leq(b[i], y));
                    if i > 0 {
                        assert(leq(front[at], y));
                    }
                }
            }
            lemma_filter_none(b, keep);
            assert(a.filter(keep) + b.filter(keep) =~= a.filter(keep));
            assert(a.filter(keep) + seq![y] + b.filter(keep) =~= s.drop_last().filter(keep).push(
                y,
            ));
        } else {
            assert(a.filter(keep) + Seq::<T>::empty() + b.filter(keep) =~= a.filter(keep)
                + b.filter(keep));
        }
    }
}

proof fn lemma_place_map<A, B>(
    s: Seq<A>,
    x: A,
    f: spec_fn(A) -> B,
    la: spec_fn(A, A) -> bool,
    lb: spec_fn(B, B) -> bool,
)
    requires
        forall|i: int| 0 <= i < s.len() ==> la(#[trigger] s[i], x) == lb(f(s[i]), f(x)),
    ensures
        place(s, x, la) == place(s.map_values(f), f(x), lb),
    decreases s.len(),
{
    let t = s.map_values(f);
    if s.len() > 0 {
        assert(t[0] == f(s[0]));
        assert(la(s[0], x) == lb(f(s[0]), f(x)));
        let rest = s.subrange(1, s.len() as int);
        assert forall|i: int| 0 <= i < rest.len() implies la(#[trigger] rest[i], x) == lb(
            f(rest[i]),
            f(x),
        ) by {
            assert(rest[i] == s[i + 1]);
        }
        lemma_place_map(rest, x, f, la, lb);
        assert(rest.map_values(f) =~= t.subrange(1, t.len() as int));
    }
}

pub(crate) proof fn lemma_sorted_are<A>(s: Seq<A>, la: spec_fn(A, A) -> bool, good: spec_fn(A) -> bool)
    requires
        forall|i: int| 0 <= i < s.len() ==> good(#[trigger] s[i]),
    ensures
        forall|i: int|
            0 <= i < stably_sorted(s, la).len() ==> good(#[trigger] stably_sorted(s, la)[i]),
    decreases s.len(),
{
    if s.len() > 0 {
        let front = stably_sorted(s.drop_last(), la);
        lemma_sorted_are(s.drop_last(), la, good);
        let at = place(front, s.last(), la);
        lemma_place(front, s.last(), la);
        let all = stably_sorted(s, la);
        assert(good(s[s.len() - 1]));
        assert forall|i: int| 0 <= i < all.len() implies good(#[trigger] all[i]) by {
            if i < at {
                assert(all[i] == front[i]);
            } else if i > at {
                assert(all[i] == front[i - 1]);
            }
        }
    }
}

/// Sorting items by what they stand for is sorting what they stand for. Both
/// orders need only agree on good items, which all of them are.
pub proof fn lemma_sort_map_good<A, B>(
    s: Seq<A>,
    f: spec_fn(A) -> B,
    la: spec_fn(A, A) -> bool,
    lb: spec_fn(B, B) -> bool,
    good: spec_fn(A) -> bool,
)
    requires
        forall|i: int| 0 <= i < s.len() ==> good(#[trigger] s[i]),
        forall|a: A, b: A| good(a) && good(b) ==> #[trigger] la(a, b) == lb(f(a), f(b)),
    ensures
        stably_sorted(s, la).map_values(f) == stably_sorted(s.map_values(f), lb),
    decreases s.len(),
{
    let t = s.map_values(f);
    if s.len() == 0 {
        assert(stably_sorted(s, la).map_values(f) =~= stably_sorted(t, lb));
    } else {
        let front = stably_sorted(s.drop_last(), la);
        let x = s.last();
        lemma_sort_map_good(s.drop_last(), f, la, lb, good);
        assert(s.drop_last().map_values(f) =~= t.drop_last());
        assert(t.last() == f(x));
        lemma_sorted_are(s.drop_last(), la, good);
        assert(good(s[s.len() - 1]));
        lemma_place_map(front, x, f, la, lb);
        lemma_place(front, x, la);
        let at = place(front, x, la);
        assert(front.insert(at, x).map_values(f) =~= front.map_values(f).insert(at, f(x)));
    }
}

/// Sorting by what items stand for is sorting what they stand for.
pub proof fn lemma_sort_map<A, B>(
    s: Seq<A>,
    f: spec_fn(A) -> B,
    la: spec_fn(A, A) -> bool,
    lb: spec_fn(B, B) -> bool,
)
    requires
        forall|a: A, b: A| #[trigger] la(a, b) == lb(f(a), f(b)),
    ensures
        stably_sorted(s, la).map_values(f) == stably_sorted(s.map_values(f), lb),
{
    lemma_sort_map_good(s, f, la, lb, |a: A| true);
}

/// `items` sorted by `leq`, equals in the order in which they came.
pub(crate) fn sort_stably<T, F: Fn(&T, &T) -> bool>(
    items: Vec<T>,
    leq: F,
    Ghost(order): Ghost<spec_fn(T, T) -> bool>,
) -> (r: Vec<T>)
    requires
        orders(order),
        forall|a: &T, b: &T| #[trigger] leq.requires((a, b)),
        forall|a: &T, b: &T, o: bool| #[trigger] leq.ensures((a, b), o) ==> o == order(*a, *b),
    ensures
        r@ == stably_sorted(items@, order),
{
    let ghost all = items@;
    let mut rest = items;
    let mut waiting: Vec<T> = Vec::new();
    // Turn the items round, so that they come off one by one from the front.
    while rest.len() > 0
        invariant
            waiting@.len() + rest@.len() == all.len(),
            rest@ == all.take(rest@.len() as int),
            forall|i: int| 0 <= i < waiting@.len() ==> waiting@[i] == all[all.len() - 1 - i],
        decreases rest@.len(),
    {
        let x = rest.pop().unwrap();
        waiting.push(x);
    }
    let mut out: Vec<T> = Vec::new();
    assert(all.take(0) =~= Seq::<T>::empty());
    while waiting.len() > 0
        invariant
            orders(order),
            forall|a: &T, b: &T| #[trigger] leq.requires((a, b)),
            forall|a: &T, b: &T, o: bool| #[trigger] leq.ensures((a, b), o) ==> o == order(*a, *b),
            waiting@.len() <= all.len(),
            forall|i: int| 0 <= i < waiting@.len() ==> waiting@[i] == all[all.len() - 1 - i],
            out@ == stably_sorted(all.take(all.len() - waiting@.len()), order),
        decreases waiting@.len(),
    {
        let ghost done = all.len() - waiting@.len();
        let x = waiting.pop().unwrap();
        assert(x == all[done]);
        let mut at: usize = 0;
        while at < out.len() && leq(&out[at], &x)
            invariant
                forall|a: &T, b: &T| #[trigger] leq.requires((a, b)),
                forall|a: &T, b: &T, o: bool| #[trigger]
                    leq.ensures((a, b), o) ==> o == order(*a, *b),
                at <= out@.len(),
                forall|i: int| 0 <= i < at ==> order(#[trigger] out@[i], x),
            ensures
                at <= out@.len(),
                forall|i: int| 0 <= i < at ==> order(#[trigger] out@[i], x),
                at < out@.len() ==> !order(out@[at as int], x),
            decreases out@.len() - at,
        {
            at += 1;
        }
        proof {
            lemma_place_is(out@, x, order, at as int);
            assert(all.take(done + 1).drop_last() =~= all.take(done));
            assert(all.take(done + 1).last() == x);
        }
        out.insert(at, x);
    }
    assert(all.take(all.len() as int) =~= all);
    out
}

// ---------------------------------------------------------------------------
// The order of texts
// ---------------------------------------------------------------------------

/// Whether `a` stands at or before `b` in the order of code points, a text
/// before those that go on where it ends.
pub open spec fn text_leq(a: Seq<char>, b: Seq<char>) -> bool
    decreases a.len(),
{
    if a.len() == 0 {
        true
    } else if b.len() == 0 {
        false
    } else if a[0] != b[0] {
        a[0] < b[0]
    } else {
        text_leq(a.subrange(1, a.len() as int), b.subrange(1, b.len() as int))
    }
}

/// Any two texts compare.
pub proof fn text_leq_is_total(a: Seq<char>, b: Seq<char>)
    ensures
        text_leq(a, b) || text_leq(b, a),
        text_leq(a, b) && text_leq(b, a) ==> a == b,
    decreases a.len(),
{
    if a.len() > 0 && b.len() > 0 && a[0] == b[0] {
        let x = a.subrange(1, a.len() as int);
        let y = b.subrange(1, b.len() as int);
        text_leq_is_total(x, y);
        if x == y {
            assert(a =~= seq![a[0]] + x);
            assert(b =~= seq![b[0]] + y);
        }
    } else if a.len() == 0 && b.len() == 0 {
        assert(a =~= b);
    }
}

/// The order of texts chains.
pub proof fn text_leq_chains(a: Seq<char>, b: Seq<char>, c: Seq<char>)
    requires
        text_leq(a, b),
        text_leq(b, c),
    ensures
        text_leq(a, c),
    decreases a.len(),
{
    if a.len() > 0 && b.len() > 0 && c.len() > 0 && a[0] == b[0] && b[0] == c[0] {
        text_leq_chains(
            a.subrange(1, a.len() as int),
            b.subrange(1, b.len() as int),
            c.subrange(1, c.len() as int),
        );
    }
}

/// Whether `a` stands at or before `b` in the order of code points.
pub fn text_not_after(a: &str, b: &str) -> (r: bool)
    ensures
        r == text_leq(a@, b@),
{
    let x = chars_of(a);
    let y = chars_of(b);
    let mut i: usize = 0;
    assert(x@.subrange(0, x@.len() as int) =~= x@);
    assert(y@.subrange(0, y@.len() as int) =~= y@);
    while i < x.len() && i < y.len()
        invariant
            x@ == a@,
            y@ == b@,
            i <= x@.len(),
            i <= y@.len(),
            text_leq(a@, b@) == text_leq(
                x@.subrange(i as int, x@.len() as int),
                y@.subrange(i as int, y@.len() as int),
            ),
        decreases x@.len() - i,
    {
        let ghost p = x@.subrange(i as int, x@.len() as int);
        let ghost q = y@.subrange(i as int, y@.len() as int);
        assert(p[0] == x@[i as int] && q[0] == y@[i as int]);
        if x[i] != y[i] {
            return x[i] < y[i];
        }
        assert(p.subrange(1, p.len() as int) =~= x@.subrange(i + 1, x@.len() as int));
        assert(q.subrange(1, q.len() as int) =~= y@.subrange(i + 1, y@.len() as int));
        i += 1;
    }
    i == x.len()
}

} // verus!
