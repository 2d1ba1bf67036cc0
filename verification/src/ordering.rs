//! Stable arrangement of rows by a four-part key.
//!
//! Every listing of the library is ordered by the same kind of key: a group, a
//! manual order number, a name and a second name that breaks ties between equal
//! names. Rows with equal keys keep the order in which they were handed in, so
//! that an arrangement is a function of its input.

use vstd::prelude::*;
use crate::text::{is_text_le, lemma_text_le_total, lemma_text_le_transitive, text_le};

verus! {

/// The key a row is ordered by, compared part by part from the first to the last.
pub struct OrderKey {
    pub group: u8,
    pub order: i64,
    pub name: String,
    pub tie: String,
}

/// Mathematical value of an [`OrderKey`].
pub struct OrderKeyView {
    pub group: u8,
    pub order: i64,
    pub name: Seq<char>,
    pub tie: Seq<char>,
}

impl View for OrderKey {
    type V = OrderKeyView;

    open spec fn view(&self) -> OrderKeyView {
        OrderKeyView { group: self.group, order: self.order, name: self.name@, tie: self.tie@ }
    }
}

/// The values of a sequence of keys.
pub open spec fn key_views(keys: Seq<OrderKey>) -> Seq<OrderKeyView> {
    Seq::new(keys.len(), |i: int| keys[i]@)
}

/// `a` sorts no later than `b`.
pub open spec fn key_le(a: OrderKeyView, b: OrderKeyView) -> bool {
    if a.group != b.group {
        a.group < b.group
    } else if a.order != b.order {
        a.order < b.order
    } else if !(text_le(a.name, b.name) && text_le(b.name, a.name)) {
        text_le(a.name, b.name)
    } else {
        text_le(a.tie, b.tie)
    }
}

/// Row `i` stands before row `j`: its key is smaller, or the keys are level and
/// it was handed in first.
pub open spec fn comes_before(keys: Seq<OrderKeyView>, i: int, j: int) -> bool {
    key_le(keys[i], keys[j]) && (!key_le(keys[j], keys[i]) || i < j)
}

/// Every pair of positions of `p` is in order.
pub open spec fn is_sorted(p: Seq<int>, keys: Seq<OrderKeyView>) -> bool {
    forall|a: int, b: int|
        0 <= a < b < p.len() ==> comes_before(keys, #[trigger] p[a], #[trigger] p[b])
}

/// `p` lists each of the rows `0..n` once, every pair of them in order.
pub open spec fn is_ordering(p: Seq<int>, keys: Seq<OrderKeyView>, n: int) -> bool {
    &&& p.len() == n
    &&& forall|v: int| p.contains(v) <==> 0 <= v < n
    &&& is_sorted(p, keys)
}

/// `p` with row `x` put behind the last row that does not sort later than `x`.
pub open spec fn place(p: Seq<int>, keys: Seq<OrderKeyView>, x: int) -> Seq<int>
    decreases p.len(),
{
    if p.len() == 0 {
        seq![x]
    } else if key_le(keys[p.last()], keys[x]) {
        p.push(x)
    } else {
        place(p.drop_last(), keys, x).push(p.last())
    }
}

/// The arrangement of the first `n` rows.
pub open spec fn ordering_upto(keys: Seq<OrderKeyView>, n: nat) -> Seq<int>
    decreases n,
{
    if n == 0 {
        Seq::empty()
    } else {
        place(ordering_upto(keys, (n - 1) as nat), keys, n - 1)
    }
}

/// The arrangement of all rows: the row numbers `0..keys.len()`, smallest key
/// first, rows with level keys in the order in which they were handed in.
pub open spec fn ordering(keys: Seq<OrderKeyView>) -> Seq<int> {
    ordering_upto(keys, keys.len())
}

/// Of two keys, one sorts no later than the other.
pub proof fn lemma_key_le_total(a: OrderKeyView, b: OrderKeyView)
    ensures
        key_le(a, b) || key_le(b, a),
{
    lemma_text_le_total(a.name, b.name);
    lemma_text_le_total(a.tie, b.tie);
}

/// The order of keys is transitive.
pub proof fn lemma_key_le_transitive(a: OrderKeyView, b: OrderKeyView, c: OrderKeyView)
    requires
        key_le(a, b),
        key_le(b, c),
    ensures
        key_le(a, c),
{
    lemma_text_le_total(a.name, b.name);
    lemma_text_le_total(b.name, c.name);
    lemma_text_le_total(a.name, c.name);
    if text_le(a.name, b.name) && text_le(b.name, c.name) {
        lemma_text_le_transitive(a.name, b.name, c.name);
    }
    if text_le(c.name, a.name) && text_le(a.name, b.name) {
        lemma_text_le_transitive(c.name, a.name, b.name);
    }
    if text_le(b.name, c.name) && text_le(c.name, a.name) {
        lemma_text_le_transitive(b.name, c.name, a.name);
    }
    if text_le(c.name, b.name) && text_le(b.name, a.name) {
        lemma_text_le_transitive(c.name, b.name, a.name);
    }
    if text_le(a.tie, b.tie) && text_le(b.tie, c.tie) {
        lemma_text_le_transitive(a.tie, b.tie, c.tie);
    }
}

/// Placing a later row into a sorted list keeps it sorted and adds just that row.
pub proof fn lemma_place(p: Seq<int>, keys: Seq<OrderKeyView>, x: int)
    requires
        is_sorted(p, keys),
        forall|k: int| 0 <= k < p.len() ==> #[trigger] p[k] < x,
    ensures
        is_sorted(place(p, keys, x), keys),
        place(p, keys, x).len() == p.len() + 1,
        forall|v: int|
            #![trigger place(p, keys, x).contains(v)]
            #![trigger p.contains(v)]
            place(p, keys, x).contains(v) <==> (p.contains(v) || v == x),
    decreases p.len(),
{
    let q = place(p, keys, x);
    if p.len() == 0 {
        assert(q[0] == x);
        assert forall|v: int| q.contains(v) <==> (p.contains(v) || v == x) by {
            if v == x {
                assert(q[0] == v);
            }
        }
    } else if key_le(keys[p.last()], keys[x]) {
        assert forall|a: int, b: int| 0 <= a < b < q.len() implies comes_before(
            keys,
            #[trigger] q[a],
            #[trigger] q[b],
        ) by {
            if b == p.len() {
                assert(q[a] == p[a]);
                if a < p.len() - 1 {
                    assert(comes_before(keys, p[a], p[p.len() - 1]));
                    lemma_key_le_transitive(keys[p[a]], keys[p.last()], keys[x]);
                }
            } else {
                assert(q[a] == p[a] && q[b] == p[b]);
            }
        }
        assert forall|v: int| q.contains(v) <==> (p.contains(v) || v == x) by {
            if q.contains(v) {
                let k = choose|k: int| 0 <= k < q.len() && q[k] == v;
                if k < p.len() {
                    assert(p[k] == v);
                }
            }
            if p.contains(v) {
                let k = choose|k: int| 0 <= k < p.len() && p[k] == v;
                assert(q[k] == v);
            }
            if v == x {
                assert(q[p.len() as int] == v);
            }
        }
    } else {
        let r = p.drop_last();
        let last = p.last();
        let qr = place(r, keys, x);
        assert forall|a: int, b: int| 0 <= a < b < r.len() implies comes_before(
            keys,
            #[trigger] r[a],
            #[trigger] r[b],
        ) by {
            assert(r[a] == p[a] && r[b] == p[b]);
        }
        assert forall|k: int| 0 <= k < r.len() implies #[trigger] r[k] < x by {
            assert(r[k] == p[k]);
        }
        lemma_place(r, keys, x);
        lemma_key_le_total(keys[last], keys[x]);
        assert forall|a: int, b: int| 0 <= a < b < q.len() implies comes_before(
            keys,
            #[trigger] q[a],
            #[trigger] q[b],
        ) by {
            if b == qr.len() {
                assert(q[a] == qr[a]);
                assert(qr.contains(qr[a]));
                if qr[a] != x {
                    assert(r.contains(qr[a]));
                    let c = choose|c: int| 0 <= c < r.len() && r[c] == qr[a];
                    assert(p[c] == qr[a]);
                    assert(comes_before(keys, p[c], p[p.len() - 1]));
                }
            } else {
                assert(q[a] == qr[a] && q[b] == qr[b]);
            }
        }
        assert forall|v: int| q.contains(v) <==> (p.contains(v) || v == x) by {
            if q.contains(v) {
                let k = choose|k: int| 0 <= k < q.len() && q[k] == v;
                if k < qr.len() {
                    assert(qr[k] == v);
                    assert(qr.contains(v));
                    if v != x {
                        assert(r.contains(v));
                        let c = choose|c: int| 0 <= c < r.len() && r[c] == v;
                        assert(r[c] == p[c]);
                    }
                } else {
                    assert(p[p.len() - 1] == v);
                }
            }
            if p.contains(v) {
                let k = choose|k: int| 0 <= k < p.len() && p[k] == v;
                if k < r.len() {
                    assert(r[k] == v);
                    assert(r.contains(v));
                    let c = choose|c: int| 0 <= c < qr.len() && qr[c] == v;
                    assert(q[c] == v);
                } else {
                    assert(q[qr.len() as int] == v);
                }
            }
            if v == x {
                assert(qr.contains(x));
                let c = choose|c: int| 0 <= c < qr.len() && qr[c] == x;
                assert(q[c] == x);
            }
        }
    }
}

/// The arrangement of the first `n` rows lists each of them once, in order.
pub proof fn lemma_ordering_upto(keys: Seq<OrderKeyView>, n: nat)
    ensures
        is_ordering(ordering_upto(keys, n), keys, n as int),
    decreases n,
{
    let q = ordering_upto(keys, n);
    if n > 0 {
        let p = ordering_upto(keys, (n - 1) as nat);
        lemma_ordering_upto(keys, (n - 1) as nat);
        assert forall|k: int| 0 <= k < p.len() implies #[trigger] p[k] < n - 1 by {
            assert(p.contains(p[k]));
        }
        lemma_place(p, keys, n - 1);
        assert forall|v: int| q.contains(v) <==> 0 <= v < n by {
            assert(q.contains(v) <==> (p.contains(v) || v == n - 1));
            assert(p.contains(v) <==> 0 <= v < n - 1);
        }
    } else {
        assert forall|v: int| q.contains(v) <==> 0 <= v < n by {
            if q.contains(v) {
                let k = choose|k: int| 0 <= k < q.len() && q[k] == v;
            }
        }
    }
}

/// The arrangement lists every row once, each pair of rows in order.
pub proof fn lemma_ordering_is_ordering(keys: Seq<OrderKeyView>)
    ensures
        is_ordering(ordering(keys), keys, keys.len() as int),
{
    lemma_ordering_upto(keys, keys.len());
}

/// Two sorted lists of the same rows are the same list.
pub proof fn lemma_sorted_unique(p: Seq<int>, q: Seq<int>, keys: Seq<OrderKeyView>)
    requires
        is_sorted(p, keys),
        is_sorted(q, keys),
        forall|v: int| p.contains(v) <==> q.contains(v),
    ensures
        p == q,
    decreases p.len(),
{
    if p.len() == 0 {
        if q.len() > 0 {
            assert(q.contains(q[0]));
        }
        assert(p =~= q);
    } else {
        let x = p.last();
        assert(p.contains(x)) by {
            assert(p[p.len() - 1] == x);
        }
        let j = choose|j: int| 0 <= j < q.len() && q[j] == x;
        let y = q.last();
        assert(q.contains(y)) by {
            assert(q[q.len() - 1] == y);
        }
        let c = choose|c: int| 0 <= c < p.len() && p[c] == y;
        if j < q.len() - 1 {
            assert(comes_before(keys, q[j], q[q.len() - 1]));
            if c < p.len() - 1 {
                assert(comes_before(keys, p[c], p[p.len() - 1]));
            }
            assert(false);
        }
        let pr = p.drop_last();
        let qr = q.drop_last();
        assert forall|v: int| pr.contains(v) <==> qr.contains(v) by {
            if pr.contains(v) {
                let k = choose|k: int| 0 <= k < pr.len() && pr[k] == v;
                assert(p[k] == v);
                assert(comes_before(keys, p[k], p[p.len() - 1]));
                assert(q.contains(v));
                let m = choose|m: int| 0 <= m < q.len() && q[m] == v;
                assert(qr[m] == v);
            }
            if qr.contains(v) {
                let k = choose|k: int| 0 <= k < qr.len() && qr[k] == v;
                assert(q[k] == v);
                assert(comes_before(keys, q[k], q[q.len() - 1]));
                assert(p.contains(v));
                let m = choose|m: int| 0 <= m < p.len() && p[m] == v;
                assert(pr[m] == v);
            }
        }
        assert(is_sorted(pr, keys)) by {
            assert forall|a: int, b: int| 0 <= a < b < pr.len() implies comes_before(
                keys,
                #[trigger] pr[a],
                #[trigger] pr[b],
            ) by {
                assert(pr[a] == p[a] && pr[b] == p[b]);
            }
        }
        assert(is_sorted(qr, keys)) by {
            assert forall|a: int, b: int| 0 <= a < b < qr.len() implies comes_before(
                keys,
                #[trigger] qr[a],
                #[trigger] qr[b],
            ) by {
                assert(qr[a] == q[a] && qr[b] == q[b]);
            }
        }
        lemma_sorted_unique(pr, qr, keys);
        assert(p =~= pr.push(x));
        assert(q =~= qr.push(x));
    }
}

/// Whatever lists every row once with each pair in order is the arrangement.
pub proof fn lemma_ordering_unique(p: Seq<int>, keys: Seq<OrderKeyView>)
    requires
        is_ordering(p, keys, keys.len() as int),
    ensures
        p == ordering(keys),
{
    lemma_ordering_is_ordering(keys);
    lemma_sorted_unique(p, ordering(keys), keys);
}

/// Where `place` puts a row: at `pos`, when every row from `pos` on sorts later
/// than `x` and the row before `pos`, if there is one, does not.
pub proof fn lemma_place_at(p: Seq<int>, keys: Seq<OrderKeyView>, x: int, pos: int)
    requires
        0 <= pos <= p.len(),
        forall|k: int| pos <= k < p.len() ==> !key_le(keys[#[trigger] p[k]], keys[x]),
        pos > 0 ==> key_le(keys[p[pos - 1]], keys[x]),
    ensures
        place(p, keys, x) == p.insert(pos, x),
    decreases p.len(),
{
    if p.len() == 0 {
        assert(place(p, keys, x) =~= p.insert(pos, x));
    } else if pos == p.len() {
        assert(place(p, keys, x) =~= p.insert(pos, x));
    } else {
        let r = p.drop_last();
        assert(!key_le(keys[p[p.len() - 1]], keys[x]));
        assert forall|k: int| pos <= k < r.len() implies !key_le(keys[#[trigger] r[k]], keys[x]) by {
            assert(r[k] == p[k]);
        }
        lemma_place_at(r, keys, x, pos);
        assert(r.insert(pos, x).push(p.last()) =~= p.insert(pos, x));
    }
}

/// Decides whether `a` sorts no later than `b`.
pub fn is_key_le(a: &OrderKey, b: &OrderKey) -> (r: bool)
    ensures
        r == key_le(a@, b@),
{
    if a.group != b.group {
        a.group < b.group
    } else if a.order != b.order {
        a.order < b.order
    } else {
        let forth = is_text_le(a.name.as_str(), b.name.as_str());
        let back = is_text_le(b.name.as_str(), a.name.as_str());
        if !(forth && back) {
            forth
        } else {
            is_text_le(a.tie.as_str(), b.tie.as_str())
        }
    }
}

/// The row numbers of `order` as mathematical integers.
pub open spec fn positions(order: Seq<usize>) -> Seq<int> {
    Seq::new(order.len(), |k: int| order[k] as int)
}

/// Arranges rows by their keys: returns the row numbers, smallest key first, rows
/// with level keys in the order in which they stand in `keys`.
pub fn sort_positions(keys: &Vec<OrderKey>) -> (order: Vec<usize>)
    ensures
        positions(order@) == ordering(key_views(keys@)),
{
    let ghost kv = key_views(keys@);
    let mut order: Vec<usize> = Vec::new();
    let mut i: usize = 0;
    assert(positions(order@) =~= ordering_upto(kv, 0));
    while i < keys.len()
        invariant
            i <= keys@.len(),
            kv == key_views(keys@),
            positions(order@) == ordering_upto(kv, i as nat),
        decreases keys@.len() - i,
    {
        proof {
            lemma_ordering_upto(kv, i as nat);
        }
        let ghost before = positions(order@);
        assert(order@.len() == i) by {
            assert(before.len() == order@.len());
        }
        assert forall|k: int| 0 <= k < order@.len() implies 0 <= #[trigger] order@[k]
            < keys@.len() by {
            assert(before[k] == order@[k]);
            assert(before.contains(before[k]));
        }
        let mut pos: usize = order.len();
        let mut searching: bool = pos > 0;
        while searching
            invariant
                pos <= order@.len(),
                i < keys@.len(),
                kv == key_views(keys@),
                before == positions(order@),
                forall|k: int| 0 <= k < order@.len() ==> 0 <= #[trigger] order@[k] < keys@.len(),
                forall|k: int|
                    pos <= k < order@.len() ==> !key_le(kv[#[trigger] before[k]], kv[i as int]),
                searching ==> pos > 0,
                !searching && pos > 0 ==> key_le(kv[before[pos - 1]], kv[i as int]),
            decreases pos + (if searching { 1int } else { 0int }),
        {
            let candidate: usize = order[pos - 1];
            assert(before[pos - 1] == candidate as int);
            if is_key_le(&keys[candidate], &keys[i]) {
                searching = false;
            } else {
                pos = pos - 1;
                searching = pos > 0;
            }
        }
        order.insert(pos, i);
        proof {
            lemma_place_at(before, kv, i as int, pos as int);
            assert(positions(order@) =~= before.insert(pos as int, i as int));
        }
        i = i + 1;
    }
    order
}

} // verus!
