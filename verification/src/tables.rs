//! What every list of records offers: adding a record under a free id,
//! removing the record with an id, removing the records of an owner, and
//! listing chosen records in order.

use vstd::prelude::*;
use crate::ordering::{
    is_ordering, key_views, lemma_ordering_is_ordering, ordering, positions, sort_positions,
    OrderKey, OrderKeyView,
};
use crate::store::{find_id, idents, lemma_find_id, listing_keys, position_of, refused, Record, StoreError};

verus! {

/// Adds `record` at the end of `items`.
///
/// Refused with `DuplicateId` where `items` already holds a record with its id.
pub fn add_record<T: Record>(items: &mut Vec<T>, record: T) -> (r: Result<(), StoreError>)
    ensures
        idents(old(items)@).contains(record.ident()) ==> refused(r, StoreError::DuplicateId),
        !idents(old(items)@).contains(record.ident()) ==> r is Ok,
        r is Ok ==> final(items)@ == old(items)@.push(record) && final(items).deep_view() == old(
            items,
        ).deep_view().push(record.deep_view()),
        r is Err ==> final(items)@ == old(items)@,
{
    proof {
        lemma_find_id(idents(items@), record.ident());
    }
    if position_of(items, record.id_text().as_str()).is_some() {
        return Err(StoreError::DuplicateId);
    }
    items.push(record);
    assert(items.deep_view() =~= old(items).deep_view().push(record.deep_view()));
    Ok(())
}

/// Removes the first record of `items` that has the id `id`.
///
/// Refused with `NotFound` where `items` holds no record with the id.
pub fn drop_record<T: Record>(items: &mut Vec<T>, id: &str) -> (r: Result<(), StoreError>)
    ensures
        find_id(idents(old(items)@), id@) is None ==> refused(r, StoreError::NotFound),
        find_id(idents(old(items)@), id@) is Some ==> r is Ok,
        r is Ok ==> final(items)@ == old(items)@.remove(find_id(idents(old(items)@), id@)->0)
            && final(items).deep_view() == old(items).deep_view().remove(
            find_id(idents(old(items)@), id@)->0,
        ),
        r is Err ==> final(items)@ == old(items)@,
{
    match position_of(items, id) {
        Some(i) => {
            items.remove(i);
            assert(items.deep_view() =~= old(items).deep_view().remove(i as int));
            Ok(())
        },
        None => Err(StoreError::NotFound),
    }
}

/// A record that belongs to another record, its owner.
pub trait Owned: Record {
    /// The id of the owner, if the record has one.
    spec fn owner(&self) -> Option<Seq<char>>;

    /// Whether the owner of the record has the id `id`.
    fn is_owned_by(&self, id: &str) -> (r: bool)
        ensures
            r == (self.owner() == Some(id@)),
    ;
}

/// The records among the first `n` of `items` whose owner is not `owner`.
pub open spec fn without_owner<T: Owned>(items: Seq<T>, owner: Seq<char>, n: nat) -> Seq<T>
    decreases n,
{
    if n == 0 {
        Seq::empty()
    } else {
        let rest = without_owner(items, owner, (n - 1) as nat);
        if items[n - 1].owner() == Some(owner) {
            rest
        } else {
            rest.push(items[n - 1])
        }
    }
}

/// The values of the records of `items`.
pub open spec fn values<T: Record>(items: Seq<T>) -> Seq<T::V> {
    Seq::new(items.len(), |i: int| items[i].deep_view())
}

/// Removes every record of `items` whose owner has the id `owner`.
pub fn drop_owned<T: Owned>(items: &mut Vec<T>, owner: &str)
    ensures
        final(items).deep_view() == values(
            without_owner(old(items)@, owner@, old(items)@.len()),
        ),
{
    let ghost before = items@;
    let mut kept: Vec<T> = Vec::new();
    let mut k: usize = 0;
    assert(kept.deep_view() =~= values(without_owner(before, owner@, 0)));
    while k < items.len()
        invariant
            k <= items@.len(),
            items@ == before,
            kept.deep_view() == values(without_owner(before, owner@, k as nat)),
        decreases items@.len() - k,
    {
        let ghost had = without_owner(before, owner@, k as nat);
        let ghost had_values = kept.deep_view();
        if !items[k].is_owned_by(owner) {
            let copy = items[k].duplicate();
            kept.push(copy);
            assert(kept.deep_view() =~= had_values.push(before[k as int].deep_view()));
            assert(values(had.push(before[k as int])) =~= values(had).push(
                before[k as int].deep_view(),
            ));
        }
        k = k + 1;
    }
    *items = kept;
}

/// The places among the first `n` that `mask` marks, ascending.
pub open spec fn marked(mask: Seq<bool>, n: nat) -> Seq<int>
    decreases n,
{
    if n == 0 {
        Seq::empty()
    } else {
        let rest = marked(mask, (n - 1) as nat);
        if mask[n - 1] {
            rest.push(n - 1)
        } else {
            rest
        }
    }
}

/// The marked places lie within the mask.
pub proof fn lemma_marked(mask: Seq<bool>, n: nat)
    requires
        n <= mask.len(),
    ensures
        marked(mask, n).len() <= n,
        forall|j: int|
            0 <= j < marked(mask, n).len() ==> 0 <= #[trigger] marked(mask, n)[j] < n && mask[marked(
                mask,
                n,
            )[j]],
    decreases n,
{
    if n > 0 {
        lemma_marked(mask, (n - 1) as nat);
    }
}

/// The keys of the marked records.
pub open spec fn marked_keys(keys: Seq<OrderKeyView>, places: Seq<int>) -> Seq<OrderKeyView> {
    Seq::new(places.len(), |j: int| keys[places[j]])
}

/// The records that `mask` marks, arranged by `keys`: smallest key first, or
/// last where `descending`.
pub open spec fn selected<V>(
    items: Seq<V>,
    keys: Seq<OrderKeyView>,
    mask: Seq<bool>,
    descending: bool,
) -> Seq<V> {
    let places = marked(mask, mask.len());
    let order = ordering(marked_keys(keys, places));
    Seq::new(
        places.len(),
        |k: int|
            items[places[order[if descending {
                places.len() - 1 - k
            } else {
                k
            }]]],
    )
}

/// Copies of the records of `items` that `mask` marks, arranged by their
/// listing keys: smallest key first, or last where `descending`.
pub fn select<T: Record>(items: &Vec<T>, mask: &Vec<bool>, descending: bool) -> (r: Vec<T>)
    requires
        mask@.len() == items@.len(),
    ensures
        r.deep_view() == selected(items.deep_view(), listing_keys(items@), mask@, descending),
{
    let ghost all_keys = listing_keys(items@);
    let mut places: Vec<usize> = Vec::new();
    let mut keys: Vec<OrderKey> = Vec::new();
    let mut i: usize = 0;
    assert(positions(places@) =~= marked(mask@, 0));
    while i < items.len()
        invariant
            i <= items@.len(),
            mask@.len() == items@.len(),
            all_keys == listing_keys(items@),
            places@.len() == keys@.len(),
            positions(places@) == marked(mask@, i as nat),
            forall|j: int|
                0 <= j < keys@.len() ==> (#[trigger] keys@[j])@ == all_keys[places@[j] as int],
            forall|j: int| 0 <= j < places@.len() ==> #[trigger] places@[j] < items@.len(),
        decreases items@.len() - i,
    {
        let ghost before = positions(places@);
        if mask[i] {
            places.push(i);
            keys.push(items[i].order_key());
            assert(positions(places@) =~= before.push(i as int));
        } else {
            assert(positions(places@) =~= before);
        }
        i = i + 1;
    }
    let ghost ps = marked(mask@, mask@.len());
    let ghost mk = marked_keys(all_keys, ps);
    proof {
        assert(positions(places@).len() == places@.len());
        assert forall|j: int| 0 <= j < keys@.len() implies key_views(keys@)[j] == mk[j] by {
            assert(positions(places@)[j] == places@[j] as int);
        }
        assert(key_views(keys@) =~= mk);
        lemma_ordering_is_ordering(mk);
    }
    let sorted = sort_positions(&keys);
    let ghost p = ordering(mk);
    let ghost wanted = selected(items.deep_view(), all_keys, mask@, descending);
    assert(positions(sorted@).len() == sorted@.len());
    let n = sorted.len();
    let mut r: Vec<T> = Vec::new();
    let mut k: usize = 0;
    while k < n
        invariant
            k <= n,
            n == sorted@.len(),
            sorted@.len() == places@.len(),
            positions(sorted@) == p,
            positions(places@) == ps,
            ps.len() == places@.len(),
            is_ordering(p, mk, ps.len() as int),
            forall|j: int| 0 <= j < places@.len() ==> #[trigger] places@[j] < items@.len(),
            wanted == selected(items.deep_view(), all_keys, mask@, descending),
            all_keys == listing_keys(items@),
            ps == marked(mask@, mask@.len()),
            mk == marked_keys(all_keys, ps),
            p == ordering(mk),
            r@.len() == k,
            forall|j: int| 0 <= j < k ==> (#[trigger] r@[j]).deep_view() == wanted[j],
        decreases n - k,
    {
        let at = if descending {
            n - 1 - k
        } else {
            k
        };
        let j = sorted[at];
        proof {
            assert(positions(sorted@)[at as int] == j as int);
            assert(p.contains(p[at as int]));
            assert(positions(places@)[j as int] == places@[j as int] as int);
            assert(items.deep_view()[places@[j as int] as int] == items@[places@[j as int] as int].deep_view());
        }
        r.push(items[places[j]].duplicate());
        k = k + 1;
    }
    assert(r.deep_view() =~= wanted);
    r
}

/// A mask that marks every place of a list of `n` records.
pub fn mark_all(n: usize) -> (mask: Vec<bool>)
    ensures
        mask@.len() == n,
        forall|i: int| 0 <= i < n ==> mask@[i],
{
    let mut mask: Vec<bool> = Vec::new();
    let mut i: usize = 0;
    while i < n
        invariant
            i <= n,
            mask@.len() == i,
            forall|j: int| 0 <= j < i ==> mask@[j],
        decreases n - i,
    {
        mask.push(true);
        i = i + 1;
    }
    mask
}

} // verus!
