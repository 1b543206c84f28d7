//! The ordered, key-deduplicated list of items to deliver.

use crate::catalog::{CatalogId, WorkItem};
use indexmap::IndexMap;
use vstd::prelude::*;

verus! {

#[verifier::external_type_specification]
#[verifier::external_body]
#[verifier::reject_recursive_types(K)]
#[verifier::reject_recursive_types(V)]
#[verifier::reject_recursive_types(S)]
pub struct ExIndexMap<K, V, S>(IndexMap<K, V, S>);

/// The entries of an `indexmap::IndexMap`, in the map's own order.
pub uninterp spec fn index_map_entries(m: IndexMap<CatalogId, WorkItem>) -> Seq<(CatalogId, WorkItem)>;

/// `IndexMap::new`: the new map has no entries.
#[verifier::external_body]
fn index_map_new() -> (m: IndexMap<CatalogId, WorkItem>)
    ensures
        index_map_entries(m) == Seq::<(CatalogId, WorkItem)>::empty(),
{
    IndexMap::new()
}

/// `IndexMap::len`: the number of entries.
#[verifier::external_body]
fn index_map_len(m: &IndexMap<CatalogId, WorkItem>) -> (n: usize)
    ensures
        n == index_map_entries(*m).len(),
{
    m.len()
}

/// `IndexMap::insert`: where the key is present its entry keeps its place,
/// takes the new value and the old value is returned; where it is absent
/// the pair becomes the last entry and nothing is returned.
#[verifier::external_body]
fn index_map_insert(m: &mut IndexMap<CatalogId, WorkItem>, key: CatalogId, value: WorkItem) -> (prev: Option<WorkItem>)
    ensures
        match prev {
            Some(v) => exists|i: int|
                0 <= i < index_map_entries(*old(m)).len()
                && index_map_entries(*old(m))[i] == (key, v)
                && index_map_entries(*final(m)) == index_map_entries(*old(m)).update(i, (key, value)),
            None => (forall|i: int| 0 <= i < index_map_entries(*old(m)).len()
                        ==> (#[trigger] index_map_entries(*old(m))[i]).0 != key)
                && index_map_entries(*final(m)) == index_map_entries(*old(m)).push((key, value)),
        },
{
    m.insert(key, value)
}

/// `IndexMap::get_index`: the entry at a position below the length, in the
/// map's order, and nothing at any other position.
#[verifier::external_body]
fn index_map_get_index(m: &IndexMap<CatalogId, WorkItem>, index: usize) -> (r: Option<(CatalogId, &WorkItem)>)
    ensures
        index < index_map_entries(*m).len() ==> r == Some(
            (index_map_entries(*m)[index as int].0, &index_map_entries(*m)[index as int].1),
        ),
        index >= index_map_entries(*m).len() ==> r.is_none(),
{
    m.get_index(index).map(|(k, v)| (*k, v))
}

/// Whether some entry of `s` has the key `id`.
pub open spec fn has_key(s: Seq<(CatalogId, WorkItem)>, id: CatalogId) -> bool {
    exists|i: int| 0 <= i < s.len() && (#[trigger] s[i]).0 == id
}

/// The keys of `s`, in order.
pub open spec fn keys_of(s: Seq<(CatalogId, WorkItem)>) -> Seq<CatalogId> {
    Seq::new(s.len(), |i: int| s[i].0)
}

/// No key occurs at two positions of `s`.
pub open spec fn distinct_keys(s: Seq<(CatalogId, WorkItem)>) -> bool {
    forall|i: int, j: int| 0 <= i < j < s.len() ==> (#[trigger] s[i]).0 != (#[trigger] s[j]).0
}

/// The position of the key `id` in `s`; meaningful where `has_key(s, id)`.
pub open spec fn position_of(s: Seq<(CatalogId, WorkItem)>, id: CatalogId) -> int {
    choose|i: int| 0 <= i < s.len() && (#[trigger] s[i]).0 == id
}

/// `s` after `id` was listed with `item`: a present key keeps its place and
/// takes the new item, an absent one goes to the end.
pub open spec fn upsert(s: Seq<(CatalogId, WorkItem)>, id: CatalogId, item: WorkItem) -> Seq<(CatalogId, WorkItem)> {
    if has_key(s, id) {
        s.update(position_of(s, id), (id, item))
    } else {
        s.push((id, item))
    }
}

/// `s` after each pair of `items` was listed, first to last.
pub open spec fn upsert_all(s: Seq<(CatalogId, WorkItem)>, items: Seq<(CatalogId, WorkItem)>) -> Seq<(CatalogId, WorkItem)>
    decreases items.len(),
{
    if items.len() == 0 {
        s
    } else {
        upsert(upsert_all(s, items.drop_last()), items.last().0, items.last().1)
    }
}

/// The ids of `ids` in the order of their first occurrence, each once.
pub open spec fn first_occurrences(ids: Seq<CatalogId>) -> Seq<CatalogId>
    decreases ids.len(),
{
    if ids.len() == 0 {
        Seq::empty()
    } else {
        let before = first_occurrences(ids.drop_last());
        if before.contains(ids.last()) {
            before
        } else {
            before.push(ids.last())
        }
    }
}

pub struct WorkList {
    map: IndexMap<CatalogId, WorkItem>,
}

impl WorkList {
    /// The entries in delivery order.
    pub closed spec fn view(&self) -> Seq<(CatalogId, WorkItem)> {
        index_map_entries(self.map)
    }

    /// No id is listed twice.
    pub open spec fn wf(&self) -> bool {
        distinct_keys(self@)
    }

    pub fn new() -> (list: WorkList)
        ensures
            list@ == Seq::<(CatalogId, WorkItem)>::empty(),
            list.wf(),
    {
        WorkList { map: index_map_new() }
    }

    pub fn len(&self) -> (n: usize)
        ensures
            n == self@.len(),
    {
        index_map_len(&self.map)
    }

    /// The entry at `index` in delivery order.
    pub fn get(&self, index: usize) -> (r: Option<(CatalogId, &WorkItem)>)
        ensures
            index < self@.len() ==> r == Some((self@[index as int].0, &self@[index as int].1)),
            index >= self@.len() ==> r.is_none(),
    {
        index_map_get_index(&self.map, index)
    }

    /// Lists `id` with `item`. An id that is already listed keeps its
    /// position and takes the new item.
    pub fn insert(&mut self, id: CatalogId, item: WorkItem)
        requires
            old(self).wf(),
        ensures
            final(self).wf(),
            final(self)@ == upsert(old(self)@, id, item),
            keys_of(final(self)@) == if has_key(old(self)@, id) {
                keys_of(old(self)@)
            } else {
                keys_of(old(self)@).push(id)
            },
    {
        let ghost before = self@;
        let prev = index_map_insert(&mut self.map, id, item);
        proof {
            match prev {
                Some(v) => {
                    let i = choose|i: int|
                        0 <= i < before.len() && before[i] == (id, v)
                        && self@ == before.update(i, (id, item));
                    assert(before[i].0 == id);
                    assert(has_key(before, id));
                    let p = position_of(before, id);
                    assert(p == i) by {
                        if p < i {
                            assert(before[p].0 != before[i].0);
                        } else if i < p {
                            assert(before[i].0 != before[p].0);
                        }
                    }
                    lemma_upsert_keys(before, id, item);
                },
                None => {
                    assert(!has_key(before, id));
                    lemma_upsert_keys(before, id, item);
                },
            }
        }
    }
}

/// Listing an id keeps the keys distinct, and changes the key order only by
/// adding a new id at the end.
pub proof fn lemma_upsert_keys(s: Seq<(CatalogId, WorkItem)>, id: CatalogId, item: WorkItem)
    requires
        distinct_keys(s),
    ensures
        distinct_keys(upsert(s, id, item)),
        has_key(s, id) ==> keys_of(upsert(s, id, item)) == keys_of(s),
        !has_key(s, id) ==> keys_of(upsert(s, id, item)) == keys_of(s).push(id),
        has_key(s, id) <==> keys_of(s).contains(id),
        upsert(s, id, item).len() >= s.len(),
{
    let t = upsert(s, id, item);
    if has_key(s, id) {
        let p = position_of(s, id);
        assert(keys_of(s)[p] == id);
        assert forall|i: int| 0 <= i < t.len() implies (#[trigger] t[i]).0 == s[i].0 by {}
        assert(keys_of(t) =~= keys_of(s));
        assert forall|i: int, j: int| 0 <= i < j < t.len() implies (#[trigger] t[i]).0 != (#[trigger] t[j]).0 by {
            assert(s[i].0 != s[j].0);
        }
    } else {
        assert(keys_of(t) =~= keys_of(s).push(id));
        if keys_of(s).contains(id) {
            let i = choose|i: int| 0 <= i < keys_of(s).len() && keys_of(s)[i] == id;
            assert(s[i].0 == id);
        }
        assert forall|i: int, j: int| 0 <= i < j < t.len() implies (#[trigger] t[i]).0 != (#[trigger] t[j]).0 by {
            if j < s.len() {
                assert(s[i].0 != s[j].0);
            } else {
                assert(t[i] == s[i]);
            }
        }
    }
}

/// `base` followed by the ids of `ids` that are new, each at its first
/// occurrence.
pub open spec fn append_new(base: Seq<CatalogId>, ids: Seq<CatalogId>) -> Seq<CatalogId>
    decreases ids.len(),
{
    if ids.len() == 0 {
        base
    } else {
        let before = append_new(base, ids.drop_last());
        if before.contains(ids.last()) {
            before
        } else {
            before.push(ids.last())
        }
    }
}

/// Listing a sequence of pairs keeps the ids that were listed before in
/// place and appends the new ids in the order of their first occurrence.
pub proof fn lemma_listing_order(s: Seq<(CatalogId, WorkItem)>, items: Seq<(CatalogId, WorkItem)>)
    requires
        distinct_keys(s),
    ensures
        distinct_keys(upsert_all(s, items)),
        keys_of(upsert_all(s, items)) == append_new(keys_of(s), keys_of(items)),
    decreases items.len(),
{
    if items.len() > 0 {
        let head = items.drop_last();
        lemma_listing_order(s, head);
        assert(keys_of(items).drop_last() =~= keys_of(head));
        assert(keys_of(items).last() == items.last().0);
        lemma_upsert_keys(upsert_all(s, head), items.last().0, items.last().1);
    }
}

/// Listing `first` and then `second` is listing the two in a row: what
/// holds of one sequence of listed pairs holds of any run of expansions.
pub proof fn lemma_listing_composes(
    s: Seq<(CatalogId, WorkItem)>,
    first: Seq<(CatalogId, WorkItem)>,
    second: Seq<(CatalogId, WorkItem)>,
)
    ensures
        upsert_all(upsert_all(s, first), second) == upsert_all(s, first + second),
    decreases second.len(),
{
    if second.len() == 0 {
        assert(first + second =~= first);
    } else {
        lemma_listing_composes(s, first, second.drop_last());
        assert((first + second).drop_last() =~= first + second.drop_last());
        assert((first + second).last() == second.last());
    }
}

/// Starting from nothing, `append_new` is the order of first occurrence.
pub proof fn lemma_append_new_from_empty(ids: Seq<CatalogId>)
    ensures
        append_new(Seq::empty(), ids) == first_occurrences(ids),
    decreases ids.len(),
{
    if ids.len() > 0 {
        lemma_append_new_from_empty(ids.drop_last());
    }
}

/// The order of a work list built from nothing is the order in which its
/// ids first occurred among the listed pairs, and no id is listed twice.
pub proof fn lemma_first_occurrence_order(items: Seq<(CatalogId, WorkItem)>)
    ensures
        distinct_keys(upsert_all(Seq::empty(), items)),
        keys_of(upsert_all(Seq::empty(), items)) == first_occurrences(keys_of(items)),
{
    let none = Seq::<(CatalogId, WorkItem)>::empty();
    lemma_listing_order(none, items);
    assert(keys_of(none) =~= Seq::<CatalogId>::empty());
    lemma_append_new_from_empty(keys_of(items));
}

/// Listing an id that is already listed leaves every position as it was:
/// the entry of that id takes the new item, all other entries stay.
pub proof fn lemma_relisting_keeps_position(s: Seq<(CatalogId, WorkItem)>, id: CatalogId, item: WorkItem)
    requires
        distinct_keys(s),
        has_key(s, id),
    ensures
        upsert(s, id, item).len() == s.len(),
        keys_of(upsert(s, id, item)) == keys_of(s),
        upsert(s, id, item)[position_of(s, id)] == (id, item),
        forall|i: int| 0 <= i < s.len() && i != position_of(s, id)
            ==> #[trigger] upsert(s, id, item)[i] == s[i],
{
    lemma_upsert_keys(s, id, item);
}

/// Ids that are pairwise different are their own order of first occurrence.
pub proof fn lemma_first_occurrences_of_distinct(ids: Seq<CatalogId>)
    requires
        ids.no_duplicates(),
    ensures
        first_occurrences(ids) == ids,
    decreases ids.len(),
{
    if ids.len() > 0 {
        let head = ids.drop_last();
        lemma_first_occurrences_of_distinct(head);
        if head.contains(ids.last()) {
            let i = choose|i: int| 0 <= i < head.len() && head[i] == ids.last();
            assert(ids[i] == ids[ids.len() - 1]);
        }
        assert(head.push(ids.last()) =~= ids);
    }
}

} // verus!
