//! Snapshot sets: the currencies as they stood at a boundary of the trading
//! day, keyed by currency identifier.

use std::collections::HashMap;
use vstd::prelude::*;

use crate::types::CurrencyData;

verus! {

/// The mapping that a list of currencies gives when each is stored under its
/// identifier in turn, a later one replacing an earlier one of the same
/// identifier.
pub open spec fn snapshot_of(list: Seq<CurrencyData>) -> Map<i64, CurrencyData>
    decreases list.len(),
{
    if list.len() == 0 {
        Map::empty()
    } else {
        snapshot_of(list.drop_last()).insert(list.last().currency_id, list.last())
    }
}

/// The identifiers of a list of currencies, each once, in the order in which
/// they first occur.
pub open spec fn ids_of(list: Seq<CurrencyData>) -> Seq<i64>
    decreases list.len(),
{
    if list.len() == 0 {
        Seq::empty()
    } else {
        let before = ids_of(list.drop_last());
        if before.contains(list.last().currency_id) {
            before
        } else {
            before.push(list.last().currency_id)
        }
    }
}

/// Whether no identifier occurs twice in a list of currencies.
pub open spec fn distinct_ids(entries: Seq<CurrencyData>) -> bool {
    forall|i: int, j: int|
        0 <= i < j < entries.len() ==> entries[i].currency_id != entries[j].currency_id
}

/// The identifiers of a list of currencies, in order.
pub open spec fn entry_ids(entries: Seq<CurrencyData>) -> Seq<i64> {
    entries.map_values(|c: CurrencyData| c.currency_id)
}

/// A list of currencies without repeated identifiers, as a mapping from
/// identifier to currency.
pub open spec fn entry_map(entries: Seq<CurrencyData>) -> Map<i64, CurrencyData> {
    Map::new(
        |id: i64| entry_ids(entries).contains(id),
        |id: i64| entries[entry_ids(entries).index_of(id)],
    )
}

/// In a list without repeated identifiers, each entry is what the mapping
/// holds under its identifier.
pub proof fn lemma_entry_map(entries: Seq<CurrencyData>)
    requires
        distinct_ids(entries),
    ensures
        entry_ids(entries).no_duplicates(),
        forall|i: int|
            0 <= i < entries.len() ==> entry_map(entries).contains_key(
                #[trigger] entries[i].currency_id,
            ) && entry_map(entries)[entries[i].currency_id] == entries[i],
        forall|id: i64| #[trigger]
            entry_map(entries).contains_key(id) ==> exists|i: int|
                0 <= i < entries.len() && entries[i].currency_id == id,
{
    let ids = entry_ids(entries);
    assert forall|i: int, j: int| 0 <= i < ids.len() && 0 <= j < ids.len() && i != j implies ids[i]
        != ids[j] by {
        if i < j {
            assert(entries[i].currency_id != entries[j].currency_id);
        } else {
            assert(entries[j].currency_id != entries[i].currency_id);
        }
    }
    assert forall|i: int| 0 <= i < entries.len() implies entry_map(entries).contains_key(
        #[trigger] entries[i].currency_id,
    ) && entry_map(entries)[entries[i].currency_id] == entries[i] by {
        let id = entries[i].currency_id;
        assert(ids[i] == id);
        let k = ids.index_of(id);
        assert(ids[k] == id);
        assert(k == i);
    }
    assert forall|id: i64| #[trigger] entry_map(entries).contains_key(id) implies exists|i: int|
        0 <= i < entries.len() && entries[i].currency_id == id by {
        let k = ids.index_of(id);
        assert(ids[k] == id);
        assert(entries[k].currency_id == id);
    }
}

/// The entries of the snapshot of a list of currencies: for each identifier,
/// in the order of first occurrence, the currency stored under it last.
pub open spec fn entries_of(list: Seq<CurrencyData>) -> Seq<CurrencyData> {
    Seq::new(ids_of(list).len(), |i: int| snapshot_of(list)[ids_of(list)[i]])
}

/// The entries of a list's snapshot hold each identifier once, and stand
/// for the mapping that the list gives.
pub proof fn lemma_entries_of(list: Seq<CurrencyData>)
    ensures
        distinct_ids(entries_of(list)),
        entry_ids(entries_of(list)) == ids_of(list),
        entry_map(entries_of(list)) == snapshot_of(list),
        ids_of(list).no_duplicates(),
        forall|id: i64| snapshot_of(list).contains_key(id) <==> ids_of(list).contains(id),
        forall|id: i64| #[trigger]
            snapshot_of(list).contains_key(id) ==> snapshot_of(list)[id].currency_id == id,
    decreases list.len(),
{
    lemma_snapshot_keys(list);
    let ids = ids_of(list);
    let entries = entries_of(list);
    assert forall|i: int| 0 <= i < entries.len() implies (#[trigger] entries[i]).currency_id
        == ids[i] by {
        assert(ids.contains(ids[i]));
    }
    assert(entry_ids(entries) =~= ids);
    assert forall|i: int, j: int| 0 <= i < j < entries.len() implies entries[i].currency_id
        != entries[j].currency_id by {
        assert(entries[i].currency_id == ids[i]);
        assert(entries[j].currency_id == ids[j]);
    }
    lemma_entry_map(entries);
    assert forall|id: i64| #[trigger]
        entry_map(entries).contains_key(id) implies entry_map(entries)[id] == snapshot_of(
        list,
    )[id] by {
        let k = entry_ids(entries).index_of(id);
        assert(entry_ids(entries)[k] == id);
    }
    assert(entry_map(entries) =~= snapshot_of(list));
}

/// The keys of a list's snapshot are the list's identifiers, none of which
/// is listed twice, and each key's currency bears it.
proof fn lemma_snapshot_keys(list: Seq<CurrencyData>)
    ensures
        ids_of(list).no_duplicates(),
        forall|id: i64| snapshot_of(list).contains_key(id) <==> ids_of(list).contains(id),
        forall|id: i64| #[trigger]
            snapshot_of(list).contains_key(id) ==> snapshot_of(list)[id].currency_id == id,
    decreases list.len(),
{
    if list.len() > 0 {
        let before = list.drop_last();
        lemma_snapshot_keys(before);
        let last = list.last().currency_id;
        let ids = ids_of(list);
        let prev = ids_of(before);
        if !prev.contains(last) {
            assert(ids =~= prev.push(last));
            assert forall|i: int, j: int| 0 <= i < ids.len() && 0 <= j < ids.len() && i
                != j implies ids[i] != ids[j] by {
                if i < prev.len() {
                    assert(prev.contains(prev[i]));
                }
                if j < prev.len() {
                    assert(prev.contains(prev[j]));
                }
            }
        }
        assert forall|id: i64| snapshot_of(list).contains_key(id) <==> ids.contains(id) by {
            if prev.contains(id) {
                let k = prev.index_of(id);
                assert(ids[k] == id);
            }
            if id == last && !prev.contains(last) {
                assert(ids[prev.len() as int] == last);
            }
            if ids.contains(id) {
                let k = ids.index_of(id);
                assert(ids[k] == id);
                if k < prev.len() {
                    assert(prev[k] == id);
                }
            }
        }
    }
}

/// The currencies of one boundary crossing, each under its identifier, and
/// the identifiers in the order in which they were first stored.
#[derive(Debug)]
pub struct Snapshot {
    order: Vec<i64>,
    currencies: HashMap<i64, CurrencyData>,
}

impl Snapshot {
    /// The order lists each identifier that the snapshot holds, once, and
    /// each currency is held under its own identifier.
    #[verifier::type_invariant]
    pub closed spec fn wf(self) -> bool {
        &&& self.order@.no_duplicates()
        &&& forall|id: i64| self.currencies@.contains_key(id) <==> self.order@.contains(id)
        &&& forall|id: i64| #[trigger]
            self.currencies@.contains_key(id) ==> self.currencies@[id].currency_id == id
    }

    /// The entries, in the order in which their identifiers were first stored.
    pub closed spec fn entries(self) -> Seq<CurrencyData> {
        Seq::new(self.order@.len(), |i: int| self.currencies@[self.order@[i]])
    }

    /// The identifiers of the entries, in order.
    pub open spec fn ids(self) -> Seq<i64> {
        entry_ids(self.entries())
    }

    /// The snapshot as a mapping from identifier to currency.
    pub open spec fn view(self) -> Map<i64, CurrencyData> {
        entry_map(self.entries())
    }

    /// In a well-formed snapshot no identifier occurs twice.
    pub proof fn lemma_distinct(self)
        requires
            self.wf(),
        ensures
            distinct_ids(self.entries()),
    {
        self.lemma_parts();
    }

    /// The entries of a well-formed snapshot follow its order and stand for
    /// its mapping.
    proof fn lemma_parts(self)
        requires
            self.wf(),
        ensures
            distinct_ids(self.entries()),
            self.entries().len() == self.order@.len(),
            self.ids() == self.order@,
            self@ == self.currencies@,
    {
        let entries = self.entries();
        let order = self.order@;
        assert forall|i: int| 0 <= i < entries.len() implies (#[trigger] entries[i]).currency_id
            == order[i] by {
            assert(order.contains(order[i]));
        }
        assert(entry_ids(entries) =~= order);
        assert forall|i: int, j: int| 0 <= i < j < entries.len() implies entries[i].currency_id
            != entries[j].currency_id by {
            assert(entries[i].currency_id == order[i]);
            assert(entries[j].currency_id == order[j]);
        }
        lemma_entry_map(entries);
        assert forall|id: i64| #[trigger]
            entry_map(entries).contains_key(id) implies entry_map(entries)[id]
            == self.currencies@[id] by {
            let k = entry_ids(entries).index_of(id);
            assert(entry_ids(entries)[k] == id);
        }
        assert(entry_map(entries) =~= self.currencies@);
    }

    /// The empty snapshot.
    pub fn new() -> (s: Snapshot)
        ensures
            s.wf(),
            s.entries() == Seq::<CurrencyData>::empty(),
            s@ == Map::<i64, CurrencyData>::empty(),
    {
        let s = Snapshot { order: Vec::new(), currencies: HashMap::new() };
        assert(s.entries() =~= Seq::<CurrencyData>::empty());
        assert(s@ =~= Map::<i64, CurrencyData>::empty());
        s
    }

    /// The number of currencies in the snapshot.
    pub fn len(&self) -> (n: usize)
        ensures
            n == self.entries().len(),
    {
        self.order.len()
    }

    /// The entry at position `i`.
    pub fn entry(&self, i: usize) -> (c: &CurrencyData)
        requires
            i < self.entries().len(),
        ensures
            *c == self.entries()[i as int],
    {
        proof {
            use_type_invariant(self);
            assert(self.order@.contains(self.order@[i as int]));
        }
        let id = self.order[i];
        self.currencies.get(&id).unwrap()
    }

    /// The position of the entry with identifier `id`.
    pub fn position(&self, id: i64) -> (p: Option<usize>)
        ensures
            p is Some <==> self@.contains_key(id),
            p is Some ==> p->0 < self.entries().len() && self.entries()[p->0 as int].currency_id
                == id && self.entries()[p->0 as int] == self@[id],
    {
        proof {
            use_type_invariant(self);
            self.lemma_parts();
        }
        let mut i: usize = 0;
        while i < self.order.len()
            invariant
                i <= self.order@.len(),
                forall|k: int| 0 <= k < i ==> self.order@[k] != id,
            decreases self.order@.len() - i,
        {
            if self.order[i] == id {
                proof {
                    use_type_invariant(self);
                    self.lemma_parts();
                    assert(self.order@.contains(self.order@[i as int]));
                }
                return Some(i);
            }
            i = i + 1;
        }
        None
    }

    /// Whether the snapshot holds a currency with identifier `id`.
    pub fn contains(&self, id: i64) -> (b: bool)
        ensures
            b == self@.contains_key(id),
    {
        proof {
            use_type_invariant(self);
            self.lemma_parts();
        }
        self.currencies.contains_key(&id)
    }

    /// The currency with identifier `id`, if the snapshot holds one.
    pub fn get(&self, id: i64) -> (c: Option<&CurrencyData>)
        ensures
            c is Some <==> self@.contains_key(id),
            c is Some ==> *c->0 == self@[id],
    {
        proof {
            use_type_invariant(self);
            self.lemma_parts();
        }
        self.currencies.get(&id)
    }

    /// The snapshot of a list of currencies: each stored under its
    /// identifier in turn.
    pub fn from_list(list: &Vec<CurrencyData>) -> (s: Snapshot)
        ensures
            s.wf(),
            s@ == snapshot_of(list@),
            s.ids() == ids_of(list@),
            s.entries() == entries_of(list@),
            s.entries().len() <= list@.len(),
    {
        let mut order: Vec<i64> = Vec::new();
        let mut currencies: HashMap<i64, CurrencyData> = HashMap::new();
        assert(order@ =~= ids_of(list@.take(0)));
        assert(currencies@ =~= snapshot_of(list@.take(0)));
        let mut i: usize = 0;
        while i < list.len()
            invariant
                i <= list.len(),
                order@ == ids_of(list@.take(i as int)),
                currencies@ == snapshot_of(list@.take(i as int)),
                order@.len() <= i,
            decreases list.len() - i,
        {
            let currency = list[i].clone();
            let id = currency.currency_id;
            proof {
                let next = list@.take(i + 1);
                assert(next.drop_last() =~= list@.take(i as int));
                assert(next.last() == list@[i as int]);
                lemma_entries_of(list@.take(i as int));
            }
            if !currencies.contains_key(&id) {
                order.push(id);
            }
            currencies.insert(id, currency);
            i = i + 1;
        }
        assert(list@.take(list.len() as int) =~= list@);
        proof {
            lemma_entries_of(list@);
        }
        let s = Snapshot { order, currencies };
        assert(s.entries() =~= entries_of(list@));
        s
    }
}

} // verus!
