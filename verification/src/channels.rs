//! The accumulated channel list.

use crate::service::{record_views, ServiceKey, ServiceRecord, ServiceRecordView};
use vstd::prelude::*;

verus! {

/// Whether some record of `list` has the key `key`.
pub open spec fn has_key(list: Seq<ServiceRecordView>, key: ServiceKey) -> bool {
    exists|i: int| 0 <= i < list.len() && (#[trigger] list[i]).key() == key
}

/// No two records of `list` share a key.
pub open spec fn distinct_keys(list: Seq<ServiceRecordView>) -> bool {
    forall|i: int, j: int|
        0 <= i < j < list.len() ==> (#[trigger] list[i]).key() != (#[trigger] list[j]).key()
}

/// The list after one record is merged in: a record whose key is already
/// present changes nothing, any other record is appended.
pub open spec fn merge_one(list: Seq<ServiceRecordView>, record: ServiceRecordView) -> Seq<
    ServiceRecordView,
> {
    if has_key(list, record.key()) {
        list
    } else {
        list.push(record)
    }
}

/// The list after the records of `added` are merged in, first to last.
pub open spec fn merge_all(list: Seq<ServiceRecordView>, added: Seq<ServiceRecordView>) -> Seq<
    ServiceRecordView,
>
    decreases added.len(),
{
    if added.len() == 0 {
        list
    } else {
        merge_one(merge_all(list, added.drop_last()), added.last())
    }
}

/// `shorter` is an initial part of `longer`.
pub open spec fn is_prefix(shorter: Seq<ServiceRecordView>, longer: Seq<ServiceRecordView>) -> bool {
    shorter.len() <= longer.len() && longer.subrange(0, shorter.len() as int) == shorter
}

/// An ordered list of discovered services in which no key occurs twice.
/// Records stay in the order in which they were first seen.
#[derive(Debug, PartialEq, Eq)]
pub struct ChannelsData {
    records: Vec<ServiceRecord>,
}

impl View for ChannelsData {
    type V = Seq<ServiceRecordView>;

    closed spec fn view(&self) -> Seq<ServiceRecordView> {
        record_views(self.records@)
    }
}

impl ChannelsData {
    #[verifier::type_invariant]
    spec fn keys_are_distinct(self) -> bool {
        distinct_keys(record_views(self.records@))
    }

    /// A list without records.
    pub fn empty() -> (list: ChannelsData)
        ensures
            list@ == Seq::<ServiceRecordView>::empty(),
    {
        ChannelsData { records: Vec::new() }
    }

    /// Builds a list from records in the order given, keeping the first
    /// record of each key.
    pub fn new(records: Vec<ServiceRecord>) -> (list: ChannelsData)
        ensures
            list@ == merge_all(Seq::empty(), record_views(records@)),
    {
        let mut list = ChannelsData::empty();
        list.merge_many(&records);
        list
    }

    /// A copy of the records, in list order.
    pub fn records(&self) -> (copy: Vec<ServiceRecord>)
        ensures
            record_views(copy@) == self@,
            distinct_keys(self@),
    {
        proof {
            use_type_invariant(self);
        }
        let mut copy: Vec<ServiceRecord> = Vec::new();
        let mut i: usize = 0;
        while i < self.records.len()
            invariant
                i <= self.records.len(),
                copy@ == self.records@.take(i as int),
            decreases self.records.len() - i,
        {
            copy.push(self.records[i].clone());
            assert(copy@ == self.records@.take(i + 1));
            i += 1;
        }
        assert(self.records@.take(i as int) == self.records@);
        copy
    }

    /// The number of records.
    pub fn len(&self) -> (n: usize)
        ensures
            n == self@.len(),
            distinct_keys(self@),
    {
        proof {
            use_type_invariant(self);
        }
        self.records.len()
    }

    /// Whether the list holds no record.
    pub fn is_empty(&self) -> (none: bool)
        ensures
            none == (self@.len() == 0),
    {
        self.records.len() == 0
    }

    /// The record at position `index`, if there is one.
    pub fn get(&self, index: usize) -> (found: Option<&ServiceRecord>)
        ensures
            index < self@.len() ==> found.is_some() && found.unwrap()@ == self@[index as int],
            index >= self@.len() ==> found.is_none(),
    {
        if index < self.records.len() {
            Some(&self.records[index])
        } else {
            None
        }
    }

    /// Whether a record with the key of `record` is in the list.
    pub fn contains(&self, record: &ServiceRecord) -> (present: bool)
        ensures
            present == has_key(self@, record@.key()),
    {
        let mut i: usize = 0;
        while i < self.records.len()
            invariant
                i <= self.records.len(),
                forall|j: int| 0 <= j < i ==> (#[trigger] self@[j]).key() != record@.key(),
            decreases self.records.len() - i,
        {
            if self.records[i].same_key(record) {
                assert(self@[i as int].key() == record@.key());
                return true;
            }
            i += 1;
        }
        false
    }

    /// Merges the records of `records` in order, each as [`ChannelsData::merge`]
    /// does. Returns how many were added.
    pub fn merge_many(&mut self, records: &Vec<ServiceRecord>) -> (added: usize)
        ensures
            final(self)@ == merge_all(old(self)@, record_views(records@)),
            added == final(self)@.len() - old(self)@.len(),
    {
        let mut added: usize = 0;
        let mut i: usize = 0;
        proof {
            lemma_merge_all_grows(self@, record_views(records@).take(0));
        }
        while i < records.len()
            invariant
                i <= records.len(),
                self@ == merge_all(old(self)@, record_views(records@).take(i as int)),
                added == self@.len() - old(self)@.len(),
                added <= i,
            decreases records.len() - i,
        {
            let ghost views = record_views(records@);
            assert(views.take(i + 1).drop_last() == views.take(i as int));
            assert(views.take(i + 1).last() == records[i as int]@);
            if self.merge(records[i].clone()) {
                added += 1;
            }
            i += 1;
        }
        assert(record_views(records@).take(i as int) == record_views(records@));
        added
    }

    /// Merges one record: the first record seen for a key stays, a later one
    /// with the same key is dropped. Returns whether the record was added.
    pub fn merge(&mut self, record: ServiceRecord) -> (added: bool)
        ensures
            final(self)@ == merge_one(old(self)@, record@),
            added == !has_key(old(self)@, record@.key()),
    {
        proof {
            use_type_invariant(&*self);
        }
        if self.contains(&record) {
            false
        } else {
            let ghost before = self@;
            let mut records: Vec<ServiceRecord> = Vec::new();
            core::mem::swap(&mut self.records, &mut records);
            records.push(record);
            assert(record_views(records@) == before.push(record@));
            core::mem::swap(&mut self.records, &mut records);
            true
        }
    }
}

/// Merging a list leaves the old records in place at the front.
pub proof fn lemma_merge_all_grows(list: Seq<ServiceRecordView>, added: Seq<ServiceRecordView>)
    ensures
        is_prefix(list, merge_all(list, added)),
        merge_all(list, added).len() <= list.len() + added.len(),
    decreases added.len(),
{
    if added.len() > 0 {
        lemma_merge_all_grows(list, added.drop_last());
        let before = merge_all(list, added.drop_last());
        let after = merge_one(before, added.last());
        assert(after.subrange(0, list.len() as int) == before.subrange(0, list.len() as int));
    } else {
        assert(list.subrange(0, list.len() as int) == list);
    }
}

/// Merging two lists one after the other is merging their concatenation.
pub proof fn lemma_merge_all_concat(
    list: Seq<ServiceRecordView>,
    first: Seq<ServiceRecordView>,
    second: Seq<ServiceRecordView>,
)
    ensures
        merge_all(list, first + second) == merge_all(merge_all(list, first), second),
    decreases second.len(),
{
    if second.len() > 0 {
        lemma_merge_all_concat(list, first, second.drop_last());
        assert((first + second).drop_last() == first + second.drop_last());
        assert((first + second).last() == second.last());
    } else {
        assert(first + second == first);
    }
}

/// A record is present after it has been merged.
pub proof fn lemma_merge_one_holds_key(list: Seq<ServiceRecordView>, record: ServiceRecordView)
    ensures
        has_key(merge_one(list, record), record.key()),
{
    if !has_key(list, record.key()) {
        let after = list.push(record);
        assert(after[list.len() as int].key() == record.key());
    }
}

/// Merging the same record twice leaves the list as the first merge left it:
/// the record seen first wins.
pub proof fn lemma_merge_is_idempotent(list: Seq<ServiceRecordView>, record: ServiceRecordView)
    ensures
        merge_one(merge_one(list, record), record) == merge_one(list, record),
{
    lemma_merge_one_holds_key(list, record);
}

/// Merging a record whose key the list already holds changes nothing, whatever
/// else the record says.
pub proof fn lemma_merge_known_key(
    list: Seq<ServiceRecordView>,
    first: ServiceRecordView,
    second: ServiceRecordView,
)
    requires
        first.key() == second.key(),
    ensures
        merge_one(merge_one(list, first), second) == merge_one(list, first),
{
    lemma_merge_one_holds_key(list, first);
}

/// Merging keeps keys distinct.
pub proof fn lemma_merge_one_distinct(list: Seq<ServiceRecordView>, record: ServiceRecordView)
    requires
        distinct_keys(list),
    ensures
        distinct_keys(merge_one(list, record)),
{
    if !has_key(list, record.key()) {
        let after = list.push(record);
        assert forall|i: int, j: int| 0 <= i < j < after.len() implies (#[trigger] after[i]).key()
            != (#[trigger] after[j]).key() by {
            if j == list.len() {
                assert(list[i].key() != record.key());
            } else {
                assert(list[i].key() != list[j].key());
            }
        }
    }
}

/// Merging a list keeps keys distinct.
pub proof fn lemma_merge_all_distinct(list: Seq<ServiceRecordView>, added: Seq<ServiceRecordView>)
    requires
        distinct_keys(list),
    ensures
        distinct_keys(merge_all(list, added)),
    decreases added.len(),
{
    if added.len() > 0 {
        lemma_merge_all_distinct(list, added.drop_last());
        lemma_merge_one_distinct(merge_all(list, added.drop_last()), added.last());
    }
}

/// After a list is merged, the result holds exactly the keys of the old list
/// and of the merged records.
pub proof fn lemma_merge_all_keys(
    list: Seq<ServiceRecordView>,
    added: Seq<ServiceRecordView>,
    key: ServiceKey,
)
    ensures
        has_key(merge_all(list, added), key) <==> has_key(list, key) || has_key(added, key),
    decreases added.len(),
{
    if added.len() > 0 {
        let front = added.drop_last();
        let before = merge_all(list, front);
        let after = merge_one(before, added.last());
        lemma_merge_all_keys(list, front, key);
        lemma_merge_one_holds_key(before, added.last());
        if has_key(added, key) {
            let i = choose|i: int| 0 <= i < added.len() && (#[trigger] added[i]).key() == key;
            if i < front.len() {
                assert(front[i].key() == key);
            }
        }
        if has_key(front, key) {
            let i = choose|i: int| 0 <= i < front.len() && (#[trigger] front[i]).key() == key;
            assert(added[i].key() == key);
        }
        assert(added[added.len() - 1].key() == added.last().key());
        if has_key(before, key) {
            let i = choose|i: int| 0 <= i < before.len() && (#[trigger] before[i]).key() == key;
            assert(after[i].key() == key);
        }
        if has_key(after, key) && !has_key(before, key) {
            let i = choose|i: int| 0 <= i < after.len() && (#[trigger] after[i]).key() == key;
            if i < before.len() {
                assert(before[i].key() == key);
            }
        }
    }
}

/// Records with distinct keys, merged into an empty list, come out as they
/// went in: same records, same order. So a list that is handed out record by
/// record and built again from those records is the same list.
pub proof fn lemma_rebuild_is_identity(list: Seq<ServiceRecordView>)
    requires
        distinct_keys(list),
    ensures
        merge_all(Seq::empty(), list) == list,
    decreases list.len(),
{
    if list.len() > 0 {
        let front = list.drop_last();
        lemma_rebuild_is_identity(front);
        if has_key(front, list.last().key()) {
            let i = choose|i: int|
                0 <= i < front.len() && (#[trigger] front[i]).key() == list.last().key();
            assert(list[i].key() != list[list.len() - 1].key());
        }
        assert(front.push(list.last()) == list);
    } else {
        assert(list == Seq::<ServiceRecordView>::empty());
    }
}

} // verus!
