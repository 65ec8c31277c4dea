//! Stored notifications.

use crate::error::StorageError;
use crate::model::{NotificationData, NotificationDataView};
use crate::ordering::{
    descending_by, lemma_descending, lemma_descending_push, lemma_insert_position,
};
use crate::text::copy_optional_text;
use vstd::prelude::*;

verus! {

/// A notification as it is stored.
#[derive(Debug, Clone, PartialEq, Eq)]
pub struct Model {
    pub id: i32,
    pub notify: String,
    pub title: Option<String>,
    pub device: Option<String>,
    /// Seconds since the epoch.
    pub received_at: i64,
}

/// A stored notification with its texts as sequences of characters.
pub struct ModelView {
    pub id: i32,
    pub notify: Seq<char>,
    pub title: Option<Seq<char>>,
    pub device: Option<Seq<char>>,
    pub received_at: i64,
}

impl View for Model {
    type V = ModelView;

    open spec fn view(&self) -> ModelView {
        ModelView {
            id: self.id,
            notify: self.notify@,
            title: crate::text::optional_text(self.title),
            device: crate::text::optional_text(self.device),
            received_at: self.received_at,
        }
    }
}

impl Model {
    /// A copy of the record.
    pub fn duplicate(&self) -> (copy: Model)
        ensures
            copy@ == self@,
    {
        Model {
            id: self.id,
            notify: self.notify.clone(),
            title: copy_optional_text(&self.title),
            device: copy_optional_text(&self.device),
            received_at: self.received_at,
        }
    }
}

/// The views of a row of records.
pub open spec fn views(records: Seq<Model>) -> Seq<ModelView> {
    Seq::new(records.len(), |i: int| records[i]@)
}

/// The record under which a notification is stored.
pub open spec fn stored(id: i32, data: NotificationDataView, now: i64) -> ModelView {
    ModelView {
        id,
        notify: data.notify,
        title: Some(data.title),
        device: Some(data.device),
        received_at: now,
    }
}

/// The records without the one that has this id.
pub open spec fn without_id(records: Seq<ModelView>, id: i32) -> Seq<ModelView>
    decreases records.len(),
{
    if records.len() == 0 {
        Seq::empty()
    } else if records.last().id == id {
        without_id(records.drop_last(), id)
    } else {
        without_id(records.drop_last(), id).push(records.last())
    }
}

/// Whether a record has this id.
pub open spec fn has_id(records: Seq<ModelView>, id: i32) -> bool {
    exists|i: int| 0 <= i < records.len() && (#[trigger] records[i]).id == id
}

/// What `without_id` leaves: the records with another id, and, where no
/// record has the id, all of them.
pub proof fn lemma_without_id(records: Seq<ModelView>, id: i32)
    ensures
        forall|i: int|
            0 <= i < without_id(records, id).len() ==> (#[trigger] without_id(records, id)[i]).id
                != id && records.contains(without_id(records, id)[i]),
        !has_id(records, id) ==> without_id(records, id) == records,
        has_id(records, id) ==> without_id(records, id).len() < records.len(),
        without_id(records, id).len() <= records.len(),
    decreases records.len(),
{
    if records.len() > 0 {
        let front = records.drop_last();
        let last = records.last();
        lemma_without_id(front, id);
        if !has_id(records, id) {
            assert(!has_id(front, id));
        } else if last.id != id {
            let k = choose|k: int| 0 <= k < records.len() && (#[trigger] records[k]).id == id;
            assert(front[k].id == id);
        }
    }
}

/// The key by which notifications are listed: the time they were received.
pub open spec fn by_received() -> spec_fn(ModelView) -> int {
    |record: ModelView| record.received_at as int
}

/// The notifications that have been taken in.
pub struct NotificationStore {
    records: Vec<Model>,
    next_id: i32,
}

impl View for NotificationStore {
    type V = Seq<ModelView>;

    /// The records, oldest insertion first.
    closed spec fn view(&self) -> Seq<ModelView> {
        views(self.records@)
    }
}

impl NotificationStore {
    /// The id that the next record gets.
    pub closed spec fn next_key(&self) -> i32 {
        self.next_id
    }

    /// Every id in use lies below the next one.
    pub open spec fn wf(&self) -> bool {
        &&& 1 <= self.next_key()
        &&& forall|i: int| 0 <= i < self@.len() ==> 0 < (#[trigger] self@[i]).id < self.next_key()
    }

    /// A store without records.
    pub fn new() -> (store: NotificationStore)
        ensures
            store.wf(),
            store@ == Seq::<ModelView>::empty(),
            store.next_key() == 1,
    {
        let store = NotificationStore { records: Vec::new(), next_id: 1 };
        store
    }

    /// The number of records.
    pub fn len(&self) -> (count: usize)
        ensures
            count == self@.len(),
    {
        self.records.len()
    }

    /// The record at a position, oldest insertion first.
    pub(crate) fn get(&self, index: usize) -> (record: &Model)
        requires
            index < self@.len(),
        ensures
            record@ == self@[index as int],
    {
        &self.records[index]
    }

    /// Stores a notification as received at `now`.
    pub fn insert(&mut self, data: NotificationData, now: i64) -> (result: Result<
        Model,
        StorageError,
    >)
        requires
            old(self).wf(),
        ensures
            final(self).wf(),
            match result {
                Ok(record) => {
                    &&& old(self).next_key() < i32::MAX
                    &&& record@ == stored(old(self).next_key(), data@, now)
                    &&& final(self)@ == old(self)@.push(record@)
                    &&& final(self).next_key() == old(self).next_key() + 1
                },
                Err(error) => {
                    &&& old(self).next_key() == i32::MAX
                    &&& error == StorageError::KeysExhausted
                    &&& final(self)@ == old(self)@
                    &&& final(self).next_key() == old(self).next_key()
                },
            },
    {
        if self.next_id == i32::MAX {
            return Err(StorageError::KeysExhausted);
        }
        let id = self.next_id;
        let record = Model {
            id,
            notify: data.notify,
            title: Some(data.title),
            device: Some(data.device),
            received_at: now,
        };
        let ghost before = self@;
        self.records.push(record.duplicate());
        self.next_id = id + 1;
        assert(self@ =~= before.push(record@));
        Ok(record)
    }

    /// Removes every record and says how many went.
    pub fn remove_all(&mut self) -> (removed: usize)
        requires
            old(self).wf(),
        ensures
            final(self).wf(),
            final(self)@ == Seq::<ModelView>::empty(),
            removed == old(self)@.len(),
            final(self).next_key() == old(self).next_key(),
    {
        let removed = self.records.len();
        self.records = Vec::new();
        removed
    }

    /// Removes the record with this id; `false` where there is none, and
    /// nothing changes.
    pub fn remove_by_id(&mut self, id: i32) -> (removed: bool)
        requires
            old(self).wf(),
        ensures
            final(self).wf(),
            final(self)@ == without_id(old(self)@, id),
            removed == has_id(old(self)@, id),
            !removed ==> final(self)@ == old(self)@,
            final(self).next_key() == old(self).next_key(),
    {
        let ghost before = self@;
        let mut kept: Vec<Model> = Vec::new();
        let mut i: usize = 0;
        while i < self.records.len()
            invariant
                i <= self.records.len(),
                self@ == before,
                views(kept@) == without_id(before.take(i as int), id),
            decreases self.records.len() - i,
        {
            assert(before.take(i + 1).drop_last() =~= before.take(i as int));
            if self.records[i].id != id {
                kept.push(self.records[i].duplicate());
            }
            i += 1;
        }
        proof {
            assert(before.take(i as int) =~= before);
            lemma_without_id(before, id);
        }
        let removed = kept.len() < self.records.len();
        self.records = kept;
        removed
    }

    /// The records, newest first; records received at the same time stand in
    /// the order in which they arrived.
    pub fn list(&self) -> (found: Vec<Model>)
        ensures
            views(found@) == descending_by(self@, by_received()),
            found@.len() == self@.len(),
            views(found@).to_multiset() == self@.to_multiset(),
            forall|i: int, j: int|
                0 <= i < j < found@.len() ==> found@[i].received_at >= found@[j].received_at,
    {
        let mut found: Vec<Model> = Vec::new();
        let mut i: usize = 0;
        let ghost before = self@;
        while i < self.records.len()
            invariant
                i <= self.records.len(),
                self@ == before,
                views(found@) == descending_by(before.take(i as int), by_received()),
            decreases self.records.len() - i,
        {
            let received_at = self.records[i].received_at;
            let mut position: usize = found.len();
            while position > 0 && found[position - 1].received_at < received_at
                invariant
                    position <= found.len(),
                    forall|k: int|
                        position <= k < found.len() ==> (#[trigger] views(found@)[k]).received_at
                            < received_at,
                decreases position,
            {
                position -= 1;
            }
            proof {
                let record = before[i as int];
                lemma_insert_position(views(found@), record, by_received(), position as int);
                lemma_descending_push(before.take(i as int), record, by_received());
                assert(before.take(i + 1) =~= before.take(i as int).push(record));
            }
            found.insert(position, self.records[i].duplicate());
            i += 1;
        }
        proof {
            assert(before.take(i as int) =~= before);
            lemma_descending(before, by_received());
            assert forall|a: int, b: int| 0 <= a < b < found@.len() implies found@[a].received_at
                >= found@[b].received_at by {
                assert(by_received()(views(found@)[a]) >= by_received()(views(found@)[b]));
            }
        }
        found
    }
}

/// The key that follows the keys of the records: one more than the largest,
/// and 1 where there is no record.
pub open spec fn following_key(records: Seq<ModelView>) -> int
    decreases records.len(),
{
    if records.len() == 0 {
        1
    } else if records.last().id + 1 > following_key(records.drop_last()) {
        records.last().id + 1
    } else {
        following_key(records.drop_last())
    }
}

/// `following_key` lies above every key of the records, and no higher than
/// they ask for.
pub proof fn lemma_following_key(records: Seq<ModelView>)
    ensures
        1 <= following_key(records),
        forall|i: int|
            0 <= i < records.len() ==> (#[trigger] records[i]).id < following_key(records),
        following_key(records) == 1 || exists|i: int|
            0 <= i < records.len() && following_key(records) == (#[trigger] records[i]).id + 1,
    decreases records.len(),
{
    if records.len() > 0 {
        let front = records.drop_last();
        lemma_following_key(front);
        assert forall|i: int| 0 <= i < records.len() implies (#[trigger] records[i]).id
            < following_key(records) by {
            if i < front.len() {
                assert(front[i] == records[i]);
            }
        }
        if following_key(records) != 1 {
            if following_key(records) == records.last().id + 1 {
                assert(records[records.len() - 1].id + 1 == following_key(records));
            } else {
                let i = choose|i: int|
                    0 <= i < front.len() && following_key(front) == (#[trigger] front[i]).id + 1;
                assert(records[i] == front[i]);
            }
        }
    }
}

/// Records that can be taken back into a store: every id is positive and
/// leaves room for a next one.
pub open spec fn restorable(records: Seq<ModelView>) -> bool {
    forall|i: int| 0 <= i < records.len() ==> 0 < (#[trigger] records[i]).id < i32::MAX
}

impl NotificationStore {
    /// A store that holds the given records, as they were kept elsewhere.
    /// `None` where an id is out of range.
    pub fn restore(records: Vec<Model>) -> (store: Option<NotificationStore>)
        ensures
            match store {
                Some(restored) => {
                    &&& restored.wf()
                    &&& restored@ == views(records@)
                    &&& restored.next_key() == following_key(views(records@))
                    &&& restorable(views(records@))
                },
                None => !restorable(views(records@)),
            },
    {
        let ghost given = views(records@);
        let mut next_id: i32 = 1;
        let mut i: usize = 0;
        assert(given.take(0) =~= Seq::<ModelView>::empty());
        while i < records.len()
            invariant
                i <= records.len(),
                given == views(records@),
                1 <= next_id,
                next_id == following_key(given.take(i as int)),
                forall|k: int| 0 <= k < i ==> 0 < (#[trigger] given[k]).id < next_id,
            decreases records.len() - i,
        {
            assert(given.take(i + 1).drop_last() =~= given.take(i as int));
            let id = records[i].id;
            if id <= 0 || id == i32::MAX {
                assert(!(0 < given[i as int].id < i32::MAX));
                return None;
            }
            if id >= next_id {
                next_id = id + 1;
            }
            i += 1;
        }
        assert(given.take(i as int) =~= given);
        Some(NotificationStore { records, next_id })
    }
}

/// Stores a notification as received at `now`.
pub fn insert_new_notify(db: &mut NotificationStore, data: NotificationData, now: i64) -> (result:
    Result<Model, StorageError>)
    requires
        old(db).wf(),
    ensures
        final(db).wf(),
        match result {
            Ok(record) => {
                &&& old(db).next_key() < i32::MAX
                &&& record@ == stored(old(db).next_key(), data@, now)
                &&& final(db)@ == old(db)@.push(record@)
                &&& final(db).next_key() == old(db).next_key() + 1
            },
            Err(error) => {
                &&& old(db).next_key() == i32::MAX
                &&& error == StorageError::KeysExhausted
                &&& final(db)@ == old(db)@
                &&& final(db).next_key() == old(db).next_key()
            },
        },
{
    db.insert(data, now)
}

} // verus!
