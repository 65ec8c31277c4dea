//! The token store: every issued token's record, with creation, the check
//! for presence and expiry, the last-used stamp, deletion and listing.

use crate::db::tokens::{Model, ModelView, TokenType};
use crate::error::StorageError;
use crate::ordering::{
    descending_by, lemma_descending, lemma_descending_push, lemma_insert_position,
};
use crate::text::{copy_optional_text, text_eq};
use vstd::prelude::*;

verus! {

/// Which records an operation is about.
#[derive(Debug, Clone, PartialEq, Eq)]
pub enum Selector {
    /// Every record.
    All,
    /// The record with this surrogate key.
    Id(i32),
    /// The record of the bearer string with this digest.
    Hash(String),
    /// The records that belong to this user.
    Owner(u128),
    /// The records with this usage label.
    Usage(String),
    /// The records of this kind.
    Kind(TokenType),
    /// The records whose expiry lies strictly before this time.
    ExpiredBefore(i64),
}

/// `Selector` over sequences of characters.
pub enum SelectorView {
    All,
    Id(i32),
    Hash(Seq<char>),
    Owner(u128),
    Usage(Seq<char>),
    Kind(TokenType),
    ExpiredBefore(i64),
}

impl View for Selector {
    type V = SelectorView;

    open spec fn view(&self) -> SelectorView {
        match self {
            Selector::All => SelectorView::All,
            Selector::Id(id) => SelectorView::Id(*id),
            Selector::Hash(hash) => SelectorView::Hash(hash@),
            Selector::Owner(owner) => SelectorView::Owner(*owner),
            Selector::Usage(usage) => SelectorView::Usage(usage@),
            Selector::Kind(kind) => SelectorView::Kind(*kind),
            Selector::ExpiredBefore(time) => SelectorView::ExpiredBefore(*time),
        }
    }
}

/// Whether a selector is about a record.
pub open spec fn selects(selector: SelectorView, record: ModelView) -> bool {
    match selector {
        SelectorView::All => true,
        SelectorView::Id(id) => record.id == id,
        SelectorView::Hash(hash) => record.token_hash == hash,
        SelectorView::Owner(owner) => record.user_id == Some(owner),
        SelectorView::Usage(usage) => record.usage == usage,
        SelectorView::Kind(kind) => record.token_type == kind,
        SelectorView::ExpiredBefore(time) => record.expires_at < time,
    }
}

/// The records that a selector is about, in the order in which they stand.
pub open spec fn selected(records: Seq<ModelView>, selector: SelectorView) -> Seq<ModelView>
    decreases records.len(),
{
    if records.len() == 0 {
        Seq::empty()
    } else if selects(selector, records.last()) {
        selected(records.drop_last(), selector).push(records.last())
    } else {
        selected(records.drop_last(), selector)
    }
}

/// The records that a selector is not about, in the order in which they stand.
pub open spec fn remaining(records: Seq<ModelView>, selector: SelectorView) -> Seq<ModelView>
    decreases records.len(),
{
    if records.len() == 0 {
        Seq::empty()
    } else if selects(selector, records.last()) {
        remaining(records.drop_last(), selector)
    } else {
        remaining(records.drop_last(), selector).push(records.last())
    }
}

/// No two records share a surrogate key or a digest.
pub open spec fn valid_records(records: Seq<ModelView>) -> bool {
    forall|i: int, j: int|
        0 <= i < j < records.len() ==> records[i].id != records[j].id && records[i].token_hash
            != records[j].token_hash
}

/// Whether some record has this digest.
pub open spec fn holds_hash(records: Seq<ModelView>, hash: Seq<char>) -> bool {
    exists|i: int| 0 <= i < records.len() && #[trigger] records[i].token_hash == hash
}

/// Whether some record has this digest and has not expired at `now`.
pub open spec fn holds_live(records: Seq<ModelView>, hash: Seq<char>, now: i64) -> bool {
    exists|i: int|
        0 <= i < records.len() && #[trigger] records[i].token_hash == hash && records[i].live_at(
            now,
        )
}

/// The records with the last-used time of the one with this digest set.
pub open spec fn touched(records: Seq<ModelView>, hash: Seq<char>, now: i64) -> Seq<ModelView> {
    Seq::new(
        records.len(),
        |i: int|
            if records[i].token_hash == hash {
                ModelView { last_used_at: Some(now), ..records[i] }
            } else {
                records[i]
            },
    )
}

/// A record is never edited: the stamp of its last use is all that changes
/// while it is on record.
pub proof fn lemma_touch_changes_the_stamp_only(
    records: Seq<ModelView>,
    hash: Seq<char>,
    now: i64,
    at: int,
)
    requires
        0 <= at < records.len(),
    ensures
        touched(records, hash, now).len() == records.len(),
        touched(records, hash, now)[at] == (ModelView {
            last_used_at: touched(records, hash, now)[at].last_used_at,
            ..records[at]
        }),
        records[at].token_hash != hash ==> touched(records, hash, now)[at] == records[at],
        records[at].token_hash == hash ==> touched(records, hash, now)[at].last_used_at == Some(
            now,
        ),
{
}

/// The views of a row of records.
pub open spec fn views(records: Seq<Model>) -> Seq<ModelView> {
    Seq::new(records.len(), |i: int| records[i]@)
}

/// One more record at the end: what `selected` and `remaining` make of it.
pub proof fn lemma_select_step(records: Seq<ModelView>, selector: SelectorView, upto: int)
    requires
        0 <= upto < records.len(),
    ensures
        selected(records.take(upto + 1), selector) == if selects(selector, records[upto]) {
            selected(records.take(upto), selector).push(records[upto])
        } else {
            selected(records.take(upto), selector)
        },
        remaining(records.take(upto + 1), selector) == if selects(selector, records[upto]) {
            remaining(records.take(upto), selector)
        } else {
            remaining(records.take(upto), selector).push(records[upto])
        },
{
    assert(records.take(upto + 1).drop_last() =~= records.take(upto));
}

/// `selected` and `remaining` part the records: each holds exactly the
/// records on its side of the selector, and nothing else.
pub proof fn lemma_parts_hold(records: Seq<ModelView>, selector: SelectorView)
    ensures
        forall|record: ModelView| #[trigger]
            selected(records, selector).contains(record) <==> records.contains(record) && selects(
                selector,
                record,
            ),
        forall|record: ModelView| #[trigger]
            remaining(records, selector).contains(record) <==> records.contains(record)
                && !selects(selector, record),
        selected(records, selector).len() + remaining(records, selector).len() == records.len(),
    decreases records.len(),
{
    if records.len() > 0 {
        let front = records.drop_last();
        let last = records.last();
        lemma_parts_hold(front, selector);
        assert(records =~= front.push(last));
        assert forall|record: ModelView| #[trigger]
            selected(records, selector).contains(record) <==> records.contains(record) && selects(
                selector,
                record,
            ) by {
            lemma_contains_push(front, last, record);
            lemma_contains_push(selected(front, selector), last, record);
        }
        assert forall|record: ModelView| #[trigger]
            remaining(records, selector).contains(record) <==> records.contains(record)
                && !selects(selector, record) by {
            lemma_contains_push(front, last, record);
            lemma_contains_push(remaining(front, selector), last, record);
        }
    }
}

/// Membership in a sequence with one more element.
pub proof fn lemma_contains_push(records: Seq<ModelView>, last: ModelView, record: ModelView)
    ensures
        records.push(last).contains(record) <==> records.contains(record) || record == last,
{
    if records.contains(record) {
        let i = choose|i: int| 0 <= i < records.len() && records[i] == record;
        assert(records.push(last)[i] == record);
    }
    if record == last {
        assert(records.push(last)[records.len() as int] == record);
    }
}

/// Taking records away keeps keys and digests unique.
pub proof fn lemma_remaining_valid(records: Seq<ModelView>, selector: SelectorView)
    requires
        valid_records(records),
    ensures
        valid_records(remaining(records, selector)),
    decreases records.len(),
{
    if records.len() > 0 {
        let front = records.drop_last();
        let last = records.last();
        lemma_remaining_valid(front, selector);
        lemma_parts_hold(front, selector);
        let rest = remaining(front, selector);
        if !selects(selector, last) {
            assert forall|i: int, j: int| 0 <= i < j < rest.push(last).len() implies rest.push(
                last,
            )[i].id != rest.push(last)[j].id && rest.push(last)[i].token_hash != rest.push(
                last,
            )[j].token_hash by {
                if j == rest.len() {
                    assert(rest.contains(rest[i]));
                }
            }
        }
    }
}

/// The key by which records are listed: the time of creation.
pub open spec fn by_created() -> spec_fn(ModelView) -> int {
    |record: ModelView| record.created_at as int
}

/// The records ordered by creation time, newest first; records created at
/// the same time keep the order of their arrival.
pub open spec fn newest_first(records: Seq<ModelView>) -> Seq<ModelView> {
    descending_by(records, by_created())
}

/// `newest_first` puts no record before a newer one, and neither drops nor
/// adds a record.
pub proof fn lemma_newest_first(records: Seq<ModelView>)
    ensures
        forall|i: int, j: int|
            0 <= i < j < records.len() ==> newest_first(records)[i].created_at >= newest_first(
                records,
            )[j].created_at,
        newest_first(records).to_multiset() == records.to_multiset(),
        newest_first(records).len() == records.len(),
{
    lemma_descending(records, by_created());
}

/// Whether a selector is about a record.
pub fn is_selected(selector: &Selector, record: &Model) -> (hit: bool)
    ensures
        hit == selects(selector@, record@),
{
    match selector {
        Selector::All => true,
        Selector::Id(id) => record.id == *id,
        Selector::Hash(hash) => text_eq(record.token_hash.as_str(), hash.as_str()),
        Selector::Owner(owner) => match record.user_id {
            Some(user_id) => user_id == *owner,
            None => false,
        },
        Selector::Usage(usage) => text_eq(record.usage.as_str(), usage.as_str()),
        Selector::Kind(kind) => record.token_type == *kind,
        Selector::ExpiredBefore(time) => record.expires_at < *time,
    }
}

/// The record that `create` adds.
pub open spec fn new_record(
    id: i32,
    token_hash: Seq<char>,
    token_type: TokenType,
    usage: Seq<char>,
    user_id: Option<u128>,
    device_info: Option<Seq<char>>,
    created_at: i64,
    expires_at: i64,
) -> ModelView {
    ModelView {
        id,
        token_hash,
        usage,
        token_type,
        user_id,
        device_info,
        created_at,
        expires_at,
        last_used_at: None,
    }
}

/// The records of all issued tokens. A record past its expiry no longer
/// counts, though it stays until it is swept or deleted.
pub struct TokenStore {
    records: Vec<Model>,
    next_id: i32,
}

impl View for TokenStore {
    type V = Seq<ModelView>;

    /// The records, oldest insertion first.
    closed spec fn view(&self) -> Seq<ModelView> {
        views(self.records@)
    }
}

impl TokenStore {
    /// The surrogate key that the next record gets.
    pub closed spec fn next_key(&self) -> i32 {
        self.next_id
    }

    /// Keys and digests are unique, and every key in use lies below the next one.
    pub open spec fn wf(&self) -> bool {
        &&& valid_records(self@)
        &&& 1 <= self.next_key()
        &&& forall|i: int| 0 <= i < self@.len() ==> 0 < (#[trigger] self@[i]).id < self.next_key()
    }

    /// A store without records.
    pub fn new() -> (store: TokenStore)
        ensures
            store.wf(),
            store@ == Seq::<ModelView>::empty(),
            store.next_key() == 1,
    {
        let store = TokenStore { records: Vec::new(), next_id: 1 };
        store
    }

    /// The surrogate key that the next record gets.
    pub fn peek_next_key(&self) -> (key: i32)
        ensures
            key == self.next_key(),
    {
        self.next_id
    }

    /// The number of records, expired ones included.
    pub fn len(&self) -> (count: usize)
        ensures
            count == self@.len(),
    {
        self.records.len()
    }

    /// Whether a record with this digest is present, expired or not.
    pub fn contains_hash(&self, token_hash: &str) -> (found: bool)
        ensures
            found == holds_hash(self@, token_hash@),
    {
        let mut i: usize = 0;
        while i < self.records.len()
            invariant
                i <= self.records.len(),
                forall|k: int| 0 <= k < i ==> (#[trigger] self@[k]).token_hash != token_hash@,
            decreases self.records.len() - i,
        {
            if text_eq(self.records[i].token_hash.as_str(), token_hash) {
                assert(self@[i as int].token_hash == token_hash@);
                return true;
            }
            i += 1;
        }
        false
    }

    /// Adds the record of a newly issued token. A digest that is already
    /// present is a conflict, and leaves the store as it was.
    pub fn create(
        &mut self,
        token_hash: &str,
        token_type: TokenType,
        usage: &str,
        user_id: Option<u128>,
        device_info: Option<String>,
        created_at: i64,
        expires_at: i64,
    ) -> (result: Result<Model, StorageError>)
        requires
            old(self).wf(),
        ensures
            final(self).wf(),
            match result {
                Ok(record) => {
                    &&& !holds_hash(old(self)@, token_hash@)
                    &&& old(self).next_key() < i32::MAX
                    &&& record@ == new_record(
                        old(self).next_key(),
                        token_hash@,
                        token_type,
                        usage@,
                        user_id,
                        crate::text::optional_text(device_info),
                        created_at,
                        expires_at,
                    )
                    &&& final(self)@ == old(self)@.push(record@)
                    &&& final(self).next_key() == old(self).next_key() + 1
                },
                Err(error) => {
                    &&& final(self)@ == old(self)@
                    &&& final(self).next_key() == old(self).next_key()
                    &&& if holds_hash(old(self)@, token_hash@) {
                        error == StorageError::Duplicate
                    } else {
                        old(self).next_key() == i32::MAX && error == StorageError::KeysExhausted
                    }
                },
            },
    {
        if self.contains_hash(token_hash) {
            return Err(StorageError::Duplicate);
        }
        if self.next_id == i32::MAX {
            return Err(StorageError::KeysExhausted);
        }
        let id = self.next_id;
        let record = Model {
            id,
            token_hash: String::from_str(token_hash),
            usage: String::from_str(usage),
            token_type,
            user_id,
            device_info: copy_optional_text(&device_info),
            created_at,
            expires_at,
            last_used_at: None,
        };
        let stored = record.duplicate();
        self.records.push(stored);
        self.next_id = id + 1;
        proof {
            let before = old(self)@;
            assert(self@ =~= before.push(record@));
        }
        Ok(record)
    }

    /// Whether a record with this digest exists and has not expired at
    /// `now`. Nothing is deleted or changed by asking.
    pub fn exists_and_valid(&self, token_hash: &str, now: i64) -> (live: bool)
        ensures
            live == holds_live(self@, token_hash@, now),
    {
        let mut i: usize = 0;
        while i < self.records.len()
            invariant
                i <= self.records.len(),
                forall|k: int|
                    0 <= k < i ==> !((#[trigger] self@[k]).token_hash == token_hash@
                        && self@[k].live_at(now)),
            decreases self.records.len() - i,
        {
            if text_eq(self.records[i].token_hash.as_str(), token_hash)
                && self.records[i].is_live_at(now) {
                assert(self@[i as int].token_hash == token_hash@ && self@[i as int].live_at(now));
                return true;
            }
            i += 1;
        }
        false
    }

    /// Stamps the record with this digest as used at `now`. Where there is no
    /// such record nothing changes.
    pub fn touch_last_used(&mut self, token_hash: &str, now: i64)
        requires
            old(self).wf(),
        ensures
            final(self).wf(),
            final(self)@ == touched(old(self)@, token_hash@, now),
            final(self).next_key() == old(self).next_key(),
    {
        let ghost before = self@;
        let mut i: usize = 0;
        while i < self.records.len()
            invariant
                i <= self.records.len(),
                self@.len() == before.len(),
                self.next_id == old(self).next_id,
                forall|k: int|
                    0 <= k < i ==> (#[trigger] self@[k]) == touched(before, token_hash@, now)[k],
                forall|k: int| i <= k < self@.len() ==> (#[trigger] self@[k]) == before[k],
            decreases self.records.len() - i,
        {
            let ghost earlier = self@;
            if text_eq(self.records[i].token_hash.as_str(), token_hash) {
                let mut stamped = self.records[i].duplicate();
                stamped.last_used_at = Some(now);
                self.records.set(i, stamped);
                assert(self@ =~= earlier.update(i as int, stamped@));
            }
            assert(earlier[i as int] == before[i as int]);
            i += 1;
        }
    }

    /// Takes away the records that the selector is about, and says how many
    /// they were. All other records stay as they are, in their order.
    pub fn remove_where(&mut self, selector: &Selector) -> (removed: usize)
        requires
            old(self).wf(),
        ensures
            final(self).wf(),
            final(self)@ == remaining(old(self)@, selector@),
            removed == selected(old(self)@, selector@).len(),
            removed == old(self)@.len() - final(self)@.len(),
            final(self).next_key() == old(self).next_key(),
    {
        let mut kept: Vec<Model> = Vec::new();
        let mut removed: usize = 0;
        let mut i: usize = 0;
        let ghost before = self@;
        while i < self.records.len()
            invariant
                i <= self.records.len(),
                self@ == before,
                views(kept@) == remaining(before.take(i as int), selector@),
                removed == selected(before.take(i as int), selector@).len(),
                removed + kept@.len() == i,
            decreases self.records.len() - i,
        {
            proof {
                lemma_select_step(before, selector@, i as int);
            }
            if is_selected(selector, &self.records[i]) {
                removed += 1;
            } else {
                kept.push(self.records[i].duplicate());
            }
            i += 1;
        }
        proof {
            assert(before.take(i as int) =~= before);
            lemma_remaining_valid(before, selector@);
            lemma_parts_hold(before, selector@);
            assert forall|k: int| 0 <= k < views(kept@).len() implies 0 < (#[trigger] views(
                kept@,
            )[k]).id < self.next_id by {
                let record = views(kept@)[k];
                assert(remaining(before, selector@).contains(record));
            }
        }
        self.records = kept;
        removed
    }
}

impl TokenStore {
    /// The records that the selector is about, newest first; records created
    /// at the same time stand in the order in which they arrived.
    pub fn select(&self, selector: &Selector) -> (found: Vec<Model>)
        ensures
            views(found@) == newest_first(selected(self@, selector@)),
            found@.len() == selected(self@, selector@).len(),
            views(found@).to_multiset() == selected(self@, selector@).to_multiset(),
            forall|i: int, j: int|
                0 <= i < j < found@.len() ==> found@[i].created_at >= found@[j].created_at,
    {
        let mut found: Vec<Model> = Vec::new();
        let mut i: usize = 0;
        let ghost before = self@;
        while i < self.records.len()
            invariant
                i <= self.records.len(),
                self@ == before,
                views(found@) == newest_first(selected(before.take(i as int), selector@)),
            decreases self.records.len() - i,
        {
            proof {
                lemma_select_step(before, selector@, i as int);
            }
            if is_selected(selector, &self.records[i]) {
                let created_at = self.records[i].created_at;
                let mut position: usize = found.len();
                while position > 0 && found[position - 1].created_at < created_at
                    invariant
                        position <= found.len(),
                        forall|k: int|
                            position <= k < found.len() ==> (#[trigger] views(found@)[k]).created_at
                                < created_at,
                    decreases position,
                {
                    position -= 1;
                }
                proof {
                    let chosen = selected(before.take(i as int), selector@);
                    let record = before[i as int];
                    lemma_insert_position(views(found@), record, by_created(), position as int);
                    lemma_descending_push(chosen, record, by_created());
                }
                found.insert(position, self.records[i].duplicate());
            }
            i += 1;
        }
        proof {
            assert(before.take(i as int) =~= before);
            let chosen = selected(before, selector@);
            lemma_newest_first(chosen);
            assert forall|a: int, b: int| 0 <= a < b < found@.len() implies found@[a].created_at
                >= found@[b].created_at by {
                assert(views(found@)[a].created_at >= views(found@)[b].created_at);
            }
        }
        found
    }
}

/// The key that follows the keys of the records: one more than the largest,
/// and 1 where there is no record.
pub open spec fn following_key(records: Seq<ModelView>) -> int
    decreases records.len(),
{
    if records.len() == 0 {
        1
    } else if records.last().id + 1 > following_key(records.drop_last()) {
        records.last().id + 1
    } else {
        following_key(records.drop_last())
    }
}

/// `following_key` lies above every key of the records, and no higher than
/// they ask for.
pub proof fn lemma_following_key(records: Seq<ModelView>)
    ensures
        1 <= following_key(records),
        forall|i: int|
            0 <= i < records.len() ==> (#[trigger] records[i]).id < following_key(records),
        following_key(records) == 1 || exists|i: int|
            0 <= i < records.len() && following_key(records) == (#[trigger] records[i]).id + 1,
    decreases records.len(),
{
    if records.len() > 0 {
        let front = records.drop_last();
        lemma_following_key(front);
        assert forall|i: int| 0 <= i < records.len() implies (#[trigger] records[i]).id
            < following_key(records) by {
            if i < front.len() {
                assert(front[i] == records[i]);
            }
        }
        if following_key(records) != 1 {
            if following_key(records) == records.last().id + 1 {
                assert(records[records.len() - 1].id + 1 == following_key(records));
            } else {
                let i = choose|i: int|
                    0 <= i < front.len() && following_key(front) == (#[trigger] front[i]).id + 1;
                assert(records[i] == front[i]);
            }
        }
    }
}

/// Records that can be taken back into a store: keys and digests are
/// unique, and every key is positive and leaves room for a next one.
pub open spec fn restorable(records: Seq<ModelView>) -> bool {
    &&& valid_records(records)
    &&& forall|i: int| 0 <= i < records.len() ==> 0 < (#[trigger] records[i]).id < i32::MAX
}

impl TokenStore {
    /// A store that holds the given records, as they were kept elsewhere.
    /// `None` where the records cannot stand together in a store.
    pub fn restore(records: Vec<Model>) -> (store: Option<TokenStore>)
        ensures
            match store {
                Some(restored) => {
                    &&& restored.wf()
                    &&& restored@ == views(records@)
                    &&& restored.next_key() == following_key(views(records@))
                    &&& restorable(views(records@))
                },
                None => !restorable(views(records@)),
            },
    {
        let ghost given = views(records@);
        let mut next_id: i32 = 1;
        let mut i: usize = 0;
        assert(given.take(0) =~= Seq::<ModelView>::empty());
        while i < records.len()
            invariant
                i <= records.len(),
                given == views(records@),
                1 <= next_id,
                next_id == following_key(given.take(i as int)),
                forall|k: int| 0 <= k < i ==> 0 < (#[trigger] given[k]).id < next_id,
                forall|a: int, b: int|
                    0 <= a < b < i ==> given[a].id != given[b].id && given[a].token_hash
                        != given[b].token_hash,
            decreases records.len() - i,
        {
            assert(given.take(i + 1).drop_last() =~= given.take(i as int));
            let id = records[i].id;
            if id <= 0 || id == i32::MAX {
                return None;
            }
            let mut j: usize = 0;
            while j < i
                invariant
                    j <= i < records.len(),
                    given == views(records@),
                    id == given[i as int].id,
                    forall|a: int|
                        0 <= a < j ==> given[a].id != given[i as int].id && given[a].token_hash
                            != given[i as int].token_hash,
                decreases i - j,
            {
                if records[j].id == id || text_eq(
                    records[j].token_hash.as_str(),
                    records[i].token_hash.as_str(),
                ) {
                    assert(given[j as int].id == given[i as int].id || given[j as int].token_hash
                        == given[i as int].token_hash);
                    return None;
                }
                j += 1;
            }
            if id >= next_id {
                next_id = id + 1;
            }
            i += 1;
        }
        assert(given.take(i as int) =~= given);
        Some(TokenStore { records, next_id })
    }
}

/// Stores the record of a notify token.
pub fn create_notify_token(
    db: &mut TokenStore,
    token_hash: &str,
    usage: &str,
    expires_at: i64,
    device_info: Option<String>,
    now: i64,
) -> (result: Result<Model, StorageError>)
    requires
        old(db).wf(),
    ensures
        final(db).wf(),
        match result {
            Ok(record) => {
                &&& !holds_hash(old(db)@, token_hash@)
                &&& old(db).next_key() < i32::MAX
                &&& record@ == new_record(
                    old(db).next_key(),
                    token_hash@,
                    TokenType::NotifyBearer,
                    usage@,
                    None,
                    crate::text::optional_text(device_info),
                    now,
                    expires_at,
                )
                &&& final(db)@ == old(db)@.push(record@)
                &&& final(db).next_key() == old(db).next_key() + 1
            },
            Err(error) => {
                &&& final(db)@ == old(db)@
                &&& final(db).next_key() == old(db).next_key()
                &&& if holds_hash(old(db)@, token_hash@) {
                    error == StorageError::Duplicate
                } else {
                    old(db).next_key() == i32::MAX && error == StorageError::KeysExhausted
                }
            },
        },
{
    db.create(token_hash, TokenType::NotifyBearer, usage, None, device_info, now, expires_at)
}

/// Stores the record of a user session token, under the usage `user_auth`.
pub fn create_user_token(
    db: &mut TokenStore,
    token_hash: &str,
    user_id: u128,
    expires_at: i64,
    now: i64,
) -> (result: Result<Model, StorageError>)
    requires
        old(db).wf(),
    ensures
        final(db).wf(),
        match result {
            Ok(record) => {
                &&& !holds_hash(old(db)@, token_hash@)
                &&& old(db).next_key() < i32::MAX
                &&& record@ == new_record(
                    old(db).next_key(),
                    token_hash@,
                    TokenType::UserJwt,
                    "user_auth"@,
                    Some(user_id),
                    None,
                    now,
                    expires_at,
                )
                &&& final(db)@ == old(db)@.push(record@)
                &&& final(db).next_key() == old(db).next_key() + 1
            },
            Err(error) => {
                &&& final(db)@ == old(db)@
                &&& final(db).next_key() == old(db).next_key()
                &&& if holds_hash(old(db)@, token_hash@) {
                    error == StorageError::Duplicate
                } else {
                    old(db).next_key() == i32::MAX && error == StorageError::KeysExhausted
                }
            },
        },
{
    db.create(token_hash, TokenType::UserJwt, "user_auth", Some(user_id), None, now, expires_at)
}

/// Whether a token with this digest is on record and has not expired at `now`.
pub fn verify_token_exists(db: &TokenStore, token_hash: &str, now: i64) -> (live: bool)
    ensures
        live == holds_live(db@, token_hash@, now),
{
    db.exists_and_valid(token_hash, now)
}

/// Stamps the token with this digest as used at `now`.
pub fn update_token_last_used(db: &mut TokenStore, token_hash: &str, now: i64)
    requires
        old(db).wf(),
    ensures
        final(db).wf(),
        final(db)@ == touched(old(db)@, token_hash@, now),
        final(db).next_key() == old(db).next_key(),
{
    db.touch_last_used(token_hash, now);
}

/// Sweeps the store: removes exactly the records whose expiry lies strictly
/// before `now`, leaves every other record untouched, and says how many went.
pub fn cleanup_expired_tokens(db: &mut TokenStore, now: i64) -> (removed: u64)
    requires
        old(db).wf(),
    ensures
        final(db).wf(),
        final(db)@ == remaining(old(db)@, SelectorView::ExpiredBefore(now)),
        removed == old(db)@.len() - final(db)@.len(),
        forall|record: ModelView| #[trigger]
            final(db)@.contains(record) <==> old(db)@.contains(record) && record.expires_at >= now,
        final(db).next_key() == old(db).next_key(),
{
    let selector = Selector::ExpiredBefore(now);
    proof {
        lemma_parts_hold(db@, selector@);
    }
    let removed = db.remove_where(&selector);
    removed as u64
}

/// The tokens of one user, newest first.
pub fn get_user_tokens(db: &TokenStore, user_id: u128) -> (found: Vec<Model>)
    ensures
        views(found@) == newest_first(selected(db@, SelectorView::Owner(user_id))),
{
    db.select(&Selector::Owner(user_id))
}

/// Deletes the token with this surrogate key; `false` where there is none.
pub fn delete_token_by_id(db: &mut TokenStore, token_id: i32) -> (deleted: bool)
    requires
        old(db).wf(),
    ensures
        final(db).wf(),
        final(db)@ == remaining(old(db)@, SelectorView::Id(token_id)),
        deleted == (selected(old(db)@, SelectorView::Id(token_id)).len() > 0),
        !deleted ==> final(db)@ == old(db)@,
        final(db).next_key() == old(db).next_key(),
{
    let ghost before = db@;
    let removed = db.remove_where(&Selector::Id(token_id));
    proof {
        lemma_none_selected(before, SelectorView::Id(token_id));
    }
    removed > 0
}

/// Deletes the token with this digest and says how many records went.
pub fn delete_token_by_hash(db: &mut TokenStore, token_hash: &str) -> (removed: u64)
    requires
        old(db).wf(),
    ensures
        final(db).wf(),
        final(db)@ == remaining(old(db)@, SelectorView::Hash(token_hash@)),
        removed == selected(old(db)@, SelectorView::Hash(token_hash@)).len(),
        removed == 0 ==> final(db)@ == old(db)@,
        final(db).next_key() == old(db).next_key(),
{
    let ghost before = db@;
    let selector = Selector::Hash(String::from_str(token_hash));
    let removed = db.remove_where(&selector);
    proof {
        lemma_none_selected(before, selector@);
    }
    removed as u64
}

/// Deletes every token of one user and says how many records went.
pub fn delete_user_tokens(db: &mut TokenStore, user_id: u128) -> (removed: u64)
    requires
        old(db).wf(),
    ensures
        final(db).wf(),
        final(db)@ == remaining(old(db)@, SelectorView::Owner(user_id)),
        removed == selected(old(db)@, SelectorView::Owner(user_id)).len(),
        removed == 0 ==> final(db)@ == old(db)@,
        final(db).next_key() == old(db).next_key(),
{
    let ghost before = db@;
    let removed = db.remove_where(&Selector::Owner(user_id));
    proof {
        lemma_none_selected(before, SelectorView::Owner(user_id));
    }
    removed as u64
}

/// Every token, newest first.
pub fn list_all_tokens(db: &TokenStore) -> (found: Vec<Model>)
    ensures
        views(found@) == newest_first(selected(db@, SelectorView::All)),
{
    db.select(&Selector::All)
}

/// The tokens with one usage label, newest first.
pub fn list_tokens_by_usage(db: &TokenStore, usage: &str) -> (found: Vec<Model>)
    ensures
        views(found@) == newest_first(selected(db@, SelectorView::Usage(usage@))),
{
    db.select(&Selector::Usage(String::from_str(usage)))
}

/// The tokens of one kind, newest first.
pub fn list_tokens_by_type(db: &TokenStore, token_type: TokenType) -> (found: Vec<Model>)
    ensures
        views(found@) == newest_first(selected(db@, SelectorView::Kind(token_type))),
{
    db.select(&Selector::Kind(token_type))
}

/// Where the selector is about no record, taking its records away changes nothing.
pub proof fn lemma_none_selected(records: Seq<ModelView>, selector: SelectorView)
    ensures
        selected(records, selector).len() == 0 ==> remaining(records, selector) == records,
    decreases records.len(),
{
    if records.len() > 0 {
        lemma_none_selected(records.drop_last(), selector);
    }
}

} // verus!
