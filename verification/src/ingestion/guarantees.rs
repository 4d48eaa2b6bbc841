//! What holds of the store under each duplicate policy.

use crate::config::job_config::{DuplicateEntryPolicyView, OnDuplicateEntry};
use crate::ingestion::record::RecordView;
use crate::ingestion::result_collecting_service::{pending_store, stored_all, PendingStoreView};
use crate::storage::collection::{
    count_matching, find_first, is_first_match, lemma_find_first, matching, satisfies, StoreActionView,
};
use crate::storage::document::{
    created_at_field, tags_field, updated_at_field, DocumentView, ValueView,
};
use vstd::prelude::*;

verus! {

/// A document carries both timestamps, each as an instant.
pub open spec fn is_stamped(doc: DocumentView) -> bool {
    &&& doc.contains_key(created_at_field())
    &&& doc[created_at_field()] is Instant
    &&& doc.contains_key(updated_at_field())
    &&& doc[updated_at_field()] is Instant
}

/// Every document of a collection carries both timestamps.
pub open spec fn all_stamped(docs: Seq<DocumentView>) -> bool {
    forall|i: int| 0 <= i < docs.len() ==> is_stamped(#[trigger] docs[i])
}

/// The names of the reserved fields differ from each other.
pub proof fn lemma_reserved_fields_differ()
    ensures
        created_at_field() != updated_at_field(),
        created_at_field() != tags_field(),
        updated_at_field() != tags_field(),
{
    reveal_strlit("gamayun_created_at");
    reveal_strlit("gamayun_updated_at");
    reveal_strlit("gamayun_tags");
    assert("gamayun_created_at"@[8] == 'c');
    assert("gamayun_updated_at"@[8] == 'u');
    assert("gamayun_created_at"@.len() == 18);
    assert("gamayun_tags"@.len() == 12);
}

/// Whatever a policy stores carries both timestamps as instants, given
/// that the stored document it was decided against does. It also carries
/// the tags of the job, except for a document that records a change
/// against a stored document with the same tags.
pub proof fn lemma_stored_document_is_stamped(
    policy: DuplicateEntryPolicyView,
    tags: Seq<Seq<char>>,
    record: RecordView,
    existing: Option<DocumentView>,
    now: i64,
)
    requires
        existing is Some ==> is_stamped(existing->Some_0),
    ensures
        match pending_store(policy, tags, record, now).resolve(existing, now) {
            StoreActionView::Insert { document } => is_stamped(document) && (document.contains_key(
                tags_field(),
            ) || (policy.on_duplicate_entry == OnDuplicateEntry::TrackChanges && existing is Some
                && existing->Some_0.contains_key(tags_field()) && existing->Some_0[tags_field()]
                == ValueView::Tags(tags))),
            StoreActionView::Replace { filter, document } => is_stamped(document) && document.contains_key(
                tags_field(),
            ),
            StoreActionView::Touch { filter, updated_at } => updated_at == now,
        },
{
    lemma_reserved_fields_differ();
}

/// Storing a record in a collection whose documents all carry both
/// timestamps leaves a collection whose documents all do.
pub proof fn lemma_store_keeps_stamps(
    policy: DuplicateEntryPolicyView,
    tags: Seq<Seq<char>>,
    record: RecordView,
    docs: Seq<DocumentView>,
    now: i64,
)
    requires
        all_stamped(docs),
    ensures
        all_stamped(pending_store(policy, tags, record, now).stored_into(docs, now)),
{
    lemma_reserved_fields_differ();
    let pending = pending_store(policy, tags, record, now);
    let existing = match find_first(docs, pending.filter) {
        Some(i) => Some(docs[i]),
        None => None,
    };
    if find_first(docs, pending.filter) is Some {
        let k = choose|k: int| is_first_match(docs, pending.filter, k);
        assert(is_stamped(docs[k]));
    }
    lemma_stored_document_is_stamped(policy, tags, record, existing, now);
    let after = pending.stored_into(docs, now);
    assert forall|i: int| 0 <= i < after.len() implies is_stamped(#[trigger] after[i]) by {
        if i < docs.len() {
            assert(is_stamped(docs[i]));
        }
    }
}

/// Under `Overwrite`, storing a record that matches a stored document
/// replaces that document only, and the creation time stays the one it
/// had.
pub proof fn lemma_overwrite_keeps_created_at(
    pending: PendingStoreView,
    docs: Seq<DocumentView>,
    now: i64,
    i: int,
)
    requires
        pending.on_duplicate_entry == OnDuplicateEntry::Overwrite,
        is_first_match(docs, pending.filter, i),
        is_stamped(docs[i]),
    ensures
        pending.stored_into(docs, now).len() == docs.len(),
        pending.stored_into(docs, now)[i].contains_key(created_at_field()),
        pending.stored_into(docs, now)[i][created_at_field()] == docs[i][created_at_field()],
        forall|j: int| 0 <= j < docs.len() && j != i ==> pending.stored_into(docs, now)[j] == docs[j],
{
    lemma_find_first(docs, pending.filter, i);
}

/// Under `TrackChanges`, storing a record only adds a document: for any
/// filter, as many documents match afterwards as before, or one more.
pub proof fn lemma_track_changes_only_adds(
    pending: PendingStoreView,
    docs: Seq<DocumentView>,
    now: i64,
    filter: DocumentView,
)
    requires
        pending.on_duplicate_entry == OnDuplicateEntry::TrackChanges,
    ensures
        pending.stored_into(docs, now).len() == docs.len() + 1,
        pending.stored_into(docs, now).drop_last() == docs,
        count_matching(docs, filter) <= count_matching(pending.stored_into(docs, now), filter)
            <= count_matching(docs, filter) + 1,
{
    let after = pending.stored_into(docs, now);
    assert(after.drop_last() =~= docs);
    assert(after =~= docs.push(after.last()));
    docs.lemma_filter_push(after.last(), matching(filter));
}

/// Under `TrackChanges`, storing the records of a whole message adds one
/// document for each record, and for any filter no fewer documents match
/// afterwards than before.
pub proof fn lemma_track_changes_never_loses(
    stores: Seq<PendingStoreView>,
    docs: Seq<DocumentView>,
    now: i64,
    filter: DocumentView,
)
    requires
        forall|i: int|
            0 <= i < stores.len() ==> (#[trigger] stores[i]).on_duplicate_entry
                == OnDuplicateEntry::TrackChanges,
    ensures
        stored_all(stores, docs, now).len() == docs.len() + stores.len(),
        count_matching(docs, filter) <= count_matching(stored_all(stores, docs, now), filter),
    decreases stores.len(),
{
    if stores.len() > 0 {
        let front = stores.drop_last();
        assert forall|i: int| 0 <= i < front.len() implies (#[trigger] front[i]).on_duplicate_entry
            == OnDuplicateEntry::TrackChanges by {
            assert(front[i] == stores[i]);
        }
        lemma_track_changes_never_loses(front, docs, now, filter);
        assert(stores[stores.len() - 1].on_duplicate_entry == OnDuplicateEntry::TrackChanges);
        lemma_track_changes_only_adds(stores.last(), stored_all(front, docs, now), now, filter);
    }
}

/// Where no document matches, none is counted.
pub proof fn lemma_count_none(docs: Seq<DocumentView>, filter: DocumentView)
    requires
        forall|j: int| 0 <= j < docs.len() ==> !satisfies(#[trigger] docs[j], filter),
    ensures
        count_matching(docs, filter) == 0,
    decreases docs.len(),
{
    reveal(Seq::filter);
    if docs.len() > 0 {
        let front = docs.drop_last();
        assert forall|j: int| 0 <= j < front.len() implies !satisfies(#[trigger] front[j], filter) by {
            assert(front[j] == docs[j]);
        }
        lemma_count_none(front, filter);
        assert(!satisfies(docs[docs.len() - 1], filter));
    }
}

/// Changing one document changes the count of matches by that document's
/// own share.
pub proof fn lemma_count_update(docs: Seq<DocumentView>, i: int, doc: DocumentView, filter: DocumentView)
    requires
        0 <= i < docs.len(),
    ensures
        count_matching(docs.update(i, doc), filter) == count_matching(docs, filter) - (if satisfies(
            docs[i],
            filter,
        ) {
            1int
        } else {
            0int
        }) + (if satisfies(doc, filter) {
            1int
        } else {
            0int
        }),
    decreases docs.len(),
{
    let front = docs.drop_last();
    let last = docs.last();
    let pred = matching(filter);
    assert(docs =~= front.push(last));
    front.lemma_filter_push(last, pred);
    if i == docs.len() - 1 {
        assert(docs.update(i, doc) =~= front.push(doc));
        front.lemma_filter_push(doc, pred);
    } else {
        assert(docs.update(i, doc) =~= front.update(i, doc).push(last));
        lemma_count_update(front, i, doc, filter);
        front.update(i, doc).lemma_filter_push(last, pred);
    }
}

/// Under `IgnoreNew`, a record whose filter matches at most one stored
/// document still matches at most one after it was stored.
pub proof fn lemma_ignore_new_keeps_unique(pending: PendingStoreView, docs: Seq<DocumentView>, now: i64)
    requires
        pending.on_duplicate_entry == OnDuplicateEntry::IgnoreNew,
        count_matching(docs, pending.filter) <= 1,
    ensures
        count_matching(pending.stored_into(docs, now), pending.filter) <= 1,
{
    let filter = pending.filter;
    let after = pending.stored_into(docs, now);
    if find_first(docs, filter) is Some {
        let i = choose|i: int| is_first_match(docs, filter, i);
        let touched = docs[i].insert(updated_at_field(), ValueView::Instant(now));
        assert(after == docs.update(i, touched));
        lemma_count_update(docs, i, touched, filter);
    } else {
        assert forall|j: int| 0 <= j < docs.len() implies !satisfies(#[trigger] docs[j], filter) by {
            if satisfies(docs[j], filter) {
                lemma_first_exists(docs, filter, j);
            }
        }
        lemma_count_none(docs, filter);
        assert(after == docs.push(pending.document));
        docs.lemma_filter_push(pending.document, matching(filter));
    }
}

/// Where some document matches, there is an earliest match.
pub proof fn lemma_first_exists(docs: Seq<DocumentView>, filter: DocumentView, j: int)
    requires
        0 <= j < docs.len(),
        satisfies(docs[j], filter),
    ensures
        exists|i: int| is_first_match(docs, filter, i),
    decreases j,
{
    if exists|k: int| 0 <= k < j && satisfies(#[trigger] docs[k], filter) {
        let k = choose|k: int| 0 <= k < j && satisfies(#[trigger] docs[k], filter);
        lemma_first_exists(docs, filter, k);
    } else {
        assert(is_first_match(docs, filter, j));
    }
}

} // verus!
