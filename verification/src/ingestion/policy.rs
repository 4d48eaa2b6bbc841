//! The duplicate policies: what is done with a reported record, given the
//! earliest stored document that matches its filter.

use crate::config::job_config::OnDuplicateEntry;
use crate::ingestion::record::with_timestamps;
use crate::storage::collection::{StoreAction, StoreActionView};
use crate::storage::document::{
    created_at_field, distinct_names, fields_map, has_name, lemma_fields_map_dom, readable,
    DocumentView, ResultDocument, Value,
};
use crate::text::owned;
use vstd::prelude::*;

verus! {

/// The fields of `candidate` that `existing` lacks or holds with another
/// value. Only values of the kinds that this library reads are compared
/// and taken over.
pub open spec fn changed_fields(candidate: DocumentView, existing: DocumentView) -> DocumentView {
    Map::new(
        |name: Seq<char>|
            candidate.contains_key(name) && candidate[name] !is Other && !(existing.contains_key(name)
                && existing[name] == candidate[name]),
        |name: Seq<char>| candidate[name],
    )
}

/// The document that records a change: the changed fields, stamped `now`.
pub open spec fn change_document(candidate: DocumentView, existing: DocumentView, now: i64) -> DocumentView {
    with_timestamps(changed_fields(candidate, existing), now)
}

/// The candidate with the creation time of the document it replaces,
/// where that document has one of a kind that this library reads.
pub open spec fn keeping_created_at(candidate: DocumentView, existing: DocumentView) -> DocumentView {
    if existing.contains_key(created_at_field()) && existing[created_at_field()] !is Other {
        candidate.insert(created_at_field(), existing[created_at_field()])
    } else {
        candidate
    }
}

/// What is done with a candidate document under each policy.
///
/// Where nothing stored matches, the candidate is stored as it is. Where a
/// document matches, `IgnoreNew` only refreshes its update time,
/// `Overwrite` replaces it and keeps its creation time, and `TrackChanges`
/// stores the changed fields as a further document.
pub open spec fn decide(
    mode: OnDuplicateEntry,
    candidate: DocumentView,
    filter: DocumentView,
    existing: Option<DocumentView>,
    now: i64,
) -> StoreActionView {
    match existing {
        None => StoreActionView::Insert { document: candidate },
        Some(found) => match mode {
            OnDuplicateEntry::IgnoreNew => StoreActionView::Touch { filter, updated_at: now },
            OnDuplicateEntry::Overwrite => StoreActionView::Replace {
                filter,
                document: keeping_created_at(candidate, found),
            },
            OnDuplicateEntry::TrackChanges => StoreActionView::Insert {
                document: change_document(candidate, found, now),
            },
        },
    }
}

/// The plain form of an optional document.
pub open spec fn optional_view(doc: Option<&ResultDocument>) -> Option<DocumentView> {
    match doc {
        Some(d) => Some(d@),
        None => None,
    }
}

/// `IgnoreNew`: store the candidate where nothing matches, else refresh
/// the update time of the match.
pub fn handle_ignore_new_policy(
    doc: ResultDocument,
    filter: ResultDocument,
    existing: Option<&ResultDocument>,
    now: i64,
) -> (action: StoreAction)
    ensures
        action@ == decide(OnDuplicateEntry::IgnoreNew, doc@, filter@, optional_view(existing), now),
{
    match existing {
        None => StoreAction::Insert { document: doc },
        Some(_) => StoreAction::Touch { filter, updated_at: now },
    }
}

/// `Overwrite`: store the candidate where nothing matches, else put it
/// in the place of the match, with the creation time of the match.
pub fn handle_overwrite_policy(
    doc: ResultDocument,
    filter: ResultDocument,
    existing: Option<&ResultDocument>,
    now: i64,
) -> (action: StoreAction)
    ensures
        action@ == decide(OnDuplicateEntry::Overwrite, doc@, filter@, optional_view(existing), now),
{
    match existing {
        None => StoreAction::Insert { document: doc },
        Some(found) => {
            let mut doc = doc;
            let name = owned("gamayun_created_at");
            match found.get(&name) {
                Some(created_at) => {
                    doc.insert(name, created_at);
                },
                None => {},
            }
            StoreAction::Replace { filter, document: doc }
        },
    }
}

/// The fields of `doc` that `existing` lacks or holds with another value.
pub fn diff(doc: &ResultDocument, existing: &ResultDocument) -> (changed: ResultDocument)
    ensures
        changed@ == changed_fields(doc@, existing@),
{
    let fields = doc.fields();
    let mut changed = ResultDocument::new();
    assert(changed@ =~= changed_fields(fields_map(fields@.take(0)), existing@));
    let mut i: usize = 0;
    while i < fields.len()
        invariant
            i <= fields.len(),
            distinct_names(fields@),
            changed@ == changed_fields(fields_map(fields@.take(i as int)), existing@),
        decreases fields.len() - i,
    {
        let field = &fields[i];
        let ghost seen = fields_map(fields@.take(i as int));
        proof {
            assert(fields@.take(i as int + 1).drop_last() =~= fields@.take(i as int));
            lemma_fields_map_dom(fields@.take(i as int));
            if has_name(fields@.take(i as int), field.name@) {
                let k = choose|k: int|
                    0 <= k < i && #[trigger] fields@.take(i as int)[k].name@ == field.name@;
                assert(fields@[k].name@ != fields@[i as int].name@);
            }
        }
        let unchanged = match existing.get(&field.name) {
            Some(value) => value.same(&field.value),
            None => false,
        };
        if !unchanged {
            changed.insert(field.name.clone(), field.value.clone());
        }
        assert(changed@ =~= changed_fields(seen.insert(field.name@, field.value@), existing@));
        i = i + 1;
    }
    proof {
        assert(fields@.take(i as int) =~= fields@);
        assert(changed_fields(readable(doc@), existing@) =~= changed_fields(doc@, existing@));
    }
    changed
}

/// `TrackChanges`: store the candidate where nothing matches, else store
/// the fields that changed, stamped `now`, as a further document.
pub fn handle_track_changes_policy(
    doc: ResultDocument,
    filter: ResultDocument,
    existing: Option<&ResultDocument>,
    now: i64,
) -> (action: StoreAction)
    ensures
        action@ == decide(OnDuplicateEntry::TrackChanges, doc@, filter@, optional_view(existing), now),
{
    match existing {
        None => StoreAction::Insert { document: doc },
        Some(found) => {
            let mut changed = diff(&doc, found);
            changed.insert(owned("gamayun_created_at"), Value::Instant(now));
            changed.insert(owned("gamayun_updated_at"), Value::Instant(now));
            StoreAction::Insert { document: changed }
        },
    }
}

/// The action that the policy `mode` asks for.
pub fn store_based_on_duplicate_policy(
    mode: OnDuplicateEntry,
    doc: ResultDocument,
    filter: ResultDocument,
    existing: Option<&ResultDocument>,
    now: i64,
) -> (action: StoreAction)
    ensures
        action@ == decide(mode, doc@, filter@, optional_view(existing), now),
{
    match mode {
        OnDuplicateEntry::IgnoreNew => handle_ignore_new_policy(doc, filter, existing, now),
        OnDuplicateEntry::Overwrite => handle_overwrite_policy(doc, filter, existing, now),
        OnDuplicateEntry::TrackChanges => handle_track_changes_policy(doc, filter, existing, now),
    }
}

} // verus!
