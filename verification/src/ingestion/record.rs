//! What a job reports, and the document and the lookup filter made of it.

use crate::storage::document::{
    created_at_field, tags_field, updated_at_field, ResultDocument, DocumentView, Value, ValueView,
};
use crate::text::{clone_strings, owned, texts};
use vstd::prelude::*;

verus! {

/// The plain form of a reported record: its values by key.
pub type RecordView = Map<Seq<char>, Seq<char>>;

/// The record that a list of key and value pairs stands for. Where a key
/// occurs twice, the later pair counts.
pub open spec fn record_map(pairs: Seq<(String, String)>) -> RecordView
    decreases pairs.len(),
{
    if pairs.len() == 0 {
        Map::empty()
    } else {
        record_map(pairs.drop_last()).insert(pairs.last().0@, pairs.last().1@)
    }
}

/// The document that holds each entry of a record as a text field.
pub open spec fn text_document(record: RecordView) -> DocumentView {
    Map::new(|name: Seq<char>| record.contains_key(name), |name: Seq<char>| ValueView::Text(record[name]))
}

/// A document with both timestamps set to `now`.
pub open spec fn with_timestamps(doc: DocumentView, now: i64) -> DocumentView {
    doc.insert(created_at_field(), ValueView::Instant(now)).insert(
        updated_at_field(),
        ValueView::Instant(now),
    )
}

/// The document that is stored for a record when nothing stored matches
/// it: the record's entries, then the reserved fields, which win over an
/// entry of the same name.
pub open spec fn candidate_document(record: RecordView, tags: Seq<Seq<char>>, now: i64) -> DocumentView {
    with_timestamps(text_document(record), now).insert(tags_field(), ValueView::Tags(tags))
}

/// The filter that finds what is stored for a record: one equality on
/// each identifying field that the record holds.
pub open spec fn unique_filter(record: RecordView, unique_ids: Seq<Seq<char>>) -> DocumentView {
    Map::new(
        |name: Seq<char>| unique_ids.contains(name) && record.contains_key(name),
        |name: Seq<char>| ValueView::Text(record[name]),
    )
}

/// The value that counts for `key` is that of the last pair with this key.
pub proof fn lemma_record_map_last(pairs: Seq<(String, String)>, key: Seq<char>, i: int)
    requires
        -1 <= i < pairs.len(),
        i >= 0 ==> pairs[i].0@ == key,
        forall|j: int| i < j < pairs.len() ==> (#[trigger] pairs[j]).0@ != key,
    ensures
        i >= 0 ==> record_map(pairs).contains_key(key) && record_map(pairs)[key] == pairs[i].1@,
        i < 0 ==> !record_map(pairs).contains_key(key),
    decreases pairs.len(),
{
    if pairs.len() > 0 {
        if i < pairs.len() - 1 {
            assert(pairs[pairs.len() - 1].0@ != key);
            let front = pairs.drop_last();
            assert forall|j: int| i < j < front.len() implies (#[trigger] front[j]).0@ != key by {
                assert(pairs[j].0@ != key);
            }
            lemma_record_map_last(front, key, i);
        }
    }
}

/// The value of `key` in a reported record.
pub fn lookup<'a>(pairs: &'a Vec<(String, String)>, key: &String) -> (r: Option<&'a String>)
    ensures
        r is Some <==> record_map(pairs@).contains_key(key@),
        r is Some ==> r->Some_0@ == record_map(pairs@)[key@],
{
    let mut i: usize = pairs.len();
    while i > 0
        invariant
            i <= pairs.len(),
            forall|j: int| i <= j < pairs.len() ==> (#[trigger] pairs@[j]).0@ != key@,
        decreases i,
    {
        i = i - 1;
        if pairs[i].0.eq(key) {
            proof {
                lemma_record_map_last(pairs@, key@, i as int);
            }
            return Some(&pairs[i].1);
        }
    }
    proof {
        lemma_record_map_last(pairs@, key@, -1);
    }
    None
}

/// The document to store for a record reported at `now` by a job with
/// these tags.
pub fn build_document(pairs: &Vec<(String, String)>, tags: &Vec<String>, now: i64) -> (doc: ResultDocument)
    ensures
        doc@ == candidate_document(record_map(pairs@), texts(tags@), now),
{
    let mut doc = ResultDocument::new();
    assert(doc@ =~= text_document(record_map(pairs@.take(0))));
    let mut i: usize = 0;
    while i < pairs.len()
        invariant
            i <= pairs.len(),
            doc@ == text_document(record_map(pairs@.take(i as int))),
        decreases pairs.len() - i,
    {
        let ghost before = record_map(pairs@.take(i as int));
        assert(pairs@.take(i as int + 1).drop_last() =~= pairs@.take(i as int));
        doc.insert(pairs[i].0.clone(), Value::Text(pairs[i].1.clone()));
        assert(doc@ =~= text_document(before.insert(pairs@[i as int].0@, pairs@[i as int].1@)));
        i = i + 1;
    }
    assert(pairs@.take(i as int) =~= pairs@);
    doc.insert(owned("gamayun_created_at"), Value::Instant(now));
    doc.insert(owned("gamayun_updated_at"), Value::Instant(now));
    doc.insert(owned("gamayun_tags"), Value::Tags(clone_strings(tags)));
    doc
}

} // verus!
