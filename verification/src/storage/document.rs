//! Result documents: flat records of named values.
//!
//! A document is held as a document of the store's own kind, so that it
//! goes to the store and comes from it as it is. It is modelled by the map
//! from its field names to their values. This library writes texts,
//! instants and lists of tags; whatever else a stored document holds is
//! seen as a value of another kind.

use crate::text::{clone_strings, same_texts, texts};
use vstd::prelude::*;

verus! {

/// The reserved field that holds when a document was first stored.
pub open spec fn created_at_field() -> Seq<char> {
    "gamayun_created_at"@
}

/// The reserved field that holds when a document was last touched.
pub open spec fn updated_at_field() -> Seq<char> {
    "gamayun_updated_at"@
}

/// The reserved field that holds the tags of the job.
pub open spec fn tags_field() -> Seq<char> {
    "gamayun_tags"@
}

/// What a field of a result document can hold.
#[derive(Debug)]
pub enum Value {
    /// A string that a job reported.
    Text(String),
    /// An instant, in milliseconds since the Unix epoch.
    Instant(i64),
    /// An ordered list of tags.
    Tags(Vec<String>),
}

/// What a field of a stored document holds: one of the kinds of
/// [`Value`], as plain values, or a value of another kind.
pub enum ValueView {
    Text(Seq<char>),
    Instant(i64),
    Tags(Seq<Seq<char>>),
    /// Anything that is no string, no date and no array of strings.
    Other,
}

impl View for Value {
    type V = ValueView;

    open spec fn view(&self) -> ValueView {
        match self {
            Value::Text(s) => ValueView::Text(s@),
            Value::Instant(t) => ValueView::Instant(*t),
            Value::Tags(tags) => ValueView::Tags(texts(tags@)),
        }
    }
}

impl Clone for Value {
    fn clone(&self) -> (r: Self)
        ensures
            r@ == self@,
    {
        match self {
            Value::Text(s) => Value::Text(s.clone()),
            Value::Instant(t) => Value::Instant(*t),
            Value::Tags(tags) => Value::Tags(clone_strings(tags)),
        }
    }
}

impl Value {
    /// Whether two values are of the same kind and hold the same contents.
    pub fn same(&self, other: &Value) -> (r: bool)
        ensures
            r == (self@ == other@),
    {
        match (self, other) {
            (Value::Text(a), Value::Text(b)) => a.eq(b),
            (Value::Instant(a), Value::Instant(b)) => *a == *b,
            (Value::Tags(a), Value::Tags(b)) => same_texts(a, b),
            _ => false,
        }
    }
}

/// One named value of a document.
#[derive(Debug)]
pub struct Field {
    pub name: String,
    pub value: Value,
}

/// The plain form of a document: its values by field name.
pub type DocumentView = Map<Seq<char>, ValueView>;

/// The map that a list of fields stands for. Where a name occurs twice,
/// the later field counts.
pub open spec fn fields_map(fields: Seq<Field>) -> DocumentView
    decreases fields.len(),
{
    if fields.len() == 0 {
        Map::empty()
    } else {
        fields_map(fields.drop_last()).insert(fields.last().name@, fields.last().value@)
    }
}

/// No name occurs twice in a list of fields.
pub open spec fn distinct_names(fields: Seq<Field>) -> bool {
    forall|i: int, j: int|
        0 <= i < j < fields.len() ==> #[trigger] fields[i].name@ != #[trigger] fields[j].name@
}

/// Whether some field of the list carries `name`.
pub open spec fn has_name(fields: Seq<Field>, name: Seq<char>) -> bool {
    exists|i: int| 0 <= i < fields.len() && #[trigger] fields[i].name@ == name
}

/// The map of a list of fields holds exactly the names of the list, and
/// it is finite.
pub proof fn lemma_fields_map_dom(fields: Seq<Field>)
    ensures
        fields_map(fields).dom().finite(),
        forall|name: Seq<char>| #[trigger] fields_map(fields).contains_key(name) <==> has_name(fields, name),
    decreases fields.len(),
{
    if fields.len() > 0 {
        let front = fields.drop_last();
        lemma_fields_map_dom(front);
        assert forall|name: Seq<char>| #[trigger]
            fields_map(fields).contains_key(name) <==> has_name(fields, name) by {
            if has_name(fields, name) {
                let i = choose|i: int| 0 <= i < fields.len() && #[trigger] fields[i].name@ == name;
                if i < fields.len() - 1 {
                    assert(front[i].name@ == name);
                }
            }
            if fields_map(fields).contains_key(name) {
                if name == fields.last().name@ {
                    assert(fields[fields.len() - 1].name@ == name);
                } else {
                    assert(has_name(front, name));
                    let i = choose|i: int| 0 <= i < front.len() && #[trigger] front[i].name@ == name;
                    assert(fields[i].name@ == name);
                }
            }
        }
    }
}

/// A list of fields stays free of repeated names when a field with a
/// new name is appended.
pub proof fn lemma_push_distinct(fields: Seq<Field>, field: Field)
    requires
        distinct_names(fields),
        !fields_map(fields).contains_key(field.name@),
    ensures
        distinct_names(fields.push(field)),
{
    lemma_fields_map_dom(fields);
    let longer = fields.push(field);
    assert forall|i: int, j: int| 0 <= i < j < longer.len() implies #[trigger] longer[i].name@
        != #[trigger] longer[j].name@ by {
        if j == longer.len() - 1 {
            if longer[i].name@ == field.name@ {
                assert(fields[i].name@ == field.name@);
                assert(has_name(fields, field.name@));
            }
        } else {
            assert(fields[i].name@ != fields[j].name@);
        }
    }
}

/// The fields of a document whose values are of a kind that this library
/// reads.
pub open spec fn readable(doc: DocumentView) -> DocumentView {
    Map::new(|name: Seq<char>| doc.contains_key(name) && doc[name] !is Other, |name: Seq<char>| doc[name])
}

/// The readable fields of a document among the given names.
pub open spec fn readable_among(doc: DocumentView, names: Seq<Seq<char>>) -> DocumentView {
    Map::new(
        |name: Seq<char>| names.contains(name) && doc.contains_key(name) && doc[name] !is Other,
        |name: Seq<char>| doc[name],
    )
}

/// The document without fields.
pub open spec fn no_fields() -> DocumentView {
    Map::empty()
}

/// The document type of the store, `mongodb::bson::Document`, taken as
/// it is: nothing is known of a value of it but what the functions below
/// state.
#[verifier::external_type_specification]
#[verifier::external_body]
pub struct ExBsonDocument(mongodb::bson::Document);

/// What a document of the store holds: its values by key. A string is a
/// text, a date an instant by its milliseconds since the Unix epoch, an
/// array of strings a list of tags, and any other value is of another
/// kind.
pub uninterp spec fn bson_fields(raw: mongodb::bson::Document) -> Map<Seq<char>, ValueView>;

/// A document without entries.
///
/// Calls `bson::Document::new`, which makes an empty map.
#[verifier::external_body]
fn bson_new() -> (raw: mongodb::bson::Document)
    ensures
        bson_fields(raw) == no_fields(),
{
    mongodb::bson::Document::new()
}

/// Sets the entry `name` to a string.
///
/// Calls `bson::Document::insert`, which sets the value of the key,
/// whether or not the key was there, and leaves the other entries as they
/// are. A `&str` becomes a BSON string.
#[verifier::external_body]
fn bson_set_text(raw: &mut mongodb::bson::Document, name: &str, text: &str)
    ensures
        bson_fields(*final(raw)) == bson_fields(*old(raw)).insert(name@, ValueView::Text(text@)),
{
    raw.insert(name, text);
}

/// Sets the entry `name` to a date.
///
/// Calls `bson::DateTime::from_millis`, which makes the date that lies
/// `millis` milliseconds after the Unix epoch, and `bson::Document::insert`
/// as above.
#[verifier::external_body]
fn bson_set_instant(raw: &mut mongodb::bson::Document, name: &str, millis: i64)
    ensures
        bson_fields(*final(raw)) == bson_fields(*old(raw)).insert(
            name@,
            ValueView::Instant(millis),
        ),
{
    raw.insert(name, mongodb::bson::DateTime::from_millis(millis));
}

/// Sets the entry `name` to an array of strings.
///
/// Calls `bson::Document::insert` as above. A `Vec<String>` becomes a BSON
/// array that holds each string as a BSON string, in order.
#[verifier::external_body]
fn bson_set_tags(raw: &mut mongodb::bson::Document, name: &str, tags: &Vec<String>)
    ensures
        bson_fields(*final(raw)) == bson_fields(*old(raw)).insert(
            name@,
            ValueView::Tags(texts(tags@)),
        ),
{
    raw.insert(name, tags.clone());
}

/// The string that the entry `name` holds.
///
/// Calls `bson::Document::get_str`, which succeeds exactly when the key is
/// there and its value is a BSON string.
#[verifier::external_body]
fn bson_text(raw: &mongodb::bson::Document, name: &str) -> (r: Option<String>)
    ensures
        match r {
            Some(text) => bson_fields(*raw).contains_key(name@) && bson_fields(*raw)[name@]
                == ValueView::Text(text@),
            None => !(bson_fields(*raw).contains_key(name@) && bson_fields(*raw)[name@] is Text),
        },
{
    raw.get_str(name).ok().map(String::from)
}

/// The date that the entry `name` holds, in milliseconds since the Unix
/// epoch.
///
/// Calls `bson::Document::get_datetime`, which succeeds exactly when the
/// key is there and its value is a BSON date, and reads the date with
/// `bson::DateTime::timestamp_millis`.
#[verifier::external_body]
fn bson_instant(raw: &mongodb::bson::Document, name: &str) -> (r: Option<i64>)
    ensures
        match r {
            Some(millis) => bson_fields(*raw).contains_key(name@) && bson_fields(*raw)[name@]
                == ValueView::Instant(millis),
            None => !(bson_fields(*raw).contains_key(name@) && bson_fields(*raw)[name@] is Instant),
        },
{
    raw.get_datetime(name).ok().map(|date| date.timestamp_millis())
}

/// The strings of the array that the entry `name` holds.
///
/// Calls `bson::Document::get_array`, which succeeds exactly when the key
/// is there and its value is a BSON array, and `bson::Bson::as_str` on each
/// item, which gives the string of a BSON string and nothing for any other
/// value. An array with an item that is no string gives `None`.
#[verifier::external_body]
fn bson_tags(raw: &mongodb::bson::Document, name: &str) -> (r: Option<Vec<String>>)
    ensures
        match r {
            Some(tags) => bson_fields(*raw).contains_key(name@) && bson_fields(*raw)[name@]
                == ValueView::Tags(texts(tags@)),
            None => !(bson_fields(*raw).contains_key(name@) && bson_fields(*raw)[name@] is Tags),
        },
{
    raw.get_array(name).ok()?.iter().map(|item| item.as_str().map(String::from)).collect()
}

/// Whether the document has an entry `name`.
///
/// Calls `bson::Document::contains_key`.
#[verifier::external_body]
fn bson_contains_key(raw: &mongodb::bson::Document, name: &str) -> (r: bool)
    ensures
        r == bson_fields(*raw).contains_key(name@),
{
    raw.contains_key(name)
}

/// The keys of the raw.
///
/// Calls `bson::Document::keys`, which walks the keys of the underlying
/// map; a map holds each of its keys once.
#[verifier::external_body]
fn bson_keys(raw: &mongodb::bson::Document) -> (keys: Vec<String>)
    ensures
        texts(keys@).no_duplicates(),
        forall|name: Seq<char>| bson_fields(*raw).contains_key(name) <==> texts(keys@).contains(name),
{
    raw.keys().cloned().collect()
}

/// A copy of the raw.
///
/// Calls the derived `Clone` of `bson::Document`, which copies every
/// entry.
#[verifier::external_body]
fn bson_clone(raw: &mongodb::bson::Document) -> (copy: mongodb::bson::Document)
    ensures
        bson_fields(copy) == bson_fields(*raw),
{
    raw.clone()
}

/// A result document.
#[derive(Debug)]
pub struct ResultDocument {
    inner: mongodb::bson::Document,
}

impl View for ResultDocument {
    type V = DocumentView;

    closed spec fn view(&self) -> DocumentView {
        bson_fields(self.inner)
    }
}

impl Clone for ResultDocument {
    fn clone(&self) -> (r: Self)
        ensures
            r@ == self@,
    {
        ResultDocument { inner: bson_clone(&self.inner) }
    }
}

impl ResultDocument {
    /// A document without fields.
    pub fn new() -> (r: Self)
        ensures
            r@ == Map::<Seq<char>, ValueView>::empty(),
    {
        ResultDocument { inner: bson_new() }
    }

    /// The document that a document of the store stands for.
    pub fn from_bson(raw: mongodb::bson::Document) -> (r: Self)
        ensures
            r@ == bson_fields(raw),
    {
        ResultDocument { inner: raw }
    }

    /// This document as a document of the store.
    pub fn as_bson(&self) -> (raw: &mongodb::bson::Document)
        ensures
            bson_fields(*raw) == self@,
    {
        &self.inner
    }

    /// This document as a document of the store.
    pub fn into_bson(self) -> (raw: mongodb::bson::Document)
        ensures
            bson_fields(raw) == self@,
    {
        self.inner
    }

    /// Sets the field `name` to `value`, whether or not the document had
    /// such a field.
    pub fn insert(&mut self, name: String, value: Value)
        ensures
            final(self)@ == old(self)@.insert(name@, value@),
    {
        match value {
            Value::Text(text) => bson_set_text(&mut self.inner, name.as_str(), text.as_str()),
            Value::Instant(millis) => bson_set_instant(&mut self.inner, name.as_str(), millis),
            Value::Tags(tags) => bson_set_tags(&mut self.inner, name.as_str(), &tags),
        }
    }

    /// The value of the field `name`, where the document has such a field
    /// and its value is of a kind that this library reads.
    pub fn get(&self, name: &String) -> (r: Option<Value>)
        ensures
            match r {
                Some(value) => self@.contains_key(name@) && self@[name@] == value@,
                None => !self@.contains_key(name@) || self@[name@] is Other,
            },
    {
        match bson_text(&self.inner, name.as_str()) {
            Some(text) => {
                return Some(Value::Text(text));
            },
            None => {},
        }
        match bson_instant(&self.inner, name.as_str()) {
            Some(millis) => {
                return Some(Value::Instant(millis));
            },
            None => {},
        }
        match bson_tags(&self.inner, name.as_str()) {
            Some(tags) => Some(Value::Tags(tags)),
            None => None,
        }
    }

    /// Whether the document has a field `name`, of whatever kind.
    pub fn contains_key(&self, name: &String) -> (r: bool)
        ensures
            r == self@.contains_key(name@),
    {
        bson_contains_key(&self.inner, name.as_str())
    }

    /// The names of the fields, each once.
    pub fn names(&self) -> (names: Vec<String>)
        ensures
            texts(names@).no_duplicates(),
            forall|name: Seq<char>| self@.contains_key(name) <==> texts(names@).contains(name),
    {
        bson_keys(&self.inner)
    }

    /// The number of fields, of whatever kind.
    pub fn len(&self) -> (n: usize)
        ensures
            self@.dom().finite(),
            n == self@.dom().len(),
    {
        let names = self.names();
        proof {
            texts(names@).unique_seq_to_set();
            assert(self@.dom() =~= texts(names@).to_set());
        }
        names.len()
    }

    /// The fields whose values are of a kind that this library reads, each
    /// name once.
    pub fn fields(&self) -> (r: Vec<Field>)
        ensures
            distinct_names(r@),
            fields_map(r@) == readable(self@),
    {
        let names = self.names();
        let ghost all = texts(names@);
        let mut r: Vec<Field> = Vec::new();
        let mut i: usize = 0;
        assert(fields_map(r@) =~= readable_among(self@, all.take(0)));
        while i < names.len()
            invariant
                i <= names.len(),
                all == texts(names@),
                all.no_duplicates(),
                distinct_names(r@),
                fields_map(r@) == readable_among(self@, all.take(i as int)),
            decreases names.len() - i,
        {
            let name = &names[i];
            proof {
                assert(all.take(i as int + 1) =~= all.take(i as int).push(name@));
                assert forall|other: Seq<char>|
                    all.take(i as int + 1).contains(other) <==> all.take(i as int).contains(other) || other
                        == name@ by {
                    if all.take(i as int).contains(other) {
                        let k = choose|k: int| 0 <= k < i && all.take(i as int)[k] == other;
                        assert(all.take(i as int + 1)[k] == other);
                    }
                    if other == name@ {
                        assert(all.take(i as int + 1)[i as int] == other);
                    }
                }
                if all.take(i as int).contains(name@) {
                    let k = choose|k: int| 0 <= k < i && all.take(i as int)[k] == name@;
                    assert(all[k] == all[i as int]);
                }
            }
            match self.get(name) {
                Some(value) => {
                    let field = Field { name: name.clone(), value };
                    proof {
                        lemma_push_distinct(r@, field);
                        assert(r@.push(field).drop_last() =~= r@);
                    }
                    r.push(field);
                },
                None => {},
            }
            proof {
                let next = readable_among(self@, all.take(i as int + 1));
                assert(fields_map(r@).dom() =~= next.dom());
                assert(fields_map(r@) =~= next);
            }
            i = i + 1;
        }
        proof {
            assert(all.take(i as int) =~= all);
            assert(readable_among(self@, all) =~= readable(self@));
        }
        r
    }

    /// The document that holds the given fields, a later one replacing an
    /// earlier one of the same name.
    pub fn from_fields(fields: Vec<Field>) -> (r: Self)
        ensures
            r@ == fields_map(fields@),
    {
        let mut r = ResultDocument::new();
        let mut i: usize = 0;
        while i < fields.len()
            invariant
                i <= fields.len(),
                r@ == fields_map(fields@.take(i as int)),
            decreases fields.len() - i,
        {
            assert(fields@.take(i as int + 1).drop_last() =~= fields@.take(i as int));
            r.insert(fields[i].name.clone(), fields[i].value.clone());
            i = i + 1;
        }
        assert(fields@.take(i as int) =~= fields@);
        r
    }
}

} // verus!
