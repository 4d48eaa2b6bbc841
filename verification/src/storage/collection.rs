//! A model of one job's collection in the document store.
//!
//! The collection is the sequence of its documents in the order in which
//! they were stored. A lookup by filter returns the earliest match, and an
//! update or a replacement changes the earliest match only. The same rules
//! say what each [`StoreAction`] does to a real collection.

use crate::storage::document::{updated_at_field, DocumentView, ResultDocument, Value, ValueView};
use crate::text::{owned, texts};
use vstd::prelude::*;

verus! {

/// A document matches a filter when it holds every field of the filter
/// with the filter's value. A filter is made of values of the kinds that
/// this library reads; one that holds a value of another kind matches
/// nothing.
pub open spec fn satisfies(doc: DocumentView, filter: DocumentView) -> bool {
    forall|name: Seq<char>| #[trigger]
        filter.contains_key(name) ==> filter[name] !is Other && doc.contains_key(name) && doc[name]
            == filter[name]
}

/// `i` is the position of the earliest document that matches `filter`.
pub open spec fn is_first_match(docs: Seq<DocumentView>, filter: DocumentView, i: int) -> bool {
    &&& 0 <= i < docs.len()
    &&& satisfies(docs[i], filter)
    &&& forall|j: int| 0 <= j < i ==> !satisfies(#[trigger] docs[j], filter)
}

/// The position of the earliest document that matches `filter`.
pub open spec fn find_first(docs: Seq<DocumentView>, filter: DocumentView) -> Option<int> {
    if exists|i: int| is_first_match(docs, filter, i) {
        Some(choose|i: int| is_first_match(docs, filter, i))
    } else {
        None
    }
}

/// Selects the documents that match `filter`.
pub open spec fn matching(filter: DocumentView) -> spec_fn(DocumentView) -> bool {
    |doc: DocumentView| satisfies(doc, filter)
}

/// The number of documents that match `filter`.
pub open spec fn count_matching(docs: Seq<DocumentView>, filter: DocumentView) -> nat {
    docs.filter(matching(filter)).len()
}

/// The earliest match is the only position that is a first match.
pub proof fn lemma_find_first(docs: Seq<DocumentView>, filter: DocumentView, i: int)
    requires
        is_first_match(docs, filter, i),
    ensures
        find_first(docs, filter) == Some(i),
{
    let k = choose|k: int| is_first_match(docs, filter, k);
    if k < i {
        assert(!satisfies(docs[k], filter));
    }
    if i < k {
        assert(!satisfies(docs[i], filter));
    }
}

/// Where no document matches, there is no earliest match.
pub proof fn lemma_find_none(docs: Seq<DocumentView>, filter: DocumentView)
    requires
        forall|j: int| 0 <= j < docs.len() ==> !satisfies(#[trigger] docs[j], filter),
    ensures
        find_first(docs, filter) is None,
{
    if exists|i: int| is_first_match(docs, filter, i) {
        let k = choose|k: int| is_first_match(docs, filter, k);
        assert(!satisfies(docs[k], filter));
    }
}

/// One change to a collection.
#[derive(Debug)]
pub enum StoreAction {
    /// Store `document` as a further document.
    Insert { document: ResultDocument },
    /// Set the update time of the earliest match of `filter`.
    Touch { filter: ResultDocument, updated_at: i64 },
    /// Put `document` in the place of the earliest match of `filter`.
    Replace { filter: ResultDocument, document: ResultDocument },
}

/// A [`StoreAction`] as plain values.
pub enum StoreActionView {
    Insert { document: DocumentView },
    Touch { filter: DocumentView, updated_at: i64 },
    Replace { filter: DocumentView, document: DocumentView },
}

impl View for StoreAction {
    type V = StoreActionView;

    open spec fn view(&self) -> StoreActionView {
        match self {
            StoreAction::Insert { document } => StoreActionView::Insert { document: document@ },
            StoreAction::Touch { filter, updated_at } => StoreActionView::Touch {
                filter: filter@,
                updated_at: *updated_at,
            },
            StoreAction::Replace { filter, document } => StoreActionView::Replace {
                filter: filter@,
                document: document@,
            },
        }
    }
}

/// The collection after `document` was put in the place of the earliest
/// match of `filter`; unchanged where nothing matches.
pub open spec fn replace_first(
    docs: Seq<DocumentView>,
    filter: DocumentView,
    document: DocumentView,
) -> Seq<DocumentView> {
    match find_first(docs, filter) {
        Some(i) => docs.update(i, document),
        None => docs,
    }
}

/// The collection after the field `name` of the earliest match of `filter`
/// was set to `value`; unchanged where nothing matches.
pub open spec fn set_in_first(
    docs: Seq<DocumentView>,
    filter: DocumentView,
    name: Seq<char>,
    value: ValueView,
) -> Seq<DocumentView> {
    match find_first(docs, filter) {
        Some(i) => docs.update(i, docs[i].insert(name, value)),
        None => docs,
    }
}

/// What an action makes of a collection.
pub open spec fn apply_action(docs: Seq<DocumentView>, action: StoreActionView) -> Seq<DocumentView> {
    match action {
        StoreActionView::Insert { document } => docs.push(document),
        StoreActionView::Touch { filter, updated_at } => set_in_first(
            docs,
            filter,
            updated_at_field(),
            ValueView::Instant(updated_at),
        ),
        StoreActionView::Replace { filter, document } => replace_first(docs, filter, document),
    }
}

/// The views of a list of documents, in order.
pub open spec fn document_views(v: Seq<ResultDocument>) -> Seq<DocumentView> {
    Seq::new(v.len(), |i: int| v[i]@)
}

impl ResultDocument {
    /// Whether this document matches `filter`.
    pub fn matches(&self, filter: &ResultDocument) -> (r: bool)
        ensures
            r == satisfies(self@, filter@),
    {
        let names = filter.names();
        let mut i: usize = 0;
        while i < names.len()
            invariant
                i <= names.len(),
                forall|name: Seq<char>| filter@.contains_key(name) <==> texts(names@).contains(name),
                forall|k: int|
                    0 <= k < i ==> filter@[#[trigger] texts(names@)[k]] !is Other && self@.contains_key(
                        texts(names@)[k],
                    ) && self@[texts(names@)[k]] == filter@[texts(names@)[k]],
            decreases names.len() - i,
        {
            assert(texts(names@).contains(texts(names@)[i as int]));
            let same = match filter.get(&names[i]) {
                Some(wanted) => match self.get(&names[i]) {
                    Some(value) => value.same(&wanted),
                    None => false,
                },
                None => false,
            };
            if !same {
                assert(filter@.contains_key(names@[i as int]@));
                return false;
            }
            i = i + 1;
        }
        proof {
            assert forall|name: Seq<char>| #[trigger] filter@.contains_key(name) implies filter@[name]
                !is Other && self@.contains_key(name) && self@[name] == filter@[name] by {
                let k = choose|k: int| 0 <= k < texts(names@).len() && texts(names@)[k] == name;
                assert(filter@[texts(names@)[k]] !is Other);
            }
        }
        true
    }
}

/// The documents of one job, held in memory.
#[derive(Debug)]
pub struct Collection {
    documents: Vec<ResultDocument>,
}

impl View for Collection {
    type V = Seq<DocumentView>;

    closed spec fn view(&self) -> Seq<DocumentView> {
        document_views(self.documents@)
    }
}

impl Collection {
    /// A collection without documents.
    pub fn new() -> (r: Self)
        ensures
            r@ == Seq::<DocumentView>::empty(),
    {
        let r = Collection { documents: Vec::new() };
        assert(r@ =~= Seq::<DocumentView>::empty());
        r
    }

    /// The number of documents.
    pub fn len(&self) -> (n: usize)
        ensures
            n == self@.len(),
    {
        self.documents.len()
    }

    /// The document at position `i`.
    pub fn get(&self, i: usize) -> (r: Option<&ResultDocument>)
        ensures
            r is Some <==> i < self@.len(),
            r is Some ==> r->Some_0@ == self@[i as int],
    {
        if i < self.documents.len() {
            Some(&self.documents[i])
        } else {
            None
        }
    }

    /// The position of the earliest document that matches `filter`.
    pub fn position(&self, filter: &ResultDocument) -> (r: Option<usize>)
        ensures
            match r {
                Some(i) => find_first(self@, filter@) == Some(i as int),
                None => find_first(self@, filter@) is None,
            },
    {
        let mut i: usize = 0;
        while i < self.documents.len()
            invariant
                i <= self.documents.len(),
                forall|j: int| 0 <= j < i ==> !satisfies(#[trigger] self@[j], filter@),
            decreases self.documents.len() - i,
        {
            if self.documents[i].matches(filter) {
                proof {
                    lemma_find_first(self@, filter@, i as int);
                }
                return Some(i);
            }
            i = i + 1;
        }
        proof {
            lemma_find_none(self@, filter@);
        }
        None
    }

    /// The earliest document that matches `filter`.
    pub fn find_one(&self, filter: &ResultDocument) -> (r: Option<&ResultDocument>)
        ensures
            match r {
                Some(doc) => find_first(self@, filter@) is Some && doc@ == self@[find_first(
                    self@,
                    filter@,
                )->Some_0],
                None => find_first(self@, filter@) is None,
            },
    {
        match self.position(filter) {
            Some(i) => {
                assert(is_first_match(self@, filter@, i as int));
                Some(&self.documents[i])
            },
            None => None,
        }
    }

    /// The number of documents that match `filter`.
    pub fn count_documents(&self, filter: &ResultDocument) -> (n: usize)
        ensures
            n == count_matching(self@, filter@),
    {
        let mut n: usize = 0;
        let mut i: usize = 0;
        while i < self.documents.len()
            invariant
                i <= self.documents.len(),
                n <= i,
                n == count_matching(self@.take(i as int), filter@),
            decreases self.documents.len() - i,
        {
            proof {
                assert(self@.take(i as int + 1) =~= self@.take(i as int).push(self@[i as int]));
                self@.take(i as int).lemma_filter_push(self@[i as int], matching(filter@));
            }
            if self.documents[i].matches(filter) {
                n = n + 1;
            }
            i = i + 1;
        }
        assert(self@.take(i as int) =~= self@);
        n
    }

    /// Stores `document` as a further document.
    pub fn insert_one(&mut self, document: ResultDocument)
        ensures
            final(self)@ == old(self)@.push(document@),
    {
        self.documents.push(document);
        assert(self@ =~= old(self)@.push(document@));
    }

    /// Puts `document` in the place of the earliest match of `filter`, and
    /// says whether there was one.
    pub fn replace_one(&mut self, filter: &ResultDocument, document: ResultDocument) -> (replaced: bool)
        ensures
            final(self)@ == replace_first(old(self)@, filter@, document@),
            replaced == find_first(old(self)@, filter@) is Some,
    {
        match self.position(filter) {
            Some(i) => {
                assert(is_first_match(self@, filter@, i as int));
                self.documents.set(i, document);
                assert(self@ =~= old(self)@.update(i as int, document@));
                true
            },
            None => false,
        }
    }

    /// Sets the field `name` of the earliest match of `filter` to `value`,
    /// and says whether there was one.
    pub fn update_one(&mut self, filter: &ResultDocument, name: String, value: Value) -> (updated: bool)
        ensures
            final(self)@ == set_in_first(old(self)@, filter@, name@, value@),
            updated == find_first(old(self)@, filter@) is Some,
    {
        match self.position(filter) {
            Some(i) => {
                assert(is_first_match(self@, filter@, i as int));
                let mut changed = self.documents[i].clone();
                changed.insert(name, value);
                self.documents.set(i, changed);
                assert(self@ =~= old(self)@.update(i as int, old(self)@[i as int].insert(name@, value@)));
                true
            },
            None => false,
        }
    }

    /// Carries out one action.
    pub fn apply(&mut self, action: StoreAction)
        ensures
            final(self)@ == apply_action(old(self)@, action@),
    {
        match action {
            StoreAction::Insert { document } => {
                self.insert_one(document);
            },
            StoreAction::Touch { filter, updated_at } => {
                let name = owned("gamayun_updated_at");
                self.update_one(&filter, name, Value::Instant(updated_at));
            },
            StoreAction::Replace { filter, document } => {
                self.replace_one(&filter, document);
            },
        }
    }
}

} // verus!
