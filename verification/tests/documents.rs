use gamayun::storage::collection::{Collection, StoreAction};
use gamayun::storage::document::{Field, ResultDocument, Value};
use mongodb::bson::{Bson, DateTime, Document};

fn s(text: &str) -> String {
    text.to_string()
}

fn text(doc: &ResultDocument, name: &str) -> Option<String> {
    match doc.get(&s(name)) {
        Some(Value::Text(v)) => Some(v),
        _ => None,
    }
}

fn instant(doc: &ResultDocument, name: &str) -> Option<i64> {
    match doc.get(&s(name)) {
        Some(Value::Instant(v)) => Some(v),
        _ => None,
    }
}

fn doc(pairs: &[(&str, &str)]) -> ResultDocument {
    let mut d = ResultDocument::new();
    for (k, v) in pairs {
        d.insert(s(k), Value::Text(s(v)));
    }
    d
}

#[test]
fn new_document_has_no_fields() {
    let d = ResultDocument::new();
    assert_eq!(d.len(), 0);
    assert!(d.get(&s("k")).is_none());
    assert!(!d.contains_key(&s("k")));
}

#[test]
fn insert_sets_and_overwrites() {
    let mut d = ResultDocument::new();
    d.insert(s("k"), Value::Text(s("1")));
    d.insert(s("v"), Value::Text(s("a")));
    assert_eq!(d.len(), 2);
    assert_eq!(text(&d, "k"), Some(s("1")));
    d.insert(s("k"), Value::Instant(7));
    assert_eq!(d.len(), 2);
    assert_eq!(instant(&d, "k"), Some(7));
    assert_eq!(text(&d, "v"), Some(s("a")));
    assert!(d.contains_key(&s("v")));
}

#[test]
fn from_fields_lets_the_later_field_win() {
    let d = ResultDocument::from_fields(vec![
        Field { name: s("k"), value: Value::Text(s("old")) },
        Field { name: s("t"), value: Value::Tags(vec![s("x"), s("y")]) },
        Field { name: s("k"), value: Value::Text(s("new")) },
    ]);
    assert_eq!(d.len(), 2);
    assert_eq!(text(&d, "k"), Some(s("new")));
    match d.get(&s("t")) {
        Some(Value::Tags(tags)) => assert_eq!(tags, vec![s("x"), s("y")]),
        other => panic!("unexpected {:?}", other),
    }
    let names: Vec<String> = d.fields().iter().map(|f| f.name.clone()).collect();
    assert_eq!(names.len(), 2);
    assert!(names.contains(&s("k")) && names.contains(&s("t")));
}

#[test]
fn clone_copies_every_field() {
    let mut d = doc(&[("a", "1"), ("b", "2")]);
    let c = d.clone();
    d.insert(s("a"), Value::Text(s("changed")));
    assert_eq!(c.len(), 2);
    assert_eq!(text(&c, "a"), Some(s("1")));
    assert_eq!(text(&c, "b"), Some(s("2")));
}

#[test]
fn values_are_the_same_only_with_kind_and_contents() {
    assert!(Value::Text(s("a")).same(&Value::Text(s("a"))));
    assert!(!Value::Text(s("a")).same(&Value::Text(s("b"))));
    assert!(Value::Instant(5).same(&Value::Instant(5)));
    assert!(!Value::Instant(5).same(&Value::Instant(6)));
    assert!(!Value::Instant(5).same(&Value::Text(s("5"))));
    assert!(Value::Tags(vec![s("x"), s("y")]).same(&Value::Tags(vec![s("x"), s("y")])));
    assert!(!Value::Tags(vec![s("x"), s("y")]).same(&Value::Tags(vec![s("y"), s("x")])));
    assert!(!Value::Tags(vec![s("x")]).same(&Value::Tags(vec![s("x"), s("y")])));
    assert!(Value::Tags(vec![]).same(&Value::Tags(vec![])));
    assert!(!Value::Tags(vec![s("x")]).same(&Value::Text(s("x"))));
    assert!(Value::Text(s("q")).clone().same(&Value::Text(s("q"))));
}

#[test]
fn document_matches_filter_on_every_field_of_the_filter() {
    let d = doc(&[("k", "1"), ("v", "a")]);
    assert!(d.matches(&ResultDocument::new()));
    assert!(d.matches(&doc(&[("k", "1")])));
    assert!(d.matches(&doc(&[("v", "a"), ("k", "1")])));
    assert!(!d.matches(&doc(&[("k", "2")])));
    assert!(!d.matches(&doc(&[("k", "1"), ("missing", "x")])));
    let mut by_instant = ResultDocument::new();
    by_instant.insert(s("k"), Value::Instant(1));
    assert!(!d.matches(&by_instant));
}

#[test]
fn find_one_returns_the_earliest_match() {
    let mut c = Collection::new();
    c.insert_one(doc(&[("k", "1"), ("v", "a")]));
    c.insert_one(doc(&[("k", "2"), ("v", "b")]));
    c.insert_one(doc(&[("k", "1"), ("v", "c")]));
    assert_eq!(c.len(), 3);
    assert_eq!(c.position(&doc(&[("k", "1")])), Some(0));
    assert_eq!(c.position(&doc(&[("k", "2")])), Some(1));
    assert_eq!(c.position(&doc(&[("k", "3")])), None);
    assert_eq!(text(c.find_one(&doc(&[("k", "1")])).unwrap(), "v"), Some(s("a")));
    assert!(c.find_one(&doc(&[("k", "3")])).is_none());
    assert_eq!(text(c.find_one(&ResultDocument::new()).unwrap(), "v"), Some(s("a")));
    assert_eq!(c.count_documents(&doc(&[("k", "1")])), 2);
    assert_eq!(c.count_documents(&ResultDocument::new()), 3);
    assert_eq!(c.count_documents(&doc(&[("k", "9")])), 0);
    assert!(c.get(3).is_none());
    assert_eq!(text(c.get(2).unwrap(), "v"), Some(s("c")));
}

#[test]
fn empty_collection_matches_nothing() {
    let c = Collection::new();
    assert_eq!(c.len(), 0);
    assert!(c.find_one(&ResultDocument::new()).is_none());
    assert_eq!(c.count_documents(&ResultDocument::new()), 0);
    assert!(c.get(0).is_none());
}

#[test]
fn replace_one_changes_the_earliest_match_only() {
    let mut c = Collection::new();
    c.insert_one(doc(&[("k", "1"), ("v", "a")]));
    c.insert_one(doc(&[("k", "1"), ("v", "b")]));
    assert!(c.replace_one(&doc(&[("k", "1")]), doc(&[("k", "1"), ("v", "z")])));
    assert_eq!(c.len(), 2);
    assert_eq!(text(c.get(0).unwrap(), "v"), Some(s("z")));
    assert_eq!(text(c.get(1).unwrap(), "v"), Some(s("b")));
    assert!(!c.replace_one(&doc(&[("k", "7")]), doc(&[("k", "7")])));
    assert_eq!(c.len(), 2);
}

#[test]
fn update_one_sets_one_field_of_the_earliest_match() {
    let mut c = Collection::new();
    c.insert_one(doc(&[("k", "1"), ("v", "a")]));
    c.insert_one(doc(&[("k", "1"), ("v", "b")]));
    assert!(c.update_one(&doc(&[("k", "1")]), s("seen"), Value::Instant(9)));
    assert_eq!(instant(c.get(0).unwrap(), "seen"), Some(9));
    assert_eq!(text(c.get(0).unwrap(), "v"), Some(s("a")));
    assert_eq!(c.get(0).unwrap().len(), 3);
    assert!(c.get(1).unwrap().get(&s("seen")).is_none());
    assert!(!c.update_one(&doc(&[("k", "2")]), s("seen"), Value::Instant(9)));
}

#[test]
fn apply_carries_out_each_action() {
    let mut c = Collection::new();
    c.apply(StoreAction::Insert { document: doc(&[("k", "1"), ("v", "a")]) });
    assert_eq!(c.len(), 1);
    c.apply(StoreAction::Touch { filter: doc(&[("k", "1")]), updated_at: 77 });
    assert_eq!(instant(c.get(0).unwrap(), "gamayun_updated_at"), Some(77));
    assert_eq!(text(c.get(0).unwrap(), "v"), Some(s("a")));
    c.apply(StoreAction::Replace { filter: doc(&[("k", "1")]), document: doc(&[("k", "1"), ("v", "b")]) });
    assert_eq!(c.len(), 1);
    assert_eq!(text(c.get(0).unwrap(), "v"), Some(s("b")));
    assert!(c.get(0).unwrap().get(&s("gamayun_updated_at")).is_none());
    c.apply(StoreAction::Touch { filter: doc(&[("k", "none")]), updated_at: 78 });
    c.apply(StoreAction::Replace { filter: doc(&[("k", "none")]), document: doc(&[("x", "y")]) });
    assert_eq!(c.len(), 1);
    assert_eq!(text(c.get(0).unwrap(), "v"), Some(s("b")));
}

#[test]
fn names_list_every_field_once() {
    let mut d = doc(&[("a", "1"), ("b", "2")]);
    d.insert(s("a"), Value::Instant(3));
    let mut names = d.names();
    names.sort();
    assert_eq!(names, vec![s("a"), s("b")]);
    assert!(ResultDocument::new().names().is_empty());
    assert!(ResultDocument::new().fields().is_empty());
}

#[test]
fn values_go_into_the_store_document_by_kind() {
    let mut d = ResultDocument::new();
    d.insert(s("host"), Value::Text(s("a")));
    d.insert(s("gamayun_created_at"), Value::Instant(1_700_000_000_123));
    d.insert(s("gamayun_tags"), Value::Tags(vec![s("x"), s("y")]));
    let raw = d.as_bson();
    assert_eq!(raw.len(), 3);
    assert_eq!(raw.get("host"), Some(&Bson::String(s("a"))));
    assert_eq!(raw.get("gamayun_created_at"), Some(&Bson::DateTime(DateTime::from_millis(1_700_000_000_123))));
    assert_eq!(
        raw.get("gamayun_tags"),
        Some(&Bson::Array(vec![Bson::String(s("x")), Bson::String(s("y"))]))
    );
    let keys: Vec<&String> = raw.keys().collect();
    assert_eq!(keys, vec!["host", "gamayun_created_at", "gamayun_tags"]);
    d.insert(s("host"), Value::Text(s("b")));
    let raw = d.into_bson();
    assert_eq!(raw.len(), 3);
    assert_eq!(raw.get_str("host"), Ok("b"));
}

#[test]
fn store_document_is_read_by_kind() {
    let mut raw = Document::new();
    raw.insert("v", "a");
    raw.insert("at", DateTime::from_millis(-5));
    raw.insert("tags", vec![s("x")]);
    raw.insert("none", Vec::<String>::new());
    raw.insert("count", 7i32);
    raw.insert("mixed", vec![Bson::String(s("x")), Bson::Int32(1)]);
    raw.insert("nested", Document::new());
    let d = ResultDocument::from_bson(raw);
    assert_eq!(d.len(), 7);
    assert_eq!(text(&d, "v"), Some(s("a")));
    assert_eq!(instant(&d, "at"), Some(-5));
    assert!(matches!(d.get(&s("tags")), Some(Value::Tags(tags)) if tags == vec![s("x")]));
    assert!(matches!(d.get(&s("none")), Some(Value::Tags(tags)) if tags.is_empty()));
    for foreign in ["count", "mixed", "nested"] {
        assert!(d.contains_key(&s(foreign)));
        assert!(d.get(&s(foreign)).is_none());
    }
    assert!(!d.contains_key(&s("absent")));
    assert!(d.get(&s("absent")).is_none());
    let fields = d.fields();
    let names: Vec<String> = fields.iter().map(|f| f.name.clone()).collect();
    assert_eq!(names, vec![s("v"), s("at"), s("tags"), s("none")]);
    assert_eq!(d.names().len(), 7);
}

#[test]
fn values_of_another_kind_match_and_equal_nothing() {
    let mut raw = Document::new();
    raw.insert("k", 1i32);
    let foreign = ResultDocument::from_bson(raw.clone());
    let same_foreign = ResultDocument::from_bson(raw);
    assert!(!foreign.matches(&same_foreign));
    assert!(foreign.matches(&ResultDocument::new()));
    assert!(!foreign.matches(&doc(&[("k", "1")])));
    assert!(!doc(&[("k", "1")]).matches(&foreign));
    let copy = foreign.clone();
    assert!(copy.contains_key(&s("k")));
    assert_eq!(copy.as_bson().get_i32("k"), Ok(1));
}
