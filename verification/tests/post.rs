use mongodb::bson::oid::ObjectId;
use mongodb::bson::{Bson, Document};
use rust_at_one::documents::{Post, PostUpsert};
use rust_at_one::error::AppError;
use rust_at_one::mongo::to_object_id;
use rust_at_one::services::{Dto, Query, Record};

const HEX: &str = "5f8d0d55b54764421b7156c3";

fn post(id: Option<&str>, name: Option<&str>, author: Option<&str>) -> Post {
    Post {
        id: id.map(|s| s.to_string()),
        name: name.map(|s| s.to_string()),
        author: author.map(|s| s.to_string()),
    }
}

fn fields(p: &Post) -> (Option<String>, Option<String>, Option<String>) {
    (p.id.clone(), p.name.clone(), p.author.clone())
}

#[test]
fn filter_holds_every_present_field() {
    let doc = post(Some(HEX), Some("One"), Some("X")).to_filter();
    assert_eq!(doc.len(), 3);
    assert_eq!(doc.get_str("name"), Ok("One"));
    assert_eq!(doc.get_str("author"), Ok("X"));
    assert_eq!(doc.get_object_id("_id"), Ok(&ObjectId::with_string(HEX).unwrap()));
}

#[test]
fn filter_omits_absent_fields() {
    let doc = post(None, None, None).to_filter();
    assert!(doc.is_empty());
    let doc = post(None, Some("One"), None).to_filter();
    assert_eq!(doc.len(), 1);
    assert_eq!(doc.get_str("name"), Ok("One"));
    assert!(!doc.contains_key("author"));
    assert!(!doc.contains_key("_id"));
}

#[test]
fn filter_drops_an_identifier_that_does_not_translate() {
    let doc = post(Some("MyId"), Some("One"), None).to_filter();
    assert_eq!(doc.len(), 1);
    assert!(!doc.contains_key("_id"));
    let doc = post(Some(""), None, None).to_filter();
    assert!(doc.is_empty());
    let doc = post(Some("5f8d0d55b54764421b7156cg"), None, None).to_filter();
    assert!(doc.is_empty());
}

#[test]
fn update_never_holds_the_identifier() {
    let doc = post(Some(HEX), Some("One"), Some("X")).to_update();
    assert_eq!(doc.len(), 2);
    assert!(!doc.contains_key("_id"));
    assert_eq!(doc.get_str("name"), Ok("One"));
    assert_eq!(doc.get_str("author"), Ok("X"));
    let doc = post(Some(HEX), None, None).to_update();
    assert!(doc.is_empty());
}

#[test]
fn document_is_read_field_by_field() {
    let mut doc = Document::new();
    doc.insert("_id", ObjectId::with_string(HEX).unwrap());
    doc.insert("name", "One");
    doc.insert("author", "X");
    doc.insert("extra", 5i32);
    let p = Post::from_document(&doc);
    assert_eq!(
        fields(&p),
        (Some(HEX.to_string()), Some("One".to_string()), Some("X".to_string()))
    );
}

#[test]
fn missing_or_mistyped_fields_are_absent() {
    let p = Post::from_document(&Document::new());
    assert_eq!(fields(&p), (None, None, None));

    let mut doc = Document::new();
    doc.insert("_id", "not an object id");
    doc.insert("name", 7i64);
    doc.insert("author", Bson::Null);
    let p = Post::from_document(&doc);
    assert_eq!(fields(&p), (None, None, None));

    let mut doc = Document::new();
    doc.insert("name", ObjectId::with_string(HEX).unwrap());
    doc.insert("author", "X");
    let p = Post::from_document(&doc);
    assert_eq!(fields(&p), (None, None, Some("X".to_string())));
}

#[test]
fn round_trip_keeps_present_fields_and_absent_ones_absent() {
    let cases = vec![
        post(None, None, None),
        post(None, Some("One"), None),
        post(None, None, Some("X")),
        post(Some(HEX), Some("One"), Some("X")),
        post(Some(HEX), None, None),
        post(None, Some(""), Some("")),
    ];
    for p in cases {
        let back = Post::from_document(&p.clone().to_filter());
        assert_eq!(fields(&back), fields(&p));
    }
}

#[test]
fn round_trip_writes_the_identifier_in_lower_case() {
    let p = post(Some("5F8D0D55B54764421B7156C3"), Some("One"), None);
    let back = Post::from_document(&p.to_filter());
    assert_eq!(fields(&back), (Some(HEX.to_string()), Some("One".to_string()), None));
}

#[test]
fn round_trip_loses_an_identifier_that_does_not_translate() {
    let p = post(Some("MyId"), Some("value1"), Some("value2"));
    let back = Post::from_document(&p.to_filter());
    assert_eq!(
        fields(&back),
        (None, Some("value1".to_string()), Some("value2".to_string()))
    );
}

#[test]
fn update_read_back_has_no_identifier() {
    let p = post(Some(HEX), Some("One"), Some("X"));
    let back = Post::from_document(&p.to_update());
    assert_eq!(fields(&back), (None, Some("One".to_string()), Some("X".to_string())));
}

#[test]
fn object_id_from_text() {
    let id = to_object_id(HEX).unwrap();
    assert_eq!(id.to_hex(), HEX);
    let id = to_object_id("5F8D0D55B54764421B7156C3").unwrap();
    assert_eq!(id.to_hex(), HEX);
}

#[test]
fn object_id_refuses_other_text() {
    for text in ["", "MyId", "5f8d0d55b54764421b7156c", "5f8d0d55b54764421b7156c3a", "5f8d0d55b54764421b7156cg", "5f8d0d55b54764421b7156\u{e9}"] {
        assert!(matches!(to_object_id(text), Err(AppError::InternalServerError(_))));
    }
}

#[test]
fn set_id_changes_only_the_identifier() {
    let mut p = post(None, Some("One"), Some("X"));
    p.set_id("abc".to_string());
    assert_eq!(
        fields(&p),
        (Some("abc".to_string()), Some("One".to_string()), Some("X".to_string()))
    );
    p.set_id("def".to_string());
    assert_eq!(p.id, Some("def".to_string()));
}

#[test]
fn query_from_identifier_sets_nothing_else() {
    let q = Post::from_string_id("abc".to_string());
    assert_eq!(fields(&q), (Some("abc".to_string()), None, None));
}

#[test]
fn payload_becomes_a_post_without_identifier() {
    let p: Post = PostUpsert { name: Some("value1".to_string()), author: None }.into();
    assert_eq!(fields(&p), (None, Some("value1".to_string()), None));
    let p = Post::from(PostUpsert {
        name: Some("value1".to_string()),
        author: Some("value2".to_string()),
    });
    assert_eq!(
        fields(&p),
        (None, Some("value1".to_string()), Some("value2".to_string()))
    );
}

#[test]
fn refused_identifier_carries_the_parser_message() {
    let expected = ObjectId::with_string("MyId").unwrap_err().to_string();
    match to_object_id("MyId") {
        Err(AppError::InternalServerError(m)) => assert_eq!(m, expected),
        other => panic!("unexpected: {:?}", other),
    }
}
