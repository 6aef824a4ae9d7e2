use golem_search::index_utils::{validate_field, validate_index_name, validate_schema};
use golem_search::query_utils::{batch_documents, extract_field, validate_document};
use golem_search::rate_limit::RateLimiter;
use golem_search::types::{Doc, FieldType, Schema, SchemaField};

fn field(name: &str, field_type: FieldType, facet: bool, sort: bool) -> SchemaField {
    SchemaField { name: name.to_string(), field_type, required: false, facet, sort, index: true }
}

fn doc(id: &str, content: &str) -> Doc {
    Doc { id: id.to_string(), content: content.to_string() }
}

#[test]
fn index_names() {
    assert!(validate_index_name("products_2024").is_ok());
    assert!(validate_index_name("my-index").is_ok());
    assert!(validate_index_name("   ").is_err());
    assert!(validate_index_name("_hidden").is_err());
    assert!(validate_index_name("-dash").is_err());
    assert!(validate_index_name("bad name").is_err());
    assert!(validate_index_name(&"a".repeat(256)).is_err());
    assert!(validate_index_name(&"a".repeat(255)).is_ok());
}

#[test]
fn schema_fields() {
    assert!(validate_field(&field("location", FieldType::GeoPoint, true, false)).is_err());
    assert!(validate_field(&field("location", FieldType::GeoPoint, false, true)).is_err());
    assert!(validate_field(&field("body", FieldType::Text, false, true)).is_err());
    assert!(validate_field(&field("price", FieldType::Float, true, true)).is_ok());
    assert!(validate_field(&field(" ", FieldType::Keyword, false, false)).is_err());
}

#[test]
fn schemas() {
    let empty = Schema { fields: vec![], primary_key: None };
    assert!(validate_schema(&empty).is_err());
    let dup = Schema {
        fields: vec![field("a", FieldType::Keyword, false, false), field("a", FieldType::Integer, false, false)],
        primary_key: None,
    };
    assert!(validate_schema(&dup).is_err());
    let ok = Schema {
        fields: vec![field("id", FieldType::Keyword, false, false), field("title", FieldType::Text, false, false)],
        primary_key: Some("id".to_string()),
    };
    assert!(validate_schema(&ok).is_ok());
    let bad_key = Schema { fields: ok.fields.clone(), primary_key: Some("missing".to_string()) };
    assert!(validate_schema(&bad_key).is_err());
}

#[test]
fn batching_by_count_and_bytes() {
    let docs = vec![doc("1", "aaaa"), doc("2", "bbbb"), doc("3", "cccc"), doc("4", "dd")];
    let by_count = batch_documents(docs.clone(), 2, 1000);
    let ids: Vec<Vec<&str>> = by_count.iter().map(|b| b.iter().map(|d| d.id.as_str()).collect()).collect();
    assert_eq!(ids, vec![vec!["1", "2"], vec!["3", "4"]]);

    // Each document is 5 bytes (or 3); at most 10 bytes per batch.
    let by_bytes = batch_documents(docs.clone(), 10, 10);
    let ids: Vec<Vec<&str>> = by_bytes.iter().map(|b| b.iter().map(|d| d.id.as_str()).collect()).collect();
    assert_eq!(ids, vec![vec!["1", "2"], vec!["3", "4"]]);

    // A document larger than the byte limit still gets a batch of its own.
    let big = batch_documents(vec![doc("1", "xxxxxxxxxxxx"), doc("2", "y")], 10, 5);
    assert_eq!(big.len(), 2);
    assert!(batch_documents(vec![], 10, 10).is_empty());
}

#[test]
fn rate_limiter_refills_per_second() {
    let mut limiter = RateLimiter::new(2, 1, 0);
    assert!(limiter.try_acquire(10));
    assert!(limiter.try_acquire(20));
    assert!(!limiter.try_acquire(900));
    assert!(limiter.try_acquire(1000));
    assert!(!limiter.try_acquire(1500));
    // Three seconds later the bucket is full again, but no fuller than 2.
    assert!(limiter.try_acquire(5000));
    assert!(limiter.try_acquire(5000));
    assert!(!limiter.try_acquire(5000));
    assert_eq!(limiter.retry_delay_ms(), 1000);
    assert_eq!(RateLimiter::new(1, 0, 0).retry_delay_ms(), 1000);
    assert_eq!(RateLimiter::new(1, 4, 0).retry_delay_ms(), 250);
}

#[test]
fn test_document_validation() {
    // Test valid document
    let valid_doc = Doc {
        id: "doc1".to_string(),
        content: r#"{"title":"Test Document","content":"This is test content"}"#.to_string(),
    };

    assert!(validate_document(&valid_doc).is_ok());

    // Test invalid document with empty ID
    let invalid_doc = Doc {
        id: "".to_string(),
        content: r#"{"title":"Test Document","content":"This is test content"}"#.to_string(),
    };

    assert!(validate_document(&invalid_doc).is_err());

    // Test document with malformed JSON content
    let malformed_doc = Doc {
        id: "doc2".to_string(),
        content: "invalid json {".to_string(),
    };

    assert!(validate_document(&malformed_doc).is_err());
}

#[test]
fn extracting_fields() {
    let d = doc("1", r#"{"title": "Rust", "tags": ["a", "b"]}"#);
    assert_eq!(extract_field(&d, "title").unwrap(), Some("\"Rust\"".to_string()));
    assert_eq!(extract_field(&d, "tags").unwrap(), Some("[\"a\",\"b\"]".to_string()));
    assert_eq!(extract_field(&d, "missing").unwrap(), None);
    assert!(extract_field(&doc("2", "{oops"), "title").is_err());
}

#[test]
fn acquires_within_one_second_do_not_refill() {
    let mut limiter = RateLimiter::new(1, 5, 0);
    assert!(limiter.try_acquire(500));
    assert!(!limiter.try_acquire(500));
    assert!(!limiter.try_acquire(999));
    assert!(limiter.try_acquire(1000));
}
