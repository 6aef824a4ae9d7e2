use golem_search::types::{FieldType, QueryBuilder, SchemaBuilder, SearchCapabilities};

#[test]
fn test_query_builder() {
    // Test basic query building
    let query = QueryBuilder::new()
        .query("test search")
        .filter("category:programming")
        .sort("rating:desc")
        .facet("category")
        .page(1, 10)
        .build();

    assert_eq!(query.q, Some("test search".to_string()));
    assert_eq!(query.filters.len(), 1);
    assert_eq!(query.sort.len(), 1);
    assert_eq!(query.facets.len(), 1);
    assert_eq!(query.page, Some(1));
    assert_eq!(query.per_page, Some(10));
}

#[test]
fn test_schema_builder() {
    // Test schema building
    let schema = SchemaBuilder::new()
        .primary_key("id")
        .text_field("title")
        .keyword_field("category")
        .integer_field("rating")
        .float_field("price")
        .boolean_field("featured")
        .build();

    assert_eq!(schema.primary_key, Some("id".to_string()));
    assert_eq!(schema.fields.len(), 5);

    // Check field types
    let title_field = schema.fields.iter().find(|f| f.name == "title").unwrap();
    assert_eq!(title_field.field_type, FieldType::Text);

    let price_field = schema.fields.iter().find(|f| f.name == "price").unwrap();
    assert_eq!(price_field.field_type, FieldType::Float);
}

#[test]
fn test_search_capabilities() {
    // Test default capabilities
    let default_caps = SearchCapabilities::default();
    assert!(default_caps.supports_index_creation);
    assert!(default_caps.supports_schema_definition);
    assert!(default_caps.supports_full_text_search);
    assert!(!default_caps.supports_facets);
    assert!(!default_caps.supports_highlighting);

    // Test custom capabilities
    let mut custom_caps = SearchCapabilities::default();
    custom_caps.supports_facets = true;
    custom_caps.supports_highlighting = true;
    custom_caps.max_batch_size = Some(1000);

    assert!(custom_caps.supports_facets);
    assert!(custom_caps.supports_highlighting);
    assert_eq!(custom_caps.max_batch_size, Some(1000));
}

#[test]
fn builder_offsets_and_flags() {
    let q = QueryBuilder::new()
        .filters(vec!["a:1".to_string(), "b:2".to_string()])
        .sorts(vec!["x".to_string()])
        .offset(40, 20)
        .build();
    assert_eq!(q.filters, vec!["a:1".to_string(), "b:2".to_string()]);
    assert_eq!(q.offset, Some(40));
    assert_eq!(q.per_page, Some(20));
    assert_eq!(q.page, None);

    let schema = SchemaBuilder::new().geo_field("location").date_field("at").build();
    assert_eq!(schema.primary_key, None);
    assert!(!schema.fields[0].facet && !schema.fields[0].sort && schema.fields[0].index);
    assert_eq!(schema.fields[1].field_type, FieldType::Date);
    assert!(schema.fields[1].facet && schema.fields[1].sort);
}
