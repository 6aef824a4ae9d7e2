//! The common query, hit and result model shared with provider adapters.
use vstd::prelude::*;

verus! {

/// Highlighting options of a query.
#[derive(Debug, Clone)]
pub struct HighlightConfig {
    /// Fields whose text is highlighted.
    pub fields: Vec<String>,
    /// Markup put before a matched term (`<mark>` when absent).
    pub pre_tag: Option<String>,
    /// Markup put after a matched term (`</mark>` when absent).
    pub post_tag: Option<String>,
    /// Longest snippet, in characters.
    pub max_length: Option<u32>,
}

/// Per-query search options.
///
/// Boost factors are single-precision floats on the wire; they are held here
/// as their IEEE-754 bit patterns (`f32::to_bits`).
#[derive(Debug, Clone)]
pub struct SearchConfig {
    pub timeout_ms: Option<u32>,
    pub boost_fields: Vec<(String, u32)>,
    pub attributes_to_retrieve: Vec<String>,
    pub language: Option<String>,
    pub typo_tolerance: Option<bool>,
    pub exact_match_boost: Option<u32>,
    /// Provider-specific parameters, as JSON text.
    pub provider_params: Option<String>,
}

/// A search request.
#[derive(Debug, Clone)]
pub struct SearchQuery {
    /// Free text.
    pub q: Option<String>,
    /// Filter expressions in the provider's own syntax.
    pub filters: Vec<String>,
    /// Sort expressions (`field` or `field:direction`).
    pub sort: Vec<String>,
    /// Fields to compute facets on.
    pub facets: Vec<String>,
    pub page: Option<u32>,
    pub per_page: Option<u32>,
    pub offset: Option<u32>,
    pub highlight: Option<HighlightConfig>,
    pub config: Option<SearchConfig>,
}

/// One hit of a result set.
///
/// The relevance score is a double on the wire and is held as its IEEE-754
/// bit pattern (`f64::to_bits`).
#[derive(Debug, Clone)]
pub struct SearchHit {
    pub id: String,
    pub score: Option<u64>,
    /// The document, as JSON text.
    pub content: Option<String>,
    /// Highlights, as JSON text (`{"field": ["snippet", ...]}`).
    pub highlights: Option<String>,
}

/// A result set.
#[derive(Debug, Clone)]
pub struct SearchResults {
    pub total: Option<u32>,
    pub page: Option<u32>,
    pub per_page: Option<u32>,
    pub hits: Vec<SearchHit>,
    /// Facets, as JSON text (`{"field": {"value": count}}`).
    pub facets: Option<String>,
    pub took_ms: Option<u32>,
}

/// Abstract view of a hit: its strings as character sequences.
pub struct HitView {
    pub id: Seq<char>,
    pub score: Option<u64>,
    pub content: Option<Seq<char>>,
    pub highlights: Option<Seq<char>>,
}

/// Abstract view of a result set.
pub struct ResultsView {
    pub total: Option<u32>,
    pub page: Option<u32>,
    pub per_page: Option<u32>,
    pub hits: Seq<HitView>,
    pub facets: Option<Seq<char>>,
    pub took_ms: Option<u32>,
}

pub open spec fn opt_view(s: Option<String>) -> Option<Seq<char>> {
    match s {
        Some(t) => Some(t@),
        None => None,
    }
}

pub open spec fn strings_view(v: Seq<String>) -> Seq<Seq<char>> {
    v.map_values(|s: String| s@)
}

impl View for SearchHit {
    type V = HitView;

    open spec fn view(&self) -> HitView {
        HitView {
            id: self.id@,
            score: self.score,
            content: opt_view(self.content),
            highlights: opt_view(self.highlights),
        }
    }
}

pub open spec fn hits_view(hits: Seq<SearchHit>) -> Seq<HitView> {
    hits.map_values(|h: SearchHit| h@)
}

impl View for SearchResults {
    type V = ResultsView;

    open spec fn view(&self) -> ResultsView {
        ResultsView {
            total: self.total,
            page: self.page,
            per_page: self.per_page,
            hits: hits_view(self.hits@),
            facets: opt_view(self.facets),
            took_ms: self.took_ms,
        }
    }
}

/// A stored document: its id and its JSON content.
#[derive(Debug, Clone)]
pub struct Doc {
    pub id: String,
    pub content: String,
}

/// Type of a schema field.
#[derive(Debug, Clone, Copy, PartialEq, Eq, Structural)]
pub enum FieldType {
    Text,
    Keyword,
    Integer,
    Float,
    Boolean,
    Date,
    GeoPoint,
}

/// One field of an index schema.
#[derive(Debug, Clone)]
pub struct SchemaField {
    pub name: String,
    pub field_type: FieldType,
    pub required: bool,
    pub facet: bool,
    pub sort: bool,
    pub index: bool,
}

/// An index schema.
#[derive(Debug, Clone)]
pub struct Schema {
    pub fields: Vec<SchemaField>,
    pub primary_key: Option<String>,
}

/// Health of an index.
#[derive(Debug, Clone, Copy, PartialEq, Eq, Structural)]
pub enum IndexHealth {
    Green,
    Yellow,
    Red,
    Unknown,
}

/// Statistics of one index.
#[derive(Debug, Clone)]
pub struct IndexStats {
    pub name: String,
    pub document_count: u64,
    pub size_bytes: u64,
    pub last_updated: Option<String>,
    pub health_status: IndexHealth,
    pub shard_count: Option<u32>,
    pub replica_count: Option<u32>,
}


/// Builds a query step by step.
#[derive(Debug, Clone)]
pub struct QueryBuilder {
    query: SearchQuery,
}

impl QueryBuilder {
    pub closed spec fn spec_query(&self) -> SearchQuery {
        self.query
    }

    /// A query with no text, no filters, sorts or facets, no paging, no highlighting.
    pub fn new() -> (r: Self)
        ensures
            r.spec_query().q is None,
            r.spec_query().filters@.len() == 0,
            r.spec_query().sort@.len() == 0,
            r.spec_query().facets@.len() == 0,
            r.spec_query().page is None,
            r.spec_query().per_page is None,
            r.spec_query().offset is None,
            r.spec_query().highlight is None,
            r.spec_query().config is None,
    {
        QueryBuilder {
            query: SearchQuery {
                q: None,
                filters: Vec::new(),
                sort: Vec::new(),
                facets: Vec::new(),
                page: None,
                per_page: None,
                offset: None,
                highlight: None,
                config: None,
            },
        }
    }

    /// Sets the free text.
    pub fn query(self, q: &str) -> (r: Self)
        ensures
            r.spec_query().q matches Some(t) && t@ == q@,
            r.spec_query() == (SearchQuery { q: r.spec_query().q, ..self.spec_query() }),
    {
        let mut b = self;
        b.query.q = Some(String::from_str(q));
        b
    }

    /// Adds a filter.
    pub fn filter(self, filter: &str) -> (r: Self)
        ensures
            strings_view(r.spec_query().filters@) == strings_view(self.spec_query().filters@).push(filter@),
            r.spec_query() == (SearchQuery { filters: r.spec_query().filters, ..self.spec_query() }),
    {
        let mut b = self;
        b.query.filters.push(String::from_str(filter));
        proof {
            assert(strings_view(b.query.filters@) =~= strings_view(self.query.filters@).push(filter@));
        }
        b
    }

    /// Adds several filters.
    pub fn filters(self, filters: Vec<String>) -> (r: Self)
        ensures
            r.spec_query().filters@ == self.spec_query().filters@ + filters@,
            r.spec_query() == (SearchQuery { filters: r.spec_query().filters, ..self.spec_query() }),
    {
        let mut b = self;
        let mut more = filters;
        b.query.filters.append(&mut more);
        b
    }

    /// Adds a sort expression.
    pub fn sort(self, sort: &str) -> (r: Self)
        ensures
            strings_view(r.spec_query().sort@) == strings_view(self.spec_query().sort@).push(sort@),
            r.spec_query() == (SearchQuery { sort: r.spec_query().sort, ..self.spec_query() }),
    {
        let mut b = self;
        b.query.sort.push(String::from_str(sort));
        proof {
            assert(strings_view(b.query.sort@) =~= strings_view(self.query.sort@).push(sort@));
        }
        b
    }

    /// Adds several sort expressions.
    pub fn sorts(self, sorts: Vec<String>) -> (r: Self)
        ensures
            r.spec_query().sort@ == self.spec_query().sort@ + sorts@,
            r.spec_query() == (SearchQuery { sort: r.spec_query().sort, ..self.spec_query() }),
    {
        let mut b = self;
        let mut more = sorts;
        b.query.sort.append(&mut more);
        b
    }

    /// Adds a facet field.
    pub fn facet(self, facet: &str) -> (r: Self)
        ensures
            strings_view(r.spec_query().facets@) == strings_view(self.spec_query().facets@).push(facet@),
            r.spec_query() == (SearchQuery { facets: r.spec_query().facets, ..self.spec_query() }),
    {
        let mut b = self;
        b.query.facets.push(String::from_str(facet));
        proof {
            assert(strings_view(b.query.facets@) =~= strings_view(self.query.facets@).push(facet@));
        }
        b
    }

    /// Sets page and page size.
    pub fn page(self, page: u32, per_page: u32) -> (r: Self)
        ensures
            r.spec_query() == (SearchQuery { page: Some(page), per_page: Some(per_page), ..self.spec_query() }),
    {
        let mut b = self;
        b.query.page = Some(page);
        b.query.per_page = Some(per_page);
        b
    }

    /// Sets offset and page size.
    pub fn offset(self, offset: u32, limit: u32) -> (r: Self)
        ensures
            r.spec_query() == (SearchQuery { offset: Some(offset), per_page: Some(limit), ..self.spec_query() }),
    {
        let mut b = self;
        b.query.offset = Some(offset);
        b.query.per_page = Some(limit);
        b
    }

    /// Sets the highlighting options.
    pub fn highlight(self, config: HighlightConfig) -> (r: Self)
        ensures
            r.spec_query() == (SearchQuery { highlight: Some(config), ..self.spec_query() }),
    {
        let mut b = self;
        b.query.highlight = Some(config);
        b
    }

    /// Sets the search options.
    pub fn config(self, config: SearchConfig) -> (r: Self)
        ensures
            r.spec_query() == (SearchQuery { config: Some(config), ..self.spec_query() }),
    {
        let mut b = self;
        b.query.config = Some(config);
        b
    }

    /// The query built.
    pub fn build(self) -> (r: SearchQuery)
        ensures
            r == self.spec_query(),
    {
        self.query
    }
}

/// Builds a schema step by step.
#[derive(Debug, Clone)]
pub struct SchemaBuilder {
    fields: Vec<SchemaField>,
    primary_key: Option<String>,
}

impl SchemaBuilder {
    pub closed spec fn spec_fields(&self) -> Seq<SchemaField> {
        self.fields@
    }

    pub closed spec fn spec_primary_key(&self) -> Option<String> {
        self.primary_key
    }

    /// A schema with no fields and no primary key.
    pub fn new() -> (r: Self)
        ensures
            r.spec_fields().len() == 0,
            r.spec_primary_key() is None,
    {
        SchemaBuilder { fields: Vec::new(), primary_key: None }
    }

    /// Sets the primary key field.
    pub fn primary_key(self, key: &str) -> (r: Self)
        ensures
            r.spec_primary_key() matches Some(k) && k@ == key@,
            r.spec_fields() == self.spec_fields(),
    {
        let mut b = self;
        b.primary_key = Some(String::from_str(key));
        b
    }

    /// Adds a field.
    pub fn field(self, name: String, field_type: FieldType, required: bool, facet: bool, sort: bool, index: bool) -> (r:
        Self)
        ensures
            r.spec_primary_key() == self.spec_primary_key(),
            r.spec_fields() == self.spec_fields().push(
                SchemaField { name, field_type, required, facet, sort, index },
            ),
    {
        let mut b = self;
        b.fields.push(SchemaField { name, field_type, required, facet, sort, index });
        b
    }

    /// Adds an optional Text field, indexed.
    pub fn text_field(self, name: &str) -> (r: Self)
        ensures
            r.spec_primary_key() == self.spec_primary_key(),
            r.spec_fields().len() == self.spec_fields().len() + 1,
            forall|i: int| 0 <= i < self.spec_fields().len() ==> r.spec_fields()[i] == self.spec_fields()[i],
            r.spec_fields().last().name@ == name@,
            r.spec_fields().last().field_type == FieldType::Text,
            !r.spec_fields().last().required,
            r.spec_fields().last().facet == false,
            r.spec_fields().last().sort == false,
            r.spec_fields().last().index == true,
    {
        self.field(String::from_str(name), FieldType::Text, false, false, false, true)
    }

    /// Adds an optional Keyword field, faceted, sortable, indexed.
    pub fn keyword_field(self, name: &str) -> (r: Self)
        ensures
            r.spec_primary_key() == self.spec_primary_key(),
            r.spec_fields().len() == self.spec_fields().len() + 1,
            forall|i: int| 0 <= i < self.spec_fields().len() ==> r.spec_fields()[i] == self.spec_fields()[i],
            r.spec_fields().last().name@ == name@,
            r.spec_fields().last().field_type == FieldType::Keyword,
            !r.spec_fields().last().required,
            r.spec_fields().last().facet == true,
            r.spec_fields().last().sort == true,
            r.spec_fields().last().index == true,
    {
        self.field(String::from_str(name), FieldType::Keyword, false, true, true, true)
    }

    /// Adds an optional Integer field, faceted, sortable, indexed.
    pub fn integer_field(self, name: &str) -> (r: Self)
        ensures
            r.spec_primary_key() == self.spec_primary_key(),
            r.spec_fields().len() == self.spec_fields().len() + 1,
            forall|i: int| 0 <= i < self.spec_fields().len() ==> r.spec_fields()[i] == self.spec_fields()[i],
            r.spec_fields().last().name@ == name@,
            r.spec_fields().last().field_type == FieldType::Integer,
            !r.spec_fields().last().required,
            r.spec_fields().last().facet == true,
            r.spec_fields().last().sort == true,
            r.spec_fields().last().index == true,
    {
        self.field(String::from_str(name), FieldType::Integer, false, true, true, true)
    }

    /// Adds an optional Float field, faceted, sortable, indexed.
    pub fn float_field(self, name: &str) -> (r: Self)
        ensures
            r.spec_primary_key() == self.spec_primary_key(),
            r.spec_fields().len() == self.spec_fields().len() + 1,
            forall|i: int| 0 <= i < self.spec_fields().len() ==> r.spec_fields()[i] == self.spec_fields()[i],
            r.spec_fields().last().name@ == name@,
            r.spec_fields().last().field_type == FieldType::Float,
            !r.spec_fields().last().required,
            r.spec_fields().last().facet == true,
            r.spec_fields().last().sort == true,
            r.spec_fields().last().index == true,
    {
        self.field(String::from_str(name), FieldType::Float, false, true, true, true)
    }

    /// Adds an optional Boolean field, faceted, indexed.
    pub fn boolean_field(self, name: &str) -> (r: Self)
        ensures
            r.spec_primary_key() == self.spec_primary_key(),
            r.spec_fields().len() == self.spec_fields().len() + 1,
            forall|i: int| 0 <= i < self.spec_fields().len() ==> r.spec_fields()[i] == self.spec_fields()[i],
            r.spec_fields().last().name@ == name@,
            r.spec_fields().last().field_type == FieldType::Boolean,
            !r.spec_fields().last().required,
            r.spec_fields().last().facet == true,
            r.spec_fields().last().sort == false,
            r.spec_fields().last().index == true,
    {
        self.field(String::from_str(name), FieldType::Boolean, false, true, false, true)
    }

    /// Adds an optional Date field, faceted, sortable, indexed.
    pub fn date_field(self, name: &str) -> (r: Self)
        ensures
            r.spec_primary_key() == self.spec_primary_key(),
            r.spec_fields().len() == self.spec_fields().len() + 1,
            forall|i: int| 0 <= i < self.spec_fields().len() ==> r.spec_fields()[i] == self.spec_fields()[i],
            r.spec_fields().last().name@ == name@,
            r.spec_fields().last().field_type == FieldType::Date,
            !r.spec_fields().last().required,
            r.spec_fields().last().facet == true,
            r.spec_fields().last().sort == true,
            r.spec_fields().last().index == true,
    {
        self.field(String::from_str(name), FieldType::Date, false, true, true, true)
    }

    /// Adds an optional GeoPoint field, indexed.
    pub fn geo_field(self, name: &str) -> (r: Self)
        ensures
            r.spec_primary_key() == self.spec_primary_key(),
            r.spec_fields().len() == self.spec_fields().len() + 1,
            forall|i: int| 0 <= i < self.spec_fields().len() ==> r.spec_fields()[i] == self.spec_fields()[i],
            r.spec_fields().last().name@ == name@,
            r.spec_fields().last().field_type == FieldType::GeoPoint,
            !r.spec_fields().last().required,
            r.spec_fields().last().facet == false,
            r.spec_fields().last().sort == false,
            r.spec_fields().last().index == true,
    {
        self.field(String::from_str(name), FieldType::GeoPoint, false, false, false, true)
    }

    /// The schema built.
    pub fn build(self) -> (r: Schema)
        ensures
            r.fields@ == self.spec_fields(),
            r.primary_key == self.spec_primary_key(),
    {
        Schema { fields: self.fields, primary_key: self.primary_key }
    }
}

/// What a search provider supports, as reported to callers.
///
/// `provider_features` maps feature names to JSON texts.
#[derive(Debug, Clone)]
pub struct SearchCapabilities {
    pub supports_index_creation: bool,
    pub supports_schema_definition: bool,
    pub supports_facets: bool,
    pub supports_highlighting: bool,
    pub supports_full_text_search: bool,
    pub supports_vector_search: bool,
    pub supports_streaming: bool,
    pub supports_geo_search: bool,
    pub supports_aggregations: bool,
    pub max_batch_size: Option<u32>,
    pub max_query_size: Option<u32>,
    pub supported_field_types: Vec<FieldType>,
    pub provider_features: Vec<(String, String)>,
}

impl Default for SearchCapabilities {
    /// Index creation, schemas and full-text search; nothing advanced;
    /// batches of 100, queries of 10000 characters; text, keyword, integer,
    /// float and boolean fields.
    fn default() -> (r: Self)
        ensures
            r.supports_index_creation,
            r.supports_schema_definition,
            r.supports_full_text_search,
            !r.supports_facets,
            !r.supports_highlighting,
            !r.supports_vector_search,
            !r.supports_streaming,
            !r.supports_geo_search,
            !r.supports_aggregations,
            r.max_batch_size == Some(100u32),
            r.max_query_size == Some(10000u32),
            r.supported_field_types@ == seq![
                FieldType::Text,
                FieldType::Keyword,
                FieldType::Integer,
                FieldType::Float,
                FieldType::Boolean,
            ],
            r.provider_features@.len() == 0,
    {
        let mut types: Vec<FieldType> = Vec::new();
        types.push(FieldType::Text);
        types.push(FieldType::Keyword);
        types.push(FieldType::Integer);
        types.push(FieldType::Float);
        types.push(FieldType::Boolean);
        assert(types@ =~= seq![FieldType::Text, FieldType::Keyword, FieldType::Integer, FieldType::Float, FieldType::Boolean]);
        SearchCapabilities {
            supports_index_creation: true,
            supports_schema_definition: true,
            supports_facets: false,
            supports_highlighting: false,
            supports_full_text_search: true,
            supports_vector_search: false,
            supports_streaming: false,
            supports_geo_search: false,
            supports_aggregations: false,
            max_batch_size: Some(100),
            max_query_size: Some(10000),
            supported_field_types: types,
            provider_features: Vec::new(),
        }
    }
}


/// A copy of an optional text.
pub(crate) fn copy_opt_string(o: &Option<String>) -> (r: Option<String>)
    ensures
        r == *o,
{
    match o {
        Some(s) => Some(s.clone()),
        None => None,
    }
}

} // verus!
