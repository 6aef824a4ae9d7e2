//! Heuristics on what a query asks of a provider.
use vstd::prelude::*;
use crate::json::{json_member, member_text, parse_json, parsed_json};
use crate::text::{chars_of, contains_chars, first_match, str_eq};
use crate::types::{SearchQuery, strings_view};

verus! {

/// Expected cost of serving a query through fallbacks, from low to high.
#[derive(Debug, Clone, Copy, PartialEq, Eq, PartialOrd, Ord, Structural)]
pub enum PerformanceImpact {
    Low,
    Medium,
    High,
}

impl PerformanceImpact {
    pub open spec fn spec_level(self) -> u8 {
        match self {
            PerformanceImpact::Low => 0,
            PerformanceImpact::Medium => 1,
            PerformanceImpact::High => 2,
        }
    }

    /// Rank of the impact: 0 for low, 1 for medium, 2 for high.
    pub fn level(&self) -> (r: u8)
        ensures
            r == self.spec_level(),
    {
        match self {
            PerformanceImpact::Low => 0,
            PerformanceImpact::Medium => 1,
            PerformanceImpact::High => 2,
        }
    }
}

/// The higher of two impacts.
pub open spec fn max_impact(a: PerformanceImpact, b: PerformanceImpact) -> PerformanceImpact {
    if a.spec_level() >= b.spec_level() {
        a
    } else {
        b
    }
}

/// The impact of degrading one feature: facets by their number (up to 3
/// low, up to 10 medium, more high), highlighting low, streaming medium,
/// vector search high, anything else medium.
pub open spec fn feature_impact(feature: Seq<char>, facet_count: nat) -> PerformanceImpact {
    if feature == "faceted_search"@ {
        if facet_count > 10 {
            PerformanceImpact::High
        } else if facet_count > 3 {
            PerformanceImpact::Medium
        } else {
            PerformanceImpact::Low
        }
    } else if feature == "highlighting"@ {
        PerformanceImpact::Low
    } else if feature == "streaming_search"@ {
        PerformanceImpact::Medium
    } else if feature == "vector_search"@ {
        PerformanceImpact::High
    } else {
        PerformanceImpact::Medium
    }
}

/// The highest impact among the features, low when there are none.
pub open spec fn fallback_impact(features: Seq<Seq<char>>, facet_count: nat) -> PerformanceImpact
    decreases features.len(),
{
    if features.len() == 0 {
        PerformanceImpact::Low
    } else {
        max_impact(fallback_impact(features.drop_last(), facet_count), feature_impact(features.last(), facet_count))
    }
}

/// The filter names a geographic condition.
pub open spec fn geo_filter(f: Seq<char>) -> bool {
    first_match(f, "geo_distance"@) is Some || first_match(f, "geo_bounding_box"@) is Some
        || first_match(f, "latitude"@) is Some || first_match(f, "longitude"@) is Some
}

/// The facet field names a nested aggregation.
pub open spec fn nested_facet(f: Seq<char>) -> bool {
    first_match(f, "nested"@) is Some
}

/// The query's provider parameters name a vector, an embedding or a semantic search.
pub open spec fn vector_params(query: SearchQuery) -> bool {
    match query.config {
        Some(c) => match c.provider_params {
            Some(p) => match parsed_json(p@) {
                Some(v) => json_member(v, "vector"@) is Some || json_member(v, "embedding"@) is Some
                    || json_member(v, "semantic"@) is Some,
                None => false,
            },
            None => false,
        },
        None => false,
    }
}

fn contains_text(h: &str, n: &str) -> (r: bool)
    ensures
        r == (first_match(h@, n@) is Some),
{
    let hc = chars_of(h);
    let nc = chars_of(n);
    contains_chars(&hc, &nc)
}

/// Heuristics on what a query asks of a provider.
pub struct FeatureDetector;

impl FeatureDetector {
    /// The provider parameters (JSON) have a `vector`, `embedding` or `semantic` key.
    pub fn uses_vector_search(query: &SearchQuery) -> (r: bool)
        ensures
            r == vector_params(*query),
    {
        if let Some(config) = &query.config {
            if let Some(params) = &config.provider_params {
                if let Some(v) = parse_json(params.as_str()) {
                    return member_text(&v, "vector").is_some() || member_text(&v, "embedding").is_some()
                        || member_text(&v, "semantic").is_some();
                }
            }
        }
        false
    }

    /// Some filter mentions `geo_distance`, `geo_bounding_box`, `latitude` or `longitude`.
    pub fn uses_geo_search(query: &SearchQuery) -> (r: bool)
        ensures
            r == exists|i: int| 0 <= i < query.filters@.len() && #[trigger] geo_filter(query.filters@[i]@),
    {
        let mut i: usize = 0;
        while i < query.filters.len()
            invariant
                i <= query.filters@.len(),
                forall|j: int| 0 <= j < i ==> !#[trigger] geo_filter(query.filters@[j]@),
            decreases query.filters@.len() - i,
        {
            let f = query.filters[i].as_str();
            if contains_text(f, "geo_distance") || contains_text(f, "geo_bounding_box") || contains_text(f, "latitude")
                || contains_text(f, "longitude") {
                assert(geo_filter(query.filters@[i as int]@));
                return true;
            }
            i = i + 1;
        }
        false
    }

    /// More than five facets, or a facet field whose name contains `nested`.
    pub fn uses_advanced_aggregations(query: &SearchQuery) -> (r: bool)
        ensures
            r == (query.facets@.len() > 5 || exists|i: int|
                0 <= i < query.facets@.len() && #[trigger] nested_facet(query.facets@[i]@)),
    {
        if query.facets.len() > 5 {
            return true;
        }
        let mut i: usize = 0;
        while i < query.facets.len()
            invariant
                i <= query.facets@.len(),
                forall|j: int| 0 <= j < i ==> !#[trigger] nested_facet(query.facets@[j]@),
            decreases query.facets@.len() - i,
        {
            if contains_text(query.facets[i].as_str(), "nested") {
                assert(nested_facet(query.facets@[i as int]@));
                return true;
            }
            i = i + 1;
        }
        false
    }

    /// The highest impact among the unsupported features of a query.
    pub fn estimate_fallback_performance_impact(query: &SearchQuery, unsupported_features: &Vec<String>) -> (r: PerformanceImpact)
        ensures
            r == fallback_impact(strings_view(unsupported_features@), query.facets@.len()),
    {
        let ghost features = strings_view(unsupported_features@);
        let facet_count = query.facets.len();
        let mut impact = PerformanceImpact::Low;
        let mut i: usize = 0;
        while i < unsupported_features.len()
            invariant
                i <= unsupported_features@.len(),
                features == strings_view(unsupported_features@),
                facet_count == query.facets@.len(),
                impact == fallback_impact(features.subrange(0, i as int), facet_count as nat),
            decreases unsupported_features@.len() - i,
        {
            proof {
                let fs = features.subrange(0, i + 1);
                assert(fs.drop_last() =~= features.subrange(0, i as int));
                assert(fs.last() == unsupported_features@[i as int]@);
            }
            let feature = unsupported_features[i].as_str();
            let here = if str_eq(feature, "faceted_search") {
                if facet_count > 10 {
                    PerformanceImpact::High
                } else if facet_count > 3 {
                    PerformanceImpact::Medium
                } else {
                    PerformanceImpact::Low
                }
            } else if str_eq(feature, "highlighting") {
                PerformanceImpact::Low
            } else if str_eq(feature, "streaming_search") {
                PerformanceImpact::Medium
            } else if str_eq(feature, "vector_search") {
                PerformanceImpact::High
            } else {
                PerformanceImpact::Medium
            };
            if here.level() > impact.level() {
                impact = here;
            }
            i = i + 1;
        }
        assert(features.subrange(0, features.len() as int) =~= features);
        impact
    }
}

} // verus!
