//! Capability matrices of search providers and graceful degradation of
//! unsupported features: checking a query against what a provider supports,
//! and filling in facets and highlights on the client side where the
//! provider cannot.
use vstd::prelude::*;

pub mod capabilities;
pub mod config;
pub mod detection;
pub mod durability;
pub mod elastic;
pub mod error;
pub mod facets;
pub mod fallbacks;
pub mod highlight;
pub mod index_utils;
pub mod json;
pub mod query_utils;
pub mod rate_limit;
pub mod streaming;
pub mod text;
pub mod types;
pub mod validation;

verus! {

} // verus!
