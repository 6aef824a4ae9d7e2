//! Connection settings of a search provider.
use vstd::prelude::*;
use crate::error::SearchError;
use std::time::Duration;

verus! {

/// Credentials and options of each provider.
#[derive(Debug, Clone)]
#[allow(inconsistent_fields)]
pub enum ProviderConfig {
    Algolia { app_id: String, api_key: String },
    ElasticSearch {
        username: Option<String>,
        password: Option<String>,
        cloud_id: Option<String>,
        ca_cert: Option<String>,
    },
    OpenSearch {
        username: Option<String>,
        password: Option<String>,
        aws_region: Option<String>,
        aws_access_key: Option<String>,
        aws_secret_key: Option<String>,
    },
    Typesense { api_key: String, nodes: Vec<String> },
    Meilisearch { api_key: Option<String>, master_key: Option<String> },
}

/// Settings shared by all providers.
#[derive(Debug)]
pub struct SearchConfig {
    pub endpoint: Option<String>,
    pub timeout: Duration,
    pub max_retries: u32,
    pub log_level: String,
    pub provider_config: ProviderConfig,
}

/// The settings are usable: Algolia needs an application id and an API key,
/// Typesense an API key and at least one node; the others need nothing.
pub open spec fn valid_config(c: SearchConfig) -> bool {
    match c.provider_config {
        ProviderConfig::Algolia { app_id, api_key } => app_id@.len() > 0 && api_key@.len() > 0,
        ProviderConfig::Typesense { api_key, nodes } => api_key@.len() > 0 && nodes@.len() > 0,
        _ => true,
    }
}

impl SearchConfig {
    /// The endpoint, when one is set.
    pub fn get_endpoint(&self) -> (r: Option<&str>)
        ensures
            self.endpoint matches Some(e) ==> (r matches Some(s) && s@ == e@),
            self.endpoint is None ==> r is None,
    {
        match &self.endpoint {
            Some(e) => Some(e.as_str()),
            None => None,
        }
    }

    /// The request timeout.
    pub fn get_timeout(&self) -> (r: Duration)
        ensures
            r == self.timeout,
    {
        self.timeout
    }

    /// The number of retries of a failed request.
    pub fn get_max_retries(&self) -> (r: u32)
        ensures
            r == self.max_retries,
    {
        self.max_retries
    }

    /// The log level.
    pub fn get_log_level(&self) -> (r: &str)
        ensures
            r@ == self.log_level@,
    {
        self.log_level.as_str()
    }

    /// Checks the provider's credentials.
    pub fn validate(&self) -> (r: Result<(), SearchError>)
        ensures
            r is Ok <==> valid_config(*self),
            r matches Err(e) ==> e is InvalidQuery,
    {
        match &self.provider_config {
            ProviderConfig::Algolia { app_id, api_key } => {
                if app_id.as_str().is_empty() || api_key.as_str().is_empty() {
                    return Err(SearchError::invalid_query("Algolia app_id and api_key must not be empty"));
                }
            },
            ProviderConfig::Typesense { api_key, nodes } => {
                if api_key.as_str().is_empty() {
                    return Err(SearchError::invalid_query("Typesense api_key must not be empty"));
                }
                if nodes.len() == 0 {
                    return Err(SearchError::invalid_query("At least one Typesense node must be specified"));
                }
            },
            _ => {},
        }
        Ok(())
    }
}

} // verus!
