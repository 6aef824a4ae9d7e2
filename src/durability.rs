//! Settings and bookkeeping of long-running batch and stream operations.
use vstd::prelude::*;
use crate::capabilities::utf8_len;
use crate::error::SearchError;

verus! {

/// Kinds of batch operation.
#[derive(Debug, Clone, Copy, PartialEq, Eq, Structural)]
pub enum BatchOperationType {
    UpsertMany,
    DeleteMany,
    BulkImport,
    IndexRebuilding,
}

/// An item of a batch that failed.
#[derive(Debug, Clone)]
pub struct FailedItem {
    pub item_id: String,
    pub error_message: String,
    pub retryable: bool,
}

/// Progress of a batch operation.
#[derive(Debug, Clone)]
pub struct BatchOperationState {
    pub operation_type: BatchOperationType,
    pub index_name: String,
    pub total_items: usize,
    pub processed_items: usize,
    pub failed_items: Vec<FailedItem>,
    pub checkpoint_data: Option<String>,
    pub started_at: String,
    pub last_checkpoint: Option<String>,
}

impl BatchOperationState {
    /// Every item has been processed.
    pub fn is_complete(&self) -> (r: bool)
        ensures
            r == (self.processed_items >= self.total_items),
    {
        self.processed_items >= self.total_items
    }
}

/// Settings of a streaming operation.
#[derive(Debug, Clone, Copy)]
pub struct StreamConfig {
    pub batch_size: u32,
    pub checkpoint_frequency: u64,
    pub max_retries: u32,
}

impl Default for StreamConfig {
    /// Batches of 100, a checkpoint every 1000 items, 3 retries.
    fn default() -> (r: Self)
        ensures
            r.batch_size == 100,
            r.checkpoint_frequency == 1000,
            r.max_retries == 3,
    {
        StreamConfig { batch_size: 100, checkpoint_frequency: 1000, max_retries: 3 }
    }
}

/// Settings of bulk indexing on ElasticSearch.
#[derive(Debug, Clone)]
pub struct ElasticBulkSettings {
    pub batch_size: usize,
    pub timeout_seconds: u64,
    /// Refresh the index after each bulk request.
    pub refresh: bool,
    pub routing_field: Option<String>,
    /// Create the index when it is missing.
    pub create_if_missing: bool,
}

impl Default for ElasticBulkSettings {
    /// Batches of 1000, 30 s timeout, no refresh, no routing, create when missing.
    fn default() -> (r: Self)
        ensures
            r.batch_size == 1000,
            r.timeout_seconds == 30,
            !r.refresh,
            r.routing_field is None,
            r.create_if_missing,
    {
        ElasticBulkSettings {
            batch_size: 1000,
            timeout_seconds: 30,
            refresh: false,
            routing_field: None,
            create_if_missing: true,
        }
    }
}

/// Settings of a streaming search on ElasticSearch.
#[derive(Debug, Clone)]
pub struct StreamSearchConfig {
    pub batch_size: u32,
    pub checkpoint_frequency: u64,
    pub max_retries: u32,
    pub scroll_timeout: String,
    pub sort_fields: Vec<String>,
}

impl Default for StreamSearchConfig {
    /// Batches of 100, a checkpoint every 1000 items, 3 retries, a 5-minute
    /// scroll, sorted by `_id`.
    fn default() -> (r: Self)
        ensures
            r.batch_size == 100,
            r.checkpoint_frequency == 1000,
            r.max_retries == 3,
            r.scroll_timeout@ == "5m"@,
            r.sort_fields@.len() == 1,
            r.sort_fields@[0]@ == "_id"@,
    {
        let mut sort_fields: Vec<String> = Vec::new();
        sort_fields.push(String::from_str("_id"));
        StreamSearchConfig {
            batch_size: 100,
            checkpoint_frequency: 1000,
            max_retries: 3,
            scroll_timeout: String::from_str("5m"),
            sort_fields,
        }
    }
}

/// Items between checkpoints for `target_checkpoints` checkpoints, at least 1.
pub fn calculate_checkpoint_frequency(total_items: usize, target_checkpoints: usize) -> (r: usize)
    requires
        target_checkpoints > 0,
    ensures
        r == if total_items / target_checkpoints >= 1 { total_items / target_checkpoints } else { 1 },
{
    let calculated = total_items / target_checkpoints;
    if calculated >= 1 {
        calculated
    } else {
        1
    }
}

/// Items between checkpoints for at most `max_checkpoints` checkpoints, at
/// least `min_frequency`.
pub fn calculate_golem_checkpoint_frequency(total_items: usize, max_checkpoints: usize, min_frequency: usize) -> (r: usize)
    requires
        max_checkpoints > 0,
    ensures
        r == if total_items / max_checkpoints >= min_frequency { total_items / max_checkpoints } else { min_frequency },
{
    let calculated = total_items / max_checkpoints;
    if calculated >= min_frequency {
        calculated
    } else {
        min_frequency
    }
}

/// Checks the settings of a checkpointed operation: a positive frequency, a
/// positive number of items, and about 10 KB per checkpoint within
/// `max_memory_mb` megabytes.
pub fn validate_golem_operation_config(total_items: usize, checkpoint_frequency: usize, max_memory_mb: usize) -> (r: Result<
    (),
    SearchError,
>)
    ensures
        r is Ok <==> (checkpoint_frequency > 0 && total_items > 0 && (total_items / checkpoint_frequency) * 10
            <= max_memory_mb * 1024),
        r matches Err(e) ==> e is InvalidQuery,
{
    if checkpoint_frequency == 0 {
        return Err(SearchError::invalid_query("Checkpoint frequency must be greater than 0"));
    }
    if total_items == 0 {
        return Err(SearchError::invalid_query("Total items must be greater than 0"));
    }
    let estimated_checkpoints = (total_items / checkpoint_frequency) as u128;
    let estimated_memory_kb = estimated_checkpoints * 10;
    let limit_kb = (max_memory_mb as u128) * 1024;
    if estimated_memory_kb > limit_kb {
        return Err(SearchError::invalid_query("Estimated memory usage exceeds the limit"));
    }
    Ok(())
}


/// Whether an operation that failed with `error` may succeed when retried:
/// timeouts, rate limits and internal errors.
pub fn is_retryable_error(error: &SearchError) -> (r: bool)
    ensures
        r == (error is Timeout || error is RateLimited || error is Internal),
{
    matches!(error, SearchError::Timeout | SearchError::RateLimited | SearchError::Internal(_))
}

/// Bytes held by the failed items' ids and messages.
pub open spec fn failed_bytes(items: Seq<FailedItem>) -> int
    decreases items.len(),
{
    if items.len() == 0 {
        0
    } else {
        failed_bytes(items.drop_last()) + utf8_len(items.last().item_id@) + utf8_len(items.last().error_message@)
    }
}

/// Estimated memory of a batch state: the struct itself, its index name, the
/// failed items' texts and the checkpoint data.
pub open spec fn state_memory(state: BatchOperationState) -> int {
    vstd::layout::size_of::<BatchOperationState>() + utf8_len(state.index_name@) + failed_bytes(state.failed_items@)
        + match state.checkpoint_data {
        Some(d) => utf8_len(d@) as int,
        None => 0,
    }
}

proof fn lemma_failed_bytes_prefix(items: Seq<FailedItem>, n: int)
    requires
        0 <= n <= items.len(),
    ensures
        0 <= failed_bytes(items.subrange(0, n)) <= failed_bytes(items),
    decreases items.len(),
{
    if n < items.len() {
        assert(items.drop_last().subrange(0, n) =~= items.subrange(0, n));
        lemma_failed_bytes_prefix(items.drop_last(), n);
    } else {
        assert(items.subrange(0, n) =~= items);
        if items.len() > 0 {
            lemma_failed_bytes_prefix(items.drop_last(), items.len() - 1);
            assert(items.drop_last().subrange(0, items.len() - 1) =~= items.drop_last());
        }
    }
}

/// Estimated memory of a batch state, in bytes.
pub fn estimate_state_memory_usage(state: &BatchOperationState) -> (r: usize)
    requires
        state_memory(*state) <= usize::MAX,
    ensures
        r == state_memory(*state),
{
    let ghost items = state.failed_items@;
    let mut failed: usize = 0;
    let mut i: usize = 0;
    proof {
        lemma_failed_bytes_prefix(items, items.len() as int);
    }
    while i < state.failed_items.len()
        invariant
            i <= items.len(),
            items == state.failed_items@,
            state_memory(*state) <= usize::MAX,
            failed == failed_bytes(items.subrange(0, i as int)),
        decreases items.len() - i,
    {
        proof {
            let pre = items.subrange(0, i + 1);
            assert(pre.drop_last() =~= items.subrange(0, i as int));
            lemma_failed_bytes_prefix(items, i + 1);
        }
        let item = &state.failed_items[i];
        failed = failed + item.item_id.as_str().len() + item.error_message.as_str().len();
        i = i + 1;
    }
    assert(items.subrange(0, items.len() as int) =~= items);
    let checkpoint = match &state.checkpoint_data {
        Some(d) => d.as_str().len(),
        None => 0,
    };
    core::mem::size_of::<BatchOperationState>() + state.index_name.as_str().len() + failed + checkpoint
}

/// Estimated storage of a batch state with its JSON encoding (a quarter
/// more) and 256 bytes of platform metadata.
pub fn estimate_golem_storage_overhead(state: &BatchOperationState) -> (r: usize)
    requires
        state_memory(*state) + state_memory(*state) / 4 + 256 <= usize::MAX,
    ensures
        r == state_memory(*state) + state_memory(*state) / 4 + 256,
{
    let base = estimate_state_memory_usage(state);
    base + base / 4 + 256
}

} // verus!
