use golem_search::durability::{
    estimate_golem_storage_overhead, estimate_state_memory_usage, BatchOperationState, BatchOperationType, FailedItem,
    calculate_checkpoint_frequency, calculate_golem_checkpoint_frequency, validate_golem_operation_config,
    ElasticBulkSettings, StreamConfig, StreamSearchConfig,
};

#[test]
fn test_elastic_bulk_settings_default() {
    let settings = ElasticBulkSettings::default();
    assert_eq!(settings.batch_size, 1000);
    assert_eq!(settings.timeout_seconds, 30);
    assert!(!settings.refresh);
    assert!(settings.create_if_missing);
}

#[test]
fn test_stream_search_config_default() {
    let config = StreamSearchConfig::default();
    assert_eq!(config.batch_size, 100);
    assert_eq!(config.checkpoint_frequency, 1000);
    assert_eq!(config.max_retries, 3);
    assert_eq!(config.scroll_timeout, "5m");
}

#[test]
fn test_checkpoint_frequency_calculation() {
    let freq = calculate_golem_checkpoint_frequency(1000, 10, 5);
    assert_eq!(freq, 100);

    let freq_min = calculate_golem_checkpoint_frequency(10, 100, 5);
    assert_eq!(freq_min, 5); // Should respect minimum
}

#[test]
fn test_operation_config_validation() {
    // Valid config
    assert!(validate_golem_operation_config(1000, 10, 100).is_ok());

    // Invalid: zero checkpoint frequency
    assert!(validate_golem_operation_config(1000, 0, 100).is_err());

    // Invalid: zero total items
    assert!(validate_golem_operation_config(0, 10, 100).is_err());
}

#[test]
fn memory_budget_is_enforced() {
    // 1000 checkpoints of about 10 KB each do not fit in 1 MB.
    assert!(validate_golem_operation_config(1000, 1, 1).is_err());
    assert!(validate_golem_operation_config(100, 1, 1).is_ok());
}

#[test]
fn checkpoint_frequency_is_at_least_one() {
    assert_eq!(calculate_checkpoint_frequency(5, 10), 1);
    assert_eq!(calculate_checkpoint_frequency(1000, 10), 100);
}

#[test]
fn stream_config_defaults() {
    let c = StreamConfig::default();
    assert_eq!(c.batch_size, 100);
    assert_eq!(c.checkpoint_frequency, 1000);
    assert_eq!(c.max_retries, 3);
}

#[test]
fn state_memory_estimates() {
    let state = BatchOperationState {
        operation_type: BatchOperationType::UpsertMany,
        index_name: "books".to_string(),
        total_items: 10,
        processed_items: 4,
        failed_items: vec![FailedItem { item_id: "d1".to_string(), error_message: "bad".to_string(), retryable: false }],
        checkpoint_data: Some("0123".to_string()),
        started_at: "t0".to_string(),
        last_checkpoint: None,
    };
    let base = std::mem::size_of::<BatchOperationState>();
    assert_eq!(estimate_state_memory_usage(&state), base + 5 + 5 + 4);
    let m = base + 14;
    assert_eq!(estimate_golem_storage_overhead(&state), m + m / 4 + 256);
    assert!(!state.is_complete());
}
