use execution_trace::adapters::config_manager::{
    apply_environment_overrides, ConfigManagerAdapter, Environment, RegistryConfig,
    RetentionRules, TtlConfig, ValidationConstraints,
};
use execution_trace::adapters::observatory::{
    end_span, hex_id, start_span, GovernanceEvent, ObservatoryAdapter, SpanStatus,
};
use execution_trace::adapters::schema_registry::{
    validation_result, ConsumedSchema, SchemaAdapterError, SchemaRegistryAdapter,
    SerializationFormat,
};
use execution_trace::span::Timestamp;

#[test]
fn test_config_adapter_creation() {
    let adapter = ConfigManagerAdapter::new(Environment::Development);
    assert_eq!(adapter.environment(), Environment::Development);
}

#[test]
fn test_get_default_config() {
    let mut adapter = ConfigManagerAdapter::new(Environment::Production);
    adapter.refresh().unwrap();

    let config = adapter.get_config().unwrap();
    assert_eq!(config.environment, Environment::Production);
    assert!(config.validation.strict_mode);
}

#[test]
fn test_ttl_defaults() {
    let mut adapter = ConfigManagerAdapter::default();
    adapter.refresh().unwrap();

    let ttl = adapter.get_ttl_config().unwrap();
    assert_eq!(ttl.default_ttl_secs, 365 * 24 * 60 * 60);
}

#[test]
fn test_retention_defaults() {
    let mut adapter = ConfigManagerAdapter::default();
    adapter.refresh().unwrap();

    let retention = adapter.get_retention_rules().unwrap();
    assert_eq!(retention.min_versions, 3);
    assert!(retention.keep_one_active);
}

#[test]
fn test_validation_constraints() {
    let mut adapter = ConfigManagerAdapter::default();
    adapter.refresh().unwrap();

    let constraints = adapter.get_validation_constraints().unwrap();
    assert!(constraints.required_fields.contains(&"name".to_string()));
    assert!(constraints.allowed_asset_types.contains(&"Model".to_string()));
}

#[test]
fn test_is_stale() {
    let mut adapter = ConfigManagerAdapter::default();

    // Should be stale before first refresh
    assert!(adapter.is_stale(60, Timestamp::now()));

    adapter.refresh().unwrap();

    // Should not be stale immediately after refresh
    assert!(!adapter.is_stale(60, Timestamp::now()));
}

#[test]
fn staleness_counts_whole_seconds() {
    let mut adapter = ConfigManagerAdapter::default();
    adapter.refresh().unwrap();
    let now = Timestamp::now();
    let later = |secs: i64, micros: i64| Timestamp { unix_micros: now.unix_micros + secs * 1_000_000 + micros };
    // the refresh happened at or before `now`
    assert!(!adapter.is_stale(60, now));
    assert!(adapter.is_stale(60, later(62, 0)));
    assert!(adapter.is_stale(0, later(2, 0)));
}

#[test]
fn defaults_match_policy() {
    let ttl = TtlConfig::default();
    assert_eq!(ttl.deprecated_ttl_secs, 90 * 86400);
    assert_eq!(ttl.archived_ttl_secs, 30 * 86400);
    assert_eq!(ttl.cache_ttl_secs, 3600);
    assert!(!ttl.enforce);
    let retention = RetentionRules::default();
    assert_eq!(retention.max_versions, 100);
    assert_eq!(retention.delete_deprecated_after_secs, 180 * 86400);
    let v = ValidationConstraints::default();
    assert_eq!(v.max_asset_size, 10 * 1024 * 1024 * 1024);
    assert_eq!(v.max_metadata_size, 1024 * 1024);
    assert_eq!(v.max_tags, 50);
    assert_eq!(v.required_fields, vec!["name", "version", "description"]);
    assert_eq!(v.allowed_asset_types.len(), 5);
    assert!(!v.strict_mode);
}

#[test]
fn environment_overrides() {
    let prod = apply_environment_overrides(
        Environment::Production,
        RegistryConfig::for_environment(Environment::Production),
    );
    assert!(prod.validation.strict_mode && prod.ttl.enforce && prod.retention.keep_one_active);
    let staging = apply_environment_overrides(
        Environment::Staging,
        RegistryConfig::for_environment(Environment::Staging),
    );
    assert!(staging.validation.strict_mode && !staging.ttl.enforce);
    let dev = apply_environment_overrides(
        Environment::Development,
        RegistryConfig::for_environment(Environment::Development),
    );
    assert!(!dev.validation.strict_mode && !dev.ttl.enforce);
    assert_eq!(dev.validation.max_asset_size, 100 * 1024 * 1024 * 1024);
}

#[test]
fn adapter_builders() {
    let adapter = ConfigManagerAdapter::with_endpoint(Environment::Staging, "http://cfg".to_string())
        .with_namespace("other".to_string());
    assert_eq!(adapter.environment(), Environment::Staging);
    assert_eq!(adapter.get_policies().unwrap().len(), 0);
}

#[test]
fn test_observatory_adapter_creation() {
    let adapter = ObservatoryAdapter::new("test-service");
    assert!(adapter.is_enabled());
    assert_eq!(adapter.pending_events(), 0);
}

#[test]
fn test_emit_governance_event() {
    let mut adapter = ObservatoryAdapter::default();

    let event = GovernanceEvent::AssetRegistered {
        asset_id: "test-123".to_string(),
        asset_name: "test-model".to_string(),
        asset_version: "1.0.0".to_string(),
        registered_by: "test-user".to_string(),
    };

    assert!(adapter.emit_governance_event(event).is_empty());
    assert_eq!(adapter.pending_events(), 1);

    assert_eq!(adapter.flush().len(), 1);
    assert_eq!(adapter.pending_events(), 0);
}

#[test]
fn test_trace_asset_registration() {
    let mut adapter = ObservatoryAdapter::default();

    adapter.trace_asset_registration("id-123", "my-model", "1.0.0", "user@example.com");

    assert_eq!(adapter.pending_events(), 1);
    match &adapter.flush()[0] {
        GovernanceEvent::AssetRegistered { asset_id, registered_by, .. } => {
            assert_eq!(asset_id, "id-123");
            assert_eq!(registered_by, "user@example.com");
        }
        other => panic!("unexpected event {:?}", other),
    }
}

#[test]
fn test_disabled_adapter() {
    let mut adapter = ObservatoryAdapter::default().with_enabled(false);

    adapter.trace_asset_registration("id-123", "my-model", "1.0.0", "user@example.com");

    // No events should be buffered when disabled
    assert_eq!(adapter.pending_events(), 0);
}

#[test]
fn auto_flush_at_threshold() {
    let mut adapter = ObservatoryAdapter::new("svc").with_flush_interval(5);
    for i in 0..99 {
        let out = adapter.trace_integrity_verification(&format!("id-{}", i), "sha256", true);
        assert!(out.is_empty());
    }
    assert_eq!(adapter.pending_events(), 99);
    let out = adapter.trace_policy_validation("last", "p", false, vec!["v".to_string()]);
    assert_eq!(out.len(), 100);
    assert_eq!(adapter.pending_events(), 0);
    assert!(matches!(&out[99], GovernanceEvent::PolicyValidated { passed: false, .. }));
}

#[test]
fn trace_update_keeps_changes() {
    let mut adapter = ObservatoryAdapter::with_endpoint("svc", "http://obs".to_string());
    adapter.trace_asset_update("a", vec!["x".to_string(), "y".to_string()], "me");
    match &adapter.flush()[0] {
        GovernanceEvent::AssetUpdated { changes, .. } => assert_eq!(changes, &vec!["x", "y"]),
        other => panic!("unexpected event {:?}", other),
    }
}

#[test]
fn test_health_status_creation() {
    let status = ObservatoryAdapter::create_health_status(
        true, 5, // database
        true, 2, // cache
        false, 0, // search (unhealthy)
    );

    assert!(!status.healthy); // Overall unhealthy due to search
    assert!(status.component("database").unwrap().healthy);
    assert!(status.component("cache").unwrap().healthy);
    assert!(!status.component("search").unwrap().healthy);
    assert_eq!(
        status.component("search").unwrap().error.as_deref(),
        Some("Search service unavailable")
    );
    assert!(status.component("database").unwrap().error.is_none());
    assert_eq!(status.component("database").unwrap().latency_ms, 5);
    assert!(status.component("queue").is_none());
}

#[test]
fn test_schema_adapter_creation() {
    let adapter = SchemaRegistryAdapter::new();
    assert_eq!(adapter.default_namespace(), "llm.registry");
}

#[test]
fn test_list_schemas() {
    let adapter = SchemaRegistryAdapter::new();
    let schemas = adapter.list_schemas("llm.registry").unwrap();
    assert!(schemas.contains(&"ModelMetadata".to_string()));
    assert!(schemas.contains(&"PipelineDescriptor".to_string()));
}

#[test]
fn list_schemas_elsewhere_is_empty() {
    let adapter = SchemaRegistryAdapter::with_endpoint("http://schemas".to_string())
        .with_namespace("custom".to_string());
    assert_eq!(adapter.list_schemas("custom").unwrap().len(), 4);
    assert_eq!(adapter.list_schemas("llm.registry").unwrap().len(), 4);
    assert!(adapter.list_schemas("other").unwrap().is_empty());
}

#[test]
fn test_cache_key_generation() {
    let key = SchemaRegistryAdapter::cache_key("Test", "ns", None);
    assert_eq!(key, "ns.Test");

    let versioned_key = SchemaRegistryAdapter::cache_key("Test", "ns", Some("1.0.0"));
    assert_eq!(versioned_key, "ns.Test@1.0.0");
}

#[test]
fn uncached_schema_is_unavailable() {
    let mut adapter = SchemaRegistryAdapter::default();
    adapter.clear_cache();
    assert_eq!(
        adapter.get_schema("ModelMetadata", "llm.registry").unwrap_err(),
        SchemaAdapterError::Unavailable("Schema registry connection not configured".to_string())
    );
    assert!(adapter.get_schema_version("ModelMetadata", "llm.registry", "1").is_err());
    assert!(adapter.get_model_metadata_schema().is_err());
    assert!(adapter.get_pipeline_descriptor_schema().is_err());
}

#[test]
fn validation_without_registry_is_permissive() {
    let adapter = SchemaRegistryAdapter::new();
    let r = adapter.validate_model_metadata(&serde_json::Value::Null).unwrap();
    assert!(r.valid);
    assert_eq!(r.schema_id, "unavailable");
    assert!(r.errors.is_empty());
    assert_eq!(r.warnings, vec!["Schema registry unavailable - validation skipped"]);
    assert!(adapter.validate_pipeline_descriptor(&serde_json::Value::Null).unwrap().valid);
}

#[test]
fn validation_outcomes() {
    let schema = ConsumedSchema {
        id: "schema-7".to_string(),
        name: "ModelMetadata".to_string(),
        namespace: "llm.registry".to_string(),
        version: "1.0.0".to_string(),
        format: SerializationFormat::Json,
        content: "{}".to_string(),
        content_hash: "abc".to_string(),
        is_active: true,
    };
    let ok = validation_result(Ok(schema)).unwrap();
    assert!(ok.valid);
    assert_eq!(ok.schema_id, "schema-7");
    assert_eq!(ok.warnings.len(), 1);
    let err = SchemaAdapterError::IncompatibleVersion("2.0".to_string());
    assert_eq!(validation_result(Err(err.clone())).unwrap_err(), err);
}

#[test]
fn test_start_and_end_span() {
    let mut span = start_span("test_operation", Vec::new());

    assert_eq!(span.status, SpanStatus::Unset);
    assert!(span.end_time.is_none());
    assert!(span.span_id.len() >= 16);
    assert!(span.trace_id.len() >= 32);
    assert!(span.span_id.chars().all(|c| c.is_ascii_hexdigit()));

    end_span(&mut span, SpanStatus::Succeeded);

    assert_eq!(span.status, SpanStatus::Succeeded);
    assert!(span.end_time.is_some());
    assert!(span.duration_ms.is_some());
    assert!(span.duration_ms.unwrap() < 60_000);
}

#[test]
fn hex_ids_are_zero_padded() {
    assert_eq!(hex_id(255, 4), "00ff");
    assert_eq!(hex_id(0, 0), "0");
    assert_eq!(hex_id(0, 3), "000");
    assert_eq!(hex_id(0x1234_abcd, 2), "1234abcd");
    assert_eq!(hex_id(u64::MAX, 16), "ffffffffffffffff");
    assert_eq!(hex_id(0x1234_abcd, 16), format!("{:016x}", 0x1234_abcdu64));
}
