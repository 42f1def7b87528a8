use execution_trace::api::{
    receive_execution, DependencyGraphParams, ExecutionRecordRequest, VersionInfo,
};

#[test]
fn test_version_info_creation() {
    let info = VersionInfo {
        version: "0.1.0".to_string(),
        api_version: "v1".to_string(),
        build_timestamp: "2024-01-01".to_string(),
    };

    assert_eq!(info.version, "0.1.0");
    assert_eq!(info.api_version, "v1");
}

#[test]
fn version_info_defaults_build_timestamp() {
    let info = VersionInfo::new("0.1.0", None);
    assert_eq!(info.api_version, "v1");
    assert_eq!(info.build_timestamp, "unknown");
    let stamped = VersionInfo::new("0.2.0", Some("2024-01-01"));
    assert_eq!(stamped.version, "0.2.0");
    assert_eq!(stamped.build_timestamp, "2024-01-01");
}

#[test]
fn dependency_depth_defaults_to_unlimited() {
    assert_eq!(DependencyGraphParams { max_depth: None }.effective_max_depth(), -1);
    assert_eq!(DependencyGraphParams { max_depth: Some(3) }.effective_max_depth(), 3);
}

#[test]
fn execution_record_is_accepted() {
    let request = ExecutionRecordRequest {
        source: "data-core".to_string(),
        event_type: "lineage".to_string(),
        execution_id: "exec-9".to_string(),
        timestamp: "2024-01-01T00:00:00Z".to_string(),
        payload: serde_json::Value::Null,
    };
    let r = receive_execution(request);
    assert_eq!(r.status, "accepted");
    assert_eq!(r.execution_id, "exec-9");
}
