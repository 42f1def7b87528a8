use execution_trace::collector::{AttachError, SpanCollector, FAILURE_REASON_KEY};
use execution_trace::ids::{ExecutionId, IdentifierError, SpanId};
use execution_trace::span::{
    ExecutionContext, SpanArtifact, SpanState, SpanStatus, SpanType, Timestamp,
};

fn test_context() -> ExecutionContext {
    ExecutionContext {
        execution_id: ExecutionId::new("test-exec-001"),
        parent_span_id: SpanId::new(),
    }
}

fn artifact(name: &str) -> SpanArtifact {
    SpanArtifact {
        name: name.to_string(),
        content_type: None,
        data: serde_json::Value::Null,
    }
}

#[test]
fn test_span_id_roundtrip() {
    let id = SpanId::new();
    let s = id.to_string();
    let parsed = SpanId::from_string(&s).unwrap();
    assert_eq!(id, parsed);
}

#[test]
fn test_span_id_invalid() {
    assert!(SpanId::from_string("not-a-ulid").is_err());
}

#[test]
fn span_id_text_is_crockford_base32() {
    let id = SpanId { value: 0x41414141414141414141414141414141 };
    assert_eq!(id.to_string(), "21850M2GA1850M2GA1850M2GA1");
    assert_eq!(SpanId { value: 0 }.to_string(), "00000000000000000000000000");
}

#[test]
fn span_id_parses_known_text() {
    let parsed = SpanId::from_string("2D9RW50MA499CMAGHM6DD42DTP").unwrap();
    assert_eq!(parsed.value, 0x4d4e385051444a59454234335a413756);
    let lower = SpanId::from_string("2d9rw50ma499cmaghm6dd42dtp").unwrap();
    assert_eq!(lower, parsed);
}

#[test]
fn span_id_malformed_keeps_text() {
    assert_eq!(
        SpanId::from_string("not-a-valid-id"),
        Err(IdentifierError::MalformedIdentifier("not-a-valid-id".to_string()))
    );
    // right length, character outside the alphabet
    assert!(SpanId::from_string("0000000000000000000000000U").is_err());
    assert!(SpanId::from_string("").is_err());
}

#[test]
fn span_ids_are_distinct_and_round_trip() {
    let a = SpanId::new();
    let b = SpanId::new();
    assert_ne!(a, b);
    assert_eq!(SpanId::from_string(&b.to_string()), Ok(b));
}

#[test]
fn execution_id_keeps_text() {
    let id = ExecutionId::new("exec-1");
    assert_eq!(id.as_str(), "exec-1");
    assert_eq!(id.clone(), id);
}

#[test]
fn test_collector_creates_repo_span() {
    let ctx = test_context();
    let mut collector = SpanCollector::new(&ctx);
    let result = collector.finalize();

    assert_eq!(result.execution_id, ctx.execution_id);
    assert_eq!(result.spans.len(), 1);
    assert_eq!(result.spans[0].span_type, SpanType::Repo);
    assert_eq!(result.spans[0].name, "llm-registry");
    assert_eq!(result.spans[0].parent_span_id, ctx.parent_span_id);
    assert!(result.spans[0].ended_at.is_some());
}

#[test]
fn test_collector_agent_span_lifecycle() {
    let ctx = test_context();
    let mut collector = SpanCollector::new(&ctx);

    assert!(!collector.has_agent_spans());

    let agent_id = collector.begin_agent_span("RegistrationService");
    assert!(collector.has_agent_spans());

    collector.end_agent_span(agent_id, SpanStatus::Succeeded);
    let result = collector.finalize();

    assert_eq!(result.spans.len(), 2);
    let agent = &result.spans[1];
    assert_eq!(agent.span_type, SpanType::Agent);
    assert_eq!(agent.name, "RegistrationService");
    assert_eq!(agent.parent_span_id, collector.repo_span_id());
    assert_eq!(agent.status, SpanStatus::Succeeded);
    assert!(agent.ended_at.is_some());
    // Repo span should be Ok since agent is Ok
    assert_eq!(result.spans[0].status, SpanStatus::Succeeded);
}

#[test]
fn test_collector_failure_propagates_to_repo() {
    let ctx = test_context();
    let mut collector = SpanCollector::new(&ctx);

    let agent_id = collector.begin_agent_span("ValidationService");
    collector.end_agent_span(agent_id, SpanStatus::Failed);

    let result = collector.finalize();
    assert_eq!(result.spans[0].status, SpanStatus::Failed);
}

#[test]
fn test_attach_artifact_to_agent_span() {
    let ctx = test_context();
    let mut collector = SpanCollector::new(&ctx);
    let agent_id = collector.begin_agent_span("SearchService");

    let mut data = serde_json::Map::new();
    data.insert("count".to_string(), serde_json::Value::from(5));
    let artifact = SpanArtifact {
        name: "search_results".to_string(),
        content_type: Some("application/json".to_string()),
        data: serde_json::Value::Object(data),
    };
    assert!(collector.attach_artifact(agent_id, artifact).is_ok());

    collector.end_agent_span(agent_id, SpanStatus::Succeeded);
    let result = collector.finalize();
    assert_eq!(result.spans[1].artifacts.len(), 1);
    assert_eq!(result.spans[1].artifacts[0].name, "search_results");
}

#[test]
fn test_attach_artifact_to_repo_span_rejected() {
    let ctx = test_context();
    let mut collector = SpanCollector::new(&ctx);
    let repo_id = collector.repo_span_id();

    let artifact = SpanArtifact {
        name: "bad".to_string(),
        content_type: None,
        data: serde_json::Value::Null,
    };
    assert!(collector.attach_artifact(repo_id, artifact).is_err());
}

#[test]
fn test_multiple_agent_spans() {
    let ctx = test_context();
    let mut collector = SpanCollector::new(&ctx);

    let a1 = collector.begin_agent_span("ValidationService");
    collector.end_agent_span(a1, SpanStatus::Succeeded);

    let a2 = collector.begin_agent_span("RegistrationService");
    collector.end_agent_span(a2, SpanStatus::Succeeded);

    let result = collector.finalize();
    assert_eq!(result.spans.len(), 3); // 1 repo + 2 agents
    assert_eq!(result.spans[1].name, "ValidationService");
    assert_eq!(result.spans[2].name, "RegistrationService");
}

#[test]
fn immediate_finalize_closes_repo_span() {
    let ctx = ExecutionContext {
        execution_id: ExecutionId::new("exec-1"),
        parent_span_id: SpanId::new(),
    };
    let mut collector = SpanCollector::new(&ctx);
    let result = collector.finalize();
    assert_eq!(result.execution_id.as_str(), "exec-1");
    assert_eq!(result.spans.len(), 1);
    assert_eq!(result.spans[0].span_type, SpanType::Repo);
    assert_eq!(result.spans[0].state(), SpanState::ClosedOk);
}

#[test]
fn registration_artifact_is_kept() {
    let mut collector = SpanCollector::new(&test_context());
    let id = collector.begin_agent_span("RegistrationService");
    let mut data = serde_json::Map::new();
    data.insert("name".to_string(), serde_json::Value::from("model-a"));
    let asset = SpanArtifact {
        name: "registered_asset".to_string(),
        content_type: Some("application/json".to_string()),
        data: serde_json::Value::Object(data.clone()),
    };
    assert_eq!(collector.attach_artifact(id, asset), Ok(()));
    collector.end_agent_span(id, SpanStatus::Succeeded);
    let result = collector.finalize();
    assert_eq!(result.spans.len(), 2);
    assert_eq!(result.spans[1].artifacts.len(), 1);
    assert_eq!(result.spans[1].artifacts[0].data, serde_json::Value::Object(data));
    assert_eq!(result.spans[0].state(), SpanState::ClosedOk);
    assert_eq!(result.spans[1].state(), SpanState::ClosedOk);
}

#[test]
fn failed_agent_fails_repo_span() {
    let mut collector = SpanCollector::new(&test_context());
    let id = collector.begin_agent_span("ValidationService");
    collector.end_agent_span(id, SpanStatus::Failed);
    let result = collector.finalize();
    assert_eq!(result.spans[0].state(), SpanState::ClosedFailed);
    assert_eq!(result.spans[1].state(), SpanState::ClosedFailed);
}

#[test]
fn root_attachment_is_refused_without_change() {
    let ctx = test_context();
    let mut collector = SpanCollector::new(&ctx);
    let before = collector.finalize();
    let root = collector.repo_span_id();
    assert_eq!(
        collector.attach_artifact(root, artifact("bad")),
        Err(AttachError::RootAttachmentForbidden)
    );
    assert!(!collector.has_agent_spans());
    let after = collector.finalize();
    assert_eq!(after.spans.len(), before.spans.len());
    assert!(after.spans[0].artifacts.is_empty());
}

#[test]
fn spans_keep_creation_order() {
    let ctx = test_context();
    let mut collector = SpanCollector::new(&ctx);
    let a = collector.begin_agent_span("A");
    collector.end_agent_span(a, SpanStatus::Succeeded);
    let b = collector.begin_agent_span("B");
    collector.end_agent_span(b, SpanStatus::Succeeded);
    let result = collector.finalize();
    let names: Vec<&str> = result.spans.iter().map(|s| s.name.as_str()).collect();
    assert_eq!(names, vec!["llm-registry", "A", "B"]);
    assert_eq!(result.spans[1].span_id, a);
    assert_eq!(result.spans[2].span_id, b);
    for span in &result.spans[1..] {
        assert_eq!(span.parent_span_id, result.spans[0].span_id);
        assert_eq!(span.span_type, SpanType::Agent);
    }
}

#[test]
fn attach_to_unknown_span_is_not_found() {
    let mut collector = SpanCollector::new(&test_context());
    let stranger = SpanId::new();
    assert_eq!(
        collector.attach_artifact(stranger, artifact("x")),
        Err(AttachError::SpanNotFound(stranger))
    );
}

#[test]
fn attach_to_closed_agent_span_succeeds() {
    let mut collector = SpanCollector::new(&test_context());
    let id = collector.begin_agent_span("SearchService");
    collector.end_agent_span(id, SpanStatus::Failed);
    assert_eq!(collector.attach_artifact(id, artifact("error")), Ok(()));
    assert_eq!(collector.attach_artifact(id, artifact("late")), Ok(()));
    let result = collector.finalize();
    assert_eq!(result.spans[1].artifacts[0].name, "error");
    assert_eq!(result.spans[1].artifacts[1].name, "late");
}

#[test]
fn second_close_keeps_first_outcome() {
    let mut collector = SpanCollector::new(&test_context());
    let id = collector.begin_agent_span("A");
    collector.end_agent_span(id, SpanStatus::Failed);
    let first = collector.finalize().spans[1].ended_at;
    collector.end_agent_span(id, SpanStatus::Succeeded);
    let result = collector.finalize();
    assert_eq!(result.spans[1].status, SpanStatus::Failed);
    assert_eq!(result.spans[1].ended_at, first);
    assert_eq!(result.spans[0].status, SpanStatus::Failed);
}

#[test]
fn closing_repo_or_unknown_span_changes_nothing() {
    let mut collector = SpanCollector::new(&test_context());
    let root = collector.repo_span_id();
    collector.end_agent_span(root, SpanStatus::Failed);
    collector.end_agent_span(SpanId::new(), SpanStatus::Failed);
    let result = collector.finalize();
    assert_eq!(result.spans.len(), 1);
    assert_eq!(result.spans[0].status, SpanStatus::Succeeded);
}

#[test]
fn open_agent_span_stays_open_at_finalize() {
    let mut collector = SpanCollector::new(&test_context());
    collector.begin_agent_span("Dangling");
    let result = collector.finalize();
    assert_eq!(result.spans[1].state(), SpanState::Open);
    assert!(result.spans[1].ended_at.is_none());
    assert_eq!(result.spans[0].state(), SpanState::ClosedOk);
}

#[test]
fn empty_agent_name_is_kept() {
    let mut collector = SpanCollector::new(&test_context());
    collector.begin_agent_span("");
    let result = collector.finalize();
    assert_eq!(result.spans[1].name, "");
}

#[test]
fn finalize_failed_records_reason() {
    let mut collector = SpanCollector::new(&test_context());
    let result = collector.finalize_failed("Invalid asset ID");
    let root = &result.spans[0];
    assert_eq!(root.state(), SpanState::ClosedFailed);
    assert_eq!(root.attributes.len(), 1);
    assert_eq!(root.attributes[0].key, FAILURE_REASON_KEY);
    assert_eq!(root.attributes[0].value, "Invalid asset ID");
    assert!(root.artifacts.is_empty());

    let again = collector.finalize_failed("timeout");
    assert_eq!(again.spans[0].attributes.len(), 1);
    assert_eq!(again.spans[0].attributes[0].value, "timeout");
}

#[test]
fn finalize_twice_restamps_repo_span() {
    let mut collector = SpanCollector::new(&test_context());
    let first = collector.finalize();
    let second = collector.finalize();
    assert_eq!(first.spans.len(), second.spans.len());
    assert!(second.spans[0].ended_at.unwrap() >= first.spans[0].ended_at.unwrap());
    assert_eq!(second.spans[0].status, SpanStatus::Succeeded);
}

#[test]
fn attach_error_messages() {
    let id = SpanId { value: 0 };
    assert_eq!(
        AttachError::SpanNotFound(id).message(),
        "Span not found: 00000000000000000000000000"
    );
    assert_eq!(
        AttachError::RootAttachmentForbidden.message(),
        "Cannot attach artifacts to repo-level spans"
    );
}

#[test]
fn timestamps_come_from_the_clock() {
    let t = Timestamp::now();
    // later than 2020-01-01T00:00:00Z
    assert!(t.unix_micros > 1_577_836_800_000_000);
}

#[test]
fn span_id_parts() {
    let id = SpanId::from_parts(0x0123_4567_89ab, 0x42);
    assert_eq!(id.timestamp_ms(), 0x0123_4567_89ab);
    assert_eq!(id.random(), 0x42);
    assert_eq!(id.value, (0x0123_4567_89abu128 << 80) | 0x42);
    // excess bits of either part are dropped
    let wide = SpanId::from_parts(u64::MAX, u128::MAX);
    assert_eq!(wide.timestamp_ms(), (1u64 << 48) - 1);
    assert_eq!(wide.random(), (1u128 << 80) - 1);
}

#[test]
fn generated_ids_carry_the_clock() {
    let now = Timestamp { unix_micros: 1_700_000_000_123_456 };
    let id = SpanId::generate_at(now);
    assert_eq!(id.timestamp_ms(), 1_700_000_000_123);
    let before_epoch = SpanId::generate_at(Timestamp { unix_micros: -5 });
    assert_eq!(before_epoch.timestamp_ms(), 0);
    let a = SpanId::new();
    let b = SpanId::default();
    assert!(b.timestamp_ms() >= a.timestamp_ms());
    assert_ne!(a, b);
}

#[test]
fn agent_ids_are_distinct() {
    let mut collector = SpanCollector::new(&test_context());
    let root = collector.repo_span_id();
    let mut ids = vec![root];
    for i in 0..50 {
        let id = collector.begin_agent_span(&format!("S{}", i));
        assert!(!ids.contains(&id));
        ids.push(id);
    }
    let result = collector.finalize();
    for (span, id) in result.spans.iter().zip(ids.iter()) {
        assert_eq!(&span.span_id, id);
    }
}
