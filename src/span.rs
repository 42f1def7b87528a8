//! The span tree model: span kinds and states, artifacts, attributes, the
//! spans themselves and the finalized result of one execution.

use vstd::prelude::*;
use crate::ids::{ExecutionId, SpanId};

verus! {

#[verifier::external_type_specification]
#[verifier::external_body]
pub struct ExJsonValue(serde_json::Value);

/// Relies on the derived `Clone` of `serde_json::Value`: the copy is the same value.
pub assume_specification[ <serde_json::Value as Clone>::clone ](v: &serde_json::Value) -> (r:
    serde_json::Value)
    ensures
        r == *v,
;

/// Relies on `chrono::Utc::now` and `DateTime::timestamp_micros`: the system
/// clock, so nothing is promised of the reading.
#[verifier::external_body]
fn clock_unix_micros() -> i64 {
    chrono::Utc::now().timestamp_micros()
}

/// A point in time, in microseconds since the Unix epoch (UTC).
#[derive(Debug, Clone, Copy, PartialEq, Eq, Structural, PartialOrd, Ord, Hash)]
pub struct Timestamp {
    pub unix_micros: i64,
}

impl Timestamp {
    /// Reads the system clock.
    pub fn now() -> (r: Timestamp) {
        Timestamp { unix_micros: clock_unix_micros() }
    }
}

/// Level of a span in the execution tree.
#[derive(Debug, Clone, Copy, PartialEq, Eq, Structural)]
pub enum SpanType {
    /// The one span that stands for this service's whole participation.
    Repo,
    /// A span for one internal service invocation; a child of the repo span.
    Agent,
}

/// Outcome recorded on a span.
#[derive(Debug, Clone, Copy, PartialEq, Eq, Structural)]
pub enum SpanStatus {
    Succeeded,
    Failed,
}

/// Lifecycle state of a span, derived from its end time and status.
#[derive(Debug, Clone, Copy, PartialEq, Eq, Structural)]
pub enum SpanState {
    Open,
    ClosedOk,
    ClosedFailed,
}

/// A named payload attached to an agent span.
#[derive(Debug)]
pub struct SpanArtifact {
    /// Artifact name (for instance "registered_asset" or "error").
    pub name: String,
    /// Media type hint.
    pub content_type: Option<String>,
    /// The payload.
    pub data: serde_json::Value,
}

impl Clone for SpanArtifact {
    fn clone(&self) -> (r: Self)
        ensures
            r == *self,
    {
        let content_type = match &self.content_type {
            Some(t) => Some(t.clone()),
            None => None,
        };
        SpanArtifact { name: self.name.clone(), content_type, data: self.data.clone() }
    }
}

/// A key and its text value, recorded on a span.
#[derive(Debug)]
pub struct SpanAttribute {
    pub key: String,
    pub value: String,
}

impl Clone for SpanAttribute {
    fn clone(&self) -> (r: Self)
        ensures
            r == *self,
    {
        SpanAttribute { key: self.key.clone(), value: self.value.clone() }
    }
}

/// One span of an execution: the repo span or an agent span.
#[derive(Debug)]
pub struct ExecutionSpan {
    pub span_id: SpanId,
    pub parent_span_id: SpanId,
    pub span_type: SpanType,
    /// For the repo span the service's name; for agent spans the invoked
    /// service's name.
    pub name: String,
    pub started_at: Timestamp,
    /// Absent while the span is open.
    pub ended_at: Option<Timestamp>,
    pub status: SpanStatus,
    /// Artifacts in the order they were attached.
    pub artifacts: Vec<SpanArtifact>,
    /// Attributes, each key at most once.
    pub attributes: Vec<SpanAttribute>,
}

/// What a span holds, as mathematical values.
pub ghost struct SpanView {
    pub span_id: SpanId,
    pub parent_span_id: SpanId,
    pub span_type: SpanType,
    pub name: Seq<char>,
    pub started_at: Timestamp,
    pub ended_at: Option<Timestamp>,
    pub status: SpanStatus,
    pub artifacts: Seq<SpanArtifact>,
    pub attributes: Seq<SpanAttribute>,
}

impl View for ExecutionSpan {
    type V = SpanView;

    open spec fn view(&self) -> SpanView {
        SpanView {
            span_id: self.span_id,
            parent_span_id: self.parent_span_id,
            span_type: self.span_type,
            name: self.name@,
            started_at: self.started_at,
            ended_at: self.ended_at,
            status: self.status,
            artifacts: self.artifacts@,
            attributes: self.attributes@,
        }
    }
}

impl Clone for ExecutionSpan {
    fn clone(&self) -> (r: Self)
        ensures
            r@ == self@,
    {
        let artifacts = self.artifacts.clone();
        let attributes = self.attributes.clone();
        proof {
            assert(artifacts@ =~= self.artifacts@);
            assert(attributes@ =~= self.attributes@);
        }
        ExecutionSpan {
            span_id: self.span_id,
            parent_span_id: self.parent_span_id,
            span_type: self.span_type,
            name: self.name.clone(),
            started_at: self.started_at,
            ended_at: self.ended_at,
            status: self.status,
            artifacts,
            attributes,
        }
    }
}

/// The views of a sequence of spans.
pub open spec fn span_views(spans: Seq<ExecutionSpan>) -> Seq<SpanView> {
    spans.map_values(|s: ExecutionSpan| s@)
}

impl SpanView {
    /// The span's lifecycle state.
    pub open spec fn state(self) -> SpanState {
        match self.ended_at {
            None => SpanState::Open,
            Some(_) => match self.status {
                SpanStatus::Succeeded => SpanState::ClosedOk,
                SpanStatus::Failed => SpanState::ClosedFailed,
            },
        }
    }
}

impl ExecutionSpan {
    /// The span's lifecycle state: open until an end time is recorded, then
    /// closed with its status.
    pub fn state(&self) -> (r: SpanState)
        ensures
            r == self@.state(),
    {
        match self.ended_at {
            None => SpanState::Open,
            Some(_) => match self.status {
                SpanStatus::Succeeded => SpanState::ClosedOk,
                SpanStatus::Failed => SpanState::ClosedFailed,
            },
        }
    }
}

/// The caller's trust anchor for one inbound request.
#[derive(Debug, Clone)]
pub struct ExecutionContext {
    /// Execution-wide identifier assigned by the caller.
    pub execution_id: ExecutionId,
    /// The caller's own span, parent of this service's repo span.
    pub parent_span_id: SpanId,
}

/// The finalized span tree of one execution: the repo span first, then the
/// agent spans in the order they were opened.
#[derive(Debug, Clone)]
pub struct ExecutionResult {
    pub execution_id: ExecutionId,
    pub spans: Vec<ExecutionSpan>,
}

} // verus!
