//! Values exchanged at the service's HTTP surface that carry decisions of
//! their own: version information, dependency-graph query parameters and the
//! acknowledgement of an ingested execution record.

use vstd::prelude::*;

verus! {

/// Version of the HTTP API.
pub const API_VERSION: &'static str = "v1";

/// Build timestamp reported when none was recorded at build time.
pub const UNKNOWN_BUILD_TIMESTAMP: &'static str = "unknown";

/// Status reported for an accepted execution record.
pub const ACCEPTED_STATUS: &'static str = "accepted";

/// API version information.
#[derive(Debug, Clone)]
pub struct VersionInfo {
    /// Semantic version of the service.
    pub version: String,
    /// API version.
    pub api_version: String,
    /// Build timestamp.
    pub build_timestamp: String,
}

impl VersionInfo {
    /// Version information for the given service version and the build
    /// timestamp recorded at build time, if any.
    pub fn new(version: &str, build_timestamp: Option<&str>) -> (r: VersionInfo)
        ensures
            r.version@ == version@,
            r.api_version@ == API_VERSION@,
            r.build_timestamp@ == match build_timestamp {
                Some(t) => t@,
                None => UNKNOWN_BUILD_TIMESTAMP@,
            },
    {
        let build_timestamp = match build_timestamp {
            Some(t) => t.to_owned(),
            None => UNKNOWN_BUILD_TIMESTAMP.to_owned(),
        };
        VersionInfo { version: version.to_owned(), api_version: API_VERSION.to_owned(), build_timestamp }
    }
}

/// Query parameters of a dependency-graph request.
#[derive(Debug, Clone, Copy, PartialEq, Eq, Structural)]
pub struct DependencyGraphParams {
    /// Maximum depth to traverse; absent or -1 for unlimited.
    pub max_depth: Option<i32>,
}

impl DependencyGraphParams {
    /// The depth to traverse: the requested one, or -1 (unlimited).
    pub fn effective_max_depth(&self) -> (r: i32)
        ensures
            r == match self.max_depth {
                Some(d) => d as int,
                None => -1,
            },
    {
        match self.max_depth {
            Some(d) => d,
            None => -1,
        }
    }
}

/// An execution record delivered by an upstream fan-out.
#[derive(Debug)]
pub struct ExecutionRecordRequest {
    /// Source system.
    pub source: String,
    /// Event type.
    pub event_type: String,
    /// Execution identifier.
    pub execution_id: String,
    /// ISO-8601 timestamp.
    pub timestamp: String,
    /// Lineage or execution data.
    pub payload: serde_json::Value,
}

/// Acknowledgement of an accepted execution record.
#[derive(Debug, Clone)]
pub struct ExecutionAcceptedResponse {
    pub status: String,
    pub execution_id: String,
}

/// Accepts an execution record: every record is acknowledged with status
/// "accepted" and its own execution identifier.
pub fn receive_execution(request: ExecutionRecordRequest) -> (r: ExecutionAcceptedResponse)
    ensures
        r.status@ == ACCEPTED_STATUS@,
        r.execution_id@ == request.execution_id@,
{
    ExecutionAcceptedResponse { status: ACCEPTED_STATUS.to_owned(), execution_id: request.execution_id }
}

} // verus!
