//! Telemetry toward an observatory service: governance events buffered for
//! batch delivery, and health reports of the registry's components.

use vstd::prelude::*;
use crate::span::Timestamp;

verus! {

/// Buffered events are handed over for delivery once this many are pending.
pub const AUTO_FLUSH_THRESHOLD: usize = 100;

/// Default interval between buffer flushes, in seconds.
pub const DEFAULT_FLUSH_INTERVAL_SECS: u64 = 10;

/// Errors from observatory operations.
#[derive(Debug, Clone, PartialEq, Eq)]
pub enum ObservatoryError {
    EmitFailed(String),
    Unavailable(String),
    InvalidSpan(String),
    TraceNotFound(String),
}

/// Status of a telemetry span.
#[derive(Debug, Clone, Copy, PartialEq, Eq, Structural)]
pub enum SpanStatus {
    Unset,
    Succeeded,
    Error,
}

/// A governance event about a registry operation.
#[derive(Debug)]
pub enum GovernanceEvent {
    AssetRegistered {
        asset_id: String,
        asset_name: String,
        asset_version: String,
        registered_by: String,
    },
    AssetUpdated { asset_id: String, changes: Vec<String>, updated_by: String },
    AssetDeprecated { asset_id: String, reason: String, deprecated_by: String },
    AssetDeleted { asset_id: String, deleted_by: String },
    PolicyValidated { asset_id: String, policy_name: String, passed: bool, violations: Vec<String> },
    IntegrityVerified { asset_id: String, algorithm: String, valid: bool },
    AccessDecision { principal: String, resource: String, action: String, allowed: bool },
}

/// Health of one component.
#[derive(Debug, Clone)]
pub struct ComponentHealth {
    pub name: String,
    pub healthy: bool,
    pub latency_ms: u64,
    /// Why the component is unhealthy, if it is.
    pub error: Option<String>,
}

/// Health of the registry: overall and per component, in a fixed order.
#[derive(Debug, Clone)]
pub struct HealthStatus {
    pub healthy: bool,
    pub components: Vec<ComponentHealth>,
    pub timestamp: Timestamp,
}

/// `c` reports the named component with the given health and latency, and
/// the given error exactly when unhealthy.
pub open spec fn reports(
    c: ComponentHealth,
    name: Seq<char>,
    healthy: bool,
    latency_ms: u64,
    error: Seq<char>,
) -> bool {
    &&& c.name@ == name
    &&& c.healthy == healthy
    &&& c.latency_ms == latency_ms
    &&& if healthy {
        c.error is None
    } else {
        c.error matches Some(e) && e@ == error
    }
}

fn component(name: &str, healthy: bool, latency_ms: u64, error: &str) -> (r: ComponentHealth)
    ensures
        reports(r, name@, healthy, latency_ms, error@),
{
    ComponentHealth {
        name: name.to_owned(),
        healthy,
        latency_ms,
        error: if healthy {
            None
        } else {
            Some(error.to_owned())
        },
    }
}

impl HealthStatus {
    /// The first component with the given name.
    pub fn component(&self, name: &str) -> (r: Option<&ComponentHealth>)
        ensures
            match r {
                Some(c) => exists|i: int|
                    0 <= i < self.components@.len() && self.components@[i] == *c && c.name@
                        == name@ && forall|j: int|
                        0 <= j < i ==> self.components@[j].name@ != name@,
                None => forall|j: int|
                    0 <= j < self.components@.len() ==> self.components@[j].name@ != name@,
            },
    {
        let key = name.to_owned();
        let mut i: usize = 0;
        while i < self.components.len()
            invariant
                0 <= i <= self.components.len(),
                key@ == name@,
                forall|j: int| 0 <= j < i ==> self.components@[j].name@ != name@,
            decreases self.components.len() - i,
        {
            if self.components[i].name == key {
                return Some(&self.components[i]);
            }
            i += 1;
        }
        None
    }
}

/// Relies on `chrono::Utc::now` and `DateTime::timestamp_nanos_opt`: the
/// clock's nanoseconds since the Unix epoch, absent when out of range; a
/// clock reading, so nothing more is promised.
#[verifier::external_body]
fn clock_unix_nanos() -> Option<i64> {
    chrono::Utc::now().timestamp_nanos_opt()
}

/// Lower-case hexadecimal digits.
pub open spec fn hex_digits() -> Seq<char> {
    seq!['0', '1', '2', '3', '4', '5', '6', '7', '8', '9', 'a', 'b', 'c', 'd', 'e', 'f']
}

/// `v` in lower-case hexadecimal, without leading zeros.
pub open spec fn hex_text(v: nat) -> Seq<char>
    decreases v,
{
    if v < 16 {
        seq![hex_digits()[v as int]]
    } else {
        hex_text(v / 16).push(hex_digits()[(v % 16) as int])
    }
}

/// `v` in lower-case hexadecimal, zero-padded to at least `width` digits.
pub open spec fn padded_hex(v: nat, width: nat) -> Seq<char> {
    let t = hex_text(v);
    if t.len() >= width {
        t
    } else {
        Seq::new((width - t.len()) as nat, |i: int| '0') + t
    }
}

/// The single-character text of a hexadecimal digit.
fn hex_digit_text(d: u64) -> (r: &'static str)
    requires
        d < 16,
    ensures
        r@ == seq![hex_digits()[d as int]],
{
    let digits = "0123456789abcdef";
    proof {
        reveal_strlit("0123456789abcdef");
        assert(digits@ =~= hex_digits());
    }
    let r = digits.substring_char(d as usize, d as usize + 1);
    proof {
        assert(r@ =~= seq![hex_digits()[d as int]]);
    }
    r
}

/// `value` in lower-case hexadecimal, zero-padded to at least `width` digits.
pub fn hex_id(value: u64, width: usize) -> (r: String)
    ensures
        r@ == padded_hex(value as nat, width as nat),
{
    // digits, least significant first
    let mut digits: Vec<u64> = Vec::new();
    let mut cur = value;
    let ghost mut tail: Seq<char> = Seq::empty();
    while cur >= 16
        invariant
            hex_text(value as nat) == hex_text(cur as nat) + tail,
            tail.len() == digits@.len(),
            forall|i: int|
                0 <= i < digits@.len() ==> digits@[i] < 16 && tail[tail.len() - 1 - i]
                    == hex_digits()[digits@[i] as int],
        decreases cur,
    {
        let d = cur % 16;
        proof {
            let old_tail = tail;
            tail = seq![hex_digits()[d as int]] + tail;
            assert(hex_text(cur as nat) == hex_text((cur / 16) as nat).push(hex_digits()[d as int]));
            assert(hex_text(cur as nat) + old_tail =~= hex_text((cur / 16) as nat) + tail);
        }
        digits.push(d);
        cur = cur / 16;
    }
    digits.push(cur);
    let ghost text = hex_text(value as nat);
    proof {
        assert(hex_text(cur as nat) == seq![hex_digits()[cur as int]]);
        assert(text =~= seq![hex_digits()[cur as int]] + tail);
    }
    let mut r = String::new();
    let mut pad: usize = if digits.len() < width {
        width - digits.len()
    } else {
        0
    };
    let ghost zeros = Seq::new(pad as nat, |i: int| '0');
    while pad > 0
        invariant
            r@ == Seq::new((zeros.len() - pad) as nat, |i: int| '0'),
            pad <= zeros.len(),
        decreases pad,
    {
        r.append("0");
        proof {
            reveal_strlit("0");
            assert(r@ =~= Seq::new((zeros.len() - pad + 1) as nat, |i: int| '0'));
        }
        pad -= 1;
    }
    proof {
        assert(r@ =~= zeros);
    }
    let mut k: usize = digits.len();
    while k > 0
        invariant
            k <= digits@.len(),
            digits@.len() == text.len(),
            r@ == zeros + text.subrange(0, (digits@.len() - k) as int),
            forall|i: int|
                0 <= i < digits@.len() ==> digits@[i] < 16 && text[text.len() - 1 - i]
                    == hex_digits()[digits@[i] as int],
        decreases k,
    {
        k -= 1;
        let piece = hex_digit_text(digits[k]);
        r.append(piece);
        proof {
            assert(r@ =~= zeros + text.subrange(0, (digits@.len() - k) as int));
        }
    }
    proof {
        assert(text.subrange(0, text.len() as int) =~= text);
        if text.len() >= width {
            assert(zeros.len() == 0);
            assert(r@ =~= text);
        }
    }
    r
}

/// A time-based identifier: the clock's nanoseconds in zero-padded
/// hexadecimal, or zero when the clock is out of range.
fn clock_hex_id(width: usize) -> (r: String)
    ensures
        exists|nanos: u64| r@ == padded_hex(nanos as nat, width as nat),
{
    let nanos: u64 = match clock_unix_nanos() {
        Some(n) => if n < 0 {
            0
        } else {
            n as u64
        },
        None => 0,
    };
    hex_id(nanos, width)
}

/// Digits in a telemetry span identifier.
pub const SPAN_ID_DIGITS: usize = 16;

/// Digits in a telemetry trace identifier.
pub const TRACE_ID_DIGITS: usize = 32;

/// A key and its value.
#[derive(Debug)]
pub struct TelemetryAttribute {
    pub key: String,
    pub value: serde_json::Value,
}

/// An event within a telemetry span.
#[derive(Debug)]
pub struct SpanEvent {
    pub name: String,
    pub timestamp: Timestamp,
    pub attributes: Vec<TelemetryAttribute>,
}

/// A telemetry span for one registry operation.
#[derive(Debug)]
pub struct RegistrySpan {
    pub span_id: String,
    pub trace_id: String,
    pub parent_span_id: Option<String>,
    /// Operation name.
    pub name: String,
    pub status: SpanStatus,
    pub start_time: Timestamp,
    pub end_time: Option<Timestamp>,
    /// Whole milliseconds from start to end, once ended.
    pub duration_ms: Option<u64>,
    pub attributes: Vec<TelemetryAttribute>,
    pub events: Vec<SpanEvent>,
}

/// Whole milliseconds from `start` to `end`, truncated toward zero, as an
/// unsigned count (wrapping when the clock went backwards).
pub open spec fn elapsed_ms(start: Timestamp, end: Timestamp) -> u64 {
    (if end.unix_micros >= start.unix_micros {
        (end.unix_micros - start.unix_micros) / 1000
    } else {
        -((start.unix_micros - end.unix_micros) / 1000)
    }) as u64
}

/// Starts a telemetry span: status unset, not ended, no parent, no events.
pub fn start_span(name: &str, attributes: Vec<TelemetryAttribute>) -> (r: RegistrySpan)
    ensures
        r.span_id@.len() >= SPAN_ID_DIGITS,
        r.trace_id@.len() >= TRACE_ID_DIGITS,
        r.parent_span_id is None,
        r.name@ == name@,
        r.status == SpanStatus::Unset,
        r.end_time is None,
        r.duration_ms is None,
        r.attributes@ == attributes@,
        r.events@.len() == 0,
{
    RegistrySpan {
        span_id: clock_hex_id(SPAN_ID_DIGITS),
        trace_id: clock_hex_id(TRACE_ID_DIGITS),
        parent_span_id: None,
        name: name.to_owned(),
        status: SpanStatus::Unset,
        start_time: Timestamp::now(),
        end_time: None,
        duration_ms: None,
        attributes,
        events: Vec::new(),
    }
}

/// Ends a telemetry span with the given status, recording the end time and
/// the elapsed whole milliseconds.
pub fn end_span(span: &mut RegistrySpan, status: SpanStatus)
    ensures
        final(span).end_time is Some,
        final(span).duration_ms == Some(
            elapsed_ms(old(span).start_time, final(span).end_time.unwrap()),
        ),
        final(span).status == status,
        final(span).span_id == old(span).span_id,
        final(span).trace_id == old(span).trace_id,
        final(span).parent_span_id == old(span).parent_span_id,
        final(span).name == old(span).name,
        final(span).start_time == old(span).start_time,
        final(span).attributes == old(span).attributes,
        final(span).events == old(span).events,
{
    let end = Timestamp::now();
    let start = span.start_time;
    let elapsed: i128 = if end.unix_micros >= start.unix_micros {
        (end.unix_micros as i128 - start.unix_micros as i128) / 1000
    } else {
        -((start.unix_micros as i128 - end.unix_micros as i128) / 1000)
    };
    span.end_time = Some(end);
    span.duration_ms = Some(elapsed as u64);
    span.status = status;
}

/// `event` records the registration of an asset.
pub open spec fn is_registration(
    event: GovernanceEvent,
    asset_id: Seq<char>,
    asset_name: Seq<char>,
    asset_version: Seq<char>,
    registered_by: Seq<char>,
) -> bool {
    event matches GovernanceEvent::AssetRegistered { asset_id: a, asset_name: n, asset_version: v, registered_by: b }
        && a@ == asset_id && n@ == asset_name && v@ == asset_version && b@ == registered_by
}

/// `event` records an update of an asset.
pub open spec fn is_update(
    event: GovernanceEvent,
    asset_id: Seq<char>,
    changes: Seq<String>,
    updated_by: Seq<char>,
) -> bool {
    event matches GovernanceEvent::AssetUpdated { asset_id: a, changes: c, updated_by: b } && a@
        == asset_id && c@ == changes && b@ == updated_by
}

/// `event` records a policy validation of an asset.
pub open spec fn is_policy_validation(
    event: GovernanceEvent,
    asset_id: Seq<char>,
    policy_name: Seq<char>,
    passed: bool,
    violations: Seq<String>,
) -> bool {
    event matches GovernanceEvent::PolicyValidated { asset_id: a, policy_name: p, passed: ok, violations: v }
        && a@ == asset_id && p@ == policy_name && ok == passed && v@ == violations
}

/// `event` records an integrity check of an asset.
pub open spec fn is_integrity_verification(
    event: GovernanceEvent,
    asset_id: Seq<char>,
    algorithm: Seq<char>,
    valid: bool,
) -> bool {
    event matches GovernanceEvent::IntegrityVerified { asset_id: a, algorithm: g, valid: ok } && a@
        == asset_id && g@ == algorithm && ok == valid
}

/// The buffer rule: `event` joins the pending events; once the threshold is
/// reached, all of them are handed over (`flushed`) and the buffer empties.
pub open spec fn buffered(
    before: Seq<GovernanceEvent>,
    event: GovernanceEvent,
    flushed: Seq<GovernanceEvent>,
    after: Seq<GovernanceEvent>,
) -> bool {
    let all = before.push(event);
    if all.len() >= AUTO_FLUSH_THRESHOLD {
        flushed == all && after.len() == 0
    } else {
        flushed.len() == 0 && after == all
    }
}

/// What an observatory adapter holds, as mathematical values.
pub ghost struct ObservatoryView {
    pub service_name: Seq<char>,
    pub endpoint: Option<Seq<char>>,
    pub pending: Seq<GovernanceEvent>,
    pub flush_interval_secs: u64,
    pub enabled: bool,
}

/// Adapter that buffers governance events for an observatory service.
pub struct ObservatoryAdapter {
    service_name: String,
    endpoint: Option<String>,
    event_buffer: Vec<GovernanceEvent>,
    flush_interval_secs: u64,
    enabled: bool,
}

impl View for ObservatoryAdapter {
    type V = ObservatoryView;

    closed spec fn view(&self) -> ObservatoryView {
        ObservatoryView {
            service_name: self.service_name@,
            endpoint: match self.endpoint {
                Some(e) => Some(e@),
                None => None,
            },
            pending: self.event_buffer@,
            flush_interval_secs: self.flush_interval_secs,
            enabled: self.enabled,
        }
    }
}

impl ObservatoryAdapter {
    /// An enabled adapter with no endpoint and no pending events.
    pub fn new(service_name: &str) -> (r: ObservatoryAdapter)
        ensures
            r@.service_name == service_name@,
            r@.endpoint is None,
            r@.pending.len() == 0,
            r@.flush_interval_secs == DEFAULT_FLUSH_INTERVAL_SECS,
            r@.enabled,
    {
        ObservatoryAdapter {
            service_name: service_name.to_owned(),
            endpoint: None,
            event_buffer: Vec::new(),
            flush_interval_secs: DEFAULT_FLUSH_INTERVAL_SECS,
            enabled: true,
        }
    }

    /// An enabled adapter that delivers to a remote endpoint.
    pub fn with_endpoint(service_name: &str, endpoint: String) -> (r: ObservatoryAdapter)
        ensures
            r@.service_name == service_name@,
            r@.endpoint == Some(endpoint@),
            r@.pending.len() == 0,
            r@.flush_interval_secs == DEFAULT_FLUSH_INTERVAL_SECS,
            r@.enabled,
    {
        let mut adapter = Self::new(service_name);
        adapter.endpoint = Some(endpoint);
        adapter
    }

    /// The same adapter with another flush interval.
    pub fn with_flush_interval(self, interval_secs: u64) -> (r: ObservatoryAdapter)
        ensures
            r@ == (ObservatoryView { flush_interval_secs: interval_secs, ..self@ }),
    {
        let mut adapter = self;
        adapter.flush_interval_secs = interval_secs;
        adapter
    }

    /// The same adapter, enabled or disabled.
    pub fn with_enabled(self, enabled: bool) -> (r: ObservatoryAdapter)
        ensures
            r@ == (ObservatoryView { enabled, ..self@ }),
    {
        let mut adapter = self;
        adapter.enabled = enabled;
        adapter
    }

    /// Whether telemetry is enabled.
    pub fn is_enabled(&self) -> (r: bool)
        ensures
            r == self@.enabled,
    {
        self.enabled
    }

    /// Number of events waiting for delivery.
    pub fn pending_events(&self) -> (r: usize)
        ensures
            r == self@.pending.len(),
    {
        self.event_buffer.len()
    }

    /// Hands over every pending event, oldest first, and empties the buffer.
    pub fn flush(&mut self) -> (r: Vec<GovernanceEvent>)
        ensures
            r@ == old(self)@.pending,
            final(self)@ == (ObservatoryView { pending: Seq::empty(), ..old(self)@ }),
    {
        let mut events: Vec<GovernanceEvent> = Vec::new();
        std::mem::swap(&mut events, &mut self.event_buffer);
        proof {
            assert(self@.pending =~= Seq::<GovernanceEvent>::empty());
        }
        events
    }

    /// Buffers a governance event while telemetry is enabled, and returns
    /// the events that are due for delivery: all pending ones once the
    /// threshold is reached, none otherwise.
    pub fn emit_governance_event(&mut self, event: GovernanceEvent) -> (r: Vec<GovernanceEvent>)
        ensures
            final(self)@.service_name == old(self)@.service_name,
            final(self)@.endpoint == old(self)@.endpoint,
            final(self)@.flush_interval_secs == old(self)@.flush_interval_secs,
            final(self)@.enabled == old(self)@.enabled,
            old(self)@.enabled ==> buffered(old(self)@.pending, event, r@, final(self)@.pending),
            !old(self)@.enabled ==> r@.len() == 0 && final(self)@.pending == old(self)@.pending,
    {
        if !self.enabled {
            return Vec::new();
        }
        self.event_buffer.push(event);
        if self.event_buffer.len() >= AUTO_FLUSH_THRESHOLD {
            self.flush()
        } else {
            Vec::new()
        }
    }

    /// Records the registration of an asset; see
    /// [`ObservatoryAdapter::emit_governance_event`] for what is returned.
    pub fn trace_asset_registration(
        &mut self,
        asset_id: &str,
        asset_name: &str,
        asset_version: &str,
        registered_by: &str,
    ) -> (r: Vec<GovernanceEvent>)
        ensures
            final(self)@.enabled == old(self)@.enabled,
            old(self)@.enabled ==> is_registration(
                (r@ + final(self)@.pending).last(),
                asset_id@,
                asset_name@,
                asset_version@,
                registered_by@,
            ) && buffered(
                old(self)@.pending,
                (r@ + final(self)@.pending).last(),
                r@,
                final(self)@.pending,
            ),
            !old(self)@.enabled ==> r@.len() == 0 && final(self)@ == old(self)@,
    {
        if !self.enabled {
            return Vec::new();
        }
        let event = GovernanceEvent::AssetRegistered {
            asset_id: asset_id.to_owned(),
            asset_name: asset_name.to_owned(),
            asset_version: asset_version.to_owned(),
            registered_by: registered_by.to_owned(),
        };
        let ghost e = event;
        let r = self.emit_governance_event(event);
        proof {
            assert((r@ + self@.pending).last() == e);
        }
        r
    }

    /// Records an update of an asset; see
    /// [`ObservatoryAdapter::emit_governance_event`] for what is returned.
    pub fn trace_asset_update(&mut self, asset_id: &str, changes: Vec<String>, updated_by: &str) -> (r:
        Vec<GovernanceEvent>)
        ensures
            final(self)@.enabled == old(self)@.enabled,
            old(self)@.enabled ==> is_update(
                (r@ + final(self)@.pending).last(),
                asset_id@,
                changes@,
                updated_by@,
            ) && buffered(
                old(self)@.pending,
                (r@ + final(self)@.pending).last(),
                r@,
                final(self)@.pending,
            ),
            !old(self)@.enabled ==> r@.len() == 0 && final(self)@ == old(self)@,
    {
        if !self.enabled {
            return Vec::new();
        }
        let event = GovernanceEvent::AssetUpdated {
            asset_id: asset_id.to_owned(),
            changes,
            updated_by: updated_by.to_owned(),
        };
        let ghost e = event;
        let r = self.emit_governance_event(event);
        proof {
            assert((r@ + self@.pending).last() == e);
        }
        r
    }

    /// Records a policy validation of an asset; see
    /// [`ObservatoryAdapter::emit_governance_event`] for what is returned.
    pub fn trace_policy_validation(
        &mut self,
        asset_id: &str,
        policy_name: &str,
        passed: bool,
        violations: Vec<String>,
    ) -> (r: Vec<GovernanceEvent>)
        ensures
            final(self)@.enabled == old(self)@.enabled,
            old(self)@.enabled ==> is_policy_validation(
                (r@ + final(self)@.pending).last(),
                asset_id@,
                policy_name@,
                passed,
                violations@,
            ) && buffered(
                old(self)@.pending,
                (r@ + final(self)@.pending).last(),
                r@,
                final(self)@.pending,
            ),
            !old(self)@.enabled ==> r@.len() == 0 && final(self)@ == old(self)@,
    {
        if !self.enabled {
            return Vec::new();
        }
        let event = GovernanceEvent::PolicyValidated {
            asset_id: asset_id.to_owned(),
            policy_name: policy_name.to_owned(),
            passed,
            violations,
        };
        let ghost e = event;
        let r = self.emit_governance_event(event);
        proof {
            assert((r@ + self@.pending).last() == e);
        }
        r
    }

    /// Records an integrity check of an asset; see
    /// [`ObservatoryAdapter::emit_governance_event`] for what is returned.
    pub fn trace_integrity_verification(&mut self, asset_id: &str, algorithm: &str, valid: bool) -> (r:
        Vec<GovernanceEvent>)
        ensures
            final(self)@.enabled == old(self)@.enabled,
            old(self)@.enabled ==> is_integrity_verification(
                (r@ + final(self)@.pending).last(),
                asset_id@,
                algorithm@,
                valid,
            ) && buffered(
                old(self)@.pending,
                (r@ + final(self)@.pending).last(),
                r@,
                final(self)@.pending,
            ),
            !old(self)@.enabled ==> r@.len() == 0 && final(self)@ == old(self)@,
    {
        if !self.enabled {
            return Vec::new();
        }
        let event = GovernanceEvent::IntegrityVerified {
            asset_id: asset_id.to_owned(),
            algorithm: algorithm.to_owned(),
            valid,
        };
        let ghost e = event;
        let r = self.emit_governance_event(event);
        proof {
            assert((r@ + self@.pending).last() == e);
        }
        r
    }

    /// A health report of the database, cache and search components, in
    /// that order; healthy overall when all three are.
    pub fn create_health_status(
        database_healthy: bool,
        database_latency_ms: u64,
        cache_healthy: bool,
        cache_latency_ms: u64,
        search_healthy: bool,
        search_latency_ms: u64,
    ) -> (r: HealthStatus)
        ensures
            r.healthy == (database_healthy && cache_healthy && search_healthy),
            r.components@.len() == 3,
            reports(
                r.components@[0],
                "database"@,
                database_healthy,
                database_latency_ms,
                "Database connection failed"@,
            ),
            reports(
                r.components@[1],
                "cache"@,
                cache_healthy,
                cache_latency_ms,
                "Cache connection failed"@,
            ),
            reports(
                r.components@[2],
                "search"@,
                search_healthy,
                search_latency_ms,
                "Search service unavailable"@,
            ),
    {
        let mut components: Vec<ComponentHealth> = Vec::new();
        components.push(
            component("database", database_healthy, database_latency_ms, "Database connection failed"),
        );
        components.push(component("cache", cache_healthy, cache_latency_ms, "Cache connection failed"));
        components.push(
            component("search", search_healthy, search_latency_ms, "Search service unavailable"),
        );
        HealthStatus {
            healthy: database_healthy && cache_healthy && search_healthy,
            components,
            timestamp: Timestamp::now(),
        }
    }
}

impl Default for ObservatoryAdapter {
    fn default() -> (r: Self)
        ensures
            r@.service_name == "llm-registry"@,
            r@.endpoint is None,
            r@.pending.len() == 0,
            r@.flush_interval_secs == DEFAULT_FLUSH_INTERVAL_SECS,
            r@.enabled,
    {
        Self::new("llm-registry")
    }
}

} // verus!
