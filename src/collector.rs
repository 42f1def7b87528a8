//! The request-scoped span collector: it opens the repo span on creation,
//! opens and closes agent spans, attaches artifacts to them, and produces
//! the finalized span tree.
//!
//! Mutation goes through `&mut self`, so every operation runs under the
//! exclusive access that the borrow gives; a host that shares one collector
//! among concurrent tasks wraps it in a lock.

use vstd::prelude::*;
use vstd::seq_lib::seq_to_set_is_finite;
use vstd::set_lib::{lemma_int_range, lemma_len_subset, set_int_range};
use crate::ids::{ExecutionId, SpanId};
use crate::span::{
    span_views, ExecutionContext, ExecutionResult, ExecutionSpan, SpanArtifact, SpanAttribute,
    SpanState, SpanStatus, SpanType, SpanView, Timestamp,
};

verus! {

/// Name of the repo span.
pub const REPO_SPAN_NAME: &'static str = "llm-registry";

/// Attribute key under which an explicit failure reason is recorded on the
/// repo span.
pub const FAILURE_REASON_KEY: &'static str = "failure_reason";

/// Why an artifact could not be attached.
#[derive(Debug, Clone, Copy, PartialEq, Eq, Structural)]
pub enum AttachError {
    /// No span has the given identifier.
    SpanNotFound(SpanId),
    /// The identifier names the repo span, which never carries artifacts.
    RootAttachmentForbidden,
}

impl AttachError {
    /// Human-readable description of the error.
    pub fn message(&self) -> (r: String)
        ensures
            match self {
                AttachError::SpanNotFound(id) => r@ == "Span not found: "@ + id.text(),
                AttachError::RootAttachmentForbidden => r@
                    == "Cannot attach artifacts to repo-level spans"@,
            },
    {
        match self {
            AttachError::SpanNotFound(id) => {
                let mut m = "Span not found: ".to_owned();
                let text = id.to_string();
                m.append(text.as_str());
                m
            },
            AttachError::RootAttachmentForbidden => "Cannot attach artifacts to repo-level spans".to_owned(),
        }
    }
}

/// What a collector holds, as mathematical values.
pub ghost struct CollectorView {
    pub execution_id: Seq<char>,
    pub spans: Seq<SpanView>,
}

/// `i` is the first position of a span with identifier `id`.
pub open spec fn is_first_with_id(spans: Seq<SpanView>, id: SpanId, i: int) -> bool {
    &&& 0 <= i < spans.len()
    &&& spans[i].span_id == id
    &&& forall|j: int| 0 <= j < i ==> spans[j].span_id != id
}

/// Position of the first span with identifier `id`, or -1 if there is none.
pub open spec fn position_of(spans: Seq<SpanView>, id: SpanId) -> int {
    if exists|i: int| is_first_with_id(spans, id, i) {
        choose|i: int| is_first_with_id(spans, id, i)
    } else {
        -1
    }
}

/// Some span has status `Failed`.
pub open spec fn any_failed(spans: Seq<SpanView>) -> bool {
    exists|i: int| 0 <= i < spans.len() && spans[i].status == SpanStatus::Failed
}

/// `s` ended at `at` with the given status, all else unchanged.
pub open spec fn closed_span(s: SpanView, status: SpanStatus, at: Timestamp) -> SpanView {
    SpanView { ended_at: Some(at), status, ..s }
}

/// A newly opened agent span.
pub open spec fn opened_agent(id: SpanId, parent: SpanId, name: Seq<char>, at: Timestamp) -> SpanView {
    SpanView {
        span_id: id,
        parent_span_id: parent,
        span_type: SpanType::Agent,
        name,
        started_at: at,
        ended_at: None,
        status: SpanStatus::Succeeded,
        artifacts: Seq::empty(),
        attributes: Seq::empty(),
    }
}

/// No two attributes share a key.
pub open spec fn keys_unique(attrs: Seq<SpanAttribute>) -> bool {
    forall|a: int, b: int| 0 <= a < b < attrs.len() ==> attrs[a].key@ != attrs[b].key@
}

/// Some attribute has the key.
pub open spec fn has_key(attrs: Seq<SpanAttribute>, key: Seq<char>) -> bool {
    exists|k: int| 0 <= k < attrs.len() && attrs[k].key@ == key
}

/// `after` is `before` with `key` set to `value`: the attribute with that
/// key has its value replaced, or a new attribute is appended.
pub open spec fn sets_attribute(
    before: Seq<SpanAttribute>,
    after: Seq<SpanAttribute>,
    key: Seq<char>,
    value: Seq<char>,
) -> bool {
    if has_key(before, key) {
        exists|k: int|
            0 <= k < before.len() && before[k].key@ == key && after.len() == before.len()
                && after[k].key@ == key && after[k].value@ == value && forall|j: int|
                0 <= j < before.len() && j != k ==> after[j] == before[j]
    } else {
        &&& after.len() == before.len() + 1
        &&& after.drop_last() == before
        &&& after.last().key@ == key
        &&& after.last().value@ == value
    }
}

/// No two spans share an identifier.
pub open spec fn ids_distinct(spans: Seq<SpanView>) -> bool {
    forall|a: int, b: int|
        0 <= a < b < spans.len() ==> #[trigger] spans[a].span_id != #[trigger] spans[b].span_id
}

/// The shape every span tree keeps: the repo span first; every other span an
/// agent span whose parent is the repo span; no two spans with one
/// identifier; artifacts only on agent spans; open spans not failed;
/// attribute keys unique.
pub open spec fn tree_invariant(spans: Seq<SpanView>) -> bool {
    &&& spans.len() >= 1
    &&& ids_distinct(spans)
    &&& spans[0].span_type == SpanType::Repo
    &&& spans[0].artifacts.len() == 0
    &&& forall|i: int|
        1 <= i < spans.len() ==> #[trigger] spans[i].span_type == SpanType::Agent
            && spans[i].parent_span_id == spans[0].span_id
    &&& forall|i: int|
        0 <= i < spans.len() && (#[trigger] spans[i].ended_at) is None ==> spans[i].status
            == SpanStatus::Succeeded
    &&& forall|i: int| 0 <= i < spans.len() ==> keys_unique(#[trigger] spans[i].attributes)
}

/// The effect of closing the agent span `id` with `status`: the first span
/// with that identifier, if it is an agent span and still open, ends with
/// that status; otherwise nothing changes.
pub open spec fn closes_agent(
    before: CollectorView,
    after: CollectorView,
    id: SpanId,
    status: SpanStatus,
) -> bool {
    let i = position_of(before.spans, id);
    &&& after.execution_id == before.execution_id
    &&& if i >= 1 && before.spans[i].ended_at is None {
        &&& after.spans[i].ended_at is Some
        &&& after.spans == before.spans.update(
            i,
            closed_span(before.spans[i], status, after.spans[i].ended_at.unwrap()),
        )
    } else {
        after.spans == before.spans
    }
}

/// `s` with one more artifact at the end.
pub open spec fn with_artifact(s: SpanView, artifact: SpanArtifact) -> SpanView {
    SpanView { artifacts: s.artifacts.push(artifact), ..s }
}

/// `s` with the given attributes.
pub open spec fn with_attributes(s: SpanView, attributes: Seq<SpanAttribute>) -> SpanView {
    SpanView { attributes, ..s }
}

/// The status the repo span takes at finalization: failed if any span failed.
pub open spec fn propagated_status(spans: Seq<SpanView>) -> SpanStatus {
    if any_failed(spans) {
        SpanStatus::Failed
    } else {
        SpanStatus::Succeeded
    }
}

/// Closing a span a second time changes nothing: the span keeps the state
/// that the first close gave it, whatever status the second one asks for.
pub proof fn law_close_is_idempotent(
    a: CollectorView,
    b: CollectorView,
    c: CollectorView,
    id: SpanId,
    first: SpanStatus,
    second: SpanStatus,
)
    requires
        closes_agent(a, b, id, first),
        closes_agent(b, c, id, second),
    ensures
        c == b,
{
    let i = position_of(a.spans, id);
    if i >= 1 && a.spans[i].ended_at is None {
        assert(is_first_with_id(a.spans, id, i));
        assert(is_first_with_id(b.spans, id, i));
        lemma_position_is(b.spans, id, i);
    }
    assert(c.spans == b.spans);
}

/// Append-only span collector for one request.
pub struct SpanCollector {
    execution_id: ExecutionId,
    repo_span_id: SpanId,
    spans: Vec<ExecutionSpan>,
}

impl View for SpanCollector {
    type V = CollectorView;

    closed spec fn view(&self) -> CollectorView {
        CollectorView { execution_id: self.execution_id@, spans: span_views(self.spans@) }
    }
}

proof fn lemma_position_is(spans: Seq<SpanView>, id: SpanId, i: int)
    requires
        is_first_with_id(spans, id, i),
    ensures
        position_of(spans, id) == i,
{
    let k = position_of(spans, id);
    assert(is_first_with_id(spans, id, k));
    if k < i {
        assert(spans[k].span_id == id);
    } else if i < k {
        assert(spans[i].span_id == id);
    }
}

/// No span has identifier value `k`.
pub open spec fn value_unused(spans: Seq<SpanView>, k: int) -> bool {
    forall|j: int| 0 <= j < spans.len() ==> #[trigger] spans[j].span_id.value != k
}

/// Among the values 0 to `spans.len()` one is not the identifier of any span.
proof fn lemma_unused_value(spans: Seq<SpanView>)
    ensures
        exists|k: int| 0 <= k <= spans.len() && #[trigger] value_unused(spans, k),
{
    broadcast use seq_to_set_is_finite;

    let ids = spans.map_values(|s: SpanView| s.span_id.value as int);
    let range = set_int_range(0, spans.len() as int + 1);
    lemma_int_range(0, spans.len() as int + 1);
    ids.lemma_cardinality_of_set();
    if !range.subset_of(ids.to_set()) {
        let k = choose|k: int| range.contains(k) && !ids.to_set().contains(k);
        assert forall|j: int| 0 <= j < spans.len() implies #[trigger] spans[j].span_id.value != k by {
            assert(ids[j] == spans[j].span_id.value as int);
        }
        assert(value_unused(spans, k));
    } else {
        lemma_len_subset(range, ids.to_set());
    }
}

/// In a tree with distinct identifiers, a span is the first with its own
/// identifier.
pub proof fn lemma_position_of_index(spans: Seq<SpanView>, i: int)
    requires
        tree_invariant(spans),
        0 <= i < spans.len(),
    ensures
        position_of(spans, spans[i].span_id) == i,
{
    assert(is_first_with_id(spans, spans[i].span_id, i));
    lemma_position_is(spans, spans[i].span_id, i);
}

proof fn lemma_position_absent(spans: Seq<SpanView>, id: SpanId)
    requires
        forall|j: int| 0 <= j < spans.len() ==> spans[j].span_id != id,
    ensures
        position_of(spans, id) == -1,
{
    if exists|i: int| is_first_with_id(spans, id, i) {
        let i = choose|i: int| is_first_with_id(spans, id, i);
        assert(spans[i].span_id == id);
    }
}

/// Sets `key` to `value` among the attributes, keeping keys unique.
fn set_attribute(attrs: &mut Vec<SpanAttribute>, key: &str, value: &str)
    requires
        keys_unique(old(attrs)@),
    ensures
        keys_unique(final(attrs)@),
        sets_attribute(old(attrs)@, final(attrs)@, key@, value@),
{
    let key_text = key.to_owned();
    let mut k: usize = 0;
    while k < attrs.len()
        invariant
            0 <= k <= attrs.len(),
            attrs@ == old(attrs)@,
            keys_unique(old(attrs)@),
            key_text@ == key@,
            forall|j: int| 0 <= j < k ==> attrs@[j].key@ != key@,
        decreases attrs.len() - k,
    {
        if attrs[k].key == key_text {
            attrs[k].value = value.to_owned();
            proof {
                assert forall|j: int| 0 <= j < attrs@.len() implies attrs@[j].key@ == old(
                    attrs,
                )@[j].key@ by {}
                assert forall|a: int, b: int| 0 <= a < b < attrs@.len() implies attrs@[a].key@
                    != attrs@[b].key@ by {
                    assert(attrs@[a].key@ == old(attrs)@[a].key@);
                    assert(attrs@[b].key@ == old(attrs)@[b].key@);
                }
                assert(sets_attribute(old(attrs)@, attrs@, key@, value@)) by {
                    assert(0 <= k < old(attrs)@.len() && old(attrs)@[k as int].key@ == key@);
                }
            }
            return;
        }
        k += 1;
    }
    attrs.push(SpanAttribute { key: key_text, value: value.to_owned() });
    proof {
        assert(attrs@.drop_last() =~= old(attrs)@);
    }
}

impl SpanCollector {
    /// The collector's internal consistency: the span tree keeps its shape
    /// and the recorded repo span identifier is the first span's.
    pub closed spec fn wf(&self) -> bool {
        &&& tree_invariant(self@.spans)
        &&& self.repo_span_id == self@.spans[0].span_id
    }

    /// A well-formed collector holds a well-shaped span tree.
    pub proof fn lemma_wf_tree(&self)
        requires
            self.wf(),
        ensures
            tree_invariant(self@.spans),
    {
    }

    /// An identifier that no span has: a newly generated one or, should it
    /// collide, the smallest value not in use.
    fn fresh_span_id(&self) -> (r: SpanId)
        ensures
            forall|j: int| 0 <= j < self@.spans.len() ==> self@.spans[j].span_id != r,
    {
        let drawn = SpanId::new();
        if self.find_span(drawn).is_none() {
            return drawn;
        }
        let n = self.spans.len();
        let mut c: u128 = 0;
        while c <= n as u128
            invariant
                c <= n + 1,
                n == self@.spans.len(),
                forall|k: int| 0 <= k < c ==> !#[trigger] value_unused(self@.spans, k),
            decreases n + 1 - c,
        {
            let candidate = SpanId { value: c };
            match self.find_span(candidate) {
                None => return candidate,
                Some(j) => {
                    proof {
                        assert(self@.spans[j as int].span_id.value == c);
                        assert(!value_unused(self@.spans, c as int));
                    }
                },
            }
            c += 1;
        }
        proof {
            lemma_unused_value(self@.spans);
            let k = choose|k: int| 0 <= k <= n && #[trigger] value_unused(self@.spans, k);
            assert(k < c);
        }
        drawn
    }

    /// Creates a collector for the given context and opens its repo span.
    pub fn new(ctx: &ExecutionContext) -> (r: SpanCollector)
        ensures
            r.wf(),
            tree_invariant(r@.spans),
            r@.execution_id == ctx.execution_id@,
            r@.spans.len() == 1,
            r@.spans[0].span_type == SpanType::Repo,
            r@.spans[0].parent_span_id == ctx.parent_span_id,
            r@.spans[0].name == REPO_SPAN_NAME@,
            r@.spans[0].state() == SpanState::Open,
            r@.spans[0].status == SpanStatus::Succeeded,
            r@.spans[0].artifacts.len() == 0,
            r@.spans[0].attributes.len() == 0,
    {
        let repo_span_id = SpanId::new();
        let repo_span = ExecutionSpan {
            span_id: repo_span_id,
            parent_span_id: ctx.parent_span_id,
            span_type: SpanType::Repo,
            name: REPO_SPAN_NAME.to_owned(),
            started_at: Timestamp::now(),
            ended_at: None,
            status: SpanStatus::Succeeded,
            artifacts: Vec::new(),
            attributes: Vec::new(),
        };
        let mut spans: Vec<ExecutionSpan> = Vec::new();
        spans.push(repo_span);
        let r = SpanCollector { execution_id: ctx.execution_id.clone(), repo_span_id, spans };
        proof {
            assert(r@.spans[0] == spans@[0]@);
        }
        r
    }

    /// The repo span's identifier, the parent of every agent span.
    pub fn repo_span_id(&self) -> (r: SpanId)
        requires
            self.wf(),
        ensures
            r == self@.spans[0].span_id,
    {
        self.repo_span_id
    }

    /// Position of the first span with the given identifier.
    fn find_span(&self, span_id: SpanId) -> (r: Option<usize>)
        ensures
            match r {
                Some(i) => is_first_with_id(self@.spans, span_id, i as int),
                None => forall|j: int|
                    0 <= j < self@.spans.len() ==> self@.spans[j].span_id != span_id,
            },
    {
        let mut i: usize = 0;
        while i < self.spans.len()
            invariant
                0 <= i <= self.spans.len(),
                forall|j: int| 0 <= j < i ==> self@.spans[j].span_id != span_id,
            decreases self.spans.len() - i,
        {
            if self.spans[i].span_id == span_id {
                return Some(i);
            }
            i += 1;
        }
        None
    }

    /// Opens a new agent span, a child of the repo span, and returns its
    /// identifier. The name is stored as given.
    pub fn begin_agent_span(&mut self, agent_name: &str) -> (r: SpanId)
        requires
            old(self).wf(),
        ensures
            final(self).wf(),
            tree_invariant(final(self)@.spans),
            forall|j: int| 0 <= j < old(self)@.spans.len() ==> old(self)@.spans[j].span_id != r,
            final(self)@.execution_id == old(self)@.execution_id,
            final(self)@.spans == old(self)@.spans.push(
                opened_agent(
                    r,
                    old(self)@.spans[0].span_id,
                    agent_name@,
                    final(self)@.spans.last().started_at,
                ),
            ),
    {
        let span_id = self.fresh_span_id();
        let span = ExecutionSpan {
            span_id,
            parent_span_id: self.repo_span_id,
            span_type: SpanType::Agent,
            name: agent_name.to_owned(),
            started_at: Timestamp::now(),
            ended_at: None,
            status: SpanStatus::Succeeded,
            artifacts: Vec::new(),
            attributes: Vec::new(),
        };
        self.spans.push(span);
        proof {
            assert(self@.spans =~= old(self)@.spans.push(
                opened_agent(span_id, old(self)@.spans[0].span_id, agent_name@, self@.spans.last().started_at),
            ));
        }
        span_id
    }

    /// Closes an agent span with the given status. Nothing changes when no
    /// span has the identifier, when it names the repo span, or when the
    /// span is already closed.
    pub fn end_agent_span(&mut self, span_id: SpanId, status: SpanStatus)
        requires
            old(self).wf(),
        ensures
            final(self).wf(),
            tree_invariant(final(self)@.spans),
            closes_agent(old(self)@, final(self)@, span_id, status),
            forall|i: int|
                1 <= i < old(self)@.spans.len() && old(self)@.spans[i].span_id == span_id
                    && old(self)@.spans[i].ended_at is None ==> final(self)@.spans[i].ended_at is Some
                    && final(self)@.spans == old(self)@.spans.update(
                    i,
                    closed_span(old(self)@.spans[i], status, final(self)@.spans[i].ended_at.unwrap()),
                ),
            forall|i: int|
                0 <= i < old(self)@.spans.len() && old(self)@.spans[i].span_id == span_id
                    && old(self)@.spans[i].ended_at is Some ==> final(self)@ == old(self)@,
    {
        proof {
            assert forall|i: int| 0 <= i < old(self)@.spans.len() implies position_of(
                old(self)@.spans,
                #[trigger] old(self)@.spans[i].span_id,
            ) == i by {
                lemma_position_of_index(old(self)@.spans, i);
            }
        }
        match self.find_span(span_id) {
            Some(i) => {
                proof {
                    lemma_position_is(self@.spans, span_id, i as int);
                }
                if i >= 1 && self.spans[i].ended_at.is_none() {
                    let at = Timestamp::now();
                    self.spans[i].ended_at = Some(at);
                    self.spans[i].status = status;
                    proof {
                        assert(self@.spans =~= old(self)@.spans.update(
                            i as int,
                            closed_span(old(self)@.spans[i as int], status, at),
                        ));
                    }
                }
            },
            None => {
                proof {
                    lemma_position_absent(self@.spans, span_id);
                }
            },
        }
    }

    /// Attaches an artifact to an agent span, open or closed, after the
    /// artifacts it already has.
    pub fn attach_artifact(&mut self, span_id: SpanId, artifact: SpanArtifact) -> (r: Result<
        (),
        AttachError,
    >)
        requires
            old(self).wf(),
        ensures
            final(self).wf(),
            tree_invariant(final(self)@.spans),
            final(self)@.execution_id == old(self)@.execution_id,
            ({
                let i = position_of(old(self)@.spans, span_id);
                if i < 0 {
                    r == Err::<(), AttachError>(AttachError::SpanNotFound(span_id))
                        && final(self)@.spans == old(self)@.spans
                } else if i == 0 {
                    r == Err::<(), AttachError>(AttachError::RootAttachmentForbidden)
                        && final(self)@.spans == old(self)@.spans
                } else {
                    r is Ok && final(self)@.spans == old(self)@.spans.update(
                        i,
                        with_artifact(old(self)@.spans[i], artifact),
                    )
                }
            }),
            span_id == old(self)@.spans[0].span_id ==> r == Err::<(), AttachError>(
                AttachError::RootAttachmentForbidden,
            ) && final(self)@ == old(self)@,
            forall|i: int|
                1 <= i < old(self)@.spans.len() && old(self)@.spans[i].span_id == span_id
                    ==> r is Ok && final(self)@.spans == old(self)@.spans.update(
                    i,
                    with_artifact(old(self)@.spans[i], artifact),
                ),
    {
        proof {
            assert forall|i: int| 0 <= i < old(self)@.spans.len() implies position_of(
                old(self)@.spans,
                #[trigger] old(self)@.spans[i].span_id,
            ) == i by {
                lemma_position_of_index(old(self)@.spans, i);
            }
        }
        match self.find_span(span_id) {
            Some(i) => {
                proof {
                    lemma_position_is(self@.spans, span_id, i as int);
                }
                if i == 0 {
                    return Err(AttachError::RootAttachmentForbidden);
                }
                let ghost a = artifact;
                self.spans[i].artifacts.push(artifact);
                proof {
                    assert(self@.spans =~= old(self)@.spans.update(
                        i as int,
                        with_artifact(old(self)@.spans[i as int], a),
                    ));
                }
                Ok(())
            },
            None => {
                proof {
                    lemma_position_absent(self@.spans, span_id);
                }
                Err(AttachError::SpanNotFound(span_id))
            },
        }
    }

    /// Whether at least one agent span has been opened, whatever its state.
    pub fn has_agent_spans(&self) -> (r: bool)
        requires
            self.wf(),
        ensures
            r == exists|i: int|
                0 <= i < self@.spans.len() && self@.spans[i].span_type == SpanType::Agent,
    {
        proof {
            if self@.spans.len() > 1 {
                assert(self@.spans[1].span_type == SpanType::Agent);
            }
        }
        self.spans.len() > 1
    }

    /// Whether some span has status `Failed`.
    fn any_span_failed(&self) -> (r: bool)
        ensures
            r == any_failed(self@.spans),
    {
        let mut i: usize = 0;
        while i < self.spans.len()
            invariant
                0 <= i <= self.spans.len(),
                forall|j: int| 0 <= j < i ==> self@.spans[j].status != SpanStatus::Failed,
            decreases self.spans.len() - i,
        {
            if self.spans[i].status == SpanStatus::Failed {
                assert(self@.spans[i as int].status == SpanStatus::Failed);
                return true;
            }
            i += 1;
        }
        false
    }

    /// A copy of the execution identifier and of every span.
    fn snapshot(&self) -> (r: ExecutionResult)
        ensures
            r.execution_id@ == self@.execution_id,
            span_views(r.spans@) == self@.spans,
            r.spans@.len() == self@.spans.len(),
            forall|i: int| 0 <= i < r.spans@.len() ==> #[trigger] r.spans@[i]@ == self@.spans[i],
    {
        let spans = self.spans.clone();
        proof {
            assert forall|i: int| 0 <= i < spans@.len() implies spans@[i]@ == self.spans@[i]@ by {
                assert(cloned::<ExecutionSpan>(self.spans[i], spans[i]));
            }
            assert(span_views(spans@) =~= self@.spans);
        }
        ExecutionResult { execution_id: self.execution_id.clone(), spans }
    }

    /// Closes the repo span, failed if any span has failed and successful
    /// otherwise, and returns the whole span tree. Agent spans that are
    /// still open are returned open. Calling it again stamps the repo span
    /// anew.
    pub fn finalize(&mut self) -> (r: ExecutionResult)
        requires
            old(self).wf(),
        ensures
            final(self).wf(),
            tree_invariant(final(self)@.spans),
            final(self)@.execution_id == old(self)@.execution_id,
            final(self)@.spans[0].ended_at is Some,
            final(self)@.spans == old(self)@.spans.update(
                0,
                closed_span(
                    old(self)@.spans[0],
                    propagated_status(old(self)@.spans),
                    final(self)@.spans[0].ended_at.unwrap(),
                ),
            ),
            r.execution_id@ == old(self)@.execution_id,
            span_views(r.spans@) == final(self)@.spans,
            r.spans@.len() == final(self)@.spans.len(),
            forall|i: int|
                0 <= i < r.spans@.len() ==> #[trigger] r.spans@[i]@ == final(self)@.spans[i],
            tree_invariant(span_views(r.spans@)),
            r.spans@[0]@.parent_span_id == old(self)@.spans[0].parent_span_id,
            (exists|i: int|
                0 <= i < old(self)@.spans.len() && old(self)@.spans[i].state()
                    == SpanState::ClosedFailed) ==> r.spans@[0]@.state() == SpanState::ClosedFailed,
            (forall|i: int|
                0 <= i < old(self)@.spans.len() ==> old(self)@.spans[i].state()
                    != SpanState::ClosedFailed) ==> r.spans@[0]@.state() == SpanState::ClosedOk,
    {
        let failed = self.any_span_failed();
        let at = Timestamp::now();
        self.spans[0].ended_at = Some(at);
        self.spans[0].status = if failed {
            SpanStatus::Failed
        } else {
            SpanStatus::Succeeded
        };
        proof {
            let old_spans = old(self)@.spans;
            assert(self@.spans =~= old_spans.update(
                0,
                closed_span(old_spans[0], propagated_status(old_spans), at),
            ));
            if exists|i: int|
                0 <= i < old_spans.len() && old_spans[i].state() == SpanState::ClosedFailed {
                let i = choose|i: int|
                    0 <= i < old_spans.len() && old_spans[i].state() == SpanState::ClosedFailed;
                assert(old_spans[i].status == SpanStatus::Failed);
            }
            if any_failed(old_spans) {
                let i = choose|i: int|
                    0 <= i < old_spans.len() && old_spans[i].status == SpanStatus::Failed;
                assert(old_spans[i].state() == SpanState::ClosedFailed);
            }
        }
        self.snapshot()
    }

    /// Closes the repo span as failed, records `reason` under
    /// [`FAILURE_REASON_KEY`] among its attributes, and returns the whole
    /// span tree. Only the repo span changes.
    pub fn finalize_failed(&mut self, reason: &str) -> (r: ExecutionResult)
        requires
            old(self).wf(),
        ensures
            final(self).wf(),
            tree_invariant(final(self)@.spans),
            final(self)@.execution_id == old(self)@.execution_id,
            final(self)@.spans[0].ended_at is Some,
            sets_attribute(
                old(self)@.spans[0].attributes,
                final(self)@.spans[0].attributes,
                FAILURE_REASON_KEY@,
                reason@,
            ),
            final(self)@.spans == old(self)@.spans.update(
                0,
                closed_span(
                    with_attributes(old(self)@.spans[0], final(self)@.spans[0].attributes),
                    SpanStatus::Failed,
                    final(self)@.spans[0].ended_at.unwrap(),
                ),
            ),
            r.execution_id@ == old(self)@.execution_id,
            span_views(r.spans@) == final(self)@.spans,
            r.spans@.len() == final(self)@.spans.len(),
            forall|i: int|
                0 <= i < r.spans@.len() ==> #[trigger] r.spans@[i]@ == final(self)@.spans[i],
            tree_invariant(span_views(r.spans@)),
            r.spans@[0]@.parent_span_id == old(self)@.spans[0].parent_span_id,
            r.spans@[0]@.state() == SpanState::ClosedFailed,
    {
        proof {
            assert(keys_unique(self@.spans[0].attributes));
        }
        set_attribute(&mut self.spans[0].attributes, FAILURE_REASON_KEY, reason);
        let at = Timestamp::now();
        self.spans[0].ended_at = Some(at);
        self.spans[0].status = SpanStatus::Failed;
        proof {
            let old_spans = old(self)@.spans;
            assert(self@.spans =~= old_spans.update(
                0,
                closed_span(
                    with_attributes(old_spans[0], self@.spans[0].attributes),
                    SpanStatus::Failed,
                    at,
                ),
            ));
        }
        self.snapshot()
    }
}

} // verus!
