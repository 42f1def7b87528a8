//! The boundary check: turns inbound request metadata into an execution
//! context, or says which precondition the request failed. No collector is
//! created for a request that fails it.

use vstd::prelude::*;
use crate::ids::{ulid_decoded, ExecutionId, SpanId};
use crate::span::ExecutionContext;

verus! {

/// Metadata field that carries the caller's execution identifier.
pub const HEADER_EXECUTION_ID: &'static str = "x-execution-id";

/// Metadata field that carries the caller's span identifier.
pub const HEADER_PARENT_SPAN_ID: &'static str = "x-parent-span-id";

/// Why a request's execution context was rejected.
#[derive(Debug, Clone, PartialEq, Eq)]
pub enum ValidationError {
    /// No non-empty execution identifier was supplied.
    MissingExecutionId,
    /// No parent span identifier was supplied.
    MissingParentSpanId,
    /// The parent span identifier is not a valid span identifier; holds the
    /// text that was supplied.
    InvalidParentSpanId(String),
}

/// The value of the first field named `name`, if any.
pub open spec fn field_value(fields: Seq<(String, String)>, name: Seq<char>) -> Option<Seq<char>>
    decreases fields.len(),
{
    if fields.len() == 0 {
        None
    } else if fields[0].0@ == name {
        Some(fields[0].1@)
    } else {
        field_value(fields.drop_first(), name)
    }
}

/// Looks up the first field named `name`.
fn lookup_field<'a>(fields: &'a Vec<(String, String)>, name: &str) -> (r: Option<&'a String>)
    ensures
        match r {
            Some(v) => field_value(fields@, name@) == Some(v@),
            None => field_value(fields@, name@) is None,
        },
{
    let name_text = name.to_owned();
    let mut i: usize = 0;
    proof {
        assert(fields@.subrange(0, fields@.len() as int) =~= fields@);
    }
    while i < fields.len()
        invariant
            0 <= i <= fields.len(),
            name_text@ == name@,
            field_value(fields@, name@) == field_value(
                fields@.subrange(i as int, fields@.len() as int),
                name@,
            ),
        decreases fields.len() - i,
    {
        proof {
            let rest = fields@.subrange(i as int, fields@.len() as int);
            assert(rest.drop_first() =~= fields@.subrange(i + 1, fields@.len() as int));
        }
        if fields[i].0 == name_text {
            return Some(&fields[i].1);
        }
        i += 1;
    }
    None
}

/// Extracts the execution context from request metadata, given as
/// (name, value) fields with lower-case names.
///
/// The execution identifier must be present and non-empty, the parent span
/// identifier present and valid; the first failing check decides the error.
pub fn extract_execution_context(fields: &Vec<(String, String)>) -> (r: Result<
    ExecutionContext,
    ValidationError,
>)
    ensures
        ({
            let exec = field_value(fields@, HEADER_EXECUTION_ID@);
            let parent = field_value(fields@, HEADER_PARENT_SPAN_ID@);
            if exec is None || exec.unwrap().len() == 0 {
                r == Err::<ExecutionContext, ValidationError>(ValidationError::MissingExecutionId)
            } else if parent is None {
                r == Err::<ExecutionContext, ValidationError>(ValidationError::MissingParentSpanId)
            } else if ulid_decoded(parent.unwrap()) is None {
                r matches Err(ValidationError::InvalidParentSpanId(t)) && t@ == parent.unwrap()
            } else {
                r matches Ok(ctx) && ctx.execution_id@ == exec.unwrap() && ctx.parent_span_id
                    == (SpanId { value: ulid_decoded(parent.unwrap()).unwrap() })
            }
        }),
{
    let execution_id = match lookup_field(fields, HEADER_EXECUTION_ID) {
        Some(v) => v,
        None => return Err(ValidationError::MissingExecutionId),
    };
    if execution_id.as_str().is_empty() {
        return Err(ValidationError::MissingExecutionId);
    }
    let parent_text = match lookup_field(fields, HEADER_PARENT_SPAN_ID) {
        Some(v) => v,
        None => return Err(ValidationError::MissingParentSpanId),
    };
    match SpanId::from_string(parent_text.as_str()) {
        Ok(parent_span_id) => Ok(
            ExecutionContext { execution_id: ExecutionId::new(execution_id.as_str()), parent_span_id },
        ),
        Err(_) => Err(ValidationError::InvalidParentSpanId(parent_text.clone())),
    }
}

impl ValidationError {
    /// Short, stable code for the client-facing error.
    pub fn code(&self) -> (r: &'static str)
        ensures
            match self {
                ValidationError::InvalidParentSpanId(_) => r@ == "INVALID_EXECUTION_CONTEXT"@,
                _ => r@ == "MISSING_EXECUTION_CONTEXT"@,
            },
    {
        match self {
            ValidationError::InvalidParentSpanId(_) => "INVALID_EXECUTION_CONTEXT",
            _ => "MISSING_EXECUTION_CONTEXT",
        }
    }

    /// Human-readable description of the failed precondition.
    pub fn message(&self) -> (r: String)
        ensures
            match self {
                ValidationError::MissingExecutionId => r@
                    == "Missing required header: X-Execution-Id"@,
                ValidationError::MissingParentSpanId => r@
                    == "Missing required header: X-Parent-Span-Id"@,
                ValidationError::InvalidParentSpanId(t) => r@ == "Invalid X-Parent-Span-Id: "@
                    + t@,
            },
    {
        match self {
            ValidationError::MissingExecutionId => "Missing required header: X-Execution-Id".to_owned(),
            ValidationError::MissingParentSpanId => "Missing required header: X-Parent-Span-Id".to_owned(),
            ValidationError::InvalidParentSpanId(t) => {
                let mut m = "Invalid X-Parent-Span-Id: ".to_owned();
                m.append(t.as_str());
                m
            },
        }
    }
}

} // verus!
