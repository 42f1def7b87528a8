//! Identifiers: time-ordered span identifiers (ULIDs) and the opaque
//! execution identifiers that callers assign.

use vstd::prelude::*;
use crate::span::Timestamp;

verus! {

/// Crockford's base-32 digits, as ULID texts write them.
pub open spec fn crockford_digits() -> Seq<char> {
    seq![
        '0', '1', '2', '3', '4', '5', '6', '7', '8', '9', 'A', 'B', 'C', 'D', 'E', 'F',
        'G', 'H', 'J', 'K', 'M', 'N', 'P', 'Q', 'R', 'S', 'T', 'V', 'W', 'X', 'Y', 'Z',
    ]
}

/// The letters among the digits in lower case, which reading also accepts
/// (for the digit values 10 to 31).
pub open spec fn crockford_lower_letters() -> Seq<char> {
    seq![
        'a', 'b', 'c', 'd', 'e', 'f', 'g', 'h', 'j', 'k', 'm', 'n', 'p', 'q', 'r', 's',
        't', 'v', 'w', 'x', 'y', 'z',
    ]
}

/// 32 to the power `n`.
pub open spec fn pow32(n: nat) -> int
    decreases n,
{
    if n == 0 {
        1
    } else {
        32 * pow32((n - 1) as nat)
    }
}

/// The canonical text of a ULID value: 26 base-32 digits, most significant
/// first.
pub open spec fn ulid_text(value: u128) -> Seq<char> {
    Seq::new(26, |i: int| crockford_digits()[(value as int / pow32((25 - i) as nat)) % 32])
}

/// The value of one character of a ULID text, if it is a digit.
pub open spec fn digit_value(c: char) -> Option<int> {
    if exists|d: int| 0 <= d < 32 && crockford_digits()[d] == c {
        Some(choose|d: int| 0 <= d < 32 && crockford_digits()[d] == c)
    } else if exists|d: int| 0 <= d < 22 && crockford_lower_letters()[d] == c {
        Some(10 + choose|d: int| 0 <= d < 22 && crockford_lower_letters()[d] == c)
    } else {
        None
    }
}

/// The digits of `s` read most significant first, keeping the low 128 bits.
pub open spec fn digits_value(s: Seq<char>) -> int
    decreases s.len(),
{
    if s.len() == 0 {
        0
    } else {
        (digits_value(s.drop_last()) * 32 + digit_value(s.last()).unwrap()) % (TIMESTAMP_RANGE as int * RANDOM_RANGE as int)
    }
}

/// The value read from a text: 26 digits, in either case for letters.
pub open spec fn ulid_decoded(text: Seq<char>) -> Option<u128> {
    if text.len() == 26 && forall|i: int| 0 <= i < 26 ==> #[trigger] digit_value(text[i]) is Some {
        Some(digits_value(text) as u128)
    } else {
        None
    }
}

/// Number of characters in the canonical text of a span identifier.
pub const SPAN_ID_TEXT_LEN: usize = 26;

/// 2 to the power 48: the range of a ULID's millisecond timestamp.
pub const TIMESTAMP_RANGE: u128 = 0x1_0000_0000_0000;

/// 2 to the power 80: the range of a ULID's random part.
pub const RANDOM_RANGE: u128 = 0x1_0000_0000_0000_0000_0000;

/// Relies on `ulid::Ulid::new` and `Ulid::random`: the random part of a
/// freshly generated ULID, which is masked to 80 bits.
#[verifier::external_body]
fn random_ulid_bits() -> (r: u128)
    ensures
        r < RANDOM_RANGE,
{
    ulid::Ulid::new().random()
}

/// Relies on `ulid::Ulid::to_string` (`base32::encode`): the value's 26
/// base-32 digits, most significant first.
#[verifier::external_body]
fn encode_ulid(value: u128) -> (r: String)
    ensures
        r@ == ulid_text(value),
        r@.len() == SPAN_ID_TEXT_LEN,
{
    ulid::Ulid(value).to_string()
}

/// Relies on `ulid::Ulid::from_string` (`base32::decode`): 26 digits of the
/// alphabet, letters in either case, shifted in five bits at a time; any
/// other text is refused. The text `to_string` writes for a value reads
/// back as that value.
#[verifier::external_body]
fn decode_ulid(text: &str) -> (r: Option<u128>)
    ensures
        r == ulid_decoded(text@),
        text@.len() != SPAN_ID_TEXT_LEN ==> r is None,
        forall|v: u128| #[trigger] ulid_text(v) == text@ ==> r == Some(v),
{
    match ulid::Ulid::from_string(text) {
        Ok(u) => Some(u.0),
        Err(_) => None,
    }
}

/// Error raised when a text is not a valid span identifier.
#[derive(Debug, Clone, PartialEq, Eq)]
pub enum IdentifierError {
    /// The text that could not be read as an identifier.
    MalformedIdentifier(String),
}

/// A 128-bit, time-ordered span identifier (a ULID).
#[derive(Debug, Clone, Copy, PartialEq, Eq, Structural, Hash, PartialOrd, Ord)]
pub struct SpanId {
    /// The identifier's 128-bit value.
    pub value: u128,
}

/// The ULID value with the given millisecond timestamp in its upper 48 bits
/// and the given random bits in its lower 80; excess bits of either are
/// dropped.
pub open spec fn ulid_value(timestamp_ms: u64, random: u128) -> int {
    (timestamp_ms as int % TIMESTAMP_RANGE as int) * RANDOM_RANGE + random % RANDOM_RANGE
}

/// Milliseconds since the Unix epoch at `t`, or zero for earlier times.
pub open spec fn epoch_millis(t: Timestamp) -> u64 {
    if t.unix_micros < 0 {
        0
    } else {
        (t.unix_micros / 1000) as u64
    }
}

impl SpanId {
    /// The canonical text of this identifier.
    pub open spec fn text(self) -> Seq<char> {
        ulid_text(self.value)
    }

    /// The identifier made of a millisecond timestamp and random bits.
    pub fn from_parts(timestamp_ms: u64, random: u128) -> (r: SpanId)
        ensures
            r.value == ulid_value(timestamp_ms, random),
    {
        let time_part = (timestamp_ms as u128) % TIMESTAMP_RANGE;
        let rand_part = random % RANDOM_RANGE;
        proof {
            assert(time_part * RANDOM_RANGE + rand_part < 0x1_0000_0000_0000 * 0x1_0000_0000_0000_0000_0000)
                by (nonlinear_arith)
                requires
                    time_part < 0x1_0000_0000_0000,
                    rand_part < 0x1_0000_0000_0000_0000_0000,
                    RANDOM_RANGE == 0x1_0000_0000_0000_0000_0000,
            ;
        }
        SpanId { value: time_part * RANDOM_RANGE + rand_part }
    }

    /// The identifier's millisecond timestamp (its upper 48 bits).
    pub fn timestamp_ms(&self) -> (r: u64)
        ensures
            r == self.value / RANDOM_RANGE,
    {
        proof {
            assert(self.value / RANDOM_RANGE < TIMESTAMP_RANGE) by (nonlinear_arith)
                requires
                    self.value < 0x1_0000_0000_0000 * 0x1_0000_0000_0000_0000_0000,
                    RANDOM_RANGE == 0x1_0000_0000_0000_0000_0000,
                    TIMESTAMP_RANGE == 0x1_0000_0000_0000,
            ;
        }
        (self.value / RANDOM_RANGE) as u64
    }

    /// The identifier's random bits (its lower 80 bits).
    pub fn random(&self) -> (r: u128)
        ensures
            r == self.value % RANDOM_RANGE,
    {
        self.value % RANDOM_RANGE
    }

    /// A new identifier stamped with the time `now` and fresh random bits.
    pub fn generate_at(now: Timestamp) -> (r: SpanId)
        ensures
            r.value / RANDOM_RANGE == epoch_millis(now) as int % TIMESTAMP_RANGE as int,
    {
        let millis: u64 = if now.unix_micros < 0 {
            0
        } else {
            (now.unix_micros / 1000) as u64
        };
        let bits = random_ulid_bits();
        let r = Self::from_parts(millis, bits);
        proof {
            let t = millis as int % TIMESTAMP_RANGE as int;
            let b = (bits % RANDOM_RANGE) as int;
            assert((t * RANDOM_RANGE + b) / (RANDOM_RANGE as int) == t) by (nonlinear_arith)
                requires
                    0 <= b < RANDOM_RANGE,
                    RANDOM_RANGE > 0,
            ;
        }
        r
    }

    /// Generates a new identifier from the clock and fresh random bits.
    pub fn new() -> (r: SpanId) {
        Self::generate_at(Timestamp::now())
    }

    /// Reads an identifier from its canonical text.
    ///
    /// Every text written by [`SpanId::to_string`] reads back as the same
    /// identifier; a text of any length other than 26 characters is refused.
    pub fn from_string(s: &str) -> (r: Result<SpanId, IdentifierError>)
        ensures
            match ulid_decoded(s@) {
                Some(v) => r == Ok::<SpanId, IdentifierError>(SpanId { value: v }),
                None => r matches Err(IdentifierError::MalformedIdentifier(t)) && t@ == s@,
            },
            forall|id: SpanId| #[trigger] id.text() == s@ ==> r == Ok::<SpanId, IdentifierError>(id),
            s@.len() != SPAN_ID_TEXT_LEN ==> r is Err,
    {
        match decode_ulid(s) {
            Some(v) => Ok(SpanId { value: v }),
            None => Err(IdentifierError::MalformedIdentifier(s.to_owned())),
        }
    }

    /// The canonical text of this identifier.
    pub fn to_string(&self) -> (r: String)
        ensures
            r@ == self.text(),
            r@.len() == SPAN_ID_TEXT_LEN,
    {
        encode_ulid(self.value)
    }
}

impl Default for SpanId {
    /// A newly generated identifier.
    fn default() -> (r: SpanId) {
        SpanId::new()
    }
}

/// An execution identifier assigned by the calling system; compared byte
/// for byte, with no structure assumed.
#[derive(Debug, PartialEq, Eq, Hash)]
pub struct ExecutionId(String);

impl View for ExecutionId {
    type V = Seq<char>;

    closed spec fn view(&self) -> Seq<char> {
        self.0@
    }
}

impl Clone for ExecutionId {
    fn clone(&self) -> (r: Self)
        ensures
            r == *self,
    {
        ExecutionId(self.0.clone())
    }
}

impl ExecutionId {
    /// Wraps the given text.
    pub fn new(id: &str) -> (r: ExecutionId)
        ensures
            r@ == id@,
    {
        ExecutionId(id.to_owned())
    }

    /// The identifier's text.
    pub fn as_str(&self) -> (r: &str)
        ensures
            r@ == self@,
    {
        self.0.as_str()
    }
}

} // verus!
