//! W3C `traceparent` propagation with `fastrace`: the current trace as a
//! header value, and spans parented to an incoming header when it parses.

use vstd::prelude::*;
use fastrace::collector::SpanContext;
use fastrace::Span;
use crate::paths::split_on;

verus! {

#[verifier::external_type_specification]
#[verifier::external_body]
pub struct ExSpanContext(fastrace::collector::SpanContext);

#[verifier::external_type_specification]
#[verifier::external_body]
pub struct ExSpan(fastrace::Span);

// ── the header format ───────────────────────────────────────────────────

/// The value of a hexadecimal digit, either case.
pub open spec fn hex_value(c: char) -> Option<int> {
    if '0' <= c && c <= '9' {
        Some(c as int - '0' as int)
    } else if 'a' <= c && c <= 'f' {
        Some(c as int - 'a' as int + 10)
    } else if 'A' <= c && c <= 'F' {
        Some(c as int - 'A' as int + 10)
    } else {
        None
    }
}

/// The value of hexadecimal digits, when all of them are digits.
pub open spec fn hex_digits_value(d: Seq<char>) -> Option<int>
    decreases d.len(),
{
    if d.len() == 0 {
        Some(0)
    } else {
        match (hex_digits_value(d.drop_last()), hex_value(d.last())) {
            (Some(v), Some(x)) => Some(v * 16 + x),
            _ => None,
        }
    }
}

/// `from_str_radix(s, 16)` for an unsigned type whose largest value is
/// `max`: one optional leading `+`, then at least one hexadecimal digit and
/// nothing else, within range.
pub open spec fn parse_hex(s: Seq<char>, max: int) -> Option<int> {
    let d = if s.len() > 0 && s[0] == '+' {
        s.drop_first()
    } else {
        s
    };
    if d.len() == 0 {
        None
    } else {
        match hex_digits_value(d) {
            Some(v) => if v <= max {
                Some(v)
            } else {
                None
            },
            None => None,
        }
    }
}

/// A `traceparent` that `SpanContext::decode_w3c_traceparent` accepts:
/// four `-`-separated fields, version `00`, a non-zero 128-bit trace id, a
/// non-zero 64-bit span id and an 8-bit flags field, all hexadecimal.
pub open spec fn traceparent_decodes(s: Seq<char>) -> bool {
    let parts = split_on(s, '-');
    &&& parts.len() == 4
    &&& parts[0] == "00"@
    &&& parse_hex(parts[1], u128::MAX as int) matches Some(t) && t != 0
    &&& parse_hex(parts[2], u64::MAX as int) matches Some(p) && p != 0
    &&& parse_hex(parts[3], u8::MAX as int) is Some
}

/// A lowercase hexadecimal digit.
pub open spec fn is_lower_hex(c: char) -> bool {
    ('0' <= c && c <= '9') || ('a' <= c && c <= 'f')
}

/// The shape `SpanContext::encode_w3c_traceparent` writes:
/// `00-<32 hex>-<16 hex>-<00|01>`, hex digits in lowercase.
pub open spec fn is_traceparent(t: Seq<char>) -> bool {
    &&& t.len() == 55
    &&& t.subrange(0, 3) == "00-"@
    &&& t[35] == '-'
    &&& t[52] == '-'
    &&& forall|i: int| 3 <= i < 35 ==> is_lower_hex(#[trigger] t[i])
    &&& forall|i: int| 36 <= i < 52 ==> is_lower_hex(#[trigger] t[i])
    &&& (t.subrange(53, 55) == "00"@ || t.subrange(53, 55) == "01"@)
}

// ── outside calls ───────────────────────────────────────────────────────

/// `SpanContext::current_local_parent` (fastrace): the context of the
/// thread's current local parent span, if any. It depends on thread state,
/// so nothing is stated of it.
#[verifier::external_body]
fn local_parent() -> (r: Option<SpanContext>) {
    SpanContext::current_local_parent()
}

/// `SpanContext::random` (fastrace): a context with a random trace id.
#[verifier::external_body]
fn random_context() -> (r: SpanContext) {
    SpanContext::random()
}

/// `SpanContext::encode_w3c_traceparent` (fastrace): the source formats
/// `00-{:032x}-{:016x}-{:02x}` of the trace id, the span id and the sampled
/// flag as 0 or 1.
#[verifier::external_body]
fn encode_traceparent(ctx: &SpanContext) -> (r: String)
    ensures
        is_traceparent(r@),
{
    ctx.encode_w3c_traceparent()
}

/// `SpanContext::decode_w3c_traceparent` (fastrace): a context exactly when
/// the text has the accepted shape; which context is not stated.
#[verifier::external_body]
fn decode_traceparent(traceparent: &str) -> (r: Option<SpanContext>)
    ensures
        r is Some == traceparent_decodes(traceparent@),
{
    SpanContext::decode_w3c_traceparent(traceparent)
}

/// `Span::root` (fastrace): a root span under `parent`.
#[verifier::external_body]
fn span_root(name: String, parent: SpanContext) -> (r: Span) {
    Span::root(name, parent)
}

/// `Span::enter_with_local_parent` (fastrace): a span under the thread's
/// local parent, or a no-op span without one.
#[verifier::external_body]
fn span_with_local_parent(name: String) -> (r: Span) {
    Span::enter_with_local_parent(name)
}

// ── propagation ─────────────────────────────────────────────────────────

/// The `traceparent` value for a parent context: present exactly when
/// there is a parent, and then that context's encoding.
pub fn trace_id_for(parent: Option<SpanContext>) -> (r: Option<String>)
    ensures
        r is Some <==> parent is Some,
        r matches Some(t) ==> is_traceparent(t@),
{
    match parent {
        Some(ctx) => Some(encode_traceparent(&ctx)),
        None => None,
    }
}

/// The current local parent as a W3C `traceparent` value, if there is one.
pub fn current_trace_id() -> (r: Option<String>)
    ensures
        r matches Some(t) ==> is_traceparent(t@),
{
    trace_id_for(local_parent())
}


/// The active local parent's context, or a random root when none is set.
pub fn local_or_random_span_ctx() -> (r: SpanContext) {
    match local_parent() {
        Some(ctx) => ctx,
        None => random_context(),
    }
}

/// Where a span entered for an incoming `traceparent` hangs.
pub enum SpanParent {
    /// Under the remote context the header carries.
    Remote(SpanContext),
    /// Under the thread's local parent: the header did not decode.
    Local,
}

/// The parent for a span entered with `traceparent`: the remote context
/// exactly when the header decodes.
pub fn span_parent(traceparent: &str) -> (r: SpanParent)
    ensures
        r is Remote <==> traceparent_decodes(traceparent@),
{
    match decode_traceparent(traceparent) {
        Some(ctx) => SpanParent::Remote(ctx),
        None => SpanParent::Local,
    }
}

/// Enters a span named `name`: a root under the `traceparent`'s context
/// when it decodes, otherwise under the local parent.
pub fn enter_span_with_traceparent(name: String, traceparent: &str) -> (r: Span) {
    match span_parent(traceparent) {
        SpanParent::Remote(ctx) => span_root(name, ctx),
        SpanParent::Local => span_with_local_parent(name),
    }
}

} // verus!
