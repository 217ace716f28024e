//! Trace export in builds without OTLP support.

use vstd::prelude::*;
use crate::text::owned;

verus! {

/// Trace-export setup: not compiled into this build.
pub fn init_fastrace(endpoint: String, name: String, resource_attributes: Vec<(String, String)>) -> (r:
    Result<(), String>)
    ensures
        r is Err && r->Err_0@
            == "fastrace OTLP export is not compiled into this build (missing feature `otlp` on xai-tracing)"@,
{
    Err(
        owned(
            "fastrace OTLP export is not compiled into this build (missing feature `otlp` on xai-tracing)",
        ),
    )
}

/// Middleware that would add a `traceparent` header.
pub struct TraceparentMiddleware;

} // verus!
