use grok_build::trace_context::{
    current_trace_id, enter_span_with_traceparent, local_or_random_span_ctx, span_parent,
    SpanParent,
};

fn remote(s: &str) -> bool {
    matches!(span_parent(s), SpanParent::Remote(_))
}

#[test]
fn traceparent_decodes_only_in_w3c_shape() {
    assert!(remote("00-0af7651916cd43dd8448eb211c80319c-b7ad6b7169203331-01"));
    assert!(remote("00-0AF7651916CD43DD8448EB211C80319C-B7AD6B7169203331-00"));
    assert!(remote("00-+1-+2-+3"));
    assert!(!remote("01-0af7651916cd43dd8448eb211c80319c-b7ad6b7169203331-01"));
    assert!(!remote("00-00000000000000000000000000000000-b7ad6b7169203331-01"));
    assert!(!remote("00-0af7651916cd43dd8448eb211c80319c-0000000000000000-01"));
    assert!(!remote("00-0af7651916cd43dd8448eb211c80319c-b7ad6b7169203331"));
    assert!(!remote("00-0af7651916cd43dd8448eb211c80319c-b7ad6b7169203331-01-x"));
    assert!(!remote("00-1-2-100"));
    assert!(!remote("00-1-10000000000000000-01"));
    assert!(!remote("00-g-2-01"));
    assert!(!remote(""));
}

#[test]
fn spans_enter_without_a_local_parent() {
    // Without an active local span there is no current trace to report.
    assert_eq!(current_trace_id(), None);
    let _ctx = local_or_random_span_ctx();
    let _remote = enter_span_with_traceparent(
        "remote".to_owned(),
        "00-0af7651916cd43dd8448eb211c80319c-b7ad6b7169203331-01",
    );
    let _local = enter_span_with_traceparent("local".to_owned(), "not a header");
}
