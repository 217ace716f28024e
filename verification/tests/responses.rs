use grok_build::responses::events::{observe_for_recovery, RecoveryNote};
use grok_build::responses::events::{
    responses_event_has_meaningful_content, responses_event_may_have_output, HostedActivity,
    Response, ResponseError, ResponseEvent, ResponseStatus,
};
use grok_build::responses::model::{FunctionCall, MessageContent, OutputItem, OutputMessage};
use grok_build::responses::stream::{
    classify_stop, Channel, RawStopReason, StepOutcome, StopReason, StreamAction, StreamFailure,
    StreamState,
};
use grok_build::responses::streamed::StreamedOutput;

fn build_response(status: ResponseStatus) -> Response {
    Response {
        status,
        output: vec![],
        output_tokens: None,
        incomplete_reason: None,
        error: None,
    }
}

fn empty_completed_response() -> Response {
    build_response(ResponseStatus::Completed)
}

fn failed_response_with_error(message: &str) -> Response {
    let mut r = build_response(ResponseStatus::Failed);
    r.error = Some(ResponseError {
        code: "server_error".into(),
        message: message.into(),
    });
    r
}

fn text_delta_event(delta: &str) -> ResponseEvent {
    ResponseEvent::OutputTextDelta {
        output_index: 0,
        content_index: 0,
        item_id: "item-1".into(),
        delta: delta.into(),
    }
}

fn completed_event() -> ResponseEvent {
    ResponseEvent::Completed {
        response: empty_completed_response(),
    }
}

fn message_item(id: &str, texts: &[&str]) -> OutputItem {
    OutputItem::Message(OutputMessage {
        id: id.into(),
        content: texts
            .iter()
            .map(|text| MessageContent::OutputText((*text).into()))
            .collect(),
    })
}

fn indexed_text(index: u32, content: u32, text: &str, done: bool) -> ResponseEvent {
    if done {
        ResponseEvent::OutputTextDone {
            output_index: index,
            content_index: content,
            item_id: format!("msg-{index}"),
            text: text.into(),
        }
    } else {
        ResponseEvent::OutputTextDelta {
            output_index: index,
            content_index: content,
            item_id: format!("msg-{index}"),
            delta: text.into(),
        }
    }
}

fn function_tool_call(call_id: &str, name: &str, arguments: &str) -> FunctionCall {
    FunctionCall {
        call_id: call_id.into(),
        id: None,
        name: name.into(),
        arguments: arguments.into(),
    }
}

fn function_call_added_event(output_index: u32, call_id: &str, name: &str) -> ResponseEvent {
    function_call_added_with_args(output_index, call_id, name, "")
}

fn function_call_added_with_args(
    output_index: u32,
    call_id: &str,
    name: &str,
    arguments: &str,
) -> ResponseEvent {
    ResponseEvent::OutputItemAdded {
        output_index,
        item: OutputItem::FunctionCall(function_tool_call(call_id, name, arguments)),
    }
}

fn function_call_done_event(
    output_index: u32,
    call_id: &str,
    name: &str,
    arguments: &str,
) -> ResponseEvent {
    ResponseEvent::OutputItemDone {
        output_index,
        item: OutputItem::FunctionCall(function_tool_call(call_id, name, arguments)),
    }
}

fn function_call_args_delta_event(output_index: u32, delta: &str) -> ResponseEvent {
    ResponseEvent::FunctionCallArgumentsDelta {
        output_index,
        item_id: format!("item-{output_index}"),
        delta: delta.into(),
    }
}

/// The assistant text a response turns into: its message parts, one per line.
fn assistant_text(response: &Response) -> String {
    let mut parts: Vec<String> = Vec::new();
    for item in &response.output {
        if let OutputItem::Message(m) = item {
            for c in &m.content {
                if let MessageContent::OutputText(t) = c {
                    parts.push(t.clone());
                }
            }
        }
    }
    parts.join("\n")
}

#[test]
fn empty_failed_response_is_not_treated_as_output() {
    let event = ResponseEvent::Failed {
        response: failed_response_with_error("boom"),
    };
    assert!(!responses_event_may_have_output(&event));
}

#[test]
fn meaningful_content_classifier_basics() {
    let event = text_delta_event("foo");
    assert!(responses_event_has_meaningful_content(&event));
    let empty = text_delta_event("");
    assert!(!responses_event_has_meaningful_content(&empty));
    assert!(responses_event_has_meaningful_content(&completed_event()));
}

#[test]
fn output_classifier_covers_non_forwarded_backend_events() {
    let queued = ResponseEvent::Queued;
    assert!(!responses_event_may_have_output(&queued));

    let response_error = ResponseEvent::Error {
        code: Some("server_error".into()),
        message: "failed before output".into(),
    };
    assert!(!responses_event_may_have_output(&response_error));

    let refusal = ResponseEvent::RefusalDelta { delta: "no".into() };
    assert!(responses_event_may_have_output(&refusal));

    let backend_progress = ResponseEvent::Hosted(HostedActivity::WebSearchSearching);
    assert!(responses_event_may_have_output(&backend_progress));
}

#[test]
fn snapshot_conflicts_win_without_losing_streamed_siblings() {
    let mut streamed = StreamedOutput::new();
    streamed.observe(&indexed_text(0, 0, "stream", false));
    streamed.observe(&indexed_text(0, 1, "sibling", true));
    let mut response = empty_completed_response();
    response.output = vec![message_item("msg-0", &["snapshot"])];
    streamed.reconcile(&mut response);
    assert_eq!(assistant_text(&response), "snapshot\nsibling");
}

#[test]
fn sparse_snapshot_uses_streamed_indices_not_compacted_positions() {
    let mut streamed = StreamedOutput::new();
    streamed.observe(&indexed_text(1, 0, "first", true));
    streamed.observe(&indexed_text(3, 0, "last", true));
    let mut response = empty_completed_response();
    response.output = vec![message_item("msg-3", &["last"])];
    streamed.reconcile(&mut response);
    assert_eq!(assistant_text(&response), "first\nlast");
}

#[test]
fn arguments_before_added_and_empty_done_keep_partial_call() {
    let mut streamed = StreamedOutput::new();
    streamed.observe(&function_call_args_delta_event(0, "{\"partial\":"));
    streamed.observe(&function_call_added_event(0, "call-1", "bash"));
    streamed.observe(&function_call_done_event(0, "call-1", "bash", ""));
    let mut response = empty_completed_response();
    streamed.reconcile(&mut response);
    let OutputItem::FunctionCall(call) = &response.output[0] else {
        panic!("missing call")
    };
    assert_eq!(call.call_id, "call-1");
    assert_eq!(call.arguments, "{\"partial\":");
}

#[test]
fn message_done_without_text_frames_recovers_all_parts() {
    let mut streamed = StreamedOutput::new();
    streamed.observe(&ResponseEvent::OutputItemDone {
        output_index: 0,
        item: message_item("msg-0", &["one", "two"]),
    });
    let mut response = empty_completed_response();
    streamed.reconcile(&mut response);
    assert_eq!(assistant_text(&response), "one\ntwo");
}

#[test]
fn arguments_only_frames_can_complete_an_identified_snapshot_call() {
    let mut streamed = StreamedOutput::new();
    streamed.observe(&function_call_args_delta_event(4, "{\"x\":1}"));
    let mut call = function_tool_call("call-4", "bash", "");
    call.id = Some("item-4".into());
    let mut response = empty_completed_response();
    response.output = vec![OutputItem::FunctionCall(call)];
    streamed.reconcile(&mut response);
    assert_eq!(response.output.len(), 1);
    let OutputItem::FunctionCall(call) = &response.output[0] else {
        panic!("missing call")
    };
    assert_eq!(call.arguments, "{\"x\":1}");
}

#[test]
fn initial_arguments_and_deltas_merge_without_losing_the_prefix() {
    let mut streamed = StreamedOutput::new();
    streamed.observe(&function_call_added_with_args(0, "call-1", "bash", "{\"x\":"));
    streamed.observe(&function_call_args_delta_event(0, "1}"));
    let mut response = empty_completed_response();
    streamed.reconcile(&mut response);
    let OutputItem::FunctionCall(call) = &response.output[0] else {
        panic!("missing call")
    };
    assert_eq!(call.arguments, "{\"x\":1}");
}

// Scenarios of my own, through the per-frame decisions.

/// Feeds frames to a fresh stream state; returns the actions of every frame
/// and the outcome of the last one.
fn run(frames: Vec<ResponseEvent>) -> (StreamState, Vec<StreamAction>, Option<StepOutcome>) {
    let mut state = StreamState::new();
    let mut actions = Vec::new();
    let mut last = None;
    for frame in frames {
        let mut step = state.step(frame, false, false);
        actions.append(&mut step.actions);
        let stop = !matches!(step.outcome, StepOutcome::Continue);
        last = Some(step.outcome);
        if stop {
            break;
        }
    }
    (state, actions, last)
}

#[test]
fn missing_terminal_response_fails_the_stream() {
    let (state, _, _) = run(vec![text_delta_event("hi")]);
    match state.finish() {
        Err(StreamFailure::Api { message, code }) => {
            assert_eq!(
                message,
                "No ResponseCompleted or ResponseIncomplete event received from Responses API"
            );
            assert!(code.is_none());
        }
        _ => panic!("expected an API failure"),
    }
}

#[test]
fn text_delta_then_completed_lands_on_the_assistant() {
    let (state, actions, last) = run(vec![text_delta_event("hello"), completed_event()]);
    assert!(matches!(last, Some(StepOutcome::Continue)));
    let tokens: Vec<&str> = actions
        .iter()
        .filter_map(|a| match a {
            StreamAction::ChannelToken {
                channel: Channel::Text,
                text,
                ..
            } => Some(text.as_str()),
            _ => None,
        })
        .collect();
    assert_eq!(tokens, vec!["hello"]);
    let finished = state.finish().ok().expect("finished");
    assert_eq!(assistant_text(&finished.response), "hello");
    let (stop, raw) = classify_stop(finished.response.status, &finished.response.incomplete_reason, false);
    assert_eq!(stop, Some(StopReason::Stop));
    assert_eq!(raw, None);
}

#[test]
fn failed_frame_fails_with_its_code_and_message() {
    let (_, _, last) = run(vec![ResponseEvent::Failed {
        response: failed_response_with_error("boom"),
    }]);
    match last {
        Some(StepOutcome::Fail(StreamFailure::Api { message, code })) => {
            assert!(message.contains("boom"));
            assert_eq!(code.as_deref(), Some("server_error"));
        }
        _ => panic!("expected an API failure"),
    }
}

#[test]
fn abort_on_a_tool_input_frame_fails_the_attempt() {
    let mut state = StreamState::new();
    let step = state.step(
        ResponseEvent::CustomToolCallInputDelta {
            item_id: "custom-1".into(),
            delta: "{\"q\":".into(),
        },
        true,
        false,
    );
    assert!(step.actions.is_empty());
    assert!(matches!(
        step.outcome,
        StepOutcome::Fail(StreamFailure::DoomLoop { aborted_at_chunk: 0 })
    ));
}

#[test]
fn idle_frame_past_the_timeout_fails() {
    let mut state = StreamState::new();
    let step = state.step(ResponseEvent::InProgress, false, true);
    assert!(!step.had_content);
    assert!(matches!(step.outcome, StepOutcome::Fail(StreamFailure::IdleTimeout)));
}

#[test]
fn repeated_tool_added_does_not_duplicate_the_header() {
    let (state, actions, _) = run(vec![
        function_call_added_event(0, "call-1", "bash"),
        function_call_added_event(0, "call-1", "bash"),
        function_call_args_delta_event(0, "{}"),
        function_call_done_event(0, "call-1", "bash", ""),
        completed_event(),
    ]);
    let deltas = actions
        .iter()
        .filter(|a| matches!(a, StreamAction::ToolCallDelta { .. }))
        .count();
    assert_eq!(deltas, 2);
    let finished = state.finish().ok().expect("finished");
    assert_eq!(finished.response.output.len(), 1);
    let OutputItem::FunctionCall(call) = &finished.response.output[0] else {
        panic!("missing call")
    };
    assert_eq!(call.arguments, "{}");
}

#[test]
fn incomplete_reasons_map_to_stop_reasons() {
    let cases: [(&str, StopReason, Option<RawStopReason>); 5] = [
        ("max_output_tokens", StopReason::Length, Some(RawStopReason::MaxTokens)),
        (
            "max_prompt_tokens",
            StopReason::Length,
            Some(RawStopReason::ModelContextWindowExceeded),
        ),
        ("max_time_limit", StopReason::Length, None),
        ("content_filter", StopReason::ContentFilter, None),
        ("some_future_reason", StopReason::Length, None),
    ];
    for (reason, stop, raw) in cases {
        assert_eq!(
            classify_stop(ResponseStatus::Incomplete, &Some(reason.to_string()), false),
            (Some(stop), raw),
            "{reason}"
        );
    }
    assert_eq!(
        classify_stop(ResponseStatus::Incomplete, &None, false),
        (Some(StopReason::Length), None)
    );
    assert_eq!(
        classify_stop(ResponseStatus::Incomplete, &Some("max_output_tokens".into()), true),
        (Some(StopReason::ToolCalls), None)
    );
}

#[test]
fn text_recovery_reconciles_multiple_items_and_parts() {
    let mut streamed = StreamedOutput::new();
    for frame in [
        indexed_text(0, 0, "hel", false),
        indexed_text(2, 0, "second", false),
        indexed_text(0, 0, "hello", true),
        indexed_text(0, 1, "world", true),
        indexed_text(2, 1, "tail", true),
    ] {
        streamed.observe(&frame);
    }
    let mut response = empty_completed_response();
    response.output = vec![message_item("msg-2", &["second"])];
    streamed.reconcile(&mut response);
    assert_eq!(assistant_text(&response), "hello\nworld\nsecond\ntail");
}

#[test]
fn empty_stream_keeps_snapshot_output() {
    let mut response = empty_completed_response();
    response.output = vec![
        OutputItem::Message(OutputMessage {
            id: "m1".into(),
            content: vec![MessageContent::OutputText("hello".into())],
        }),
        OutputItem::Message(OutputMessage {
            id: "m2".into(),
            content: vec![MessageContent::Refusal("no".into())],
        }),
    ];
    StreamedOutput::new().reconcile(&mut response);
    assert_eq!(response.output.len(), 2);
    match (&response.output[0], &response.output[1]) {
        (OutputItem::Message(a), OutputItem::Message(b)) => {
            assert_eq!(a.id, "m1");
            assert!(matches!(&a.content[0], MessageContent::OutputText(t) if t == "hello"));
            assert_eq!(b.id, "m2");
            assert!(matches!(&b.content[0], MessageContent::Refusal(t) if t == "no"));
        }
        _ => panic!("snapshot items changed kind"),
    }
}

#[test]
fn arguments_only_frames_never_invent_calls() {
    let mut streamed = StreamedOutput::new();
    streamed.observe(&ResponseEvent::FunctionCallArgumentsDelta {
        output_index: 0,
        item_id: "fc_1".into(),
        delta: "{\"a\":".into(),
    });
    streamed.observe(&ResponseEvent::FunctionCallArgumentsDone {
        output_index: 0,
        item_id: "fc_1".into(),
        arguments: "{\"a\":1}".into(),
        name: Some("shell".into()),
    });
    let mut response = empty_completed_response();
    response.output = vec![message_item("m1", &["hi"])];
    streamed.reconcile(&mut response);
    assert!(response.output.iter().all(|item| !matches!(item, OutputItem::FunctionCall(_))));
    assert_eq!(response.output.len(), 1);
}

#[test]
fn recovery_capture_copies_frame_contents() {
    assert!(observe_for_recovery(false, &text_delta_event("x")).is_none());
    match observe_for_recovery(true, &text_delta_event("abc")) {
        Some(RecoveryNote::OutputDelta { output_index, content_index, item_id, delta }) => {
            assert_eq!((output_index, content_index), (0, 0));
            assert_eq!(item_id, "item-1");
            assert_eq!(delta, "abc");
        }
        _ => panic!("text delta must be recorded"),
    }
    let mut done = empty_completed_response();
    done.output = vec![message_item("m", &["t"])];
    match observe_for_recovery(true, &ResponseEvent::Completed { response: done }) {
        Some(RecoveryNote::TerminalOutput { output }) => assert_eq!(output.len(), 1),
        _ => panic!("terminal output must be recorded"),
    }
    assert!(matches!(
        observe_for_recovery(true, &ResponseEvent::CustomToolCallInputDelta { item_id: "c".into(), delta: "d".into() }),
        Some(RecoveryNote::Unreplayable)
    ));
}
