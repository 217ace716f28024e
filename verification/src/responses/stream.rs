//! The per-frame decisions of the Responses stream transform: which
//! sampling events a frame yields, when the stream fails or ends, and how
//! an ended stream is classified.

use vstd::prelude::*;
use vstd::string::*;
use super::events::{meaningful, responses_event_has_meaningful_content, Response, ResponseError, ResponseEvent, ResponseStatus};
use super::model::{clone_opt, clone_string, opt_view, HostedKind, OutputItem};
use super::merge::str_is_empty;
use super::slots::{lookup, position, put, set_entry, sorted};
use super::streamed::{observe_spec, wf, StreamedOutput};
use crate::text::owned;

verus! {

/// Channel a token belongs to.
#[derive(Clone, Copy, PartialEq, Eq, Structural, Debug)]
pub enum Channel {
    Text,
    Reasoning,
}

/// Server-hosted tool a progress event names.
#[derive(Clone, Copy, PartialEq, Eq, Structural, Debug)]
pub enum BackendTool {
    /// `web_search`.
    WebSearch,
    /// `code_interpreter`.
    CodeInterpreter,
    /// `x_search`.
    XSearch,
}

/// A sampling event a frame yields.
pub enum StreamAction {
    FirstToken,
    ChannelToken { channel: Channel, text: String, chunk_index: u64 },
    ToolCallDelta {
        tool_index: u32,
        id: Option<String>,
        name: Option<String>,
        arguments_delta: Option<String>,
    },
    BackendToolStarted { call_id: String, tool: BackendTool },
    /// The hosted item of the frame is the result payload.
    BackendToolCompleted { call_id: String, tool: BackendTool },
}

/// View of a [`StreamAction`].
pub enum ActionV {
    FirstToken,
    ChannelToken { channel: Channel, text: Seq<char>, chunk_index: u64 },
    ToolCallDelta {
        tool_index: u32,
        id: Option<Seq<char>>,
        name: Option<Seq<char>>,
        arguments_delta: Option<Seq<char>>,
    },
    BackendToolStarted { call_id: Seq<char>, tool: BackendTool },
    BackendToolCompleted { call_id: Seq<char>, tool: BackendTool },
}

impl DeepView for StreamAction {
    type V = ActionV;

    open spec fn deep_view(&self) -> ActionV {
        match self {
            StreamAction::FirstToken => ActionV::FirstToken,
            StreamAction::ChannelToken { channel, text, chunk_index } => ActionV::ChannelToken {
                channel: *channel,
                text: text@,
                chunk_index: *chunk_index,
            },
            StreamAction::ToolCallDelta { tool_index, id, name, arguments_delta } =>
                ActionV::ToolCallDelta {
                tool_index: *tool_index,
                id: opt_view(*id),
                name: opt_view(*name),
                arguments_delta: opt_view(*arguments_delta),
            },
            StreamAction::BackendToolStarted { call_id, tool } => ActionV::BackendToolStarted {
                call_id: call_id@,
                tool: *tool,
            },
            StreamAction::BackendToolCompleted { call_id, tool } =>
                ActionV::BackendToolCompleted { call_id: call_id@, tool: *tool },
        }
    }
}

/// Why a stream failed.
pub enum StreamFailure {
    /// An API error: the message, and the wire error code when there was one.
    Api { message: String, code: Option<String> },
    /// No meaningful frame within the idle timeout.
    IdleTimeout,
    /// A confident doom-loop signal aborted the attempt at this chunk.
    DoomLoop { aborted_at_chunk: u64 },
}

/// What the driver does after a frame.
pub enum StepOutcome {
    Continue,
    /// Stop reading and build the final response.
    Finish,
    Fail(StreamFailure),
}

/// The decisions for one frame.
pub struct Step {
    pub actions: Vec<StreamAction>,
    pub outcome: StepOutcome,
    /// The frame was meaningful: the idle clock restarts.
    pub had_content: bool,
}

/// Stream state between frames.
pub struct StreamState {
    pub chunk_index: u64,
    pub message_chunk_count: u64,
    pub first_token_emitted: bool,
    /// Raw reasoning text, the fallback when the snapshot lost it.
    pub reasoning: String,
    pub streamed: StreamedOutput,
    /// Output index of each streamed function call to its tool index.
    pub tool_indices: Vec<(u64, u32)>,
    pub next_tool_index: u32,
    pub final_response: Option<Response>,
}

/// The state is consistent: ordered maps.
pub open spec fn state_wf(s: &StreamState) -> bool {
    wf(s.streamed@) && sorted(s.tool_indices.deep_view())
}

/// The token a frame carries: its channel, text, whether it counts as a
/// message chunk, and whether it extends the raw reasoning.
pub open spec fn token_of(e: &ResponseEvent) -> Option<(Channel, Seq<char>, bool, bool)> {
    match e {
        ResponseEvent::OutputTextDelta { delta, .. } => if delta@.len() > 0 {
            Some((Channel::Text, delta@, true, false))
        } else {
            None
        },
        ResponseEvent::ReasoningSummaryTextDelta { delta, .. } => if delta@.len() > 0 {
            Some((Channel::Reasoning, delta@, false, false))
        } else {
            None
        },
        ResponseEvent::ReasoningTextDelta { delta, .. } => if delta@.len() > 0 {
            Some((Channel::Reasoning, delta@, false, true))
        } else {
            None
        },
        _ => None,
    }
}

/// The hosted tool whose finished item a frame carries.
pub open spec fn completed_tool(kind: HostedKind) -> Option<BackendTool> {
    match kind {
        HostedKind::WebSearch => Some(BackendTool::WebSearch),
        HostedKind::CustomTool => Some(BackendTool::XSearch),
        HostedKind::CodeInterpreter => Some(BackendTool::CodeInterpreter),
        _ => None,
    }
}

/// Actions of a frame other than tokens, given the tool map before it.
pub open spec fn tool_actions(
    e: &ResponseEvent,
    tools: Seq<(u64, u32)>,
    next_tool: u32,
) -> Seq<ActionV> {
    match e {
        ResponseEvent::OutputItemAdded { output_index, item } => match item {
            OutputItem::FunctionCall(c) => if lookup(tools, *output_index as u64) is None {
                seq![
                    ActionV::ToolCallDelta {
                        tool_index: next_tool,
                        id: Some(c.call_id@),
                        name: Some(c.name@),
                        arguments_delta: None,
                    },
                ]
            } else {
                seq![]
            },
            _ => seq![],
        },
        ResponseEvent::FunctionCallArgumentsDelta { output_index, delta, .. } => match lookup(
            tools,
            *output_index as u64,
        ) {
            Some(t) => if delta@.len() > 0 {
                seq![
                    ActionV::ToolCallDelta {
                        tool_index: t,
                        id: None,
                        name: None,
                        arguments_delta: Some(delta@),
                    },
                ]
            } else {
                seq![]
            },
            None => seq![],
        },
        ResponseEvent::WebSearchCallInProgress { item_id } => seq![
            ActionV::BackendToolStarted { call_id: item_id@, tool: BackendTool::WebSearch },
        ],
        ResponseEvent::CodeInterpreterCallInProgress { item_id } => seq![
            ActionV::BackendToolStarted { call_id: item_id@, tool: BackendTool::CodeInterpreter },
        ],
        ResponseEvent::CustomToolCallInputDone { item_id, .. } => seq![
            ActionV::BackendToolStarted { call_id: item_id@, tool: BackendTool::XSearch },
        ],
        ResponseEvent::OutputItemDone { item, .. } => match item {
            OutputItem::Hosted { kind, id } => match completed_tool(*kind) {
                Some(t) => seq![ActionV::BackendToolCompleted { call_id: id@, tool: t }],
                None => seq![],
            },
            _ => seq![],
        },
        _ => seq![],
    }
}

/// Actions a token frame yields: the first token marker once, then the
/// token with the next chunk index.
pub open spec fn token_actions(
    tok: Option<(Channel, Seq<char>, bool, bool)>,
    first_done: bool,
    chunk: u64,
) -> Seq<ActionV> {
    match tok {
        Some(t) => (if first_done {
            seq![]
        } else {
            seq![ActionV::FirstToken]
        }).push(ActionV::ChannelToken { channel: t.0, text: t.1, chunk_index: (chunk + 1) as u64 }),
        None => seq![],
    }
}

/// `code: message`.
pub open spec fn api_message(code: Seq<char>, message: Seq<char>) -> Seq<char> {
    code + seq![':', ' '] + message
}

/// Message of a failed response.
pub open spec fn failed_message(err: Option<(Seq<char>, Seq<char>)>) -> Seq<char> {
    match err {
        Some(e) => api_message(e.0, e.1),
        None => "Response failed with unknown error"@,
    }
}

/// View of a response's error envelope.
pub open spec fn error_view(e: Option<ResponseError>) -> Option<(Seq<char>, Seq<char>)> {
    match e {
        Some(x) => Some((x.code@, x.message@)),
        None => None,
    }
}

/// The frame is a terminal response (completed or incomplete).
pub open spec fn is_terminal(e: &ResponseEvent) -> bool {
    e is Completed || e is Incomplete
}

/// The step failed on a doom-loop signal at `chunk`.
pub open spec fn fails_doom(o: &StepOutcome, chunk: u64) -> bool {
    match o {
        StepOutcome::Fail(StreamFailure::DoomLoop { aborted_at_chunk }) => *aborted_at_chunk == chunk,
        _ => false,
    }
}

/// The step failed with this API error.
pub open spec fn fails_api(o: &StepOutcome, message: Seq<char>, code: Option<Seq<char>>) -> bool {
    match o {
        StepOutcome::Fail(StreamFailure::Api { message: m, code: c }) => m@ == message && opt_view(*c)
            == code,
        _ => false,
    }
}

/// The frame starts a function call whose output index has no tool index.
pub open spec fn new_call(e: &ResponseEvent, tools: Seq<(u64, u32)>) -> bool {
    match e {
        ResponseEvent::OutputItemAdded { output_index, item } => item is FunctionCall && lookup(
            tools,
            *output_index as u64,
        ) is None,
        _ => false,
    }
}

/// How the stream goes on after a frame, and the terminal response kept:
/// failed and error frames fail with their API error; otherwise a frame
/// without content past the idle timeout fails; an incomplete response
/// finishes the stream; a terminal response is kept.
pub open spec fn outcome_spec(
    e: &ResponseEvent,
    o: &StepOutcome,
    idle_exceeded: bool,
    kept_before: Option<Response>,
    kept_after: Option<Response>,
) -> bool {
    &&& kept_after == match e {
        ResponseEvent::Completed { response } => Some(*response),
        ResponseEvent::Incomplete { response } => Some(*response),
        _ => kept_before,
    }
    &&& match e {
        ResponseEvent::Failed { response } => fails_api(
            o,
            failed_message(error_view(response.error)),
            match response.error {
                Some(x) => Some(x.code@),
                None => None,
            },
        ),
        ResponseEvent::Error { code, message } => fails_api(
            o,
            api_message(
                match code {
                    Some(x) => x@,
                    None => "error"@,
                },
                message@,
            ),
            opt_view(*code),
        ),
        _ => if !meaningful(e) && idle_exceeded {
            *o matches StepOutcome::Fail(StreamFailure::IdleTimeout)
        } else if e is Incomplete {
            *o is Finish
        } else {
            *o is Continue
        },
    }
}

/// `a` followed by `b`.
fn join_str(a: &String, b: &str) -> (r: String)
    ensures
        r@ == a@ + b@,
{
    let mut r = clone_string(a);
    r.append(b);
    r
}

/// `code: message`.
fn format_api_message(code: &String, message: &String) -> (r: String)
    ensures
        r@ == api_message(code@, message@),
{
    let sep = ": ";
    proof {
        reveal_strlit(": ");
    }
    let a = join_str(code, sep);
    let r = join_str(&a, message.as_str());
    assert(sep@ == seq![':', ' ']);
    r
}

impl StreamState {
    /// The state before the first frame.
    pub fn new() -> (r: StreamState)
        ensures
            state_wf(&r),
            r.chunk_index == 0,
            r.message_chunk_count == 0,
            !r.first_token_emitted,
            r.reasoning@.len() == 0,
            r.streamed@.items.len() == 0 && r.streamed@.text.len() == 0
                && r.streamed@.args.len() == 0,
            r.tool_indices@.len() == 0,
            r.next_tool_index == 0,
            r.final_response is None,
    {
        StreamState {
            chunk_index: 0,
            message_chunk_count: 0,
            first_token_emitted: false,
            reasoning: String::new(),
            streamed: StreamedOutput::new(),
            tool_indices: Vec::new(),
            next_tool_index: 0,
            final_response: None,
        }
    }

    /// The decisions for one frame. `abort` is whether the doom-loop
    /// collector holds confident triggers; `idle_exceeded` whether the idle
    /// timeout passed since the last meaningful frame.
    pub fn step(&mut self, event: ResponseEvent, abort: bool, idle_exceeded: bool) -> (r: Step)
        requires
            state_wf(old(self)),
            old(self).chunk_index < u64::MAX,
            old(self).message_chunk_count < u64::MAX,
            old(self).next_tool_index < u32::MAX,
        ensures
            state_wf(final(self)),
            r.had_content == meaningful(&event),
            abort && !is_terminal(&event) ==> r.actions@.len() == 0 && *final(self) == *old(self)
                && fails_doom(&r.outcome, old(self).chunk_index),
            !(abort && !is_terminal(&event)) ==> {
                let tok = token_of(&event);
                &&& final(self).streamed@ == observe_spec(old(self).streamed@, &event)
                &&& r.actions.deep_view() == token_actions(
                    tok,
                    old(self).first_token_emitted,
                    old(self).chunk_index,
                ) + tool_actions(&event, old(self).tool_indices.deep_view(), old(self).next_tool_index)
                &&& final(self).first_token_emitted == (old(self).first_token_emitted || tok is Some)
                &&& final(self).chunk_index == old(self).chunk_index + (if tok is Some { 1int } else { 0 })
                &&& final(self).message_chunk_count == old(self).message_chunk_count + (
                if tok is Some && tok.unwrap().2 { 1int } else { 0 })
                &&& final(self).reasoning@ == (if tok is Some && tok.unwrap().3 {
                    old(self).reasoning@ + tok.unwrap().1
                } else {
                    old(self).reasoning@
                })
                &&& new_call(&event, old(self).tool_indices.deep_view()) ==> final(self).tool_indices.deep_view() == put(
                    old(self).tool_indices.deep_view(),
                    (event->OutputItemAdded_output_index) as u64,
                    old(self).next_tool_index,
                ) && final(self).next_tool_index == old(self).next_tool_index + 1
                &&& !new_call(&event, old(self).tool_indices.deep_view()) ==> final(self).tool_indices
                    == old(self).tool_indices && final(self).next_tool_index
                    == old(self).next_tool_index
                &&& outcome_spec(
                    &event,
                    &r.outcome,
                    idle_exceeded,
                    old(self).final_response,
                    final(self).final_response,
                )
            },
    {
        if abort && !matches!(event, ResponseEvent::Completed { .. } | ResponseEvent::Incomplete { .. }) {
            return Step {
                actions: Vec::new(),
                outcome: StepOutcome::Fail(StreamFailure::DoomLoop { aborted_at_chunk: self.chunk_index }),
                had_content: responses_event_has_meaningful_content(&event),
            };
        }
        self.streamed.observe(&event);
        let had_content = responses_event_has_meaningful_content(&event);
        let mut actions = self.token_step(&event);
        let mut more = self.tool_step(&event);
        let ghost before_append = actions.deep_view();
        let ghost more_v = more.deep_view();
        actions.append(&mut more);
        proof {
            assert(actions.deep_view() =~= before_append + more_v);
        }
        let outcome = self.outcome_of(event, had_content, idle_exceeded);
        Step { actions, outcome, had_content }
    }
}


impl StreamState {
    /// Token bookkeeping of a frame and the events it yields.
    fn token_step(&mut self, event: &ResponseEvent) -> (actions: Vec<StreamAction>)
        requires
            old(self).chunk_index < u64::MAX,
            old(self).message_chunk_count < u64::MAX,
        ensures
            ({
                let tok = token_of(event);
                &&& actions.deep_view() == token_actions(
                    tok,
                    old(self).first_token_emitted,
                    old(self).chunk_index,
                )
                &&& final(self).first_token_emitted == (old(self).first_token_emitted || tok is Some)
                &&& final(self).chunk_index == old(self).chunk_index + (if tok is Some { 1int } else { 0 })
                &&& final(self).message_chunk_count == old(self).message_chunk_count + (
                if tok is Some && tok.unwrap().2 { 1int } else { 0 })
                &&& final(self).reasoning@ == (if tok is Some && tok.unwrap().3 {
                    old(self).reasoning@ + tok.unwrap().1
                } else {
                    old(self).reasoning@
                })
            }),
            final(self).streamed == old(self).streamed,
            final(self).tool_indices == old(self).tool_indices,
            final(self).next_tool_index == old(self).next_tool_index,
            final(self).final_response == old(self).final_response,
    {
        let mut actions: Vec<StreamAction> = Vec::new();
        let ghost tok = token_of(event);
        let token: Option<(Channel, &String, bool, bool)> = match event {
            ResponseEvent::OutputTextDelta { delta, .. } => if !str_is_empty(delta) {
                Some((Channel::Text, delta, true, false))
            } else {
                None
            },
            ResponseEvent::ReasoningSummaryTextDelta { delta, .. } => if !str_is_empty(delta) {
                Some((Channel::Reasoning, delta, false, false))
            } else {
                None
            },
            ResponseEvent::ReasoningTextDelta { delta, .. } => if !str_is_empty(delta) {
                Some((Channel::Reasoning, delta, false, true))
            } else {
                None
            },
            _ => None,
        };
        if let Some((channel, text, counts, acc)) = token {
            if !self.first_token_emitted {
                self.first_token_emitted = true;
                actions.push(StreamAction::FirstToken);
            }
            self.chunk_index = self.chunk_index + 1;
            if counts {
                self.message_chunk_count = self.message_chunk_count + 1;
            }
            if acc {
                self.reasoning.append(text.as_str());
            }
            let ghost before = actions.deep_view();
            let a = StreamAction::ChannelToken {
                channel,
                text: clone_string(text),
                chunk_index: self.chunk_index,
            };
            actions.push(a);
            assert(actions.deep_view() =~= before.push(a.deep_view()));
        }
        proof {
            assert(actions.deep_view() =~= token_actions(
                tok,
                old(self).first_token_emitted,
                old(self).chunk_index,
            ));
        }
        actions
    }

    /// Tool bookkeeping of a frame and the events it yields.
    fn tool_step(&mut self, event: &ResponseEvent) -> (more: Vec<StreamAction>)
        requires
            sorted(old(self).tool_indices.deep_view()),
            old(self).next_tool_index < u32::MAX,
        ensures
            sorted(final(self).tool_indices.deep_view()),
            more.deep_view() == tool_actions(
                event,
                old(self).tool_indices.deep_view(),
                old(self).next_tool_index,
            ),
            new_call(event, old(self).tool_indices.deep_view()) ==> final(self).tool_indices.deep_view() == put(
                old(self).tool_indices.deep_view(),
                (event->OutputItemAdded_output_index) as u64,
                old(self).next_tool_index,
            ) && final(self).next_tool_index == old(self).next_tool_index + 1,
            !new_call(event, old(self).tool_indices.deep_view()) ==> final(self).tool_indices
                == old(self).tool_indices && final(self).next_tool_index
                == old(self).next_tool_index,
            final(self).streamed == old(self).streamed,
            final(self).chunk_index == old(self).chunk_index,
            final(self).message_chunk_count == old(self).message_chunk_count,
            final(self).first_token_emitted == old(self).first_token_emitted,
            final(self).reasoning == old(self).reasoning,
            final(self).final_response == old(self).final_response,
    {
        let ghost tools0 = self.tool_indices.deep_view();
        let ghost next0 = self.next_tool_index;
        let mut more: Vec<StreamAction> = Vec::new();
        match event {
            ResponseEvent::OutputItemAdded { output_index, item } => {
                if let OutputItem::FunctionCall(c) = item {
                    let k = *output_index as u64;
                    if position(&self.tool_indices, k).is_none() {
                        let t = self.next_tool_index;
                        set_entry(&mut self.tool_indices, k, t);
                        self.next_tool_index = t + 1;
                        more.push(
                            StreamAction::ToolCallDelta {
                                tool_index: t,
                                id: Some(clone_string(&c.call_id)),
                                name: Some(clone_string(&c.name)),
                                arguments_delta: None,
                            },
                        );
                    }
                }
            },
            ResponseEvent::FunctionCallArgumentsDelta { output_index, delta, .. } => {
                if !str_is_empty(delta) {
                    match position(&self.tool_indices, *output_index as u64) {
                        Some(i) => {
                            more.push(
                                StreamAction::ToolCallDelta {
                                    tool_index: self.tool_indices[i].1,
                                    id: None,
                                    name: None,
                                    arguments_delta: Some(clone_string(delta)),
                                },
                            );
                        },
                        None => {},
                    }
                }
            },
            ResponseEvent::WebSearchCallInProgress { item_id } => {
                more.push(
                    StreamAction::BackendToolStarted {
                        call_id: clone_string(item_id),
                        tool: BackendTool::WebSearch,
                    },
                );
            },
            ResponseEvent::CodeInterpreterCallInProgress { item_id } => {
                more.push(
                    StreamAction::BackendToolStarted {
                        call_id: clone_string(item_id),
                        tool: BackendTool::CodeInterpreter,
                    },
                );
            },
            ResponseEvent::CustomToolCallInputDone { item_id, .. } => {
                more.push(
                    StreamAction::BackendToolStarted {
                        call_id: clone_string(item_id),
                        tool: BackendTool::XSearch,
                    },
                );
            },
            ResponseEvent::OutputItemDone { item, .. } => {
                if let OutputItem::Hosted { kind, id } = item {
                    let tool = match kind {
                        HostedKind::WebSearch => Some(BackendTool::WebSearch),
                        HostedKind::CustomTool => Some(BackendTool::XSearch),
                        HostedKind::CodeInterpreter => Some(BackendTool::CodeInterpreter),
                        _ => None,
                    };
                    if let Some(t) = tool {
                        more.push(
                            StreamAction::BackendToolCompleted { call_id: clone_string(id), tool: t },
                        );
                    }
                }
            },
            _ => {},
        }
        proof {
            assert(more.deep_view() =~= tool_actions(event, tools0, next0));
        }
        more
    }

    /// How the stream goes on after a frame; a terminal response is kept.
    fn outcome_of(&mut self, event: ResponseEvent, had_content: bool, idle_exceeded: bool) -> (r:
        StepOutcome)
        requires
            had_content == meaningful(&event),
        ensures
            final(self).streamed == old(self).streamed,
            final(self).chunk_index == old(self).chunk_index,
            final(self).message_chunk_count == old(self).message_chunk_count,
            final(self).first_token_emitted == old(self).first_token_emitted,
            final(self).reasoning == old(self).reasoning,
            final(self).tool_indices == old(self).tool_indices,
            final(self).next_tool_index == old(self).next_tool_index,
            outcome_spec(&event, &r, idle_exceeded, old(self).final_response, final(self).final_response),
    {
        match event {
            ResponseEvent::Completed { response } => {
                self.final_response = Some(response);
                if !had_content && idle_exceeded {
                    StepOutcome::Fail(StreamFailure::IdleTimeout)
                } else {
                    StepOutcome::Continue
                }
            },
            ResponseEvent::Incomplete { response } => {
                self.final_response = Some(response);
                if !had_content && idle_exceeded {
                    StepOutcome::Fail(StreamFailure::IdleTimeout)
                } else {
                    StepOutcome::Finish
                }
            },
            ResponseEvent::Failed { response } => {
                let (message, code) = match &response.error {
                    Some(e) => (format_api_message(&e.code, &e.message), Some(clone_string(&e.code))),
                    None => (owned("Response failed with unknown error"), None),
                };
                StepOutcome::Fail(StreamFailure::Api { message, code })
            },
            ResponseEvent::Error { code, message } => {
                let c = match &code {
                    Some(x) => clone_string(x),
                    None => owned("error"),
                };
                let m = format_api_message(&c, &message);
                StepOutcome::Fail(StreamFailure::Api { message: m, code: clone_opt(&code) })
            },
            _ => {
                if !had_content && idle_exceeded {
                    StepOutcome::Fail(StreamFailure::IdleTimeout)
                } else {
                    StepOutcome::Continue
                }
            },
        }
    }
}

/// Collapsed stop reason of a sampled turn.
#[derive(Clone, Copy, PartialEq, Eq, Structural, Debug)]
pub enum StopReason {
    Stop,
    Length,
    ToolCalls,
    ContentFilter,
}

/// Raw stop reason carried to consumers, in the Messages vocabulary.
#[derive(Clone, Copy, PartialEq, Eq, Structural, Debug)]
pub enum RawStopReason {
    /// `max_tokens`.
    MaxTokens,
    /// `model_context_window_exceeded`.
    ModelContextWindowExceeded,
}

/// Classification of an incomplete response by its wire reason: a
/// moderation cut is a content-filter stop, every other reason (or none) a
/// length cut, carrying the Messages reason where there is one.
pub open spec fn incomplete_class(reason: Option<Seq<char>>) -> (StopReason, Option<RawStopReason>) {
    match reason {
        Some(r) => if r == "content_filter"@ {
            (StopReason::ContentFilter, None)
        } else if r == "max_output_tokens"@ {
            (StopReason::Length, Some(RawStopReason::MaxTokens))
        } else if r == "max_prompt_tokens"@ {
            (StopReason::Length, Some(RawStopReason::ModelContextWindowExceeded))
        } else {
            (StopReason::Length, None)
        },
        None => (StopReason::Length, None),
    }
}

/// Stop reason of a finished stream: tool calls win over any status; a
/// completed response stops, an incomplete one is classified by its reason,
/// any other status has no stop reason.
pub open spec fn stop_spec(status: ResponseStatus, reason: Option<Seq<char>>, has_tool_calls: bool) -> (
    Option<StopReason>,
    Option<RawStopReason>,
) {
    if has_tool_calls {
        (Some(StopReason::ToolCalls), None)
    } else {
        match status {
            ResponseStatus::Completed => (Some(StopReason::Stop), None),
            ResponseStatus::Incomplete => (
                Some(incomplete_class(reason).0),
                incomplete_class(reason).1,
            ),
            _ => (None, None),
        }
    }
}

/// Whether `s` holds exactly `lit`.
fn is_lit(s: &String, lit: &str) -> (r: bool)
    ensures
        r == (s@ == lit@),
{
    let a = crate::text::chars_of(s.as_str());
    let b = crate::text::chars_of(lit);
    crate::text::chars_eq(a.as_slice(), b.as_slice())
}

/// The stop reason and raw stop reason of a finished stream.
pub fn classify_stop(status: ResponseStatus, incomplete_reason: &Option<String>, has_tool_calls: bool) -> (r: (
    Option<StopReason>,
    Option<RawStopReason>,
))
    ensures
        r == stop_spec(status, opt_view(*incomplete_reason), has_tool_calls),
{
    if has_tool_calls {
        return (Some(StopReason::ToolCalls), None);
    }
    match status {
        ResponseStatus::Completed => (Some(StopReason::Stop), None),
        ResponseStatus::Incomplete => match incomplete_reason {
            Some(r) => {
                if is_lit(r, "content_filter") {
                    (Some(StopReason::ContentFilter), None)
                } else if is_lit(r, "max_output_tokens") {
                    (Some(StopReason::Length), Some(RawStopReason::MaxTokens))
                } else if is_lit(r, "max_prompt_tokens") {
                    (Some(StopReason::Length), Some(RawStopReason::ModelContextWindowExceeded))
                } else {
                    (Some(StopReason::Length), None)
                }
            },
            None => (Some(StopReason::Length), None),
        },
        _ => (None, None),
    }
}

/// A stream that ended with a terminal response.
pub struct Finished {
    /// The terminal response, its output reconciled with the stream.
    pub response: Response,
    /// Raw reasoning text streamed.
    pub reasoning: String,
    pub message_chunk_count: u64,
}

impl StreamState {
    /// Builds the final response once the stream ended: without a terminal
    /// response the stream failed; otherwise the response's output is
    /// reconciled with what was streamed.
    pub fn finish(self) -> (r: Result<Finished, StreamFailure>)
        requires
            state_wf(&self),
        ensures
            self.final_response is None ==> r is Err && fails_api(
                &StepOutcome::Fail(r->Err_0),
                "No ResponseCompleted or ResponseIncomplete event received from Responses API"@,
                None,
            ),
            self.final_response is Some ==> r is Ok && {
                let f = r->Ok_0;
                let old_r = self.final_response->0;
                &&& f.response.output.deep_view() == super::reconcile::reconcile_spec(
                    self.streamed@,
                    old_r.output.deep_view(),
                )
                &&& f.response.status == old_r.status
                &&& f.response.output_tokens == old_r.output_tokens
                &&& f.response.incomplete_reason == old_r.incomplete_reason
                &&& f.response.error == old_r.error
                &&& f.reasoning == self.reasoning
                &&& f.message_chunk_count == self.message_chunk_count
            },
    {
        let StreamState { message_chunk_count, reasoning, streamed, final_response, .. } = self;
        match final_response {
            None => Err(
                StreamFailure::Api {
                    message: owned(
                        "No ResponseCompleted or ResponseIncomplete event received from Responses API",
                    ),
                    code: None,
                },
            ),
            Some(mut response) => {
                streamed.reconcile(&mut response);
                Ok(Finished { response, reasoning, message_chunk_count })
            },
        }
    }
}

/// A response that carries tool calls stops for its tool calls, whatever
/// its status, and carries no raw length reason.
pub proof fn lemma_tool_calls_win(status: ResponseStatus, reason: Option<Seq<char>>)
    ensures
        stop_spec(status, reason, true) == (Some(StopReason::ToolCalls), None::<RawStopReason>),
{
}

/// An incomplete response without tool calls never looks like a clean
/// stop; a moderation cut is never a length cut (so it is never salvaged).
pub proof fn lemma_incomplete_is_never_a_clean_stop(reason: Option<Seq<char>>)
    ensures
        stop_spec(ResponseStatus::Incomplete, reason, false).0 is Some,
        stop_spec(ResponseStatus::Incomplete, reason, false).0 != Some(StopReason::Stop),
        reason == Some("content_filter"@) ==> stop_spec(ResponseStatus::Incomplete, reason, false).0
            == Some(StopReason::ContentFilter),
        reason != Some("content_filter"@) ==> stop_spec(ResponseStatus::Incomplete, reason, false).0
            == Some(StopReason::Length),
{
}

} // verus!
