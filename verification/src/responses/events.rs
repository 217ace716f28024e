//! The Responses API stream events and their classification.

use vstd::prelude::*;
use super::model::{copy_items, ItemV, OutputItem};

verus! {

/// Lifecycle of a response.
#[derive(Clone, Copy, PartialEq, Eq, Structural, Debug)]
pub enum ResponseStatus {
    Completed,
    Failed,
    InProgress,
    Cancelled,
    Queued,
    Incomplete,
}

/// Error envelope of a failed response.
pub struct ResponseError {
    pub code: String,
    pub message: String,
}

/// The parts of a response snapshot the transform reads.
pub struct Response {
    pub status: ResponseStatus,
    pub output: Vec<OutputItem>,
    /// `usage.output_tokens`, when usage was reported.
    pub output_tokens: Option<u64>,
    /// `incomplete_details.reason`, when details were reported.
    pub incomplete_reason: Option<String>,
    pub error: Option<ResponseError>,
}

/// Frames of server-hosted tool activity that carry no payload.
#[derive(Clone, Copy, PartialEq, Eq, Structural, Debug)]
pub enum HostedActivity {
    WebSearchSearching,
    WebSearchCompleted,
    CodeInterpreterInterpreting,
    CodeInterpreterCompleted,
    FileSearchInProgress,
    FileSearchSearching,
    FileSearchCompleted,
    ImageGenerationInProgress,
    ImageGenerationGenerating,
    ImageGenerationCompleted,
    McpCallInProgress,
    McpCallCompleted,
    McpCallFailed,
}

/// Structural frames that neither carry text nor name tool work.
#[derive(Clone, Copy, PartialEq, Eq, Structural, Debug)]
pub enum Lifecycle {
    ContentPartAdded,
    ContentPartDone,
    ReasoningSummaryPartAdded,
    ReasoningSummaryPartDone,
    ImageGenerationPartialImage,
    McpListToolsInProgress,
    McpListToolsCompleted,
    McpListToolsFailed,
    OutputTextAnnotationAdded,
}

/// One frame of the Responses event stream.
pub enum ResponseEvent {
    Created,
    InProgress,
    Queued,
    OutputTextDelta { output_index: u32, content_index: u32, item_id: String, delta: String },
    OutputTextDone { output_index: u32, content_index: u32, item_id: String, text: String },
    RefusalDelta { delta: String },
    RefusalDone { refusal: String },
    FunctionCallArgumentsDelta { output_index: u32, item_id: String, delta: String },
    FunctionCallArgumentsDone {
        output_index: u32,
        item_id: String,
        arguments: String,
        name: Option<String>,
    },
    ReasoningSummaryTextDelta {
        output_index: u32,
        summary_index: u32,
        item_id: String,
        delta: String,
    },
    ReasoningSummaryTextDone {
        output_index: u32,
        summary_index: u32,
        item_id: String,
        text: String,
    },
    ReasoningTextDelta { output_index: u32, content_index: u32, item_id: String, delta: String },
    ReasoningTextDone { output_index: u32, content_index: u32, item_id: String, text: String },
    McpCallArgumentsDelta { delta: String },
    McpCallArgumentsDone { arguments: String },
    CodeInterpreterCallCodeDelta { delta: String },
    CodeInterpreterCallCodeDone { code: String },
    CustomToolCallInputDelta { item_id: String, delta: String },
    CustomToolCallInputDone { item_id: String, input: String },
    WebSearchCallInProgress { item_id: String },
    CodeInterpreterCallInProgress { item_id: String },
    Hosted(HostedActivity),
    Lifecycle(Lifecycle),
    OutputItemAdded { output_index: u32, item: OutputItem },
    OutputItemDone { output_index: u32, item: OutputItem },
    Completed { response: Response },
    Incomplete { response: Response },
    Failed { response: Response },
    Error { code: Option<String>, message: String },
}

/// The frame reflects model progress rather than a heartbeat or status
/// change: text frames count when they carry text, a failed response when it
/// carries output or produced tokens, every other frame but the three
/// status transitions counts.
pub open spec fn meaningful(e: &ResponseEvent) -> bool {
    match e {
        ResponseEvent::Created | ResponseEvent::InProgress | ResponseEvent::Queued => false,
        ResponseEvent::OutputTextDelta { delta, .. } => delta@.len() > 0,
        ResponseEvent::OutputTextDone { text, .. } => text@.len() > 0,
        ResponseEvent::RefusalDelta { delta } => delta@.len() > 0,
        ResponseEvent::RefusalDone { refusal } => refusal@.len() > 0,
        ResponseEvent::FunctionCallArgumentsDelta { delta, .. } => delta@.len() > 0,
        ResponseEvent::FunctionCallArgumentsDone { arguments, name, .. } => arguments@.len() > 0
            || (name is Some && name->0@.len() > 0),
        ResponseEvent::ReasoningSummaryTextDelta { delta, .. } => delta@.len() > 0,
        ResponseEvent::ReasoningSummaryTextDone { text, .. } => text@.len() > 0,
        ResponseEvent::ReasoningTextDelta { delta, .. } => delta@.len() > 0,
        ResponseEvent::ReasoningTextDone { text, .. } => text@.len() > 0,
        ResponseEvent::McpCallArgumentsDelta { delta } => delta@.len() > 0,
        ResponseEvent::McpCallArgumentsDone { arguments } => arguments@.len() > 0,
        ResponseEvent::CodeInterpreterCallCodeDelta { delta } => delta@.len() > 0,
        ResponseEvent::CodeInterpreterCallCodeDone { code } => code@.len() > 0,
        ResponseEvent::CustomToolCallInputDelta { delta, .. } => delta@.len() > 0,
        ResponseEvent::CustomToolCallInputDone { input, .. } => input@.len() > 0,
        ResponseEvent::Failed { response } => response.output@.len() > 0 || (
        response.output_tokens is Some && response.output_tokens->0 > 0),
        _ => true,
    }
}

/// Whether a string is empty.
fn empty(s: &String) -> (r: bool)
    ensures
        r == (s@.len() == 0),
{
    s.as_str().is_empty()
}

/// Returns whether a Responses API event reflects real model progress
/// rather than a liveness-only heartbeat or status transition.
pub fn responses_event_has_meaningful_content(event: &ResponseEvent) -> (r: bool)
    ensures
        r == meaningful(event),
{
    match event {
        ResponseEvent::Created | ResponseEvent::InProgress | ResponseEvent::Queued => false,
        ResponseEvent::OutputTextDelta { delta, .. } => !empty(delta),
        ResponseEvent::OutputTextDone { text, .. } => !empty(text),
        ResponseEvent::RefusalDelta { delta } => !empty(delta),
        ResponseEvent::RefusalDone { refusal } => !empty(refusal),
        ResponseEvent::FunctionCallArgumentsDelta { delta, .. } => !empty(delta),
        ResponseEvent::FunctionCallArgumentsDone { arguments, name, .. } => {
            if !empty(arguments) {
                true
            } else {
                match name {
                    Some(n) => !empty(n),
                    None => false,
                }
            }
        },
        ResponseEvent::ReasoningSummaryTextDelta { delta, .. } => !empty(delta),
        ResponseEvent::ReasoningSummaryTextDone { text, .. } => !empty(text),
        ResponseEvent::ReasoningTextDelta { delta, .. } => !empty(delta),
        ResponseEvent::ReasoningTextDone { text, .. } => !empty(text),
        ResponseEvent::McpCallArgumentsDelta { delta } => !empty(delta),
        ResponseEvent::McpCallArgumentsDone { arguments } => !empty(arguments),
        ResponseEvent::CodeInterpreterCallCodeDelta { delta } => !empty(delta),
        ResponseEvent::CodeInterpreterCallCodeDone { code } => !empty(code),
        ResponseEvent::CustomToolCallInputDelta { delta, .. } => !empty(delta),
        ResponseEvent::CustomToolCallInputDone { input, .. } => !empty(input),
        ResponseEvent::Failed { response } => {
            if response.output.len() > 0 {
                true
            } else {
                match response.output_tokens {
                    Some(n) => n > 0,
                    None => false,
                }
            }
        },
        _ => true,
    }
}

/// Whether the frame may carry model output: meaningful and not an error
/// frame.
pub fn responses_event_may_have_output(event: &ResponseEvent) -> (r: bool)
    ensures
        r == (!(event is Error) && meaningful(event)),
{
    match event {
        ResponseEvent::Error { .. } => false,
        _ => responses_event_has_meaningful_content(event),
    }
}

/// What the failed-response capture records of a frame, while armed.
pub enum RecoveryNote {
    /// A text delta: output and content index, item id, delta.
    OutputDelta { output_index: u32, content_index: u32, item_id: String, delta: String },
    /// A finished text part: output and content index, item id, text.
    OutputDone { output_index: u32, content_index: u32, item_id: String, text: String },
    /// A reasoning text delta.
    ReasoningDelta { output_index: u32, content_index: u32, item_id: String, delta: String },
    /// A finished reasoning text.
    ReasoningDone { output_index: u32, content_index: u32, item_id: String, text: String },
    /// A reasoning summary delta: output and summary index, item id, delta.
    SummaryDelta { output_index: u32, summary_index: u32, item_id: String, delta: String },
    /// A finished reasoning summary.
    SummaryDone { output_index: u32, summary_index: u32, item_id: String, text: String },
    /// The start of an output item.
    ItemStart { item: OutputItem },
    /// A finished output item at its output index.
    OutputItem { output_index: u32, item: OutputItem },
    /// The output of a terminal (completed or incomplete) response.
    TerminalOutput { output: Vec<OutputItem> },
    /// A frame naming in-flight tool work: the attempt cannot be replayed.
    Unreplayable,
}

/// View of a [`RecoveryNote`].
pub enum NoteV {
    OutputDelta(u32, u32, Seq<char>, Seq<char>),
    OutputDone(u32, u32, Seq<char>, Seq<char>),
    ReasoningDelta(u32, u32, Seq<char>, Seq<char>),
    ReasoningDone(u32, u32, Seq<char>, Seq<char>),
    SummaryDelta(u32, u32, Seq<char>, Seq<char>),
    SummaryDone(u32, u32, Seq<char>, Seq<char>),
    ItemStart(ItemV),
    OutputItem(u32, ItemV),
    TerminalOutput(Seq<ItemV>),
    Unreplayable,
}

/// View of an optional note.
pub open spec fn note_view(n: Option<RecoveryNote>) -> Option<NoteV> {
    match n {
        None => None,
        Some(RecoveryNote::OutputDelta { output_index, content_index, item_id, delta }) => Some(
            NoteV::OutputDelta(output_index, content_index, item_id@, delta@),
        ),
        Some(RecoveryNote::OutputDone { output_index, content_index, item_id, text }) => Some(
            NoteV::OutputDone(output_index, content_index, item_id@, text@),
        ),
        Some(RecoveryNote::ReasoningDelta { output_index, content_index, item_id, delta }) => Some(
            NoteV::ReasoningDelta(output_index, content_index, item_id@, delta@),
        ),
        Some(RecoveryNote::ReasoningDone { output_index, content_index, item_id, text }) => Some(
            NoteV::ReasoningDone(output_index, content_index, item_id@, text@),
        ),
        Some(RecoveryNote::SummaryDelta { output_index, summary_index, item_id, delta }) => Some(
            NoteV::SummaryDelta(output_index, summary_index, item_id@, delta@),
        ),
        Some(RecoveryNote::SummaryDone { output_index, summary_index, item_id, text }) => Some(
            NoteV::SummaryDone(output_index, summary_index, item_id@, text@),
        ),
        Some(RecoveryNote::ItemStart { item }) => Some(NoteV::ItemStart(item.deep_view())),
        Some(RecoveryNote::OutputItem { output_index, item }) => Some(
            NoteV::OutputItem(output_index, item.deep_view()),
        ),
        Some(RecoveryNote::TerminalOutput { output }) => Some(NoteV::TerminalOutput(output.deep_view())),
        Some(RecoveryNote::Unreplayable) => Some(NoteV::Unreplayable),
    }
}

/// The capture's record of a frame: the indices, item id and text of a
/// text frame, the item of an item frame, a terminal response's output,
/// or that the attempt cannot be replayed.
pub open spec fn recovery_spec(e: &ResponseEvent) -> Option<NoteV> {
    match e {
        ResponseEvent::OutputTextDelta { output_index, content_index, item_id, delta } => Some(
            NoteV::OutputDelta(*output_index, *content_index, item_id@, delta@),
        ),
        ResponseEvent::OutputTextDone { output_index, content_index, item_id, text } => Some(
            NoteV::OutputDone(*output_index, *content_index, item_id@, text@),
        ),
        ResponseEvent::ReasoningTextDelta { output_index, content_index, item_id, delta } => Some(
            NoteV::ReasoningDelta(*output_index, *content_index, item_id@, delta@),
        ),
        ResponseEvent::ReasoningTextDone { output_index, content_index, item_id, text } => Some(
            NoteV::ReasoningDone(*output_index, *content_index, item_id@, text@),
        ),
        ResponseEvent::ReasoningSummaryTextDelta { output_index, summary_index, item_id, delta } => Some(
            NoteV::SummaryDelta(*output_index, *summary_index, item_id@, delta@),
        ),
        ResponseEvent::ReasoningSummaryTextDone { output_index, summary_index, item_id, text } => Some(
            NoteV::SummaryDone(*output_index, *summary_index, item_id@, text@),
        ),
        ResponseEvent::OutputItemAdded { item, .. } => Some(NoteV::ItemStart(item.deep_view())),
        ResponseEvent::OutputItemDone { output_index, item } => Some(
            NoteV::OutputItem(*output_index, item.deep_view()),
        ),
        ResponseEvent::Completed { response } | ResponseEvent::Incomplete { response } => Some(
            NoteV::TerminalOutput(response.output.deep_view()),
        ),
        ResponseEvent::FunctionCallArgumentsDelta { .. }
        | ResponseEvent::FunctionCallArgumentsDone { .. }
        | ResponseEvent::CustomToolCallInputDelta { .. }
        | ResponseEvent::CustomToolCallInputDone { .. }
        | ResponseEvent::CodeInterpreterCallCodeDelta { .. }
        | ResponseEvent::CodeInterpreterCallCodeDone { .. }
        | ResponseEvent::CodeInterpreterCallInProgress { .. }
        | ResponseEvent::WebSearchCallInProgress { .. }
        | ResponseEvent::Hosted(_)
        | ResponseEvent::McpCallArgumentsDelta { .. }
        | ResponseEvent::McpCallArgumentsDone { .. } => Some(NoteV::Unreplayable),
        _ => None,
    }
}

/// What the doom-loop capture must copy out of a frame; nothing while the
/// capture is disarmed. Any frame that names tool activity vetoes the
/// replay.
pub fn observe_for_recovery(armed: bool, event: &ResponseEvent) -> (r: Option<RecoveryNote>)
    ensures
        note_view(r) == (if armed {
            recovery_spec(event)
        } else {
            None
        }),
{
    if !armed {
        return None;
    }
    match event {
        ResponseEvent::OutputTextDelta { output_index, content_index, item_id, delta } => Some(
            RecoveryNote::OutputDelta {
                output_index: *output_index,
                content_index: *content_index,
                item_id: item_id.clone(),
                delta: delta.clone(),
            },
        ),
        ResponseEvent::OutputTextDone { output_index, content_index, item_id, text } => Some(
            RecoveryNote::OutputDone {
                output_index: *output_index,
                content_index: *content_index,
                item_id: item_id.clone(),
                text: text.clone(),
            },
        ),
        ResponseEvent::ReasoningTextDelta { output_index, content_index, item_id, delta } => Some(
            RecoveryNote::ReasoningDelta {
                output_index: *output_index,
                content_index: *content_index,
                item_id: item_id.clone(),
                delta: delta.clone(),
            },
        ),
        ResponseEvent::ReasoningTextDone { output_index, content_index, item_id, text } => Some(
            RecoveryNote::ReasoningDone {
                output_index: *output_index,
                content_index: *content_index,
                item_id: item_id.clone(),
                text: text.clone(),
            },
        ),
        ResponseEvent::ReasoningSummaryTextDelta { output_index, summary_index, item_id, delta } => Some(
            RecoveryNote::SummaryDelta {
                output_index: *output_index,
                summary_index: *summary_index,
                item_id: item_id.clone(),
                delta: delta.clone(),
            },
        ),
        ResponseEvent::ReasoningSummaryTextDone { output_index, summary_index, item_id, text } => Some(
            RecoveryNote::SummaryDone {
                output_index: *output_index,
                summary_index: *summary_index,
                item_id: item_id.clone(),
                text: text.clone(),
            },
        ),
        ResponseEvent::OutputItemAdded { item, .. } => Some(RecoveryNote::ItemStart { item: item.copy() }),
        ResponseEvent::OutputItemDone { output_index, item } => Some(
            RecoveryNote::OutputItem { output_index: *output_index, item: item.copy() },
        ),
        ResponseEvent::Completed { response } | ResponseEvent::Incomplete { response } => Some(
            RecoveryNote::TerminalOutput { output: copy_items(&response.output) },
        ),
        ResponseEvent::FunctionCallArgumentsDelta { .. }
        | ResponseEvent::FunctionCallArgumentsDone { .. }
        | ResponseEvent::CustomToolCallInputDelta { .. }
        | ResponseEvent::CustomToolCallInputDone { .. }
        | ResponseEvent::CodeInterpreterCallCodeDelta { .. }
        | ResponseEvent::CodeInterpreterCallCodeDone { .. }
        | ResponseEvent::CodeInterpreterCallInProgress { .. }
        | ResponseEvent::WebSearchCallInProgress { .. }
        | ResponseEvent::Hosted(_)
        | ResponseEvent::McpCallArgumentsDelta { .. }
        | ResponseEvent::McpCallArgumentsDone { .. } => Some(RecoveryNote::Unreplayable),
        _ => None,
    }
}

} // verus!
