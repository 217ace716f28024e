//! The Responses API values the stream transform reads, and their
//! mathematical views.

use vstd::prelude::*;

verus! {

/// One part of an assistant message.
pub enum MessageContent {
    /// `output_text` part.
    OutputText(String),
    /// `refusal` part.
    Refusal(String),
}

/// An assistant message output item.
pub struct OutputMessage {
    pub id: String,
    pub content: Vec<MessageContent>,
}

/// A client-executed function call output item.
pub struct FunctionCall {
    pub call_id: String,
    pub id: Option<String>,
    pub name: String,
    pub arguments: String,
}

/// Server-hosted output items the transform forwards but never merges.
#[derive(Clone, Copy, PartialEq, Eq, Structural, Debug)]
pub enum HostedKind {
    WebSearch,
    CustomTool,
    CodeInterpreter,
    Reasoning,
    Other,
}

/// An item of `response.output`.
pub enum OutputItem {
    Message(OutputMessage),
    FunctionCall(FunctionCall),
    Hosted { kind: HostedKind, id: String },
}

// ── views ───────────────────────────────────────────────────────────────

/// View of a message part.
pub enum ContentV {
    Text(Seq<char>),
    Refusal(Seq<char>),
}

/// View of an output item.
pub enum ItemV {
    Message { id: Seq<char>, content: Seq<ContentV> },
    Call { call_id: Seq<char>, id: Option<Seq<char>>, name: Seq<char>, arguments: Seq<char> },
    Hosted { kind: HostedKind, id: Seq<char> },
}

impl DeepView for MessageContent {
    type V = ContentV;

    open spec fn deep_view(&self) -> ContentV {
        match self {
            MessageContent::OutputText(t) => ContentV::Text(t@),
            MessageContent::Refusal(t) => ContentV::Refusal(t@),
        }
    }
}

/// View of an optional string.
pub open spec fn opt_view(o: Option<String>) -> Option<Seq<char>> {
    match o {
        Some(s) => Some(s@),
        None => None,
    }
}

impl DeepView for OutputItem {
    type V = ItemV;

    open spec fn deep_view(&self) -> ItemV {
        match self {
            OutputItem::Message(m) => ItemV::Message { id: m.id@, content: m.content.deep_view() },
            OutputItem::FunctionCall(c) => ItemV::Call {
                call_id: c.call_id@,
                id: opt_view(c.id),
                name: c.name@,
                arguments: c.arguments@,
            },
            OutputItem::Hosted { kind, id } => ItemV::Hosted { kind: *kind, id: id@ },
        }
    }
}

/// Owned copy of a string.
pub fn clone_string(s: &String) -> (r: String)
    ensures
        r@ == s@,
{
    s.clone()
}

/// Owned copy of an optional string.
pub fn clone_opt(s: &Option<String>) -> (r: Option<String>)
    ensures
        opt_view(r) == opt_view(*s),
{
    match s {
        Some(x) => Some(x.clone()),
        None => None,
    }
}

impl MessageContent {
    /// A deep copy.
    pub fn copy(&self) -> (r: MessageContent)
        ensures
            r.deep_view() == self.deep_view(),
    {
        match self {
            MessageContent::OutputText(t) => MessageContent::OutputText(t.clone()),
            MessageContent::Refusal(t) => MessageContent::Refusal(t.clone()),
        }
    }
}

/// A deep copy of message parts.
pub fn copy_content(v: &Vec<MessageContent>) -> (r: Vec<MessageContent>)
    ensures
        r.deep_view() == v.deep_view(),
{
    let mut r: Vec<MessageContent> = Vec::new();
    let mut i: usize = 0;
    while i < v.len()
        invariant
            i <= v@.len(),
            r@.len() == i,
            r.deep_view() == v.deep_view().subrange(0, i as int),
        decreases v@.len() - i,
    {
        let c = v[i].copy();
        let ghost before = r@;
        r.push(c);
        assert(r@ == before.push(c));
        assert(r@[i as int].deep_view() == v@[i as int].deep_view());
        i += 1;
        assert(r.deep_view() =~= v.deep_view().subrange(0, i as int));
    }
    assert(v.deep_view().subrange(0, v@.len() as int) =~= v.deep_view());
    r
}

impl OutputItem {
    /// A deep copy.
    pub fn copy(&self) -> (r: OutputItem)
        ensures
            r.deep_view() == self.deep_view(),
    {
        match self {
            OutputItem::Message(m) => OutputItem::Message(
                OutputMessage { id: m.id.clone(), content: copy_content(&m.content) },
            ),
            OutputItem::FunctionCall(c) => OutputItem::FunctionCall(
                FunctionCall {
                    call_id: c.call_id.clone(),
                    id: clone_opt(&c.id),
                    name: c.name.clone(),
                    arguments: c.arguments.clone(),
                },
            ),
            OutputItem::Hosted { kind, id } => OutputItem::Hosted { kind: *kind, id: id.clone() },
        }
    }
}

/// A deep copy of output items.
pub fn copy_items(v: &Vec<OutputItem>) -> (r: Vec<OutputItem>)
    ensures
        r.deep_view() == v.deep_view(),
{
    let mut r: Vec<OutputItem> = Vec::new();
    let mut i: usize = 0;
    while i < v.len()
        invariant
            i <= v@.len(),
            r@.len() == i,
            r.deep_view() == v.deep_view().subrange(0, i as int),
        decreases v@.len() - i,
    {
        let c = v[i].copy();
        let ghost before = r@;
        r.push(c);
        assert(r@ == before.push(c));
        assert(r@[i as int].deep_view() == v@[i as int].deep_view());
        i += 1;
        assert(r.deep_view() =~= v.deep_view().subrange(0, i as int));
    }
    assert(v.deep_view().subrange(0, v@.len() as int) =~= v.deep_view());
    r
}

} // verus!
