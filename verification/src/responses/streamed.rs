//! What the stream showed of each output item, kept by output index so the
//! final snapshot can be completed before it is flattened.

use vstd::prelude::*;
use vstd::string::*;
use super::events::ResponseEvent;
use super::merge::{filled, str_is_empty};
use super::model::{clone_opt, clone_string, opt_view, ItemV, OutputItem};
use super::merge::fill_spec;
use super::slots::{lookup, position, put, put_absent, set_entry, sorted};

verus! {

/// Key of a text part: output index in the high half, content index in the
/// low half, so key order is `(output_index, content_index)` order.
pub open spec fn text_key(output_index: u32, content_index: u32) -> u64 {
    (output_index * 0x1_0000_0000 + content_index) as u64
}

/// View of a streamed text part: item id and text.
pub type TextV = (Seq<char>, Seq<char>);

/// View of streamed call arguments: item id, arguments and name.
pub type ArgsV = (Seq<char>, Seq<char>, Option<Seq<char>>);

/// View of the streamed state.
pub struct OutV {
    pub items: Seq<(u64, ItemV)>,
    pub text: Seq<(u64, TextV)>,
    pub args: Seq<(u64, ArgsV)>,
}

/// Streamed fragments, each map ordered by key.
pub struct StreamedOutput {
    pub items: Vec<(u64, OutputItem)>,
    pub text: Vec<(u64, (String, String))>,
    pub arguments: Vec<(u64, (String, String, Option<String>))>,
}

impl View for StreamedOutput {
    type V = OutV;

    open spec fn view(&self) -> OutV {
        OutV {
            items: self.items.deep_view(),
            text: self.text.deep_view(),
            args: self.arguments.deep_view(),
        }
    }
}

/// All three maps are ordered by key.
pub open spec fn wf(o: OutV) -> bool {
    sorted(o.items) && sorted(o.text) && sorted(o.args)
}

/// Text entry after a delta.
pub open spec fn text_after_delta(prev: Option<TextV>, item_id: Seq<char>, delta: Seq<char>) -> TextV {
    match prev {
        Some(e) => (e.0, e.1 + delta),
        None => (item_id, delta),
    }
}

/// Argument entry before a frame updates it.
pub open spec fn args_base(prev: Option<ArgsV>, item_id: Seq<char>) -> ArgsV {
    match prev {
        Some(e) => e,
        None => (item_id, Seq::empty(), None),
    }
}

/// The streamed state after one frame.
pub open spec fn observe_spec(s: OutV, e: &ResponseEvent) -> OutV {
    match e {
        ResponseEvent::OutputItemAdded { output_index, item } => {
            let k = *output_index as u64;
            let iv = item.deep_view();
            OutV {
                items: put_absent(s.items, k, iv),
                args: match iv {
                    ItemV::Call { id, arguments, name, .. } => put_absent(
                        s.args,
                        k,
                        (
                            match id {
                                Some(x) => x,
                                None => Seq::empty(),
                            },
                            arguments,
                            Some(name),
                        ),
                    ),
                    _ => s.args,
                },
                ..s
            }
        },
        ResponseEvent::OutputItemDone { output_index, item } => {
            let k = *output_index as u64;
            let iv = item.deep_view();
            OutV {
                items: put(
                    s.items,
                    k,
                    match lookup(s.items, k) {
                        Some(prev) => fill_spec(iv, prev),
                        None => iv,
                    },
                ),
                ..s
            }
        },
        ResponseEvent::OutputTextDelta { output_index, content_index, item_id, delta } => {
            let k = text_key(*output_index, *content_index);
            OutV {
                text: put(s.text, k, text_after_delta(lookup(s.text, k), item_id@, delta@)),
                ..s
            }
        },
        ResponseEvent::OutputTextDone { output_index, content_index, item_id, text } => {
            if text@.len() > 0 {
                OutV {
                    text: put(s.text, text_key(*output_index, *content_index), (item_id@, text@)),
                    ..s
                }
            } else {
                s
            }
        },
        ResponseEvent::FunctionCallArgumentsDelta { output_index, item_id, delta } => {
            let k = *output_index as u64;
            let b = args_base(lookup(s.args, k), item_id@);
            OutV {
                args: put(
                    s.args,
                    k,
                    (
                        if b.0.len() == 0 {
                            item_id@
                        } else {
                            b.0
                        },
                        b.1 + delta@,
                        b.2,
                    ),
                ),
                ..s
            }
        },
        ResponseEvent::FunctionCallArgumentsDone { output_index, item_id, arguments, name } => {
            let k = *output_index as u64;
            let b = args_base(lookup(s.args, k), item_id@);
            OutV {
                args: put(
                    s.args,
                    k,
                    (
                        b.0,
                        if arguments@.len() > 0 {
                            arguments@
                        } else {
                            b.1
                        },
                        opt_view(*name),
                    ),
                ),
                ..s
            }
        },
        _ => s,
    }
}

/// Key of a text part.
pub fn make_text_key(output_index: u32, content_index: u32) -> (k: u64)
    ensures
        k == text_key(output_index, content_index),
{
    (output_index as u64) * 0x1_0000_0000 + (content_index as u64)
}

/// Argument entry of `output_index`, or a fresh one for `item_id`.
fn args_entry(
    args: &Vec<(u64, (String, String, Option<String>))>,
    k: u64,
    item_id: &String,
) -> (r: (String, String, Option<String>))
    requires
        sorted(args.deep_view()),
    ensures
        r.deep_view() == args_base(lookup(args.deep_view(), k), item_id@),
{
    match position(args, k) {
        Some(i) => {
            let e = &args[i].1;
            let r = (clone_string(&e.0), clone_string(&e.1), clone_opt(&e.2));
            assert(r.2.deep_view() == opt_view(r.2));
            assert(e.2.deep_view() == opt_view(e.2));
            r
        },
        None => (clone_string(item_id), String::new(), None),
    }
}

impl StreamedOutput {
    /// Nothing streamed yet.
    pub fn new() -> (r: StreamedOutput)
        ensures
            wf(r@),
            r@.items.len() == 0,
            r@.text.len() == 0,
            r@.args.len() == 0,
    {
        StreamedOutput { items: Vec::new(), text: Vec::new(), arguments: Vec::new() }
    }

    /// Records what one frame shows of the output.
    pub fn observe(&mut self, event: &ResponseEvent)
        requires
            wf(old(self)@),
        ensures
            wf(final(self)@),
            final(self)@ == observe_spec(old(self)@, event),
    {
        match event {
            ResponseEvent::OutputItemAdded { output_index, item } => {
                let k = *output_index as u64;
                if let OutputItem::FunctionCall(call) = item {
                    if position(&self.arguments, k).is_none() {
                        let id = match &call.id {
                            Some(x) => clone_string(x),
                            None => String::new(),
                        };
                        let entry = (id, clone_string(&call.arguments), Some(clone_string(&call.name)));
                        set_entry(&mut self.arguments, k, entry);
                    }
                }
                if position(&self.items, k).is_none() {
                    set_entry(&mut self.items, k, item.copy());
                }
            },
            ResponseEvent::OutputItemDone { output_index, item } => {
                let k = *output_index as u64;
                let merged = match position(&self.items, k) {
                    Some(i) => filled(item, &self.items[i].1),
                    None => item.copy(),
                };
                set_entry(&mut self.items, k, merged);
            },
            ResponseEvent::OutputTextDelta { output_index, content_index, item_id, delta } => {
                let k = make_text_key(*output_index, *content_index);
                let entry = match position(&self.text, k) {
                    Some(i) => {
                        let mut t = clone_string(&self.text[i].1.1);
                        t.append(delta.as_str());
                        (clone_string(&self.text[i].1.0), t)
                    },
                    None => (clone_string(item_id), clone_string(delta)),
                };
                set_entry(&mut self.text, k, entry);
            },
            ResponseEvent::OutputTextDone { output_index, content_index, item_id, text } => {
                if !str_is_empty(text) {
                    let k = make_text_key(*output_index, *content_index);
                    set_entry(&mut self.text, k, (clone_string(item_id), clone_string(text)));
                }
            },
            ResponseEvent::FunctionCallArgumentsDelta { output_index, item_id, delta } => {
                let k = *output_index as u64;
                let b = args_entry(&self.arguments, k, item_id);
                let id = if str_is_empty(&b.0) {
                    clone_string(item_id)
                } else {
                    b.0
                };
                let mut a = b.1;
                a.append(delta.as_str());
                set_entry(&mut self.arguments, k, (id, a, b.2));
            },
            ResponseEvent::FunctionCallArgumentsDone { output_index, item_id, arguments, name } => {
                let k = *output_index as u64;
                let b = args_entry(&self.arguments, k, item_id);
                let a = if !str_is_empty(arguments) {
                    clone_string(arguments)
                } else {
                    b.1
                };
                let n = clone_opt(name);
                assert(n.deep_view() == opt_view(n));
                set_entry(&mut self.arguments, k, (b.0, a, n));
            },
            _ => {},
        }
    }
}

} // verus!
