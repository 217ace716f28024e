//! Identity and merge rules between a streamed item and a snapshot item.

use vstd::prelude::*;
use crate::text::{chars_eq, chars_of, starts_with, starts_with_exec};
use super::model::{clone_opt, ContentV, FunctionCall, ItemV, MessageContent, OutputItem, OutputMessage};

verus! {

/// Two items describe the same output: messages with one non-empty id, or
/// function calls with one non-empty `call_id` or one non-empty item id.
pub open spec fn same_item_spec(a: ItemV, b: ItemV) -> bool {
    match (a, b) {
        (ItemV::Message { id: x, .. }, ItemV::Message { id: y, .. }) => x.len() > 0 && x == y,
        (
            ItemV::Call { call_id: c1, id: i1, .. },
            ItemV::Call { call_id: c2, id: i2, .. },
        ) => (c1.len() > 0 && c1 == c2) || (i1 is Some && i1->0.len() > 0 && i2 == i1),
        _ => false,
    }
}

/// A streamed text part replaces an empty part, or one it extends.
pub open spec fn merge_part(p: ContentV, q: ContentV) -> ContentV {
    match (p, q) {
        (ContentV::Text(t), ContentV::Text(o)) => if t.len() == 0 || starts_with(o, t) {
            ContentV::Text(o)
        } else {
            p
        },
        _ => p,
    }
}

/// Parts of `item` merged with the fallback's parts at the same index; the
/// fallback's extra parts are appended.
pub open spec fn fill_content(item: Seq<ContentV>, fb: Seq<ContentV>) -> Seq<ContentV> {
    Seq::new(
        if item.len() >= fb.len() {
            item.len()
        } else {
            fb.len()
        },
        |i: int|
            if i < item.len() {
                if i < fb.len() {
                    merge_part(item[i], fb[i])
                } else {
                    item[i]
                }
            } else {
                fb[i]
            },
    )
}

/// `item` completed from `fallback` (same kind only): empty fields are taken
/// from the fallback, and arguments the fallback extends are replaced.
pub open spec fn fill_spec(item: ItemV, fb: ItemV) -> ItemV {
    match (item, fb) {
        (ItemV::Message { id, content }, ItemV::Message { content: fc, .. }) => ItemV::Message {
            id,
            content: fill_content(content, fc),
        },
        (
            ItemV::Call { call_id, id, name, arguments },
            ItemV::Call { call_id: fcall, id: fid, name: fname, arguments: fargs },
        ) => ItemV::Call {
            call_id: if call_id.len() == 0 {
                fcall
            } else {
                call_id
            },
            id: if id is None {
                fid
            } else {
                id
            },
            name: if name.len() == 0 {
                fname
            } else {
                name
            },
            arguments: if arguments.len() == 0 || starts_with(fargs, arguments) {
                fargs
            } else {
                arguments
            },
        },
        _ => item,
    }
}

/// Whether the strings are equal.
pub fn str_eq(a: &String, b: &String) -> (r: bool)
    ensures
        r == (a@ == b@),
{
    let x = chars_of(a.as_str());
    let y = chars_of(b.as_str());
    chars_eq(x.as_slice(), y.as_slice())
}

/// Whether `s` starts with `p`.
pub fn str_starts_with(s: &String, p: &String) -> (r: bool)
    ensures
        r == starts_with(s@, p@),
{
    let x = chars_of(s.as_str());
    let y = chars_of(p.as_str());
    starts_with_exec(x.as_slice(), y.as_slice())
}

/// Whether `s` is empty.
pub fn str_is_empty(s: &String) -> (r: bool)
    ensures
        r == (s@.len() == 0),
{
    s.as_str().is_empty()
}

/// Identity test between two output items.
pub fn same_item(a: &OutputItem, b: &OutputItem) -> (r: bool)
    ensures
        r == same_item_spec(a.deep_view(), b.deep_view()),
{
    match (a, b) {
        (OutputItem::Message(x), OutputItem::Message(y)) => !str_is_empty(&x.id) && str_eq(
            &x.id,
            &y.id,
        ),
        (OutputItem::FunctionCall(x), OutputItem::FunctionCall(y)) => {
            if !str_is_empty(&x.call_id) && str_eq(&x.call_id, &y.call_id) {
                return true;
            }
            match (&x.id, &y.id) {
                (Some(i1), Some(i2)) => !str_is_empty(i1) && str_eq(i1, i2),
                _ => false,
            }
        },
        _ => false,
    }
}

/// One merged part.
fn merged_part(p: &MessageContent, q: &MessageContent) -> (r: MessageContent)
    ensures
        r.deep_view() == merge_part(p.deep_view(), q.deep_view()),
{
    match (p, q) {
        (MessageContent::OutputText(t), MessageContent::OutputText(o)) => {
            if str_is_empty(t) || str_starts_with(o, t) {
                MessageContent::OutputText(o.clone())
            } else {
                p.copy()
            }
        },
        _ => p.copy(),
    }
}

/// Message parts merged with a fallback's parts.
pub fn fill_parts(item: &Vec<MessageContent>, fb: &Vec<MessageContent>) -> (r: Vec<
    MessageContent,
>)
    ensures
        r.deep_view() == fill_content(item.deep_view(), fb.deep_view()),
{
    let mut r: Vec<MessageContent> = Vec::new();
    let n = if item.len() >= fb.len() {
        item.len()
    } else {
        fb.len()
    };
    let mut i: usize = 0;
    while i < n
        invariant
            i <= n,
            n == (if item@.len() >= fb@.len() {
                item@.len()
            } else {
                fb@.len()
            }),
            r@.len() == i,
            r.deep_view() == fill_content(item.deep_view(), fb.deep_view()).subrange(0, i as int),
        decreases n - i,
    {
        let part = if i < item.len() {
            if i < fb.len() {
                merged_part(&item[i], &fb[i])
            } else {
                item[i].copy()
            }
        } else {
            fb[i].copy()
        };
        let ghost before = r@;
        r.push(part);
        assert(r@ == before.push(part));
        assert(r@[i as int].deep_view() == fill_content(item.deep_view(), fb.deep_view())[i as int]);
        i += 1;
        assert(r.deep_view() =~= fill_content(item.deep_view(), fb.deep_view()).subrange(
            0,
            i as int,
        ));
    }
    assert(fill_content(item.deep_view(), fb.deep_view()).subrange(0, n as int) =~= fill_content(
        item.deep_view(),
        fb.deep_view(),
    ));
    r
}

/// `item` completed from `fallback` (see [`fill_spec`]).
pub fn filled(item: &OutputItem, fallback: &OutputItem) -> (r: OutputItem)
    ensures
        r.deep_view() == fill_spec(item.deep_view(), fallback.deep_view()),
{
    match (item, fallback) {
        (OutputItem::Message(m), OutputItem::Message(f)) => {
            let content = fill_parts(&m.content, &f.content);
            OutputItem::Message(OutputMessage { id: m.id.clone(), content })
        },
        (OutputItem::FunctionCall(c), OutputItem::FunctionCall(f)) => {
            let call_id = if str_is_empty(&c.call_id) {
                f.call_id.clone()
            } else {
                c.call_id.clone()
            };
            let id = if c.id.is_none() {
                clone_opt(&f.id)
            } else {
                clone_opt(&c.id)
            };
            let name = if str_is_empty(&c.name) {
                f.name.clone()
            } else {
                c.name.clone()
            };
            let arguments = if str_is_empty(&c.arguments) || str_starts_with(
                &f.arguments,
                &c.arguments,
            ) {
                f.arguments.clone()
            } else {
                c.arguments.clone()
            };
            OutputItem::FunctionCall(FunctionCall { call_id, id, name, arguments })
        },
        _ => item.copy(),
    }
}

/// Completes `item` in place from `fallback`.
pub fn fill_item(item: &mut OutputItem, fallback: &OutputItem)
    ensures
        final(item).deep_view() == fill_spec(old(item).deep_view(), fallback.deep_view()),
{
    let r = filled(item, fallback);
    *item = r;
}

} // verus!
