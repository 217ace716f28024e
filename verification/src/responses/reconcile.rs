//! Completion of the final snapshot from what the stream showed.
//!
//! Streamed text is applied to its message part, streamed arguments to their
//! call, the snapshot's items are placed at the output index the stream gave
//! them, streamed items the snapshot lost are restored, and the output is put
//! in output-index order, snapshot items after streamed ones on a tie.

use vstd::prelude::*;
use super::events::Response;
use super::merge::{fill_spec, filled, same_item, same_item_spec, str_is_empty, str_starts_with, str_eq};
use super::model::{clone_string, copy_content, ContentV, FunctionCall, ItemV, MessageContent, OutputItem, OutputMessage};
use super::slots::{first_at_least, first_match, index_of, lemma_first_match_is, lookup, position, put, set_entry, sorted};
use super::streamed::{ArgsV, OutV, StreamedOutput, TextV, wf};
use crate::text::starts_with;

verus! {

// ── specification ───────────────────────────────────────────────────────

/// `c` extended with empty text parts to at least `n` parts.
pub open spec fn pad(c: Seq<ContentV>, n: int) -> Seq<ContentV> {
    if c.len() >= n {
        c
    } else {
        c + Seq::new((n - c.len()) as nat, |i: int| ContentV::Text(Seq::empty()))
    }
}

/// Streamed text applied to part `ci` of a message: the part is created if
/// missing and replaced when empty or extended by the streamed text.
pub open spec fn apply_text(item: ItemV, ci: int, text: Seq<char>) -> ItemV {
    match item {
        ItemV::Message { id, content } => {
            let p = pad(content, ci + 1);
            match p[ci] {
                ContentV::Text(e) => if e.len() == 0 || starts_with(text, e) {
                    ItemV::Message { id, content: p.update(ci, ContentV::Text(text)) }
                } else {
                    ItemV::Message { id, content: p }
                },
                _ => ItemV::Message { id, content: p },
            }
        },
        _ => item,
    }
}

/// Output index of a text key.
pub open spec fn key_output(k: u64) -> u64 {
    k / 0x1_0000_0000
}

/// Content index of a text key.
pub open spec fn key_content(k: u64) -> int {
    (k % 0x1_0000_0000) as int
}

/// One streamed text part applied to the streamed items; a message is
/// created for it when its output index has no item.
pub open spec fn text_step(items: Seq<(u64, ItemV)>, e: (u64, TextV)) -> Seq<(u64, ItemV)> {
    let oi = key_output(e.0);
    let base = match lookup(items, oi) {
        Some(it) => it,
        None => ItemV::Message { id: e.1.0, content: Seq::empty() },
    };
    put(items, oi, apply_text(base, key_content(e.0), e.1.1))
}

/// All streamed text parts applied in key order.
pub open spec fn fold_text(items: Seq<(u64, ItemV)>, t: Seq<(u64, TextV)>) -> Seq<(u64, ItemV)>
    decreases t.len(),
{
    if t.len() == 0 {
        items
    } else {
        text_step(fold_text(items, t.drop_last()), t.last())
    }
}

/// Streamed arguments applied to a call: arguments replaced when empty or
/// extended, a missing name and item id filled in.
pub open spec fn apply_args(item: ItemV, a: ArgsV) -> ItemV {
    match item {
        ItemV::Call { call_id, id, name, arguments } => ItemV::Call {
            call_id,
            id: if id is None && a.0.len() > 0 {
                Some(a.0)
            } else {
                id
            },
            name: if name.len() == 0 {
                match a.2 {
                    Some(n) => n,
                    None => Seq::empty(),
                }
            } else {
                name
            },
            arguments: if arguments.len() == 0 || starts_with(a.1, arguments) {
                a.1
            } else {
                arguments
            },
        },
        _ => item,
    }
}

/// A snapshot call carrying item id `id`.
pub open spec fn call_with_id(id: Seq<char>) -> spec_fn(ItemV) -> bool {
    |it: ItemV| it is Call && it->Call_id == Some(id)
}

/// One streamed argument entry applied: to the streamed item of its output
/// index when there is one, otherwise to the first snapshot call with the
/// same non-empty item id.
pub open spec fn args_step(st: (Seq<(u64, ItemV)>, Seq<ItemV>), e: (u64, ArgsV)) -> (
    Seq<(u64, ItemV)>,
    Seq<ItemV>,
) {
    let (items, output) = st;
    match index_of(items, e.0) {
        Some(i) => (put(items, e.0, apply_args(items[i].1, e.1)), output),
        None => {
            let j = first_match(output, call_with_id(e.1.0));
            if e.1.0.len() > 0 && j < output.len() {
                (items, output.update(j, apply_args(output[j], e.1)))
            } else {
                (items, output)
            }
        },
    }
}

/// All streamed argument entries applied in key order.
pub open spec fn fold_args(st: (Seq<(u64, ItemV)>, Seq<ItemV>), a: Seq<(u64, ArgsV)>) -> (
    Seq<(u64, ItemV)>,
    Seq<ItemV>,
)
    decreases a.len(),
{
    if a.len() == 0 {
        st
    } else {
        args_step(fold_args(st, a.drop_last()), a.last())
    }
}

/// Output index of snapshot item `it` at position `p`: that of the first
/// streamed item it is the same as, else its position.
pub open spec fn snapshot_index(items: Seq<(u64, ItemV)>, it: ItemV, p: int) -> u64 {
    let e = first_match(items, |x: (u64, ItemV)| same_item_spec(it, x.1));
    if e < items.len() {
        items[e].0
    } else {
        p as u64
    }
}

/// The snapshot tagged with output indices.
pub open spec fn tagged(items: Seq<(u64, ItemV)>, output: Seq<ItemV>) -> Seq<(u64, bool, ItemV)> {
    Seq::new(output.len(), |p: int| (snapshot_index(items, output[p], p), true, output[p]))
}

/// One streamed item merged into the tagged output: completes the first
/// same item, or is appended unless it is a call lacking its call id or
/// name; hosted items are skipped.
pub open spec fn fallback_step(out: Seq<(u64, bool, ItemV)>, e: (u64, ItemV)) -> Seq<
    (u64, bool, ItemV),
> {
    let fb = e.1;
    if !(fb is Message || fb is Call) {
        out
    } else {
        let j = first_match(out, |x: (u64, bool, ItemV)| same_item_spec(x.2, fb));
        if j < out.len() {
            out.update(j, (out[j].0, out[j].1, fill_spec(out[j].2, fb)))
        } else if fb is Call && (fb->call_id.len() == 0 || fb->name.len() == 0) {
            out
        } else {
            out.push((e.0, false, fb))
        }
    }
}

/// All streamed items merged in key order.
pub open spec fn fold_fallback(out: Seq<(u64, bool, ItemV)>, items: Seq<(u64, ItemV)>) -> Seq<
    (u64, bool, ItemV),
>
    decreases items.len(),
{
    if items.len() == 0 {
        out
    } else {
        fallback_step(fold_fallback(out, items.drop_last()), items.last())
    }
}

/// `(index, snapshot)` of `a` is above that of `b` (streamed before snapshot).
pub open spec fn above(a: (u64, bool, ItemV), b: (u64, bool, ItemV)) -> bool {
    a.0 > b.0 || (a.0 == b.0 && a.1 && !b.1)
}

/// `e` inserted after every element not above it.
pub open spec fn insert_sorted(r: Seq<(u64, bool, ItemV)>, e: (u64, bool, ItemV)) -> Seq<
    (u64, bool, ItemV),
> {
    r.insert(first_match(r, |x: (u64, bool, ItemV)| above(x, e)), e)
}

/// Stable sort by `(index, snapshot)`.
pub open spec fn isort(s: Seq<(u64, bool, ItemV)>) -> Seq<(u64, bool, ItemV)>
    decreases s.len(),
{
    if s.len() == 0 {
        s
    } else {
        insert_sorted(isort(s.drop_last()), s.last())
    }
}

/// The reconciled output.
pub open spec fn reconcile_spec(o: OutV, output: Seq<ItemV>) -> Seq<ItemV> {
    let items1 = fold_text(o.items, o.text);
    let (items2, output2) = fold_args((items1, output), o.args);
    let out = fold_fallback(tagged(items2, output2), items2);
    isort(out).map_values(|e: (u64, bool, ItemV)| e.2)
}

/// Entry `i` of `s` carries output index `i` and comes from the snapshot.
pub open spec fn in_snapshot_order(s: Seq<(u64, bool, ItemV)>) -> bool {
    forall|i: int| 0 <= i < s.len() ==> (#[trigger] s[i]).0 == i && s[i].1
}

/// Sorting leaves snapshot entries that are already in index order as they
/// are.
proof fn lemma_isort_in_order(s: Seq<(u64, bool, ItemV)>)
    requires
        in_snapshot_order(s),
        s.len() <= u64::MAX + 1,
    ensures
        isort(s) == s,
    decreases s.len(),
{
    if s.len() > 0 {
        let r = s.drop_last();
        let e = s.last();
        assert(in_snapshot_order(r)) by {
            assert forall|i: int| 0 <= i < r.len() implies (#[trigger] r[i]).0 == i && r[i].1 by {
                assert(r[i] == s[i]);
            }
        }
        lemma_isort_in_order(r);
        let f = |x: (u64, bool, ItemV)| above(x, e);
        assert forall|j: int| 0 <= j < r.len() implies !f(r[j]) by {
            assert(r[j] == s[j]);
            assert(s[s.len() - 1].0 == s.len() - 1);
        }
        lemma_first_match_is(r, f, r.len() as int);
        assert(r.insert(r.len() as int, e) =~= s);
    }
}

/// A stream that showed nothing leaves the snapshot's output as it is.
pub proof fn lemma_empty_stream_keeps_snapshot(o: OutV, output: Seq<ItemV>)
    requires
        o.items.len() == 0,
        o.text.len() == 0,
        o.args.len() == 0,
        output.len() <= u64::MAX,
    ensures
        reconcile_spec(o, output) == output,
{
    let items1 = fold_text(o.items, o.text);
    assert(items1 == o.items);
    let (items2, output2) = fold_args((items1, output), o.args);
    assert(items2 == o.items && output2 == output);
    let t = tagged(items2, output2);
    assert forall|p: int| 0 <= p < t.len() implies (#[trigger] t[p]).0 == p && t[p].1 by {
        let f = |x: (u64, ItemV)| same_item_spec(output[p], x.1);
        assert(first_match(items2, f) == 0);
    }
    let out = fold_fallback(t, items2);
    assert(out == t);
    lemma_isort_in_order(t);
    assert(isort(t).map_values(|e: (u64, bool, ItemV)| e.2) =~= output);
}

/// No streamed item is a function call.
pub open spec fn no_streamed_calls(items: Seq<(u64, ItemV)>) -> bool {
    forall|i: int| 0 <= i < items.len() ==> !((#[trigger] items[i]).1 is Call)
}

/// No item is a function call.
pub open spec fn no_calls(items: Seq<ItemV>) -> bool {
    forall|i: int| 0 <= i < items.len() ==> !((#[trigger] items[i]) is Call)
}

/// No tagged entry is a function call.
pub open spec fn no_tagged_calls(out: Seq<(u64, bool, ItemV)>) -> bool {
    forall|i: int| 0 <= i < out.len() ==> !((#[trigger] out[i]).2 is Call)
}

/// The first match lies within the sequence or at its end.
proof fn lemma_first_match_range<A>(s: Seq<A>, f: spec_fn(A) -> bool)
    ensures
        0 <= first_match(s, f) <= s.len(),
    decreases s.len(),
{
    if s.len() > 0 && !f(s[0]) {
        lemma_first_match_range(s.drop_first(), f);
    }
}

/// Properties of the first match: nothing before it matches, and it
/// matches when it is within the sequence.
proof fn lemma_first_match_props<A>(s: Seq<A>, f: spec_fn(A) -> bool)
    ensures
        forall|j: int| 0 <= j < first_match(s, f) ==> !f(#[trigger] s[j]),
        first_match(s, f) < s.len() ==> f(s[first_match(s, f)]),
    decreases s.len(),
{
    if s.len() > 0 && !f(s[0]) {
        let t = s.drop_first();
        lemma_first_match_props(t, f);
        lemma_first_match_range(t, f);
        assert(first_match(s, f) == 1 + first_match(t, f));
        assert forall|j: int| 0 <= j < first_match(s, f) implies !f(#[trigger] s[j]) by {
            if j > 0 {
                assert(s[j] == t[j - 1]);
                assert(!f(t[j - 1]));
            }
        }
        if first_match(s, f) < s.len() {
            assert(s[first_match(s, f)] == t[first_match(t, f)]);
        }
    }
}

/// The insertion point of a key lies within the sequence or at its end.
proof fn lemma_first_at_least_range(s: Seq<(u64, ItemV)>, k: u64)
    ensures
        0 <= first_at_least(s, k) <= s.len(),
{
    if exists|i: int| 0 <= i < s.len() && s[i].0 >= k {
        let f = |x: (u64, ItemV)| x.0 >= k;
        lemma_first_match_range(s, f);
        lemma_first_match_props(s, f);
        let m = first_match(s, f);
        let w = choose|i: int| 0 <= i < s.len() && s[i].0 >= k;
        if m >= s.len() {
            assert(!f(s[w]));
        }
        assert(0 <= m < s.len() && s[m].0 >= k && forall|j: int| 0 <= j < m ==> s[j].0 < k) by {
            assert forall|j: int| 0 <= j < m implies s[j].0 < k by {
                assert(!f(s[j]));
            }
        }
    }
}

/// Putting a value that is not a call keeps a map free of calls.
proof fn lemma_put_no_calls(s: Seq<(u64, ItemV)>, k: u64, v: ItemV)
    requires
        no_streamed_calls(s),
        !(v is Call),
    ensures
        no_streamed_calls(put(s, k, v)),
{
    match index_of(s, k) {
        Some(i) => {
            assert forall|j: int| 0 <= j < put(s, k, v).len() implies !((#[trigger] put(s, k, v)[j]).1 is Call) by {
                if j != i {
                    assert(put(s, k, v)[j] == s[j]);
                }
            }
        },
        None => {
            let p = first_at_least(s, k);
            lemma_first_at_least_range(s, k);
            let t = s.insert(p, (k, v));
            assert forall|j: int| 0 <= j < t.len() implies !((#[trigger] t[j]).1 is Call) by {
                if j < p {
                    assert(t[j] == s[j]);
                } else if j > p {
                    assert(t[j] == s[j - 1]);
                }
            }
        },
    }
}

/// Streamed text never turns an item into a call.
proof fn lemma_fold_text_no_calls(items: Seq<(u64, ItemV)>, t: Seq<(u64, TextV)>)
    requires
        no_streamed_calls(items),
    ensures
        no_streamed_calls(fold_text(items, t)),
    decreases t.len(),
{
    if t.len() > 0 {
        lemma_fold_text_no_calls(items, t.drop_last());
        let m = fold_text(items, t.drop_last());
        let e = t.last();
        let oi = key_output(e.0);
        let base = match lookup(m, oi) {
            Some(it) => it,
            None => ItemV::Message { id: e.1.0, content: Seq::empty() },
        };
        if lookup(m, oi) is Some {
            let i = index_of(m, oi)->0;
            assert(!(m[i].1 is Call));
        }
        lemma_put_no_calls(m, oi, apply_text(base, key_content(e.0), e.1.1));
    }
}

/// Streamed arguments never turn an item of either side into a call.
proof fn lemma_fold_args_no_calls(st: (Seq<(u64, ItemV)>, Seq<ItemV>), a: Seq<(u64, ArgsV)>)
    requires
        no_streamed_calls(st.0),
        no_calls(st.1),
    ensures
        no_streamed_calls(fold_args(st, a).0),
        no_calls(fold_args(st, a).1),
        fold_args(st, a).1.len() == st.1.len(),
    decreases a.len(),
{
    if a.len() > 0 {
        lemma_fold_args_no_calls(st, a.drop_last());
        let (items, output) = fold_args(st, a.drop_last());
        let e = a.last();
        match index_of(items, e.0) {
            Some(i) => {
                assert(!(items[i].1 is Call));
                lemma_put_no_calls(items, e.0, apply_args(items[i].1, e.1));
            },
            None => {
                let j = first_match(output, call_with_id(e.1.0));
                if e.1.0.len() > 0 && j < output.len() {
                    lemma_first_match_range(output, call_with_id(e.1.0));
                    let u = output.update(j, apply_args(output[j], e.1));
                    assert forall|k: int| 0 <= k < u.len() implies !((#[trigger] u[k]) is Call) by {
                        if k != j {
                            assert(u[k] == output[k]);
                        } else {
                            assert(!(output[j] is Call));
                        }
                    }
                }
            },
        }
    }
}

/// Merging streamed items that are not calls into entries that are not
/// calls leaves none, and never drops an entry.
proof fn lemma_fold_fallback_no_calls(out: Seq<(u64, bool, ItemV)>, items: Seq<(u64, ItemV)>)
    requires
        no_tagged_calls(out),
        no_streamed_calls(items),
    ensures
        no_tagged_calls(fold_fallback(out, items)),
        fold_fallback(out, items).len() >= out.len(),
    decreases items.len(),
{
    if items.len() > 0 {
        let rest = items.drop_last();
        assert(no_streamed_calls(rest)) by {
            assert forall|i: int| 0 <= i < rest.len() implies !((#[trigger] rest[i]).1 is Call) by {
                assert(rest[i] == items[i]);
            }
        }
        lemma_fold_fallback_no_calls(out, rest);
        let o = fold_fallback(out, rest);
        let e = items.last();
        assert(!(e.1 is Call));
        let fb = e.1;
        if fb is Message || fb is Call {
            let f = |x: (u64, bool, ItemV)| same_item_spec(x.2, fb);
            let j = first_match(o, f);
            lemma_first_match_range(o, f);
            if j < o.len() {
                let u = o.update(j, (o[j].0, o[j].1, fill_spec(o[j].2, fb)));
                assert forall|k: int| 0 <= k < u.len() implies !((#[trigger] u[k]).2 is Call) by {
                    if k != j {
                        assert(u[k] == o[k]);
                    } else {
                        assert(!(o[j].2 is Call));
                    }
                }
            } else {
                let u = o.push((e.0, false, fb));
                assert forall|k: int| 0 <= k < u.len() implies !((#[trigger] u[k]).2 is Call) by {
                    if k < o.len() {
                        assert(u[k] == o[k]);
                    }
                }
            }
        }
    }
}

/// Sorting keeps the entries: the same number, none of them a call when
/// none was.
proof fn lemma_isort_keeps(s: Seq<(u64, bool, ItemV)>)
    ensures
        isort(s).len() == s.len(),
        no_tagged_calls(s) ==> no_tagged_calls(isort(s)),
    decreases s.len(),
{
    if s.len() > 0 {
        let r0 = s.drop_last();
        lemma_isort_keeps(r0);
        let r = isort(r0);
        let e = s.last();
        let f = |x: (u64, bool, ItemV)| above(x, e);
        let p = first_match(r, f);
        lemma_first_match_range(r, f);
        if no_tagged_calls(s) {
            assert(no_tagged_calls(r0)) by {
                assert forall|i: int| 0 <= i < r0.len() implies !((#[trigger] r0[i]).2 is Call) by {
                    assert(r0[i] == s[i]);
                }
            }
            let t = r.insert(p, e);
            assert forall|j: int| 0 <= j < t.len() implies !((#[trigger] t[j]).2 is Call) by {
                if j < p {
                    assert(t[j] == r[j]);
                } else if j > p {
                    assert(t[j] == r[j - 1]);
                }
            }
        }
    }
}

/// Streamed arguments never become an executable call of their own: when
/// neither the stream's items nor the snapshot hold a function call, the
/// reconciled output holds none, whatever arguments were streamed.
pub proof fn lemma_arguments_never_invent_calls(o: OutV, output: Seq<ItemV>)
    requires
        no_streamed_calls(o.items),
        no_calls(output),
    ensures
        no_calls(reconcile_spec(o, output)),
{
    lemma_fold_text_no_calls(o.items, o.text);
    let items1 = fold_text(o.items, o.text);
    lemma_fold_args_no_calls((items1, output), o.args);
    let (items2, output2) = fold_args((items1, output), o.args);
    let t = tagged(items2, output2);
    assert(no_tagged_calls(t));
    lemma_fold_fallback_no_calls(t, items2);
    let out = fold_fallback(t, items2);
    lemma_isort_keeps(out);
    let res = isort(out).map_values(|e: (u64, bool, ItemV)| e.2);
    assert forall|i: int| 0 <= i < res.len() implies !((#[trigger] res[i]) is Call) by {
        assert(res[i] == isort(out)[i].2);
    }
}

/// No snapshot item is dropped: the reconciled output has at least as many
/// items as the snapshot.
pub proof fn lemma_snapshot_items_kept(o: OutV, output: Seq<ItemV>)
    ensures
        reconcile_spec(o, output).len() >= output.len(),
{
    let items1 = fold_text(o.items, o.text);
    lemma_fold_args_len((items1, output), o.args);
    let (items2, output2) = fold_args((items1, output), o.args);
    let t = tagged(items2, output2);
    lemma_fold_fallback_len(t, items2);
    let out = fold_fallback(t, items2);
    lemma_isort_keeps(out);
}

/// Applying streamed arguments keeps the snapshot's length.
proof fn lemma_fold_args_len(st: (Seq<(u64, ItemV)>, Seq<ItemV>), a: Seq<(u64, ArgsV)>)
    ensures
        fold_args(st, a).1.len() == st.1.len(),
    decreases a.len(),
{
    if a.len() > 0 {
        lemma_fold_args_len(st, a.drop_last());
        let (items, output) = fold_args(st, a.drop_last());
        let e = a.last();
        if index_of(items, e.0) is None {
            let j = first_match(output, call_with_id(e.1.0));
            lemma_first_match_range(output, call_with_id(e.1.0));
        }
        assert(args_step((items, output), e).1.len() == output.len());
    }
}

/// Merging streamed items never drops an entry.
proof fn lemma_fold_fallback_len(out: Seq<(u64, bool, ItemV)>, items: Seq<(u64, ItemV)>)
    ensures
        fold_fallback(out, items).len() >= out.len(),
    decreases items.len(),
{
    if items.len() > 0 {
        lemma_fold_fallback_len(out, items.drop_last());
        let o = fold_fallback(out, items.drop_last());
        let fb = items.last().1;
        let f = |x: (u64, bool, ItemV)| same_item_spec(x.2, fb);
        lemma_first_match_range(o, f);
        assert(fallback_step(o, items.last()).len() >= o.len());
    }
}

// ── implementation ──────────────────────────────────────────────────────

/// Applies streamed text to part `ci` of a message.
fn applied_text(item: &OutputItem, ci: usize, text: &String) -> (r: OutputItem)
    requires
        ci < 0x1_0000_0000,
    ensures
        r.deep_view() == apply_text(item.deep_view(), ci as int, text@),
{
    match item {
        OutputItem::Message(m) => {
            let mut content = copy_content(&m.content);
            let ghost c0 = m.content.deep_view();
            while content.len() <= ci
                invariant
                    content.deep_view().len() >= c0.len(),
                    content.deep_view().subrange(0, c0.len() as int) == c0,
                    forall|j: int|
                        c0.len() <= j < content.deep_view().len() ==> content.deep_view()[j]
                            == ContentV::Text(Seq::empty()),
                    content@.len() <= ci + 1 || content@.len() == c0.len(),
                    ci < 0x1_0000_0000,
                decreases ci + 1 - content@.len(),
            {
                let ghost before = content@;
                let blank = MessageContent::OutputText(String::new());
                let ghost bv = blank;
                assert(bv.deep_view() == ContentV::Text(Seq::empty()));
                let ghost bd = content.deep_view();
                content.push(blank);
                assert(content@ == before.push(bv));
                assert(content.deep_view() =~= bd.push(ContentV::Text(Seq::empty())));
                assert(content.deep_view().subrange(0, c0.len() as int) =~= c0);
            }
            proof {
                assert(content.deep_view() =~= pad(c0, ci + 1));
            }
            let replace = match &content[ci] {
                MessageContent::OutputText(e) => str_is_empty(e) || str_starts_with(text, e),
                _ => false,
            };
            if replace {
                let ghost before = content@;
                content.set(ci, MessageContent::OutputText(clone_string(text)));
                assert(content.deep_view() =~= pad(c0, ci + 1).update(
                    ci as int,
                    ContentV::Text(text@),
                ));
            }
            OutputItem::Message(OutputMessage { id: clone_string(&m.id), content })
        },
        _ => item.copy(),
    }
}

/// Applies streamed arguments to a call.
fn applied_args(item: &OutputItem, a: &(String, String, Option<String>)) -> (r: OutputItem)
    ensures
        r.deep_view() == apply_args(item.deep_view(), a.deep_view()),
{
    match item {
        OutputItem::FunctionCall(c) => {
            let arguments = if str_is_empty(&c.arguments) || str_starts_with(&a.1, &c.arguments) {
                clone_string(&a.1)
            } else {
                clone_string(&c.arguments)
            };
            let name = if str_is_empty(&c.name) {
                match &a.2 {
                    Some(n) => clone_string(n),
                    None => String::new(),
                }
            } else {
                clone_string(&c.name)
            };
            let id = if c.id.is_none() && !str_is_empty(&a.0) {
                Some(clone_string(&a.0))
            } else {
                super::model::clone_opt(&c.id)
            };
            OutputItem::FunctionCall(
                FunctionCall { call_id: clone_string(&c.call_id), id, name, arguments },
            )
        },
        _ => item.copy(),
    }
}

/// Streamed text applied to the streamed items.
fn apply_all_text(items: &mut Vec<(u64, OutputItem)>, text: &Vec<(u64, (String, String))>)
    requires
        sorted(old(items).deep_view()),
    ensures
        sorted(final(items).deep_view()),
        final(items).deep_view() == fold_text(old(items).deep_view(), text.deep_view()),
{
    let ghost i0 = items.deep_view();
    let ghost t = text.deep_view();
    let mut i: usize = 0;
    while i < text.len()
        invariant
            i <= text@.len(),
            t == text.deep_view(),
            t.len() == text@.len(),
            sorted(items.deep_view()),
            items.deep_view() == fold_text(i0, t.subrange(0, i as int)),
        decreases text@.len() - i,
    {
        let k = text[i].0;
        let oi = k / 0x1_0000_0000;
        let ci = (k % 0x1_0000_0000) as usize;
        let e = &text[i].1;
        let next = match position(items, oi) {
            Some(p) => applied_text(&items[p].1, ci, &e.1),
            None => {
                let none: Vec<MessageContent> = Vec::new();
                assert(none.deep_view() =~= Seq::<ContentV>::empty());
                let base = OutputItem::Message(OutputMessage { id: clone_string(&e.0), content: none });
                applied_text(&base, ci, &e.1)
            },
        };
        proof {
            assert(t.subrange(0, i + 1).drop_last() =~= t.subrange(0, i as int));
            assert(t.subrange(0, i + 1).last() == t[i as int]);
            assert(t[i as int] == (k, e.deep_view()));
        }
        set_entry(items, oi, next);
        i += 1;
    }
    assert(t.subrange(0, t.len() as int) =~= t);
}

/// Position of the first snapshot call with item id `id`.
fn find_call(output: &Vec<OutputItem>, id: &String) -> (r: usize)
    ensures
        r == first_match(output.deep_view(), call_with_id(id@)),
        r <= output@.len(),
{
    let ghost d = output.deep_view();
    let mut j: usize = 0;
    while j < output.len()
        invariant
            j <= output@.len(),
            d == output.deep_view(),
            d.len() == output@.len(),
            forall|q: int| 0 <= q < j ==> !call_with_id(id@)(d[q]),
        decreases output@.len() - j,
    {
        let hit = match &output[j] {
            OutputItem::FunctionCall(c) => match &c.id {
                Some(x) => str_eq(x, id),
                None => false,
            },
            _ => false,
        };
        if hit {
            proof {
                lemma_first_match_is(d, call_with_id(id@), j as int);
            }
            return j;
        }
        j += 1;
    }
    proof {
        lemma_first_match_is(d, call_with_id(id@), j as int);
    }
    j
}

/// Streamed arguments applied to the streamed items and the snapshot.
fn apply_all_args(
    items: &mut Vec<(u64, OutputItem)>,
    output: &mut Vec<OutputItem>,
    args: &Vec<(u64, (String, String, Option<String>))>,
)
    requires
        sorted(old(items).deep_view()),
    ensures
        sorted(final(items).deep_view()),
        (final(items).deep_view(), final(output).deep_view()) == fold_args(
            (old(items).deep_view(), old(output).deep_view()),
            args.deep_view(),
        ),
{
    let ghost st0 = (items.deep_view(), output.deep_view());
    let ghost a = args.deep_view();
    let mut i: usize = 0;
    while i < args.len()
        invariant
            i <= args@.len(),
            a == args.deep_view(),
            a.len() == args@.len(),
            sorted(items.deep_view()),
            (items.deep_view(), output.deep_view()) == fold_args(st0, a.subrange(0, i as int)),
        decreases args@.len() - i,
    {
        let k = args[i].0;
        let e = &args[i].1;
        proof {
            assert(a.subrange(0, i + 1).drop_last() =~= a.subrange(0, i as int));
            assert(a.subrange(0, i + 1).last() == a[i as int]);
            assert(a[i as int] == (k, e.deep_view()));
        }
        match position(items, k) {
            Some(p) => {
                let next = applied_args(&items[p].1, e);
                set_entry(items, k, next);
            },
            None => {
                if !str_is_empty(&e.0) {
                    let j = find_call(output, &e.0);
                    if j < output.len() {
                        let next = applied_args(&output[j], e);
                        let ghost before = output.deep_view();
                        output.set(j, next);
                        assert(output.deep_view() =~= before.update(j as int, next.deep_view()));
                    }
                }
            },
        }
        i += 1;
    }
    assert(a.subrange(0, a.len() as int) =~= a);
}

/// Output index the stream gave a snapshot item.
fn snapshot_index_of(items: &Vec<(u64, OutputItem)>, it: &OutputItem, p: usize) -> (r: u64)
    ensures
        r == snapshot_index(items.deep_view(), it.deep_view(), p as int),
{
    let ghost d = items.deep_view();
    let ghost f = |x: (u64, ItemV)| same_item_spec(it.deep_view(), x.1);
    let mut e: usize = 0;
    while e < items.len()
        invariant
            e <= items@.len(),
            d == items.deep_view(),
            d.len() == items@.len(),
            f == (|x: (u64, ItemV)| same_item_spec(it.deep_view(), x.1)),
            forall|q: int| 0 <= q < e ==> !f(d[q]),
        decreases items@.len() - e,
    {
        if same_item(it, &items[e].1) {
            proof {
                lemma_first_match_is(d, f, e as int);
            }
            return items[e].0;
        }
        e += 1;
    }
    proof {
        lemma_first_match_is(d, f, e as int);
    }
    p as u64
}

/// The snapshot tagged with its output indices.
fn tag_snapshot(items: &Vec<(u64, OutputItem)>, output: &Vec<OutputItem>) -> (r: Vec<
    (u64, bool, OutputItem),
>)
    ensures
        r.deep_view() == tagged(items.deep_view(), output.deep_view()),
{
    let ghost want = tagged(items.deep_view(), output.deep_view());
    let mut r: Vec<(u64, bool, OutputItem)> = Vec::new();
    let mut p: usize = 0;
    while p < output.len()
        invariant
            p <= output@.len(),
            want == tagged(items.deep_view(), output.deep_view()),
            want.len() == output@.len(),
            r@.len() == p,
            r.deep_view() == want.subrange(0, p as int),
        decreases output@.len() - p,
    {
        let idx = snapshot_index_of(items, &output[p], p);
        let entry = (idx, true, output[p].copy());
        let ghost before = r.deep_view();
        r.push(entry);
        proof {
            assert(r.deep_view() =~= before.push(entry.deep_view()));
            assert(entry.deep_view() == want[p as int]);
        }
        p += 1;
        assert(r.deep_view() =~= want.subrange(0, p as int));
    }
    assert(want.subrange(0, want.len() as int) =~= want);
    r
}

/// Position of the first tagged entry that is the same item as `fb`.
fn find_same(out: &Vec<(u64, bool, OutputItem)>, fb: &OutputItem) -> (r: usize)
    ensures
        r == first_match(out.deep_view(), |x: (u64, bool, ItemV)| same_item_spec(x.2, fb.deep_view())),
        r <= out@.len(),
{
    let ghost d = out.deep_view();
    let ghost f = |x: (u64, bool, ItemV)| same_item_spec(x.2, fb.deep_view());
    let mut j: usize = 0;
    while j < out.len()
        invariant
            j <= out@.len(),
            d == out.deep_view(),
            d.len() == out@.len(),
            f == (|x: (u64, bool, ItemV)| same_item_spec(x.2, fb.deep_view())),
            forall|q: int| 0 <= q < j ==> !f(d[q]),
        decreases out@.len() - j,
    {
        if same_item(&out[j].2, fb) {
            proof {
                lemma_first_match_is(d, f, j as int);
            }
            return j;
        }
        j += 1;
    }
    proof {
        lemma_first_match_is(d, f, j as int);
    }
    j
}

/// Streamed items merged into the tagged snapshot.
fn merge_fallbacks(out: &mut Vec<(u64, bool, OutputItem)>, items: &Vec<(u64, OutputItem)>)
    ensures
        final(out).deep_view() == fold_fallback(old(out).deep_view(), items.deep_view()),
{
    let ghost o0 = out.deep_view();
    let ghost d = items.deep_view();
    let mut i: usize = 0;
    while i < items.len()
        invariant
            i <= items@.len(),
            d == items.deep_view(),
            d.len() == items@.len(),
            out.deep_view() == fold_fallback(o0, d.subrange(0, i as int)),
        decreases items@.len() - i,
    {
        proof {
            assert(d.subrange(0, i + 1).drop_last() =~= d.subrange(0, i as int));
            assert(d.subrange(0, i + 1).last() == d[i as int]);
        }
        let k = items[i].0;
        let fb = &items[i].1;
        let relevant = match fb {
            OutputItem::Message(_) => true,
            OutputItem::FunctionCall(_) => true,
            _ => false,
        };
        if relevant {
            let j = find_same(out, fb);
            if j < out.len() {
                let merged = filled(&out[j].2, fb);
                let entry = (out[j].0, out[j].1, merged);
                let ghost before = out.deep_view();
                out.set(j, entry);
                assert(out.deep_view() =~= before.update(j as int, entry.deep_view()));
            } else {
                let incomplete = match fb {
                    OutputItem::FunctionCall(c) => str_is_empty(&c.call_id) || str_is_empty(&c.name),
                    _ => false,
                };
                if !incomplete {
                    let entry = (k, false, fb.copy());
                    let ghost before = out.deep_view();
                    out.push(entry);
                    assert(out.deep_view() =~= before.push(entry.deep_view()));
                }
            }
        }
        i += 1;
    }
    assert(d.subrange(0, d.len() as int) =~= d);
}

/// Whether `a` sorts after `b`.
fn is_above(a: &(u64, bool, OutputItem), b: &(u64, bool, OutputItem)) -> (r: bool)
    ensures
        r == above(a.deep_view(), b.deep_view()),
{
    a.0 > b.0 || (a.0 == b.0 && a.1 && !b.1)
}

/// A deep copy of a tagged entry.
fn copy_entry(e: &(u64, bool, OutputItem)) -> (r: (u64, bool, OutputItem))
    ensures
        r.deep_view() == e.deep_view(),
{
    (e.0, e.1, e.2.copy())
}

/// Position after every entry that does not sort after `e`.
fn insert_position(r: &Vec<(u64, bool, OutputItem)>, e: &(u64, bool, OutputItem)) -> (q: usize)
    ensures
        q == first_match(r.deep_view(), |x: (u64, bool, ItemV)| above(x, e.deep_view())),
        q <= r@.len(),
{
    let ghost rd = r.deep_view();
    let ghost f = |x: (u64, bool, ItemV)| above(x, e.deep_view());
    let mut q: usize = 0;
    while q < r.len()
        invariant
            q <= r@.len(),
            rd == r.deep_view(),
            rd.len() == r@.len(),
            f == (|x: (u64, bool, ItemV)| above(x, e.deep_view())),
            forall|z: int| 0 <= z < q ==> !f(rd[z]),
        decreases r@.len() - q,
    {
        if is_above(&r[q], e) {
            proof {
                lemma_first_match_is(rd, f, q as int);
            }
            return q;
        }
        q += 1;
    }
    proof {
        lemma_first_match_is(rd, f, q as int);
    }
    q
}

/// Stable insertion sort by `(index, snapshot)`.
fn sort_entries(out: &Vec<(u64, bool, OutputItem)>) -> (r: Vec<(u64, bool, OutputItem)>)
    ensures
        r.deep_view() == isort(out.deep_view()),
{
    let ghost d = out.deep_view();
    let mut r: Vec<(u64, bool, OutputItem)> = Vec::new();
    assert(r.deep_view() =~= isort(d.subrange(0, 0)));
    let mut i: usize = 0;
    while i < out.len()
        invariant
            i <= out@.len(),
            d == out.deep_view(),
            d.len() == out@.len(),
            r.deep_view() == isort(d.subrange(0, i as int)),
        decreases out@.len() - i,
    {
        let e = &out[i];
        let ghost rd = r.deep_view();
        let q = insert_position(&r, e);
        proof {
            assert(d.subrange(0, i + 1).drop_last() =~= d.subrange(0, i as int));
            assert(d.subrange(0, i + 1).last() == d[i as int]);
        }
        let c = copy_entry(e);
        r.insert(q, c);
        assert(r.deep_view() =~= rd.insert(q as int, c.deep_view()));
        i += 1;
    }
    assert(d.subrange(0, d.len() as int) =~= d);
    r
}

impl StreamedOutput {
    /// Completes `response.output` from what the stream showed; see
    /// [`reconcile_spec`].
    pub fn reconcile(self, response: &mut Response)
        requires
            wf(self@),
        ensures
            final(response).output.deep_view() == reconcile_spec(
                self@,
                old(response).output.deep_view(),
            ),
            final(response).status == old(response).status,
            final(response).output_tokens == old(response).output_tokens,
            final(response).incomplete_reason == old(response).incomplete_reason,
            final(response).error == old(response).error,
    {
        let ghost o = self@;
        let StreamedOutput { mut items, text, arguments } = self;
        apply_all_text(&mut items, &text);
        let mut snapshot: Vec<OutputItem> = Vec::new();
        std::mem::swap(&mut snapshot, &mut response.output);
        apply_all_args(&mut items, &mut snapshot, &arguments);
        let mut out = tag_snapshot(&items, &snapshot);
        merge_fallbacks(&mut out, &items);
        let sorted_out = sort_entries(&out);
        let ghost sd = sorted_out.deep_view();
        let mut result: Vec<OutputItem> = Vec::new();
        let mut i: usize = 0;
        while i < sorted_out.len()
            invariant
                i <= sorted_out@.len(),
                sd == sorted_out.deep_view(),
                sd.len() == sorted_out@.len(),
                result.deep_view() == sd.subrange(0, i as int).map_values(
                    |e: (u64, bool, ItemV)| e.2,
                ),
            decreases sorted_out@.len() - i,
        {
            let it = sorted_out[i].2.copy();
            let ghost before = result.deep_view();
            result.push(it);
            assert(result.deep_view() =~= before.push(it.deep_view()));
            i += 1;
            assert(result.deep_view() =~= sd.subrange(0, i as int).map_values(
                |e: (u64, bool, ItemV)| e.2,
            ));
        }
        assert(sd.subrange(0, sd.len() as int) =~= sd);
        response.output = result;
    }
}

} // verus!
