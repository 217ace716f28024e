//! Session handoff: a task-scoped context note for a new empty session.
//!
//! Unlike compaction, a handoff never mutates the parent conversation; the
//! note seeds the child session's first prompt. The product rule: keep only
//! details relevant to the caller's task.

use vstd::prelude::*;
use crate::text::{chars_of, contains, extend, extend_str, find_from, occurs_at, starts_with, starts_with_exec, string_of, trim, trim_chars, trim_end, trim_end_chars, trim_start, trim_start_chars, trim_str};

verus! {

/// Hard cap on the note's length, in characters.
pub const HANDOFF_MAX_CHARS: usize = 12000;

/// Cap on the context window used for handoff budgeting.
pub const HANDOFF_CONTEXT_WINDOW_CAP: u64 = 500000;

/// Share of the window, in percent, a handoff request may occupy.
pub const HANDOFF_BUDGET_THRESHOLD_PERCENT: u64 = 85;

/// Estimator slack that keeps the request under the real limit.
pub const HANDOFF_BUDGET_HEADROOM_TOKENS: u64 = 4000;

/// Text of the instruction before the task.
pub open spec fn instruction_head() -> Seq<char> {
    ">You are writing a handoff note for another AI agent that will continue in a \
**new empty session** with NO access to this chat history.

## Task for the next agent
"@
}

/// Text of the instruction after the task.
pub open spec fn instruction_tail() -> Seq<char> {
    "

## Rules (strict)
- Retain **only** details that are relevant to the task above.
- Omit unrelated work, dead ends, abandoned approaches, and broad history.
- Use only concrete facts from this conversation. Do not invent missing details.
- Prefer specifics: file paths, symbols, commands, errors, outputs, decisions, \
constraints that are non-negotiable for the task.
- Include line numbers only when known from this conversation.
- If a critical detail for the task is unknown, say so briefly and give the \
smallest verification step.
- Do not write a plan unless one already exists and is still needed for the task.
- Do **not** restate the task section in the note body.
- Do **not** call tools. Respond with plain markdown only.

## Output format (markdown only)
Use these headings when content exists; omit empty sections entirely:

### Goal and stop point
### Relevant files and symbols
### Completed work (task-relevant evidence only)
### Open work / unknowns
### Constraints and decisions
### Safest next action

Be tight and token-efficient. Prefer short bullets over prose dumps.</"@
}

/// The instruction turn that steers the model to a task-scoped handoff,
/// wrapped in `<tag>`.
pub open spec fn handoff_instruction_spec(tag: Seq<char>, task: Seq<char>) -> Seq<char> {
    "<"@ + tag + instruction_head() + trim(task) + instruction_tail() + tag + ">"@
}

/// Build the instruction turn that steers the model to a task-scoped
/// handoff: only details needed for `task` are retained.
pub fn handoff_instruction(tag: &str, task: &str) -> (r: String)
    ensures
        r@ == handoff_instruction_spec(tag@, task@),
{
    let mut r: Vec<char> = Vec::new();
    extend_str(&mut r, "<");
    extend_str(&mut r, tag);
    extend_str(
        &mut r,
        ">You are writing a handoff note for another AI agent that will continue in a \
**new empty session** with NO access to this chat history.

## Task for the next agent
",
    );
    let t = trim_str(task);
    extend(&mut r, t.as_slice());
    extend_str(
        &mut r,
        "

## Rules (strict)
- Retain **only** details that are relevant to the task above.
- Omit unrelated work, dead ends, abandoned approaches, and broad history.
- Use only concrete facts from this conversation. Do not invent missing details.
- Prefer specifics: file paths, symbols, commands, errors, outputs, decisions, \
constraints that are non-negotiable for the task.
- Include line numbers only when known from this conversation.
- If a critical detail for the task is unknown, say so briefly and give the \
smallest verification step.
- Do not write a plan unless one already exists and is still needed for the task.
- Do **not** restate the task section in the note body.
- Do **not** call tools. Respond with plain markdown only.

## Output format (markdown only)
Use these headings when content exists; omit empty sections entirely:

### Goal and stop point
### Relevant files and symbols
### Completed work (task-relevant evidence only)
### Open work / unknowns
### Constraints and decisions
### Safest next action

Be tight and token-efficient. Prefer short bullets over prose dumps.</",
    );
    extend_str(&mut r, tag);
    extend_str(&mut r, ">");
    string_of(r.as_slice())
}

/// The first user prompt of the new session: the note, a rule, the task.
pub open spec fn seed_prompt_spec(note: Seq<char>, task: Seq<char>) -> Seq<char> {
    "# Handoff context\n\n"@ + trim(note) + "\n\n---\n\n## Task\n"@ + trim(task)
}

/// Compose the first user prompt for the new session.
pub fn seed_prompt(note: &str, task: &str) -> (r: String)
    ensures
        r@ == seed_prompt_spec(note@, task@),
{
    let mut r: Vec<char> = Vec::new();
    extend_str(&mut r, "# Handoff context\n\n");
    let n = trim_str(note);
    extend(&mut r, n.as_slice());
    extend_str(&mut r, "\n\n---\n\n## Task\n");
    let t = trim_str(task);
    extend(&mut r, t.as_slice());
    string_of(r.as_slice())
}

/// First position of `p` in `s`.
pub open spec fn find_spec(s: Seq<char>, p: Seq<char>) -> Option<int> {
    if contains(s, p) {
        Some(choose|i: int| occurs_at(s, p, i) && forall|j: int| 0 <= j < i ==> !occurs_at(s, p, j))
    } else {
        None
    }
}

/// The first occurrence found by a left-to-right search is the one
/// [`find_spec`] names.
proof fn lemma_find(s: Seq<char>, p: Seq<char>, i: int)
    requires
        occurs_at(s, p, i),
        forall|j: int| 0 <= j < i ==> !occurs_at(s, p, j),
    ensures
        find_spec(s, p) == Some(i),
{
    let k = choose|k: int| occurs_at(s, p, k) && forall|j: int| 0 <= j < k ==> !occurs_at(s, p, j);
    assert(occurs_at(s, p, k));
    if k < i {
        assert(!occurs_at(s, p, k));
    } else if i < k {
        assert(!occurs_at(s, p, i));
    }
}

/// `<summary>`.
pub open spec fn open_tag() -> Seq<char> {
    seq!['<', 's', 'u', 'm', 'm', 'a', 'r', 'y', '>']
}

/// `</summary>`.
pub open spec fn close_tag() -> Seq<char> {
    seq!['<', '/', 's', 'u', 'm', 'm', 'a', 'r', 'y', '>']
}

/// The content between the first `<summary>` and the first `</summary>`,
/// trimmed, when the closing tag comes after the opening one.
pub open spec fn unwrap_summary(t: Seq<char>) -> Seq<char> {
    match (find_spec(t, open_tag()), find_spec(t, close_tag())) {
        (Some(a), Some(b)) => if b > a {
            trim(t.subrange(a + 9, b))
        } else {
            t
        },
        _ => t,
    }
}

/// Labels a model may put before the note, tried in order.
pub open spec fn labels() -> Seq<Seq<char>> {
    seq!["Handoff note:"@, "Handoff:"@, "Hand-off:"@, "Summary:"@, "Context:"@]
}

/// `u` without the first of `labels` it starts with, from label `k` on.
pub open spec fn strip_label_from(u: Seq<char>, k: int) -> Seq<char>
    decreases 5 - k,
{
    if k >= 5 || k < 0 {
        u
    } else if starts_with(u, labels()[k]) {
        trim_start(u.subrange(labels()[k].len() as int, u.len() as int))
    } else {
        strip_label_from(u, k + 1)
    }
}

/// UTF-8 width of a character.
pub open spec fn utf8_len(c: char) -> int {
    if (c as u32) < 0x80 {
        1
    } else if (c as u32) < 0x800 {
        2
    } else if (c as u32) < 0x10000 {
        3
    } else {
        4
    }
}

/// The longest prefix of `s` whose UTF-8 encoding fits in `n` bytes.
pub open spec fn take_bytes(s: Seq<char>, n: int) -> Seq<char>
    decreases s.len(),
{
    if s.len() == 0 || utf8_len(s[0]) > n {
        Seq::empty()
    } else {
        seq![s[0]] + take_bytes(s.drop_first(), n - utf8_len(s[0]))
    }
}

/// The handoff note cleaned from the model's output: trimmed, unwrapped
/// from a `<summary>` block, stripped of a leading label, and, past the
/// character cap, cut to the cap's byte length, trimmed and ended with `…`.
pub open spec fn clean_spec(raw: Seq<char>) -> Seq<char> {
    let v = strip_label_from(unwrap_summary(trim(raw)), 0);
    if v.len() > 12000 {
        trim_end(take_bytes(v, 12000)).push('\u{2026}')
    } else {
        v
    }
}

/// Prefix of `s` fitting in `n` bytes.
fn take_bytes_chars(s: &[char], n: usize) -> (r: Vec<char>)
    ensures
        r@ == take_bytes(s@, n as int),
{
    let mut r: Vec<char> = Vec::new();
    let mut i: usize = 0;
    let mut left: usize = n;
    assert(s@.subrange(0, s@.len() as int) =~= s@);
    while i < s.len()
        invariant
            i <= s@.len(),
            left <= n,
            take_bytes(s@, n as int) == r@ + take_bytes(s@.subrange(i as int, s@.len() as int), left as int),
        decreases s@.len() - i,
    {
        let c = s[i];
        let w: usize = if (c as u32) < 0x80 {
            1
        } else if (c as u32) < 0x800 {
            2
        } else if (c as u32) < 0x10000 {
            3
        } else {
            4
        };
        let ghost rest = s@.subrange(i as int, s@.len() as int);
        assert(rest[0] == c);
        if w > left {
            assert(take_bytes(rest, left as int) =~= Seq::<char>::empty());
            assert(r@ + Seq::<char>::empty() =~= r@);
            return r;
        }
        assert(rest.drop_first() =~= s@.subrange(i + 1, s@.len() as int));
        r.push(c);
        left = left - w;
        i += 1;
        assert(take_bytes(s@, n as int) =~= r@ + take_bytes(
            s@.subrange(i as int, s@.len() as int),
            left as int,
        ));
    }
    assert(take_bytes(s@.subrange(i as int, s@.len() as int), left as int) =~= Seq::<char>::empty());
    assert(r@ + Seq::<char>::empty() =~= r@);
    r
}

/// The content of a `<summary>` block, if any.
fn unwrap_summary_chars(t: &[char]) -> (r: Vec<char>)
    ensures
        r@ == unwrap_summary(t@),
{
    let open: [char; 9] = ['<', 's', 'u', 'm', 'm', 'a', 'r', 'y', '>'];
    let close: [char; 10] = ['<', '/', 's', 'u', 'm', 'm', 'a', 'r', 'y', '>'];
    assert(open@ =~= open_tag());
    assert(close@ =~= close_tag());
    let a = find_from(t, open.as_slice(), 0);
    let b = find_from(t, close.as_slice(), 0);
    match (a, b) {
        (Some(a), Some(b)) => {
            proof {
                lemma_find(t@, open_tag(), a as int);
                lemma_find(t@, close_tag(), b as int);
            }
            if b > a {
                proof {
                    if b < a + 9 {
                        assert(t@.subrange(b as int, b + 10)[0] == '<');
                        assert(t@.subrange(a as int, a + 9)[b - a] == open_tag()[b - a]);
                        assert(t@[b as int] == '<');
                    }
                }
                let inner = crate::text::slice_range(t, a + 9, b);
                trim_chars(inner.as_slice())
            } else {
                crate::text::slice_range(t, 0, t.len())
            }
        },
        _ => {
            proof {
                if contains(t@, open_tag()) {
                    let i = choose|i: int| occurs_at(t@, open_tag(), i);
                    assert(occurs_at(t@, open_tag(), i));
                }
                if contains(t@, close_tag()) {
                    let i = choose|i: int| occurs_at(t@, close_tag(), i);
                    assert(occurs_at(t@, close_tag(), i));
                }
            }
            assert(t@.subrange(0, t@.len() as int) =~= t@);
            crate::text::slice_range(t, 0, t.len())
        },
    }
}

/// `u` without a leading label.
fn strip_label(u: &[char]) -> (r: Vec<char>)
    ensures
        r@ == strip_label_from(u@, 0),
{
    let l0 = chars_of("Handoff note:");
    let l1 = chars_of("Handoff:");
    let l2 = chars_of("Hand-off:");
    let l3 = chars_of("Summary:");
    let l4 = chars_of("Context:");
    let mut ls: Vec<Vec<char>> = Vec::new();
    ls.push(l0);
    ls.push(l1);
    ls.push(l2);
    ls.push(l3);
    ls.push(l4);
    assert(crate::paths::views(ls@) =~= labels());
    let mut k: usize = 0;
    while k < 5
        invariant
            k <= 5,
            ls@.len() == 5,
            crate::paths::views(ls@) == labels(),
            strip_label_from(u@, 0) == strip_label_from(u@, k as int),
        decreases 5 - k,
    {
        let l = &ls[k];
        assert(l@ == labels()[k as int]);
        if starts_with_exec(u, l.as_slice()) {
            let rest = crate::text::slice_range(u, l.len(), u.len());
            return trim_start_chars(rest.as_slice());
        }
        k += 1;
    }
    assert(u@.subrange(0, u@.len() as int) =~= u@);
    crate::text::slice_range(u, 0, u.len())
}

/// Clean model output into a handoff note suitable for seeding a new
/// session.
pub fn clean_handoff_text(raw: &str) -> (r: String)
    ensures
        r@ == clean_spec(raw@),
{
    let t = trim_str(raw);
    let u = unwrap_summary_chars(t.as_slice());
    let v = strip_label(u.as_slice());
    if v.len() > HANDOFF_MAX_CHARS {
        let cut = take_bytes_chars(v.as_slice(), HANDOFF_MAX_CHARS);
        let mut w = trim_end_chars(cut.as_slice());
        w.push('\u{2026}');
        string_of(w.as_slice())
    } else {
        string_of(v.as_slice())
    }
}

/// The share of the context window a handoff request may use: the window
/// capped, the threshold share of it, less the headroom (saturating).
pub open spec fn prompt_budget_spec(context_window: u64) -> int {
    let w = if context_window < HANDOFF_CONTEXT_WINDOW_CAP {
        context_window as int
    } else {
        HANDOFF_CONTEXT_WINDOW_CAP as int
    };
    let b = w * 85 / 100;
    if b > 4000 {
        b - 4000
    } else {
        0
    }
}

/// Token budget for the conversation snapshot of a handoff request: the
/// prompt budget less the instruction's tokens (saturating).
pub fn handoff_snapshot_budget(context_window: u64, instruction_tokens: u64) -> (r: u64)
    ensures
        r == 0 || r + instruction_tokens <= 421000,
        r == (if prompt_budget_spec(context_window) > instruction_tokens {
            prompt_budget_spec(context_window) - instruction_tokens
        } else {
            0
        }),
{
    let w = if context_window < HANDOFF_CONTEXT_WINDOW_CAP {
        context_window
    } else {
        HANDOFF_CONTEXT_WINDOW_CAP
    };
    let prompt_budget = (w * HANDOFF_BUDGET_THRESHOLD_PERCENT / 100).saturating_sub(
        HANDOFF_BUDGET_HEADROOM_TOKENS,
    );
    prompt_budget.saturating_sub(instruction_tokens)
}

/// Whether a conversation of `conversation_tokens` fits the snapshot
/// budget whole, so the handoff keeps the full prefix; otherwise it is
/// stripped of reasoning and front-trimmed to that budget.
pub fn handoff_fits_budget(conversation_tokens: u64, context_window: u64, instruction_tokens: u64) -> (r:
    bool)
    ensures
        r == (conversation_tokens <= (if prompt_budget_spec(context_window) > instruction_tokens {
            prompt_budget_spec(context_window) - instruction_tokens
        } else {
            0
        })),
{
    conversation_tokens <= handoff_snapshot_budget(context_window, instruction_tokens)
}

/// Kind of a conversation item, as far as the end of a tool run matters.
#[derive(Clone, Copy, PartialEq, Eq, Structural, Debug)]
pub enum TurnKind {
    /// An assistant turn that calls tools.
    AssistantWithToolCalls,
    ToolResult,
    Other,
}

/// Length of the conversation once a trailing run of tool calls and tool
/// results is dropped, so the summarization call does not end mid-run.
pub open spec fn without_tool_run(kinds: Seq<TurnKind>) -> int
    decreases kinds.len(),
{
    if kinds.len() > 0 && kinds.last() != TurnKind::Other {
        without_tool_run(kinds.drop_last())
    } else {
        kinds.len() as int
    }
}

/// How many items to keep after dropping the trailing tool run.
pub fn pop_trailing_tool_run(kinds: &Vec<TurnKind>) -> (n: usize)
    ensures
        n == without_tool_run(kinds@),
{
    let mut n = kinds.len();
    assert(kinds@.subrange(0, kinds@.len() as int) =~= kinds@);
    while n > 0 && kinds[n - 1] != TurnKind::Other
        invariant
            n <= kinds@.len(),
            without_tool_run(kinds@) == without_tool_run(kinds@.subrange(0, n as int)),
        decreases n,
    {
        assert(kinds@.subrange(0, n as int).drop_last() =~= kinds@.subrange(0, n - 1));
        n -= 1;
    }
    n
}

/// The items of a handoff request: the conversation without its trailing
/// tool run, then the instruction turn. `kinds` classifies each item.
pub fn build_handoff_items<T>(conversation: Vec<T>, kinds: &Vec<TurnKind>, instruction: T) -> (r: Vec<T>)
    requires
        kinds@.len() == conversation@.len(),
    ensures
        r@ == conversation@.subrange(0, without_tool_run(kinds@)).push(instruction),
{
    let n = pop_trailing_tool_run(kinds);
    proof {
        lemma_without_tool_run_bounds(kinds@);
    }
    let mut items = conversation;
    items.truncate(n);
    items.push(instruction);
    items
}

/// The kept length never exceeds the conversation.
proof fn lemma_without_tool_run_bounds(kinds: Seq<TurnKind>)
    ensures
        0 <= without_tool_run(kinds) <= kinds.len(),
    decreases kinds.len(),
{
    if kinds.len() > 0 && kinds.last() != TurnKind::Other {
        lemma_without_tool_run_bounds(kinds.drop_last());
    }
}

/// The window counts only up to the cap: every window of at least the cap
/// gets the budget of the cap itself, 85% of 500,000 less the 4,000-token
/// headroom; no window gets more; and a larger window never gets less.
pub proof fn lemma_budget_window_capped(w: u64, v: u64)
    ensures
        w >= HANDOFF_CONTEXT_WINDOW_CAP ==> prompt_budget_spec(w) == prompt_budget_spec(
            HANDOFF_CONTEXT_WINDOW_CAP,
        ),
        prompt_budget_spec(HANDOFF_CONTEXT_WINDOW_CAP) == 421000,
        prompt_budget_spec(w) <= 421000,
        w <= v ==> prompt_budget_spec(w) <= prompt_budget_spec(v),
{
    if w <= v {
        let a: int = if w < HANDOFF_CONTEXT_WINDOW_CAP { w as int } else { HANDOFF_CONTEXT_WINDOW_CAP as int };
        let b: int = if v < HANDOFF_CONTEXT_WINDOW_CAP { v as int } else { HANDOFF_CONTEXT_WINDOW_CAP as int };
        assert(a <= b);
        assert(a * 85 / 100 <= b * 85 / 100) by (nonlinear_arith)
            requires
                0 <= a <= b,
        ;
    }
    let c: int = if w < HANDOFF_CONTEXT_WINDOW_CAP { w as int } else { HANDOFF_CONTEXT_WINDOW_CAP as int };
    assert(c * 85 / 100 <= 425000) by (nonlinear_arith)
        requires
            0 <= c <= 500000,
    ;
}

} // verus!
