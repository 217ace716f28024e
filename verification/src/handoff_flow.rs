//! The `/handoff` round trip: the pager's requests and replies, the shell's
//! checks around the model call, and the `/purge` report.

use vstd::prelude::*;
use crate::handoff::{clean_handoff_text, clean_spec, seed_prompt, seed_prompt_spec};
use crate::text::{chars_of, dec, dec_chars, extend, extend_str, owned, string_of, trim, trim_str};

verus! {

/// What the pager does on `/handoff <task>`.
pub enum DispatchHandoff {
    /// Show a toast and do nothing else.
    Toast(String),
    /// Show a toast on the session and do nothing else.
    AgentToast(String),
    /// Clear the prompt, show a running entry with this text, and ask the
    /// shell for the note.
    Start { entry_text: String },
}

/// Decision for `/handoff`: only inside a session that exists, has been
/// created, and has no handoff generating yet.
pub fn dispatch_handoff(
    in_agent_view: bool,
    agent_exists: bool,
    has_session_id: bool,
    already_loading: bool,
    task: &str,
) -> (r: DispatchHandoff)
    ensures
        !in_agent_view ==> (r matches DispatchHandoff::Toast(m) && m@
            == "/handoff only works inside a session"@),
        in_agent_view && agent_exists && !has_session_id ==> (r matches DispatchHandoff::Toast(m)
            && m@ == "Cannot hand off: session is still being created"@),
        in_agent_view && agent_exists && has_session_id && already_loading ==> (
        r matches DispatchHandoff::AgentToast(m) && m@ == "Handoff already in progress"@),
        in_agent_view && agent_exists && has_session_id && !already_loading ==> (
        r matches DispatchHandoff::Start { entry_text } && entry_text@
            == "Generating handoff note \u{2014} "@ + task@),
        in_agent_view && !agent_exists ==> (r matches DispatchHandoff::Toast(m) && m@.len() == 0),
{
    if !in_agent_view {
        return DispatchHandoff::Toast(owned("/handoff only works inside a session"));
    }
    if !agent_exists {
        return DispatchHandoff::Toast(String::new());
    }
    if !has_session_id {
        return DispatchHandoff::Toast(owned("Cannot hand off: session is still being created"));
    }
    if already_loading {
        return DispatchHandoff::AgentToast(owned("Handoff already in progress"));
    }
    let mut t = chars_of("Generating handoff note \u{2014} ");
    extend_str(&mut t, task);
    DispatchHandoff::Start { entry_text: string_of(t.as_slice()) }
}

/// The seed prompt and the parent's closing entry for a ready note.
pub struct HandoffReady {
    pub seed: String,
    pub parent_entry: String,
}

/// Texts for a note that came back: the new session's first prompt and
/// `Handed off: <task>` on the parent.
pub fn handoff_ready_texts(note: &str, task: &str) -> (r: HandoffReady)
    ensures
        r.seed@ == seed_prompt_spec(note@, task@),
        r.parent_entry@ == "Handed off: "@ + task@,
{
    let seed = seed_prompt(note, task);
    let mut e = chars_of("Handed off: ");
    extend_str(&mut e, task);
    HandoffReady { seed, parent_entry: string_of(e.as_slice()) }
}

/// What `/handoff` needs of the session that asked for the note.
pub struct HandoffParent {
    pub cwd: String,
    pub chat_kind: bool,
}

/// What to do when a handoff note is ready.
pub enum HandoffReadyPlan {
    /// The parent session is gone: toast `Handoff parent session is gone`,
    /// create nothing, leave the agent ids as they are.
    ParentGone,
    /// Create the new session `agent_id` in the parent's working directory,
    /// advance the next agent id to `next_agent_id`, queue `seed` as its
    /// first prompt, switch the view to it, close the parent's pending entry
    /// with `parent_entry`, and ask the shell to create the session with
    /// `cwd` and `chat_kind`.
    Create {
        agent_id: u64,
        next_agent_id: u64,
        cwd: String,
        chat_kind: bool,
        seed: String,
        parent_entry: String,
    },
}

/// The decisions for a ready handoff note: with the parent still there, a
/// new peer session takes the next agent id, the parent's working
/// directory and chat kind (or chat mode), and the note and task as its
/// seed prompt; without it, nothing is created.
pub fn handle_handoff_ready(
    parent: Option<HandoffParent>,
    next_agent_id: u64,
    chat_mode: bool,
    note: &str,
    task: &str,
) -> (r: HandoffReadyPlan)
    requires
        next_agent_id < u64::MAX,
    ensures
        parent is None ==> r is ParentGone,
        parent matches Some(p) ==> (r matches HandoffReadyPlan::Create {
            agent_id,
            next_agent_id: n,
            cwd,
            chat_kind,
            seed,
            parent_entry,
        } && agent_id == next_agent_id && n == next_agent_id + 1 && cwd@ == p.cwd@ && chat_kind == (
        p.chat_kind || chat_mode) && seed@ == seed_prompt_spec(note@, task@) && parent_entry@
            == "Handed off: "@ + task@),
{
    match parent {
        None => HandoffReadyPlan::ParentGone,
        Some(p) => {
            let ready = handoff_ready_texts(note, task);
            HandoffReadyPlan::Create {
                agent_id: next_agent_id,
                next_agent_id: next_agent_id + 1,
                cwd: p.cwd,
                chat_kind: p.chat_kind || chat_mode,
                seed: ready.seed,
                parent_entry: ready.parent_entry,
            }
        },
    }
}

/// Text of a failed handoff, for the toast and the closing entry.
pub fn handle_handoff_failed(error: &str) -> (r: String)
    ensures
        r@ == "Handoff failed: "@ + error@,
{
    let mut e = chars_of("Handoff failed: ");
    extend_str(&mut e, error);
    string_of(e.as_slice())
}

/// What happens to the running entry when the handoff ends.
#[derive(Clone, Copy, PartialEq, Eq, Structural, Debug)]
pub enum PendingEntryAction {
    /// The entry was committed: remove it and push a new system block.
    ReplaceCommitted,
    /// Fill the entry in place and stop its animation.
    FillInPlace,
    /// No live entry: push a new system block.
    Push,
}

/// How the pending entry is resolved: by whether it is still in the
/// scrollback and, if so, whether it was committed.
pub fn resolve_pending_handoff_entry(entry_live: bool, committed: bool) -> (r: PendingEntryAction)
    ensures
        r == (if !entry_live {
            PendingEntryAction::Push
        } else if committed {
            PendingEntryAction::ReplaceCommitted
        } else {
            PendingEntryAction::FillInPlace
        }),
{
    if !entry_live {
        PendingEntryAction::Push
    } else if committed {
        PendingEntryAction::ReplaceCommitted
    } else {
        PendingEntryAction::FillInPlace
    }
}

/// The shell's reply to the pager, as the pager reads it.
pub enum HandoffReply {
    Ready { note: String },
    Failed { error: String },
}

/// The pager's reading of a successful reply: a note that is empty after
/// trimming is a failure.
pub fn spawn_handoff_reply(note: Option<String>) -> (r: HandoffReply)
    ensures
        ({
            let n = match note {
                Some(s) => s@,
                None => Seq::empty(),
            };
            if trim(n).len() == 0 {
                r matches HandoffReply::Failed { error } && error@ == "empty handoff note"@
            } else {
                r matches HandoffReply::Ready { note: got } && got@ == n
            }
        }),
{
    let n = match note {
        Some(s) => s,
        None => String::new(),
    };
    if trim_str(n.as_str()).len() == 0 {
        HandoffReply::Failed { error: owned("empty handoff note") }
    } else {
        HandoffReply::Ready { note: n }
    }
}

/// The task of a handoff request, trimmed; an empty task is refused.
pub fn handoff_task(task: &str) -> (r: Result<String, String>)
    ensures
        trim(task@).len() == 0 ==> (r matches Err(m) && m@ == "handoff requires a task"@),
        trim(task@).len() > 0 ==> (r matches Ok(t) && t@ == trim(task@)),
{
    let t = trim_str(task);
    if t.len() == 0 {
        Err(owned("handoff requires a task"))
    } else {
        Ok(string_of(t.as_slice()))
    }
}

/// A conversation to hand off must not be empty.
pub fn require_conversation(items: usize) -> (r: Result<(), String>)
    ensures
        items == 0 ==> (r matches Err(m) && m@ == "no conversation to hand off"@),
        items > 0 ==> r is Ok,
{
    if items == 0 {
        Err(owned("no conversation to hand off"))
    } else {
        Ok(())
    }
}

/// The note from the model's reply: a blank reply, or one that cleans to
/// nothing, is an error.
pub fn handoff_note(content: &str) -> (r: Result<String, String>)
    ensures
        trim(content@).len() == 0 ==> (r matches Err(m) && m@ == "No handoff note from model"@),
        trim(content@).len() > 0 && clean_spec(content@).len() == 0 ==> (r matches Err(m) && m@
            == "Handoff note was empty after cleanup"@),
        trim(content@).len() > 0 && clean_spec(content@).len() > 0 ==> (r matches Ok(n) && n@
            == clean_spec(content@)),
{
    if trim_str(content).len() == 0 {
        return Err(owned("No handoff note from model"));
    }
    let note = clean_handoff_text(content);
    if note.as_str().is_empty() {
        return Err(owned("Handoff note was empty after cleanup"));
    }
    Ok(note)
}

/// Result of purging all history and logs: best-effort tallies and the
/// failures that did not stop the rest.
pub struct PurgeReport {
    pub sessions_removed: usize,
    pub remote_removed: usize,
    pub sessions_dir_entries_cleared: usize,
    pub logs_dir_entries_cleared: usize,
    pub errors: Vec<String>,
}

/// Views of a list of strings.
pub open spec fn strs(v: Seq<String>) -> Seq<Seq<char>> {
    v.map_values(|s: String| s@)
}

impl PurgeReport {
    /// Nothing done yet.
    pub fn new() -> (r: Self)
        ensures
            r.sessions_removed == 0,
            r.remote_removed == 0,
            r.sessions_dir_entries_cleared == 0,
            r.logs_dir_entries_cleared == 0,
            r.errors@.len() == 0,
    {
        PurgeReport {
            sessions_removed: 0,
            remote_removed: 0,
            sessions_dir_entries_cleared: 0,
            logs_dir_entries_cleared: 0,
            errors: Vec::new(),
        }
    }

    /// Records one session's deletion: the copies removed, or the failure as
    /// `session <id>: <error>`.
    pub fn record_session(&mut self, session_id: &str, result: Result<(bool, bool), String>)
        requires
            old(self).sessions_removed < usize::MAX,
            old(self).remote_removed < usize::MAX,
        ensures
            match result {
                Ok((local, remote)) => {
                    &&& final(self).sessions_removed == old(self).sessions_removed + (if local {
                        1int
                    } else {
                        0
                    })
                    &&& final(self).remote_removed == old(self).remote_removed + (if remote {
                        1int
                    } else {
                        0
                    })
                    &&& final(self).errors == old(self).errors
                },
                Err(e) => {
                    &&& final(self).sessions_removed == old(self).sessions_removed
                    &&& final(self).remote_removed == old(self).remote_removed
                    &&& strs(final(self).errors@) == strs(old(self).errors@).push(
                        "session "@ + session_id@ + ": "@ + e@,
                    )
                },
            },
            final(self).sessions_dir_entries_cleared == old(self).sessions_dir_entries_cleared,
            final(self).logs_dir_entries_cleared == old(self).logs_dir_entries_cleared,
    {
        match result {
            Ok((local, remote)) => {
                if local {
                    self.sessions_removed = self.sessions_removed + 1;
                }
                if remote {
                    self.remote_removed = self.remote_removed + 1;
                }
            },
            Err(e) => {
                let mut m = chars_of("session ");
                extend_str(&mut m, session_id);
                extend_str(&mut m, ": ");
                extend_str(&mut m, e.as_str());
                let s = string_of(m.as_slice());
                let ghost before = strs(self.errors@);
                self.errors.push(s);
                assert(strs(self.errors@) =~= before.push(s@));
            },
        }
    }

    /// Records a failure to list the sessions.
    pub fn record_list_failure(&mut self, error: &str)
        ensures
            strs(final(self).errors@) == strs(old(self).errors@).push("list sessions: "@ + error@),
            final(self).sessions_removed == old(self).sessions_removed,
            final(self).remote_removed == old(self).remote_removed,
            final(self).sessions_dir_entries_cleared == old(self).sessions_dir_entries_cleared,
            final(self).logs_dir_entries_cleared == old(self).logs_dir_entries_cleared,
    {
        let mut m = chars_of("list sessions: ");
        extend_str(&mut m, error);
        let s = string_of(m.as_slice());
        let ghost before = strs(self.errors@);
        self.errors.push(s);
        assert(strs(self.errors@) =~= before.push(s@));
    }

    /// Records the sweep of `sessions/`: the entries cleared, or the
    /// failure as `clear sessions/: <error>`.
    pub fn record_sessions_sweep(&mut self, result: Result<usize, String>)
        ensures
            match result {
                Ok(n) => final(self).sessions_dir_entries_cleared == n && final(self).errors
                    == old(self).errors,
                Err(e) => final(self).sessions_dir_entries_cleared
                    == old(self).sessions_dir_entries_cleared && strs(final(self).errors@)
                    == strs(old(self).errors@).push("clear sessions/: "@ + e@),
            },
            final(self).sessions_removed == old(self).sessions_removed,
            final(self).remote_removed == old(self).remote_removed,
            final(self).logs_dir_entries_cleared == old(self).logs_dir_entries_cleared,
    {
        match result {
            Ok(n) => {
                self.sessions_dir_entries_cleared = n;
            },
            Err(e) => {
                let mut m = chars_of("clear sessions/: ");
                extend_str(&mut m, e.as_str());
                let s = string_of(m.as_slice());
                let ghost before = strs(self.errors@);
                self.errors.push(s);
                assert(strs(self.errors@) =~= before.push(s@));
            },
        }
    }

    /// Records the sweep of `logs/`: the entries cleared, or the failure as
    /// `clear logs/: <error>`.
    pub fn record_logs_sweep(&mut self, result: Result<usize, String>)
        ensures
            match result {
                Ok(n) => final(self).logs_dir_entries_cleared == n && final(self).errors
                    == old(self).errors,
                Err(e) => final(self).logs_dir_entries_cleared == old(self).logs_dir_entries_cleared
                    && strs(final(self).errors@) == strs(old(self).errors@).push(
                    "clear logs/: "@ + e@,
                ),
            },
            final(self).sessions_removed == old(self).sessions_removed,
            final(self).remote_removed == old(self).remote_removed,
            final(self).sessions_dir_entries_cleared == old(self).sessions_dir_entries_cleared,
    {
        match result {
            Ok(n) => {
                self.logs_dir_entries_cleared = n;
            },
            Err(e) => {
                let mut m = chars_of("clear logs/: ");
                extend_str(&mut m, e.as_str());
                let s = string_of(m.as_slice());
                let ghost before = strs(self.errors@);
                self.errors.push(s);
                assert(strs(self.errors@) =~= before.push(s@));
            },
        }
    }
}

/// The pager's summary of a purge: sessions removed and log entries
/// cleared, with the number of warnings when there were any.
pub open spec fn purge_summary_spec(sessions: u64, logs: u64, errors: nat) -> Seq<char> {
    let base = "Purged "@ + dec(sessions as nat) + " session(s); cleared logs ("@ + dec(logs as nat)
        + " entries)"@;
    if errors == 0 {
        base
    } else {
        base + "; "@ + dec(errors) + " warning(s)"@
    }
}

/// Summary shown after `/purge`.
pub fn purge_summary(sessions: u64, logs: u64, errors: usize) -> (r: String)
    ensures
        r@ == purge_summary_spec(sessions, logs, errors as nat),
{
    let mut m = chars_of("Purged ");
    extend(&mut m, dec_chars(sessions).as_slice());
    extend_str(&mut m, " session(s); cleared logs (");
    extend(&mut m, dec_chars(logs).as_slice());
    extend_str(&mut m, " entries)");
    if errors > 0 {
        extend_str(&mut m, "; ");
        extend(&mut m, dec_chars(errors as u64).as_slice());
        extend_str(&mut m, " warning(s)");
    }
    string_of(m.as_slice())
}

/// The outcome of a `/purge` request from the agent's reply: its `error`
/// (a string, or the error value rendered) fails it; otherwise the summary
/// of the sessions removed, the log entries cleared and the warnings, each
/// absent field counting as zero.
pub fn purge_reply(error: Option<String>, sessions: Option<u64>, logs: Option<u64>, warnings: Option<usize>) -> (r:
    Result<String, String>)
    ensures
        match error {
            Some(e) => r matches Err(m) && m@ == e@,
            None => r matches Ok(s) && s@ == purge_summary_spec(
                match sessions {
                    Some(n) => n,
                    None => 0,
                },
                match logs {
                    Some(n) => n,
                    None => 0,
                },
                match warnings {
                    Some(n) => n as nat,
                    None => 0,
                },
            ),
        },
{
    match error {
        Some(e) => Err(e),
        None => {
            let s = match sessions {
                Some(n) => n,
                None => 0,
            };
            let l = match logs {
                Some(n) => n,
                None => 0,
            };
            let w = match warnings {
                Some(n) => n,
                None => 0,
            };
            Ok(purge_summary(s, l, w))
        },
    }
}

} // verus!
