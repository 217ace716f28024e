use grok_build::handoff_flow::{handoff_ready_texts, HandoffParent, HandoffReadyPlan};
use grok_build::handoff_flow::{dispatch_handoff, handle_handoff_failed, handle_handoff_ready, handoff_note, handoff_task, require_conversation, resolve_pending_handoff_entry, spawn_handoff_reply, DispatchHandoff, HandoffReply, PendingEntryAction};
use grok_build::handoff_flow::purge_reply;
use grok_build::handoff::{handoff_fits_budget, handoff_snapshot_budget};
use grok_build::stubs::external::{CredentialSnapshot, IdentityAttrs};
use grok_build::credit::format_reset_remaining;
use grok_build::handoff::{
    build_handoff_items, clean_handoff_text, handoff_instruction, seed_prompt, TurnKind,
};
use grok_build::slash::{CommandResult, HandoffCommand, PurgeCommand, SlashAction};

#[test]
fn instruction_embeds_task_and_relevance_rules() {
    let text = handoff_instruction("system-reminder", "implement /handoff");
    assert!(text.contains("implement /handoff"));
    assert!(text.contains("only") || text.contains("ONLY"));
    assert!(text.to_lowercase().contains("relevant"));
    assert!(text.contains("Do **not** call tools") || text.contains("Do not call tools"));
}

#[test]
fn clean_strips_summary_tags_and_labels() {
    let cleaned = clean_handoff_text(
        "Handoff:\n<summary>\n### Goal and stop point\nShip handoff\n</summary>\n",
    );
    assert!(cleaned.contains("Ship handoff"));
    assert!(!cleaned.contains("<summary>"));
    assert!(!cleaned.starts_with("Handoff:"));
}

#[test]
fn seed_prompt_separates_note_and_task() {
    let seed = seed_prompt("paths and decisions", "finish the feature");
    assert!(seed.contains("# Handoff context"));
    assert!(seed.contains("paths and decisions"));
    assert!(seed.contains("## Task"));
    assert!(seed.contains("finish the feature"));
}

#[test]
fn metadata_matches_design() {
    let cmd = HandoffCommand;
    assert_eq!(cmd.name(), "handoff");
    assert!(cmd.takes_args());
    assert!(cmd.args_required());
    assert!(cmd.session_scoped());
    assert_eq!(cmd.arg_placeholder(), Some("<task>"));
}

#[test]
fn format_reset_remaining_units() {
    assert_eq!(format_reset_remaining(4 * 86_400 + 5 * 3_600), "4d5h");
    assert_eq!(format_reset_remaining(4 * 86_400), "4d");
    assert_eq!(format_reset_remaining(5 * 3_600 + 12 * 60), "5h12m");
    assert_eq!(format_reset_remaining(3_600), "1h");
    assert_eq!(format_reset_remaining(45 * 60), "45m");
    assert_eq!(format_reset_remaining(30), "<1m");
    assert_eq!(format_reset_remaining(0), "<1m");
}

#[test]
fn run_requires_task() {
    match HandoffCommand.run("  ") {
        CommandResult::Error(msg) => assert!(msg.contains("Usage"), "got: {msg}"),
        _ => panic!("expected Error"),
    }
}

#[test]
fn run_with_task_returns_action() {
    match HandoffCommand.run("implement the rest") {
        CommandResult::Action(SlashAction::Handoff { task }) => {
            assert_eq!(task, "implement the rest");
        }
        _ => panic!("expected Action(Handoff)"),
    }
}

#[test]
fn bare_purge_dispatches_immediately() {
    let result = PurgeCommand.run("");
    assert!(
        matches!(result, CommandResult::Action(SlashAction::PurgeAndQuit)),
        "bare /purge must purge and quit"
    );
}

#[test]
fn args_are_ignored() {
    let result = PurgeCommand.run("confirm");
    assert!(
        matches!(result, CommandResult::Action(SlashAction::PurgeAndQuit)),
        "args must not block purge"
    );
}

#[test]
fn build_handoff_items_appends_instruction() {
    let items = build_handoff_items(
        vec!["hello".to_string(), "hi".to_string()],
        &vec![TurnKind::Other, TurnKind::Other],
        handoff_instruction("system-reminder", "do the thing"),
    );
    assert_eq!(items.len(), 3);
    let last = items.last().unwrap();
    assert!(last.contains("do the thing"));
}

#[test]
fn handoff_budget_keeps_whole_prefix_only_when_it_fits() {
    // 200k window: 85% is 170,000, less 4,000 headroom, less the instruction.
    let budget = handoff_snapshot_budget(200_000, 1_000);
    assert_eq!(budget, 165_000);
    assert!(handoff_fits_budget(165_000, 200_000, 1_000));
    assert!(!handoff_fits_budget(165_001, 200_000, 1_000));
    assert!(!handoff_fits_budget(1, 1_000, 0));
}

#[test]
fn identity_attrs_take_ids_but_never_email() {
    let snap = CredentialSnapshot {
        user_id: Some("u".into()),
        organization_id: Some("o".into()),
        team_id: None,
        deployment_id: Some("d".into()),
    };
    let attrs = IdentityAttrs::from_snapshot(&snap);
    assert_eq!(attrs.user_id.as_deref(), Some("u"));
    assert_eq!(attrs.email, None);
    assert_eq!(attrs.organization_id.as_deref(), Some("o"));
    assert_eq!(attrs.team_id, None);
    assert_eq!(attrs.deployment_id.as_deref(), Some("d"));
}

#[test]
fn purge_reply_reports_error_or_summary() {
    assert_eq!(purge_reply(Some("disk full".into()), Some(3), None, None), Err("disk full".to_owned()));
    assert_eq!(
        purge_reply(None, Some(3), Some(7), None),
        Ok("Purged 3 session(s); cleared logs (7 entries)".to_owned())
    );
    assert_eq!(
        purge_reply(None, None, None, Some(2)),
        Ok("Purged 0 session(s); cleared logs (0 entries); 2 warning(s)".to_owned())
    );
}

#[test]
fn handoff_flow_decisions() {
    use_handoff_flow();
}

fn use_handoff_flow() {
    assert!(matches!(
        dispatch_handoff(false, true, true, false, "t"),
        DispatchHandoff::Toast(m) if m == "/handoff only works inside a session"
    ));
    assert!(matches!(
        dispatch_handoff(true, true, false, false, "t"),
        DispatchHandoff::Toast(m) if m == "Cannot hand off: session is still being created"
    ));
    assert!(matches!(
        dispatch_handoff(true, true, true, true, "t"),
        DispatchHandoff::AgentToast(m) if m == "Handoff already in progress"
    ));
    assert!(matches!(
        dispatch_handoff(true, true, true, false, "fix tests"),
        DispatchHandoff::Start { entry_text } if entry_text == "Generating handoff note \u{2014} fix tests"
    ));
    let ready = handoff_ready_texts("note", "task");
    assert_eq!(ready.parent_entry, "Handed off: task");
    assert_eq!(handle_handoff_failed("boom"), "Handoff failed: boom");
    assert_eq!(resolve_pending_handoff_entry(false, true), PendingEntryAction::Push);
    assert_eq!(resolve_pending_handoff_entry(true, true), PendingEntryAction::ReplaceCommitted);
    assert_eq!(resolve_pending_handoff_entry(true, false), PendingEntryAction::FillInPlace);
    assert!(matches!(spawn_handoff_reply(Some("  ".into())), HandoffReply::Failed { error } if error == "empty handoff note"));
    assert!(matches!(spawn_handoff_reply(Some(" n ".into())), HandoffReply::Ready { note } if note == " n "));
    assert_eq!(handoff_task("  do it  "), Ok("do it".to_owned()));
    assert_eq!(handoff_task(" "), Err("handoff requires a task".to_owned()));
    assert_eq!(require_conversation(0), Err("no conversation to hand off".to_owned()));
    assert_eq!(require_conversation(3), Ok(()));
    assert_eq!(handoff_note("   "), Err("No handoff note from model".to_owned()));
}

#[test]
fn handoff_ready_creates_peer_session_in_parent_cwd() {
    let plan = handle_handoff_ready(
        Some(HandoffParent { cwd: "/work/repo".into(), chat_kind: false }),
        7,
        true,
        "  note body \n",
        " fix it ",
    );
    match plan {
        HandoffReadyPlan::Create { agent_id, next_agent_id, cwd, chat_kind, seed, parent_entry } => {
            assert_eq!((agent_id, next_agent_id), (7, 8));
            assert_eq!(cwd, "/work/repo");
            assert!(chat_kind);
            assert_eq!(seed, "# Handoff context\n\nnote body\n\n---\n\n## Task\nfix it");
            assert_eq!(parent_entry, "Handed off:  fix it ");
        }
        HandoffReadyPlan::ParentGone => panic!("parent is present"),
    }
    assert!(matches!(handle_handoff_ready(None, 7, false, "n", "t"), HandoffReadyPlan::ParentGone));
}
