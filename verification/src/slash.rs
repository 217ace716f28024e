//! Slash commands of the pager whose decisions are local: `/handoff`,
//! `/purge` and `/chatgpt-login`.

use vstd::prelude::*;
use crate::text::{chars_eq, chars_of, owned, string_of, trim, trim_str};

verus! {

/// What a slash command asks the app to do.
pub enum SlashAction {
    /// Hand task-relevant context off to a new session.
    Handoff { task: String },
    /// Delete all session history and logs, then exit.
    PurgeAndQuit,
}

/// Result of running a slash command.
pub enum CommandResult {
    Error(String),
    Message(String),
    Action(SlashAction),
}

/// `/handoff <task>` slash command.
pub struct HandoffCommand;

/// Usage line of `/handoff`.
pub open spec fn handoff_usage() -> Seq<char> {
    "/handoff <task for the new session>"@
}

impl HandoffCommand {
    pub fn name(&self) -> (r: &'static str)
        ensures
            r@ == "handoff"@,
    {
        "handoff"
    }

    pub fn description(&self) -> (r: &'static str)
        ensures
            r@ == "Hand off task-relevant context to a new session"@,
    {
        "Hand off task-relevant context to a new session"
    }

    pub fn session_scoped(&self) -> (r: bool)
        ensures
            r,
    {
        true
    }

    pub fn usage(&self) -> (r: &'static str)
        ensures
            r@ == handoff_usage(),
    {
        "/handoff <task for the new session>"
    }

    pub fn takes_args(&self) -> (r: bool)
        ensures
            r,
    {
        true
    }

    pub fn args_required(&self) -> (r: bool)
        ensures
            r,
    {
        true
    }

    pub fn arg_placeholder(&self) -> (r: Option<&'static str>)
        ensures
            r is Some && r->0@ == "<task>"@,
    {
        Some("<task>")
    }

    /// An empty task is a usage error; otherwise the trimmed task is handed
    /// off.
    pub fn run(&self, args: &str) -> (r: CommandResult)
        ensures
            trim(args@).len() == 0 ==> (match r {
                CommandResult::Error(m) => m@ == "Usage: "@ + handoff_usage(),
                _ => false,
            }),
            trim(args@).len() > 0 ==> (match r {
                CommandResult::Action(SlashAction::Handoff { task }) => task@ == trim(args@),
                _ => false,
            }),
    {
        let task = trim_str(args);
        if task.len() == 0 {
            let mut m = chars_of("Usage: ");
            crate::text::extend_str(&mut m, "/handoff <task for the new session>");
            return CommandResult::Error(string_of(m.as_slice()));
        }
        CommandResult::Action(SlashAction::Handoff { task: string_of(task.as_slice()) })
    }
}

/// `/purge` slash command.
pub struct PurgeCommand;

impl PurgeCommand {
    pub fn name(&self) -> (r: &'static str)
        ensures
            r@ == "purge"@,
    {
        "purge"
    }

    pub fn description(&self) -> (r: &'static str)
        ensures
            r@ == "Delete all session history and logs, then exit"@,
    {
        "Delete all session history and logs, then exit"
    }

    pub fn usage(&self) -> (r: &'static str)
        ensures
            r@ == "/purge"@,
    {
        "/purge"
    }

    /// Always purges and quits; arguments are ignored.
    pub fn run(&self, args: &str) -> (r: CommandResult)
        ensures
            r matches CommandResult::Action(SlashAction::PurgeAndQuit),
    {
        CommandResult::Action(SlashAction::PurgeAndQuit)
    }
}

/// `/chatgpt-login` slash command: the login cannot run inside the TUI, so
/// it explains how to run it in a terminal.
pub struct ChatgptLoginCommand;

/// Message for `/chatgpt-login --device`.
pub open spec fn device_login_message() -> Seq<char> {
    "ChatGPT device login cannot run inside the TUI (it prints a code and waits).\n\
In a terminal, run:\n  grok chatgpt-login --device\n\
Then switch with `/model gpt-5.6-sol` or `/model gpt-6-astra`."@
}

/// Message for `/chatgpt-login`.
pub open spec fn browser_login_message() -> Seq<char> {
    "ChatGPT login binds localhost:1455 and cannot run inside the TUI.\n\
In a terminal, run:\n  grok chatgpt-login\n\
Headless: grok chatgpt-login --device\n\
Then switch with `/model gpt-5.6-sol` or `/model gpt-6-astra`.\n\
If port 1455 is busy (OpenCode or Codex CLI), use --device."@
}

impl ChatgptLoginCommand {
    pub fn name(&self) -> (r: &'static str)
        ensures
            r@ == "chatgpt-login"@,
    {
        "chatgpt-login"
    }

    pub fn description(&self) -> (r: &'static str)
        ensures
            r@ == "Sign in with ChatGPT Plus/Pro (Codex backend)"@,
    {
        "Sign in with ChatGPT Plus/Pro (Codex backend)"
    }

    pub fn usage(&self) -> (r: &'static str)
        ensures
            r@ == "/chatgpt-login"@,
    {
        "/chatgpt-login"
    }

    /// The device-flow hint for `--device`, the browser-flow hint otherwise.
    pub fn run(&self, args: &str) -> (r: CommandResult)
        ensures
            (match r {
                CommandResult::Message(m) => m@ == if trim(args@) == "--device"@ {
                    device_login_message()
                } else {
                    browser_login_message()
                },
                _ => false,
            }),
    {
        let a = trim_str(args);
        let d = chars_of("--device");
        if chars_eq(a.as_slice(), d.as_slice()) {
            CommandResult::Message(
                owned(
                    "ChatGPT device login cannot run inside the TUI (it prints a code and waits).\n\
In a terminal, run:\n  grok chatgpt-login --device\n\
Then switch with `/model gpt-5.6-sol` or `/model gpt-6-astra`.",
                ),
            )
        } else {
            CommandResult::Message(
                owned(
                    "ChatGPT login binds localhost:1455 and cannot run inside the TUI.\n\
In a terminal, run:\n  grok chatgpt-login\n\
Headless: grok chatgpt-login --device\n\
Then switch with `/model gpt-5.6-sol` or `/model gpt-6-astra`.\n\
If port 1455 is busy (OpenCode or Codex CLI), use --device.",
                ),
            )
        }
    }
}

} // verus!
