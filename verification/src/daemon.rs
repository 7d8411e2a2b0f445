//! Stopping the local daemon.
//!
//! The daemon is asked to shut down gracefully, once the person at the terminal agrees. With force
//! nobody is asked, and a daemon that does not exit on its own is ended.
//!
//! Whoever runs the dialogue performs one action after another and hands back what came of it.
use vstd::prelude::*;
use vstd::string::StringExecFns;

use crate::text::{concat, decimal_text, same_text, to_ascii_lower, trim};

verus! {

/// Whether an answer says yes: `y` or `yes`, in any letter case, with white space around it or
/// without.
pub open spec fn confirms(response: Seq<char>) -> bool {
    let word = crate::text::ascii_lowered(crate::text::trimmed(response));
    word == "y"@ || word == "yes"@
}

/// Whether an answer says yes.
pub fn is_confirmation_response(response: &str) -> (yes: bool)
    ensures
        yes == confirms(response@),
{
    let word = to_ascii_lower(&trim(response));
    same_text(word.as_str(), "y") || same_text(word.as_str(), "yes")
}

/// What comes of an action.
#[derive(Debug, PartialEq, Eq)]
pub enum KillEvent {
    /// The command was given.
    Given,
    /// The daemon runs, or does not.
    Status { running: bool },
    /// Somebody sits at the terminal, or nobody does.
    Terminal { interactive: bool },
    /// The answer to the question.
    Response { text: String },
    /// The daemon was told to stop; `pid` is that of the daemon that stopped, if one still ran.
    Stopped { pid: Option<u32> },
}

/// What is to be done next.
#[derive(Debug, Clone, Copy, PartialEq, Eq, Structural)]
pub enum KillAction {
    /// Find out whether the daemon runs.
    QueryStatus,
    /// Find out whether somebody sits at the terminal.
    CheckTerminal,
    /// Ask whether to stop the daemon, and read the answer.
    Ask,
    /// Ask the daemon to shut down gracefully.
    Stop,
    /// Ask the daemon to shut down gracefully, and end its process if it does not exit on its own.
    ForceStop,
    /// Fail, as nobody can be asked.
    Refuse,
    /// Say what happened, and be done.
    Report(KillReport),
}

/// How the command ends.
#[derive(Debug, Clone, Copy, PartialEq, Eq, Structural)]
pub enum KillReport {
    NotRunning,
    Aborted,
    Stopped { pid: u32 },
}

impl KillReport {
    /// The report in words.
    pub open spec fn spec_text(&self) -> Seq<char> {
        match self {
            KillReport::NotRunning => "Open Interpreter daemon is not running."@,
            KillReport::Aborted => "Aborted."@,
            KillReport::Stopped { pid } => "Stopped Open Interpreter daemon (pid "@
                + crate::text::decimal(*pid as nat) + ")."@,
        }
    }

    /// The report in words.
    pub fn text(&self) -> (text: String)
        ensures
            text@ == self.spec_text(),
    {
        match self {
            KillReport::NotRunning => "Open Interpreter daemon is not running.".to_owned(),
            KillReport::Aborted => "Aborted.".to_owned(),
            KillReport::Stopped { pid } => {
                let number = decimal_text(*pid as usize);
                let mut out = concat("Stopped Open Interpreter daemon (pid ", number.as_str());
                out.append(").");
                out
            },
        }
    }
}

/// The question that is asked before the daemon is stopped.
pub fn stop_question() -> (text: String)
    ensures
        text@
            == "This will stop the Open Interpreter daemon and disconnect any running sessions. Continue? [y/N] "@,
{
    "This will stop the Open Interpreter daemon and disconnect any running sessions. Continue? [y/N] ".to_owned()
}

/// What is to be done once `event` has come.
pub open spec fn next_action(force: bool, event: KillEvent) -> KillAction {
    match event {
        KillEvent::Given => KillAction::QueryStatus,
        KillEvent::Status { running } => if !running {
            KillAction::Report(KillReport::NotRunning)
        } else if force {
            KillAction::ForceStop
        } else {
            KillAction::CheckTerminal
        },
        KillEvent::Terminal { interactive } => if interactive {
            KillAction::Ask
        } else {
            KillAction::Refuse
        },
        KillEvent::Response { text } => if confirms(text@) {
            KillAction::Stop
        } else {
            KillAction::Report(KillReport::Aborted)
        },
        KillEvent::Stopped { pid } => match pid {
            Some(pid) => KillAction::Report(KillReport::Stopped { pid }),
            None => KillAction::Report(KillReport::NotRunning),
        },
    }
}

/// What is to be done once `event` has come.
pub fn kill_daemon(force: bool, event: &KillEvent) -> (action: KillAction)
    ensures
        action == next_action(force, *event),
{
    match event {
        KillEvent::Given => KillAction::QueryStatus,
        KillEvent::Status { running } => if !*running {
            KillAction::Report(KillReport::NotRunning)
        } else if force {
            KillAction::ForceStop
        } else {
            KillAction::CheckTerminal
        },
        KillEvent::Terminal { interactive } => if *interactive {
            KillAction::Ask
        } else {
            KillAction::Refuse
        },
        KillEvent::Response { text } => if is_confirmation_response(text.as_str()) {
            KillAction::Stop
        } else {
            KillAction::Report(KillReport::Aborted)
        },
        KillEvent::Stopped { pid } => match pid {
            Some(pid) => KillAction::Report(KillReport::Stopped { pid: *pid }),
            None => KillAction::Report(KillReport::NotRunning),
        },
    }
}

/// What is to be done by force once the daemon was asked to shut down gracefully.
#[allow(inconsistent_fields)]
#[derive(Debug, Clone, Copy, PartialEq, Eq, Structural)]
pub enum ForcedStop {
    /// End the process.
    End { pid: u32 },
    /// Nothing more: the daemon stopped; `pid` is that of the daemon that stopped, if one still ran.
    Stopped { pid: Option<u32> },
    /// Fail for the reason that the request failed for.
    Failed,
}

/// What is to be done by force. `graceful` is what came of the request to shut down, `remaining` the
/// process of the daemon that runs after the request, and `earlier` that of the daemon that ran before
/// it. A daemon that still runs is ended; so is the one that ran before where the request failed.
pub open spec fn forced_stop(
    graceful: Result<Option<u32>, ()>,
    remaining: Option<u32>,
    earlier: Option<u32>,
) -> ForcedStop {
    match (graceful, remaining, earlier) {
        (_, Some(pid), _) => ForcedStop::End { pid },
        (Err(_), None, Some(pid)) => ForcedStop::End { pid },
        (Ok(pid), None, _) => ForcedStop::Stopped { pid },
        (Err(_), None, None) => ForcedStop::Failed,
    }
}

/// What is to be done by force once the daemon was asked to shut down gracefully.
pub fn after_graceful_stop(
    graceful: Result<Option<u32>, ()>,
    remaining: Option<u32>,
    earlier: Option<u32>,
) -> (next: ForcedStop)
    ensures
        next == forced_stop(graceful, remaining, earlier),
{
    match remaining {
        Some(pid) => ForcedStop::End { pid },
        None => match graceful {
            Ok(pid) => ForcedStop::Stopped { pid },
            Err(_) => match earlier {
                Some(pid) => ForcedStop::End { pid },
                None => ForcedStop::Failed,
            },
        },
    }
}

/// By force a daemon that still runs is always ended, whatever came of the request to shut down; and
/// where the request failed, the daemon that is known to have run is ended.
pub proof fn law_force_ends_a_daemon_that_does_not_exit(
    graceful: Result<Option<u32>, ()>,
    remaining: Option<u32>,
    earlier: Option<u32>,
)
    ensures
        remaining matches Some(pid) ==> forced_stop(graceful, remaining, earlier) == (
        ForcedStop::End { pid }),
        remaining is None && graceful is Err ==> (earlier matches Some(pid) ==> forced_stop(
            graceful,
            remaining,
            earlier,
        ) == (ForcedStop::End { pid })),
{
}

/// By force a process is ended only where the graceful request was not enough: a daemon that stopped
/// on its own is left alone.
pub proof fn law_daemon_that_stopped_is_not_ended(stopped: Option<u32>, earlier: Option<u32>)
    ensures
        forced_stop(Ok(stopped), None, earlier) == (ForcedStop::Stopped { pid: stopped }),
{
}

/// A daemon that runs is forced to stop exactly where the command carries force, and it is asked to
/// shut down exactly where the answer to the question says yes. It is stopped in no other way.
pub proof fn law_daemon_stops_only_by_force_or_consent(force: bool, event: KillEvent)
    ensures
        next_action(force, event) is ForceStop <==> force && (event matches KillEvent::Status {
            running,
        } && running),
        next_action(force, event) is Stop <==> (event matches KillEvent::Response { text }
            && confirms(text@)),
{
}

/// With force nobody is asked: neither the terminal nor a person is consulted on what the status
/// leads to.
pub proof fn law_force_asks_nobody(running: bool)
    ensures
        !(next_action(true, KillEvent::Status { running }) is CheckTerminal),
        !(next_action(true, KillEvent::Status { running }) is Ask),
{
}

/// White space around an answer does not matter.
pub proof fn law_surrounding_white_space_does_not_matter(
    before: Seq<char>,
    response: Seq<char>,
    behind: Seq<char>,
)
    requires
        crate::text::all_white_space(before),
        crate::text::all_white_space(behind),
    ensures
        confirms(before + response + behind) == confirms(response),
{
    crate::text::lemma_trimmed_around(before, response, behind);
}

/// Neither white space around an answer nor its letter case matters: an answer that differs in these
/// only is understood in the same way.
pub proof fn law_white_space_and_letter_case_do_not_matter(
    before: Seq<char>,
    response: Seq<char>,
    again: Seq<char>,
    behind: Seq<char>,
)
    requires
        crate::text::all_white_space(before),
        crate::text::all_white_space(behind),
        crate::text::ascii_lowered(again) == crate::text::ascii_lowered(response),
    ensures
        confirms(before + again + behind) == confirms(response),
{
    law_surrounding_white_space_does_not_matter(before, again, behind);
    crate::text::lemma_lowered_trimmed(again);
    crate::text::lemma_lowered_trimmed(response);
}

} // verus!
