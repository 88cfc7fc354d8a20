//! The process invoker's plan: how one request to a plugin becomes a command
//! line and three streams. Starting the process and moving the bytes is the
//! caller's; what is started, with which arguments and which streams, is
//! laid down here.
use crate::paths::{join_paths, path_join};
use crate::plugin::{HookInvocation, HookResult, InvocationView, InvokeOutcome, OutcomeView};
use vstd::prelude::*;
use vstd::string::*;

verus! {

/// The directory that plugin programs are looked up in, relative to the
/// working directory of the run.
pub const PLUGINS_DIR: &'static str = "plugins/";

/// What a plugin's input stream is connected to.
#[derive(Clone, Copy, PartialEq, Eq, Structural, Debug)]
pub enum InputPlan {
    /// There is no payload: the stream is not connected.
    Detached,
    /// The payload is written in full and the stream is then closed, so that
    /// a plugin that reads to the end of its input is never left waiting.
    FeedThenClose,
}

/// What a plugin's output or error stream is connected to.
#[derive(Clone, Copy, PartialEq, Eq, Structural, Debug)]
pub enum OutputPlan {
    /// The stream is read to its end by the build.
    Captured,
    /// The stream is the build's own, so that what the plugin writes there
    /// is seen at once and is never held back.
    Inherited,
}

/// How to start the program of one request.
#[derive(Clone, Debug)]
pub struct CommandPlan {
    /// The program to start.
    pub program: String,
    /// Its arguments: the hook's name, then the extra argument if there is
    /// one.
    pub arguments: Vec<String>,
    pub stdin: InputPlan,
    pub stdout: OutputPlan,
    pub stderr: OutputPlan,
}

/// A [`CommandPlan`] as plain values.
pub struct CommandView {
    pub program: Seq<char>,
    pub arguments: Seq<Seq<char>>,
    pub stdin: InputPlan,
    pub stdout: OutputPlan,
    pub stderr: OutputPlan,
}

impl View for CommandPlan {
    type V = CommandView;

    open spec fn view(&self) -> CommandView {
        CommandView {
            program: self.program@,
            arguments: Seq::new(self.arguments@.len(), |i: int| self.arguments@[i]@),
            stdin: self.stdin,
            stdout: self.stdout,
            stderr: self.stderr,
        }
    }
}

/// The command for a request: the plugin's path joined to the plugins
/// directory, the hook's name as first argument and the extra argument, if
/// any, as second; an input stream only where there is a payload; the
/// output stream always captured; the error stream always the build's own.
pub open spec fn command_for(request: InvocationView) -> CommandView {
    CommandView {
        program: path_join(PLUGINS_DIR@, request.plugin),
        arguments: match request.extra_arg {
            Some(extra) => seq![request.hook_name, extra],
            None => seq![request.hook_name],
        },
        stdin: if request.input is Some {
            InputPlan::FeedThenClose
        } else {
            InputPlan::Detached
        },
        stdout: OutputPlan::Captured,
        stderr: OutputPlan::Inherited,
    }
}

/// Lays out the command for `asked`.
pub fn plan_command(asked: &HookInvocation) -> (plan: CommandPlan)
    ensures
        plan@ == command_for(asked@),
{
    let program = join_paths(PLUGINS_DIR, asked.plugin.path.as_str());
    let mut arguments: Vec<String> = Vec::new();
    arguments.push(asked.hook_name.to_owned());
    match asked.extra_arg {
        Some(extra) => {
            arguments.push(extra.to_owned());
        },
        None => {},
    }
    let stdin = match asked.input {
        Some(_) => InputPlan::FeedThenClose,
        None => InputPlan::Detached,
    };
    let plan = CommandPlan {
        program,
        arguments,
        stdin,
        stdout: OutputPlan::Captured,
        stderr: OutputPlan::Inherited,
    };
    assert(plan@.arguments =~= command_for(asked@).arguments);
    plan
}

/// How an invocation ended whose process was started. The plugin's exit
/// status and output count only if its payload was delivered in full and the
/// process could be waited for; an invocation that fell short of either is
/// one whose plugin failed.
pub open spec fn outcome_for(delivered: bool, exited: Option<(bool, Seq<u8>)>) -> OutcomeView {
    match exited {
        Some((exit_success, output)) => if delivered {
            OutcomeView::Exited { exit_success, output }
        } else {
            OutcomeView::TransportFailed
        },
        None => OutcomeView::TransportFailed,
    }
}

/// Sums up an invocation whose process was started: `delivered` says
/// whether all of the payload, if there was one, went into the process, and
/// `exited` is what the process left behind, if it could be waited for.
pub fn outcome_of(delivered: bool, exited: Option<HookResult>) -> (outcome: InvokeOutcome)
    ensures
        outcome@ == outcome_for(
            delivered,
            match exited {
                Some(result) => Some((result.exit_success, result.output@)),
                None => None,
            },
        ),
{
    match exited {
        Some(result) => if delivered {
            InvokeOutcome::Exited(result)
        } else {
            InvokeOutcome::TransportFailed
        },
        None => InvokeOutcome::TransportFailed,
    }
}

} // verus!
