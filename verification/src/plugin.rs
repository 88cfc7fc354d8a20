//! Plugins, the hooks they are run at, and what one invocation asks and
//! answers.
use crate::text::str_eq;
use vstd::prelude::*;
use vstd::string::*;

verus! {

/// An external plugin program, known by the path it is started from.
/// Two plugins are the same plugin when their paths are equal.
#[derive(Clone, Debug)]
pub struct PluginSpec {
    pub path: String,
}

impl View for PluginSpec {
    type V = Seq<char>;

    open spec fn view(&self) -> Seq<char> {
        self.path@
    }
}

impl PluginSpec {
    /// The plugin that is started from `path`.
    pub fn new(path: &str) -> (plugin: PluginSpec)
        ensures
            plugin@ == path@,
    {
        PluginSpec { path: path.to_owned() }
    }

    /// Whether `self` and `other` name the same program.
    pub fn same_as(&self, other: &PluginSpec) -> (same: bool)
        ensures
            same == (self@ == other@),
    {
        str_eq(self.path.as_str(), other.path.as_str())
    }
}

/// The paths of a plugin list, in list order.
pub open spec fn plugin_paths(plugins: Seq<PluginSpec>) -> Seq<Seq<char>> {
    Seq::new(plugins.len(), |i: int| plugins[i]@)
}

/// How a hook drives the plugin list.
#[derive(Clone, Copy, PartialEq, Eq, Structural, Debug)]
pub enum HookMode {
    /// Every plugin is run on its own, with no input; its output is not used.
    Broadcast,
    /// The plugins are run in list order, each fed what the one before it
    /// left in the buffer.
    Chain,
}

/// Name of the hook that is started before the build and runs beside it.
pub const HOOK_INIT: &'static str = "init";

/// Name of the hook that is run once every document has been built.
pub const HOOK_POSTINIT: &'static str = "postinit";

/// Name of the hook that transforms a document's source before rendering.
pub const HOOK_MARKDOWN: &'static str = "markdown";

/// Name of the hook that transforms a document's HTML after rendering.
pub const HOOK_HTML: &'static str = "html";

/// The mode of the hook called `name`: `markdown` and `html` are chains,
/// every other hook is a broadcast.
pub open spec fn hook_mode_of(name: Seq<char>) -> HookMode {
    if name == HOOK_MARKDOWN@ || name == HOOK_HTML@ {
        HookMode::Chain
    } else {
        HookMode::Broadcast
    }
}

/// The mode of the hook called `name`.
pub fn hook_mode(name: &str) -> (mode: HookMode)
    ensures
        mode == hook_mode_of(name@),
{
    if str_eq(name, HOOK_MARKDOWN) || str_eq(name, HOOK_HTML) {
        HookMode::Chain
    } else {
        HookMode::Broadcast
    }
}

/// One request to a plugin: which program, at which hook, with what on its
/// input stream (nothing, for a broadcast) and with which extra argument
/// (the source file's name, for a chain).
pub struct HookInvocation<'a> {
    pub plugin: &'a PluginSpec,
    pub hook_name: &'a str,
    pub input: Option<&'a [u8]>,
    pub extra_arg: Option<&'a str>,
}

/// What a [`HookInvocation`] holds, as plain values.
pub struct InvocationView {
    pub plugin: Seq<char>,
    pub hook_name: Seq<char>,
    pub input: Option<Seq<u8>>,
    pub extra_arg: Option<Seq<char>>,
}

impl<'a> View for HookInvocation<'a> {
    type V = InvocationView;

    open spec fn view(&self) -> InvocationView {
        InvocationView {
            plugin: self.plugin@,
            hook_name: self.hook_name@,
            input: match self.input {
                Some(bytes) => Some(bytes@),
                None => None,
            },
            extra_arg: match self.extra_arg {
                Some(arg) => Some(arg@),
                None => None,
            },
        }
    }
}

/// What came back from a plugin that ran to its end.
#[derive(Clone, Debug)]
pub struct HookResult {
    /// Whether the process exited with status zero.
    pub exit_success: bool,
    /// Everything the process wrote to its output stream.
    pub output: Vec<u8>,
}

/// How one invocation ended.
#[derive(Clone, Debug)]
pub enum InvokeOutcome {
    /// The program ran and exited.
    Exited(HookResult),
    /// The program was started, but its input could not be written in full.
    TransportFailed,
    /// The program could not be found or started.
    SpawnFailed,
}

/// An [`InvokeOutcome`] as plain values.
pub enum OutcomeView {
    Exited { exit_success: bool, output: Seq<u8> },
    TransportFailed,
    SpawnFailed,
}

impl View for InvokeOutcome {
    type V = OutcomeView;

    open spec fn view(&self) -> OutcomeView {
        match self {
            InvokeOutcome::Exited(result) => OutcomeView::Exited {
                exit_success: result.exit_success,
                output: result.output@,
            },
            InvokeOutcome::TransportFailed => OutcomeView::TransportFailed,
            InvokeOutcome::SpawnFailed => OutcomeView::SpawnFailed,
        }
    }
}

impl OutcomeView {
    /// The plugin did its work: it ran and exited with status zero.
    pub open spec fn succeeded(self) -> bool {
        self matches OutcomeView::Exited { exit_success, .. } && exit_success
    }

    /// The run cannot go on: the program could not be started.
    pub open spec fn is_fatal(self) -> bool {
        self is SpawnFailed
    }

    /// The plugin failed in a way the run survives: it exited with a
    /// non-zero status, or its input could not be delivered.
    pub open spec fn warns(self) -> bool {
        !self.succeeded() && !self.is_fatal()
    }
}

/// Why a plugin is warned about.
#[derive(Clone, Copy, PartialEq, Eq, Structural, Debug)]
pub enum WarningKind {
    /// The plugin exited with a non-zero status.
    NonZeroExit,
    /// The plugin's input could not be written in full.
    TransportFailed,
}

/// A non-fatal failure of one plugin at one hook.
#[derive(Clone, Debug)]
pub struct PluginWarning {
    pub plugin: String,
    pub hook_name: String,
    pub kind: WarningKind,
}

/// A [`PluginWarning`] as plain values.
pub struct WarningView {
    pub plugin: Seq<char>,
    pub hook_name: Seq<char>,
    pub kind: WarningKind,
}

impl View for PluginWarning {
    type V = WarningView;

    open spec fn view(&self) -> WarningView {
        WarningView { plugin: self.plugin@, hook_name: self.hook_name@, kind: self.kind }
    }
}

/// The views of a list of warnings, in list order.
pub open spec fn warning_views(warnings: Seq<PluginWarning>) -> Seq<WarningView> {
    Seq::new(warnings.len(), |i: int| warnings[i]@)
}

/// The warning that `outcome` of `plugin` at `hook_name` calls for, if any.
pub open spec fn warning_for(plugin: Seq<char>, hook_name: Seq<char>, outcome: OutcomeView) -> Option<
    WarningView,
> {
    match outcome {
        OutcomeView::Exited { exit_success, .. } => if exit_success {
            None
        } else {
            Some(WarningView { plugin, hook_name, kind: WarningKind::NonZeroExit })
        },
        OutcomeView::TransportFailed => Some(
            WarningView { plugin, hook_name, kind: WarningKind::TransportFailed },
        ),
        OutcomeView::SpawnFailed => None,
    }
}

/// The text shown to the user for a warning of this kind.
pub open spec fn warning_text(warning: WarningView) -> Seq<char> {
    match warning.kind {
        WarningKind::NonZeroExit => "Warning: plugin "@ + warning.plugin + " failed during hook "@
            + warning.hook_name + "!"@,
        WarningKind::TransportFailed => "Warning: plugin "@ + warning.plugin
            + " crashed during hook "@ + warning.hook_name + "!"@,
    }
}

impl PluginWarning {
    /// The warning that `outcome` calls for: one for a non-zero exit, one for
    /// input that could not be delivered, none otherwise.
    pub fn from_outcome(plugin: &PluginSpec, hook_name: &str, outcome: &InvokeOutcome) -> (warning:
        Option<PluginWarning>)
        ensures
            warning is Some <==> outcome@.warns(),
            match warning {
                Some(w) => Some(w@),
                None => None,
            } == warning_for(plugin@, hook_name@, outcome@),
    {
        match outcome {
            InvokeOutcome::Exited(result) => {
                if result.exit_success {
                    None
                } else {
                    Some(
                        PluginWarning {
                            plugin: plugin.path.clone(),
                            hook_name: hook_name.to_owned(),
                            kind: WarningKind::NonZeroExit,
                        },
                    )
                }
            },
            InvokeOutcome::TransportFailed => Some(
                PluginWarning {
                    plugin: plugin.path.clone(),
                    hook_name: hook_name.to_owned(),
                    kind: WarningKind::TransportFailed,
                },
            ),
            InvokeOutcome::SpawnFailed => None,
        }
    }

    /// The line to print for this warning. It names the plugin and the hook.
    pub fn message(&self) -> (line: String)
        ensures
            line@ == warning_text(self@),
    {
        let middle = match self.kind {
            WarningKind::NonZeroExit => " failed during hook ",
            WarningKind::TransportFailed => " crashed during hook ",
        };
        let line = String::from_str("Warning: plugin ");
        let line = line.concat(self.plugin.as_str());
        let line = line.concat(middle);
        let line = line.concat(self.hook_name.as_str());
        line.concat("!")
    }
}

} // verus!
