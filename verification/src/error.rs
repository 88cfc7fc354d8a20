//! The failures that end a run, and the status the process exits with for
//! each.
use crate::plugin::HookMode;
use vstd::prelude::*;

verus! {

/// A failure that ends the whole run. Indices point into the plugin list or
/// into the list of discovered documents.
#[derive(Clone, Copy, PartialEq, Eq, Structural, Debug)]
pub enum FatalError {
    /// The configuration file could not be read.
    ConfigUnreadable,
    /// The configuration file does not hold a valid configuration.
    ConfigInvalid,
    /// The input pattern is not a valid glob.
    GlobInvalid,
    /// The output directory does not exist and could not be created.
    OutputDirUncreatable,
    /// A plugin could not be found or started, at a hook of this mode.
    PluginUnavailable { mode: HookMode, plugin: usize },
    /// A source document could not be read.
    InputUnreadable { job: usize },
    /// A page's file could not be created.
    OutputUncreatable { job: usize },
    /// A page could not be written in full.
    OutputUnwritable { job: usize },
    /// A source document is not UTF-8 text, under the policy that ends the
    /// run for that.
    InvalidText { job: usize },
}

/// The exit status for each failure, after `sysexits.h`: 66 (no input) for
/// what could not be read, 78 (configuration) for what was read and is
/// wrong, 73 (cannot create) for output that could not be made, 74 (I/O) for
/// a write that failed, 65 (data) for bad text, and 71 (operating system)
/// for a plugin that could not be started, at whichever hook.
pub open spec fn exit_code_of(error: FatalError) -> i32 {
    match error {
        FatalError::ConfigUnreadable => 66,
        FatalError::ConfigInvalid => 78,
        FatalError::GlobInvalid => 78,
        FatalError::OutputDirUncreatable => 73,
        FatalError::PluginUnavailable { .. } => 71,
        FatalError::InputUnreadable { .. } => 66,
        FatalError::OutputUncreatable { .. } => 73,
        FatalError::OutputUnwritable { .. } => 74,
        FatalError::InvalidText { .. } => 65,
    }
}

/// `exitcode::USAGE`, which the crate defines as 64.
#[verifier::external_body]
pub(crate) fn code_usage() -> (code: i32)
    ensures
        code == 64,
{
    exitcode::USAGE
}

/// `exitcode::DATAERR`, which the crate defines as 65.
#[verifier::external_body]
pub(crate) fn code_data_error() -> (code: i32)
    ensures
        code == 65,
{
    exitcode::DATAERR
}

/// `exitcode::NOINPUT`, which the crate defines as 66.
#[verifier::external_body]
pub(crate) fn code_no_input() -> (code: i32)
    ensures
        code == 66,
{
    exitcode::NOINPUT
}

/// `exitcode::OSERR`, which the crate defines as 71.
#[verifier::external_body]
pub(crate) fn code_os_error() -> (code: i32)
    ensures
        code == 71,
{
    exitcode::OSERR
}

/// `exitcode::CANTCREAT`, which the crate defines as 73.
#[verifier::external_body]
pub(crate) fn code_cannot_create() -> (code: i32)
    ensures
        code == 73,
{
    exitcode::CANTCREAT
}

/// `exitcode::IOERR`, which the crate defines as 74.
#[verifier::external_body]
pub(crate) fn code_io_error() -> (code: i32)
    ensures
        code == 74,
{
    exitcode::IOERR
}

/// `exitcode::CONFIG`, which the crate defines as 78.
#[verifier::external_body]
pub(crate) fn code_config() -> (code: i32)
    ensures
        code == 78,
{
    exitcode::CONFIG
}

/// What the user is told when a run ends with `error`.
pub open spec fn message_of(error: FatalError) -> Seq<char> {
    match error {
        FatalError::ConfigUnreadable => "Unable to read config file!"@,
        FatalError::ConfigInvalid => "Unable to parse config file!"@,
        FatalError::GlobInvalid => "Unable to parse file glob!"@,
        FatalError::OutputDirUncreatable => "Unable to create output directory!"@,
        FatalError::PluginUnavailable { .. } => "Unable to start plugin!"@,
        FatalError::InputUnreadable { .. } => "Unable to open input file!"@,
        FatalError::OutputUncreatable { .. } => "Unable to create output file!"@,
        FatalError::OutputUnwritable { .. } => "Unable to finish writing output file!"@,
        FatalError::InvalidText { .. } => "Input file is not valid text!"@,
    }
}

impl FatalError {
    /// The line to print for this failure before the process exits. It names
    /// the kind of failure; which plugin or file failed is for the caller to
    /// add, who knows them by name.
    pub fn message(&self) -> (line: &'static str)
        ensures
            line@ == message_of(*self),
    {
        match self {
            FatalError::ConfigUnreadable => "Unable to read config file!",
            FatalError::ConfigInvalid => "Unable to parse config file!",
            FatalError::GlobInvalid => "Unable to parse file glob!",
            FatalError::OutputDirUncreatable => "Unable to create output directory!",
            FatalError::PluginUnavailable { .. } => "Unable to start plugin!",
            FatalError::InputUnreadable { .. } => "Unable to open input file!",
            FatalError::OutputUncreatable { .. } => "Unable to create output file!",
            FatalError::OutputUnwritable { .. } => "Unable to finish writing output file!",
            FatalError::InvalidText { .. } => "Input file is not valid text!",
        }
    }

    /// The status that the process exits with for this failure.
    pub fn exit_code(&self) -> (code: i32)
        ensures
            code == exit_code_of(*self),
            code != 0,
    {
        match self {
            FatalError::ConfigUnreadable => code_no_input(),
            FatalError::ConfigInvalid => code_config(),
            FatalError::GlobInvalid => code_config(),
            FatalError::OutputDirUncreatable => code_cannot_create(),
            FatalError::PluginUnavailable { .. } => code_os_error(),
            FatalError::InputUnreadable { .. } => code_no_input(),
            FatalError::OutputUncreatable { .. } => code_cannot_create(),
            FatalError::OutputUnwritable { .. } => code_io_error(),
            FatalError::InvalidText { .. } => code_data_error(),
        }
    }
}

} // verus!
