//! Errors of the note commands, and the text they are reported with.
use vstd::prelude::*;
use vstd::string::StringExecFns;

verus! {

/// The step of note persistence at which an I/O failure happened.
#[derive(Clone, Copy, Debug, PartialEq, Eq, Structural)]
pub enum IoStage {
    /// Resolving the per-user data directory of the application.
    DataDir,
    /// Creating that directory.
    CreateDir,
    /// Writing the note file.
    Save,
    /// Reading the note file.
    Load,
}

/// A failure of one of the commands, before it becomes text.
#[derive(Debug, PartialEq, Eq)]
pub enum CommandError {
    /// A file-system failure, with the host's description of it.
    Io { stage: IoStage, detail: String },
    /// A window or monitor operation of the host failed.
    Host { detail: String },
    /// The panel window is not registered with the host.
    NotFound,
}

/// The text that introduces an I/O failure at `stage`.
pub open spec fn stage_prefix(stage: IoStage) -> Seq<char> {
    match stage {
        IoStage::DataDir => "Failed to get app data dir: "@,
        IoStage::CreateDir => "Failed to create app data dir: "@,
        IoStage::Save => "Failed to save note: "@,
        IoStage::Load => "Failed to load note: "@,
    }
}

/// The text of the panel-not-found error.
pub open spec fn not_found_text() -> Seq<char> {
    "Panel window not found"@
}

/// The human-readable text of an error.
pub open spec fn message_of(e: CommandError) -> Seq<char> {
    match e {
        CommandError::Io { stage, detail } => stage_prefix(stage) + detail@,
        CommandError::Host { detail } => detail@,
        CommandError::NotFound => not_found_text(),
    }
}

/// The text that introduces an I/O failure at `stage`.
pub fn stage_prefix_str(stage: IoStage) -> (r: &'static str)
    ensures
        r@ == stage_prefix(stage),
{
    match stage {
        IoStage::DataDir => "Failed to get app data dir: ",
        IoStage::CreateDir => "Failed to create app data dir: ",
        IoStage::Save => "Failed to save note: ",
        IoStage::Load => "Failed to load note: ",
    }
}

impl CommandError {
    /// The text this error is reported to the caller with.
    pub fn message(&self) -> (r: String)
        ensures
            r@ == message_of(*self),
    {
        match self {
            CommandError::Io { stage, detail } => {
                let mut text = String::from_str(stage_prefix_str(*stage));
                text.append(detail.as_str());
                text
            },
            CommandError::Host { detail } => detail.clone(),
            CommandError::NotFound => String::from_str("Panel window not found"),
        }
    }
}

/// Tags a failure of a file-system step with the step it came from,
/// and passes a success through unchanged.
pub fn io_step<T>(stage: IoStage, outcome: Result<T, String>) -> (r: Result<T, CommandError>)
    ensures
        match outcome {
            Ok(v) => r == Ok::<T, CommandError>(v),
            Err(e) => r == Err::<T, CommandError>(CommandError::Io { stage, detail: e }),
        },
{
    match outcome {
        Ok(v) => Ok(v),
        Err(e) => Err(CommandError::Io { stage, detail: e }),
    }
}

/// Marks a failure of a window or monitor operation as a host error,
/// and passes a success through unchanged.
pub fn host_step<T>(outcome: Result<T, String>) -> (r: Result<T, CommandError>)
    ensures
        match outcome {
            Ok(v) => r == Ok::<T, CommandError>(v),
            Err(e) => r == Err::<T, CommandError>(CommandError::Host { detail: e }),
        },
{
    match outcome {
        Ok(v) => Ok(v),
        Err(e) => Err(CommandError::Host { detail: e }),
    }
}

} // verus!
