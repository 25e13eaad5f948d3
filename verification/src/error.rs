//! What can go wrong in a session, and how it is told to the operator.

use vstd::prelude::*;
use crate::text::join;

verus! {

/// Why a reload or restart request did not reach the tool.
#[derive(Debug)]
pub enum SignalError {
    /// There is no lock file to read the process id from.
    NoLockFile,
    /// The lock file does not hold a process id.
    ParseError,
    /// The operating system refused to deliver the signal, for the reason
    /// carried.
    SignalFailed(String),
}

/// Why the two-phase shutdown of the process group gave up.
#[derive(Debug)]
pub enum TerminationError {
    /// No child was ever spawned, so there is no group to signal.
    NoProcessGroup,
    /// The request to terminate was refused, for the reason carried.
    TermRejected(String),
    /// The forced kill was refused, for the reason carried.
    KillRejected(String),
}

/// Why a project cannot be supervised at all.
#[derive(Debug)]
pub enum ValidationError {
    /// The external tool is not installed.
    MissingTool,
    /// The project at the carried path has no source directory.
    MissingSourceDir(String),
}

/// Every failure of a session, by kind.
#[derive(Debug)]
pub enum SessionError {
    /// The project or the environment is unfit; nothing was spawned.
    StartupValidation(ValidationError),
    /// The tool was spawned but never wrote its lock file.
    StartupTimeout,
    /// A reload or restart request could not be delivered.
    SignalDispatchFailure(SignalError),
    /// The file watcher could not be set up, for the reason carried.
    WatchSetupFailure(String),
    /// The process group could not be shut down in an orderly way.
    TerminationFailure(TerminationError),
}

impl SignalError {
    /// The text shown to the operator.
    pub open spec fn message_text(self) -> Seq<char> {
        match self {
            SignalError::NoLockFile => "PID file not found"@,
            SignalError::ParseError => "PID file does not hold a process id"@,
            SignalError::SignalFailed(reason) => "Failed to send signal to Flutter process: "@
                + reason@,
        }
    }

    /// Renders the error for the operator.
    pub fn message(&self) -> (text: String)
        ensures
            text@ == self.message_text(),
    {
        match self {
            SignalError::NoLockFile => String::from_str("PID file not found"),
            SignalError::ParseError => String::from_str("PID file does not hold a process id"),
            SignalError::SignalFailed(reason) => join(
                "Failed to send signal to Flutter process: ",
                reason.as_str(),
            ),
        }
    }
}

impl TerminationError {
    /// The text shown to the operator.
    pub open spec fn message_text(self) -> Seq<char> {
        match self {
            TerminationError::NoProcessGroup => "No process group ID available"@,
            TerminationError::TermRejected(reason) => "Failed to send SIGTERM to process group: "@
                + reason@,
            TerminationError::KillRejected(reason) => "Failed to send SIGKILL to process group: "@
                + reason@,
        }
    }

    /// Renders the error for the operator.
    pub fn message(&self) -> (text: String)
        ensures
            text@ == self.message_text(),
    {
        match self {
            TerminationError::NoProcessGroup => String::from_str("No process group ID available"),
            TerminationError::TermRejected(reason) => join(
                "Failed to send SIGTERM to process group: ",
                reason.as_str(),
            ),
            TerminationError::KillRejected(reason) => join(
                "Failed to send SIGKILL to process group: ",
                reason.as_str(),
            ),
        }
    }
}

impl ValidationError {
    /// The text shown to the operator.
    pub open spec fn message_text(self) -> Seq<char> {
        match self {
            ValidationError::MissingTool => "Flutter CLI not found. Please install Flutter SDK."@,
            ValidationError::MissingSourceDir(project) => "No lib/ directory found in "@ + project@
                + ". Are you in a Flutter project?"@,
        }
    }

    /// Renders the error for the operator.
    pub fn message(&self) -> (text: String)
        ensures
            text@ == self.message_text(),
    {
        match self {
            ValidationError::MissingTool => String::from_str(
                "Flutter CLI not found. Please install Flutter SDK.",
            ),
            ValidationError::MissingSourceDir(project) => {
                let mut text = join("No lib/ directory found in ", project.as_str());
                text.append(". Are you in a Flutter project?");
                text
            },
        }
    }
}

impl SessionError {
    /// Whether the session must end on this error. Failures before the tool
    /// is up are fatal; failures while it runs are reported and the session
    /// goes on.
    pub open spec fn fatal(self) -> bool {
        match self {
            SessionError::StartupValidation(_) => true,
            SessionError::StartupTimeout => true,
            SessionError::WatchSetupFailure(_) => true,
            SessionError::SignalDispatchFailure(_) => false,
            SessionError::TerminationFailure(_) => false,
        }
    }

    /// Decides [`SessionError::fatal`].
    pub fn is_fatal(&self) -> (fatal: bool)
        ensures
            fatal == self.fatal(),
    {
        match self {
            SessionError::StartupValidation(_) => true,
            SessionError::StartupTimeout => true,
            SessionError::WatchSetupFailure(_) => true,
            SessionError::SignalDispatchFailure(_) => false,
            SessionError::TerminationFailure(_) => false,
        }
    }

    /// The text shown to the operator.
    pub open spec fn message_text(self) -> Seq<char> {
        match self {
            SessionError::StartupValidation(e) => e.message_text(),
            SessionError::StartupTimeout => "Flutter failed to start - PID file not created"@,
            SessionError::SignalDispatchFailure(e) => e.message_text(),
            SessionError::WatchSetupFailure(reason) => "Failed to watch the source directory: "@
                + reason@,
            SessionError::TerminationFailure(e) => e.message_text(),
        }
    }

    /// Renders the error for the operator.
    pub fn message(&self) -> (text: String)
        ensures
            text@ == self.message_text(),
    {
        match self {
            SessionError::StartupValidation(e) => e.message(),
            SessionError::StartupTimeout => String::from_str(
                "Flutter failed to start - PID file not created",
            ),
            SessionError::SignalDispatchFailure(e) => e.message(),
            SessionError::WatchSetupFailure(reason) => join(
                "Failed to watch the source directory: ",
                reason.as_str(),
            ),
            SessionError::TerminationFailure(e) => e.message(),
        }
    }
}

} // verus!
