use vstd::prelude::*;

verus! {

/// Every way a run can fail. Each kind is fatal: the caller reports the
/// message and terminates the run; nothing is retried and no fallback exists.
#[derive(Clone, Copy, Debug, PartialEq, Eq, Structural)]
pub enum LaunchError {
    /// The listening port could not be bound.
    BindFailure,
    /// The target's header is not a supported executable format.
    UnsupportedExecutable,
    /// The instrumented path was chosen but no debugger is on the search path.
    DebuggerNotFound,
    /// An environment entry does not hold exactly one `=`.
    MalformedEnvSpec,
    /// The final process-image replacement failed.
    ProcessReplacementFailure,
}

/// The diagnostic text that belongs to each failure kind.
pub open spec fn message_of(e: LaunchError) -> Seq<char> {
    match e {
        LaunchError::BindFailure => "failed to bind the listening socket"@,
        LaunchError::UnsupportedExecutable => "Unknown executable file type"@,
        LaunchError::DebuggerNotFound => "gdb is not installed"@,
        LaunchError::MalformedEnvSpec => "Invalid environment variable passed"@,
        LaunchError::ProcessReplacementFailure => "failed to replace the process image"@,
    }
}

impl LaunchError {
    /// The message a caller prints before terminating.
    pub fn message(&self) -> (r: String)
        ensures
            r@ == message_of(*self),
    {
        match self {
            LaunchError::BindFailure => "failed to bind the listening socket".to_owned(),
            LaunchError::UnsupportedExecutable => "Unknown executable file type".to_owned(),
            LaunchError::DebuggerNotFound => "gdb is not installed".to_owned(),
            LaunchError::MalformedEnvSpec => "Invalid environment variable passed".to_owned(),
            LaunchError::ProcessReplacementFailure => "failed to replace the process image".to_owned(),
        }
    }
}

} // verus!
