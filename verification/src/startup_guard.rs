use vstd::prelude::*;

verus! {

/// What starting a daemon finds at its socket path.
#[derive(Debug, Clone, Copy, PartialEq, Eq, Structural)]
pub enum StartupOutcome {
    /// No socket file: start.
    Started,
    /// A daemon answers on the socket: do not start another.
    AlreadyRunning,
    /// A socket file nobody answers on, left by a crash: it is removed and the daemon starts.
    StaleCleared,
}

/// The outcome for a socket path, from whether its file exists and whether a connection to
/// it succeeds (only tried when it exists). On `StaleCleared` the caller removes the file.
pub fn check(socket_exists: bool, connectable: bool) -> (r: StartupOutcome)
    ensures
        r == if !socket_exists {
            StartupOutcome::Started
        } else if connectable {
            StartupOutcome::AlreadyRunning
        } else {
            StartupOutcome::StaleCleared
        },
{
    if !socket_exists {
        StartupOutcome::Started
    } else if connectable {
        StartupOutcome::AlreadyRunning
    } else {
        StartupOutcome::StaleCleared
    }
}

} // verus!
