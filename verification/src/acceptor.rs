//! The accept loop's decisions.
//!
//! The acceptor owns the listening socket and runs forever: each accepted
//! connection is handed to a freshly spawned handler that the acceptor never
//! waits for, and each failed accept is logged and forgotten. Only a bind
//! failure at startup — before the loop is entered — or outside termination
//! ends the process. The loop itself and the sockets live outside the
//! library; [`acceptor_step`] is the decision it takes on each outcome, and
//! its contract proves that no accept outcome ever stops the loop.

use vstd::prelude::*;

verus! {

/// The TCP port the server listens on.
pub const LISTEN_PORT: u16 = 8082;

/// The outcome of one accept attempt, as the runtime reports it.
#[derive(Clone, Copy, Debug, PartialEq, Eq, Structural)]
pub enum AcceptOutcome {
    /// A connection arrived and its handle is ready.
    Accepted,
    /// The accept attempt failed.
    Failed,
}

/// What the acceptor does with one accept outcome.
#[derive(Clone, Copy, Debug, PartialEq, Eq, Structural)]
pub enum AcceptorAction {
    /// Spawn an independent handler for the new connection and do not wait
    /// for it.
    SpawnHandler,
    /// Write one line about the failure to the diagnostic stream.
    LogError,
}

/// The acceptor's decision on one accept outcome.
#[derive(Clone, Copy, Debug, PartialEq, Eq, Structural)]
pub struct AcceptorDecision {
    /// What to do with this outcome.
    pub action: AcceptorAction,
    /// Whether the loop goes on to the next accept. Proved always true:
    /// accept failures are recoverable and never terminate the server.
    pub keep_listening: bool,
}

/// Decides what the accept loop does after one accept attempt: spawn a
/// handler exactly when a connection arrived, log exactly when the attempt
/// failed, and in either case keep listening.
pub fn acceptor_step(outcome: AcceptOutcome) -> (d: AcceptorDecision)
    ensures
        d.action is SpawnHandler <==> outcome is Accepted,
        d.action is LogError <==> outcome is Failed,
        d.keep_listening,
{
    match outcome {
        AcceptOutcome::Accepted => AcceptorDecision {
            action: AcceptorAction::SpawnHandler,
            keep_listening: true,
        },
        AcceptOutcome::Failed => AcceptorDecision {
            action: AcceptorAction::LogError,
            keep_listening: true,
        },
    }
}

/// The one startup line the server announces once the socket is bound,
/// naming the port it listens on.
pub fn startup_line() -> (r: &'static str)
    ensures
        r@ == "Rust HTTP server starting on :8082"@,
{
    "Rust HTTP server starting on :8082"
}

/// The address the server binds: localhost on [`LISTEN_PORT`].
pub fn listen_addr() -> (r: &'static str)
    ensures
        r@ == "127.0.0.1:8082"@,
{
    "127.0.0.1:8082"
}

} // verus!
