//! Signal coordination: on a termination signal the process runs the
//! configured shutdown hook once and exits with a success status.  The
//! coordinator owns its own command connection and shares no state with the
//! event loop; the two interact only through process exit.

use vstd::prelude::*;

verus! {

/// A process signal, as the coordinator classifies it.  Only the four
/// termination signals are registered; anything else is an
/// internal-consistency fault.
#[derive(Clone, Copy, Debug, PartialEq, Eq, Structural)]
pub enum SignalKind {
    /// Hangup.
    Hangup,
    /// Keyboard interrupt.
    Interrupt,
    /// Quit.
    Quit,
    /// Termination request.
    Terminate,
    /// A signal outside the registered set.
    Other,
}

/// What the coordinator does once a termination signal arrives: send the
/// shutdown hook, if one is configured, then end the process.
#[derive(Debug)]
pub struct ShutdownPlan {
    /// The single command to send before exiting, if a shutdown hook is
    /// configured.
    pub command: Option<String>,
    /// The process exit status: shutdown on a termination signal is a
    /// success.
    pub exit_status: i32,
}

/// Decides the coordinator's reaction to `signal`.  Every termination
/// signal yields a plan that sends the configured shutdown hook (exactly
/// the template, unscoped) and exits with status `0`; a signal outside the
/// registered set yields no plan and is a fault the caller must treat as
/// unreachable.
pub fn shutdown_plan(signal: &SignalKind, on_exit: &Option<String>) -> (r: Option<ShutdownPlan>)
    ensures
        match signal {
            SignalKind::Other => r is None,
            _ => {
                &&& r is Some
                &&& r->0.exit_status == 0
                &&& match (r->0.command, on_exit) {
                    (Some(c), Some(h)) => c@ == h@,
                    (None, None) => true,
                    _ => false,
                }
            },
        },
{
    match signal {
        SignalKind::Other => None,
        _ => {
            let command = match on_exit {
                Some(h) => Some(h.clone()),
                None => None,
            };
            Some(ShutdownPlan { command, exit_status: 0 })
        },
    }
}

} // verus!
