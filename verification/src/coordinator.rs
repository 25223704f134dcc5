//! The decisions of the UI coordinator: when the UI process is started,
//! when a command is sent to it, when a broken UI is restarted once, and
//! what the host is told.
//!
//! The coordinator's worker performs each [`UiAction`] (starting or stopping
//! the process, one request/response exchange) and feeds the outcome back as
//! a [`UiEvent`].

use vstd::prelude::*;

use crate::host::{restart_failure, should_restart};
use crate::protocol::{UiCommand, UiResponse};

verus! {

/// Where the handling of the current command stands.
#[derive(Debug, Clone, PartialEq, Eq)]
pub enum UiPhase {
    /// No command is being handled.
    Idle,
    /// The UI is being started for the command.
    Starting,
    /// The command is being sent.
    Sending,
    /// The UI is being restarted after the command failed with this error.
    Restarting(String),
    /// The command is being sent again after a restart; the first error.
    Resending(String),
}

/// The coordinator's state: whether a UI process is connected, the
/// generation of the last one started, and the phase.
#[derive(Debug, Clone, PartialEq, Eq)]
pub struct UiSession {
    pub connected: bool,
    pub generation: u32,
    pub phase: UiPhase,
}

/// What the worker observed.
#[derive(Debug, PartialEq, Eq)]
pub enum UiEvent {
    /// The command arrived; `exited` tells whether the UI process has exited.
    Received { exited: bool },
    /// Starting the UI process ended.
    Started(Result<(), String>),
    /// The exchange with the UI process ended.
    Transacted(Result<UiResponse, String>),
}

/// What the worker does next.
#[derive(Debug, PartialEq, Eq)]
pub enum UiAction {
    /// Start a UI process of this generation, stopping the current one first when `stop_first`.
    Start { generation: u32, stop_first: bool },
    /// Send the command, first letting the UI take the foreground when `grant_foreground`.
    Send { grant_foreground: bool },
    /// Answer the host, stopping the UI process first when `stop_first`.
    Reply { result: Result<UiResponse, String>, stop_first: bool },
    /// The event does not belong to the phase; nothing to do.
    Ignore,
}

/// The generation after `g` (wrapping).
pub open spec fn next_generation(g: u32) -> u32 {
    if g == u32::MAX {
        0
    } else {
        (g + 1) as u32
    }
}

/// Whether a command shows a window (and so may take the foreground and be retried).
pub open spec fn is_visible(command: UiCommand) -> bool {
    command is Show || command is Settings || command is Diagnostics
}

/// The text of an error combined with the error of its retry.
pub open spec fn combined(first: Seq<char>, during_start: bool, error: Seq<char>) -> Seq<char> {
    first + (if during_start {
        "; restart failed: "@
    } else {
        "; restart transaction failed: "@
    }) + error
}

/// `r` is the reply `result` with error text `text` when it is an error.
pub open spec fn replies(r: UiAction, result_ok: Option<UiResponse>, error: Seq<char>, stop_first: bool) -> bool {
    match r {
        UiAction::Reply { result, stop_first: s } => s == stop_first && match result_ok {
            Some(response) => result == Ok::<UiResponse, String>(response),
            None => result matches Err(e) && e@ == error,
        },
        _ => false,
    }
}

impl UiSession {
    /// No UI process yet, nothing in hand.
    pub fn new() -> (r: Self)
        ensures
            !r.connected,
            r.generation == 0,
            r.phase == UiPhase::Idle,
    {
        UiSession { connected: false, generation: 0, phase: UiPhase::Idle }
    }

    /// The next state and action for `event` while handling `command`.
    ///
    /// - A `Quit` stops the UI and is answered `Quitting`.
    /// - Other commands go to the connected UI; when there is none (or it
    ///   exited) a UI of the next generation is started first, and a failed
    ///   start is the answer.
    /// - A failed exchange is the answer, except for a command that shows a
    ///   window: then the UI is restarted once (next generation) and the
    ///   command sent again; a second failure is reported together with the first.
    pub fn step(self, command: &UiCommand, event: UiEvent) -> (r: (UiSession, UiAction))
        ensures
            match (self.phase, event) {
                (UiPhase::Idle, UiEvent::Received { exited }) => if *command is Quit {
                    &&& r.0 == UiSession { connected: false, generation: self.generation, phase: UiPhase::Idle }
                    &&& r.1 == UiAction::Reply { result: Ok::<UiResponse, String>(UiResponse::Quitting), stop_first: true }
                } else if self.connected && !exited {
                    &&& r.0 == UiSession { connected: true, generation: self.generation, phase: UiPhase::Sending }
                    &&& r.1 == UiAction::Send { grant_foreground: is_visible(*command) }
                } else {
                    &&& r.0 == UiSession {
                        connected: false,
                        generation: next_generation(self.generation),
                        phase: UiPhase::Starting,
                    }
                    &&& r.1 == UiAction::Start { generation: next_generation(self.generation), stop_first: false }
                },
                (UiPhase::Starting, UiEvent::Started(Ok(()))) => {
                    &&& r.0 == UiSession { connected: true, generation: self.generation, phase: UiPhase::Sending }
                    &&& r.1 == UiAction::Send { grant_foreground: is_visible(*command) }
                },
                (UiPhase::Starting, UiEvent::Started(Err(e))) => {
                    &&& r.0 == UiSession { connected: false, generation: self.generation, phase: UiPhase::Idle }
                    &&& replies(r.1, None, e@, false)
                },
                (UiPhase::Sending, UiEvent::Transacted(Ok(response))) => {
                    &&& r.0 == UiSession { connected: true, generation: self.generation, phase: UiPhase::Idle }
                    &&& replies(r.1, Some(response), Seq::empty(), false)
                },
                (UiPhase::Sending, UiEvent::Transacted(Err(e))) => if is_visible(*command) {
                    &&& r.0.connected == false
                    &&& r.0.generation == next_generation(self.generation)
                    &&& r.0.phase matches UiPhase::Restarting(first) && first@ == e@
                    &&& r.1 == UiAction::Start { generation: next_generation(self.generation), stop_first: true }
                } else {
                    &&& r.0 == UiSession { connected: true, generation: self.generation, phase: UiPhase::Idle }
                    &&& replies(r.1, None, e@, false)
                },
                (UiPhase::Restarting(first), UiEvent::Started(Ok(()))) => {
                    &&& r.0.connected && r.0.generation == self.generation
                    &&& r.0.phase matches UiPhase::Resending(f) && f@ == first@
                    &&& r.1 == UiAction::Send { grant_foreground: is_visible(*command) }
                },
                (UiPhase::Restarting(first), UiEvent::Started(Err(e))) => {
                    &&& r.0 == UiSession { connected: false, generation: self.generation, phase: UiPhase::Idle }
                    &&& replies(r.1, None, combined(first@, true, e@), false)
                },
                (UiPhase::Resending(first), UiEvent::Transacted(Ok(response))) => {
                    &&& r.0 == UiSession { connected: true, generation: self.generation, phase: UiPhase::Idle }
                    &&& replies(r.1, Some(response), Seq::empty(), false)
                },
                (UiPhase::Resending(first), UiEvent::Transacted(Err(e))) => {
                    &&& r.0 == UiSession { connected: true, generation: self.generation, phase: UiPhase::Idle }
                    &&& replies(r.1, None, combined(first@, false, e@), false)
                },
                _ => r.0 == self && r.1 == UiAction::Ignore,
            },
    {
        let UiSession { connected, generation, phase } = self;
        match (phase, event) {
            (UiPhase::Idle, UiEvent::Received { exited }) => {
                if let UiCommand::Quit = command {
                    return (
                        UiSession { connected: false, generation, phase: UiPhase::Idle },
                        UiAction::Reply { result: Ok(UiResponse::Quitting), stop_first: true },
                    );
                }
                if connected && !exited {
                    (
                        UiSession { connected: true, generation, phase: UiPhase::Sending },
                        UiAction::Send { grant_foreground: should_restart(command) },
                    )
                } else {
                    let next = if generation == u32::MAX {
                        0
                    } else {
                        generation + 1
                    };
                    (
                        UiSession { connected: false, generation: next, phase: UiPhase::Starting },
                        UiAction::Start { generation: next, stop_first: false },
                    )
                }
            },
            (UiPhase::Starting, UiEvent::Started(Ok(()))) => (
                UiSession { connected: true, generation, phase: UiPhase::Sending },
                UiAction::Send { grant_foreground: should_restart(command) },
            ),
            (UiPhase::Starting, UiEvent::Started(Err(e))) => (
                UiSession { connected: false, generation, phase: UiPhase::Idle },
                UiAction::Reply { result: Err(e), stop_first: false },
            ),
            (UiPhase::Sending, UiEvent::Transacted(Ok(response))) => (
                UiSession { connected: true, generation, phase: UiPhase::Idle },
                UiAction::Reply { result: Ok(response), stop_first: false },
            ),
            (UiPhase::Sending, UiEvent::Transacted(Err(e))) => {
                if should_restart(command) {
                    let next = if generation == u32::MAX {
                        0
                    } else {
                        generation + 1
                    };
                    (
                        UiSession { connected: false, generation: next, phase: UiPhase::Restarting(e) },
                        UiAction::Start { generation: next, stop_first: true },
                    )
                } else {
                    (
                        UiSession { connected: true, generation, phase: UiPhase::Idle },
                        UiAction::Reply { result: Err(e), stop_first: false },
                    )
                }
            },
            (UiPhase::Restarting(first), UiEvent::Started(Ok(()))) => (
                UiSession { connected: true, generation, phase: UiPhase::Resending(first) },
                UiAction::Send { grant_foreground: should_restart(command) },
            ),
            (UiPhase::Restarting(first), UiEvent::Started(Err(e))) => (
                UiSession { connected: false, generation, phase: UiPhase::Idle },
                UiAction::Reply {
                    result: Err(restart_failure(first.as_str(), e.as_str(), true)),
                    stop_first: false,
                },
            ),
            (UiPhase::Resending(_), UiEvent::Transacted(Ok(response))) => (
                UiSession { connected: true, generation, phase: UiPhase::Idle },
                UiAction::Reply { result: Ok(response), stop_first: false },
            ),
            (UiPhase::Resending(first), UiEvent::Transacted(Err(e))) => (
                UiSession { connected: true, generation, phase: UiPhase::Idle },
                UiAction::Reply {
                    result: Err(restart_failure(first.as_str(), e.as_str(), false)),
                    stop_first: false,
                },
            ),
            (phase, _) => (UiSession { connected, generation, phase }, UiAction::Ignore),
        }
    }
}

} // verus!
