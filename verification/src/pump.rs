//! The output pump of a session: the one loop that reads what the PTY gives
//! and hands each chunk to the subscribers of the session.
//!
//! The loop itself runs in the driver. After each thing it did it reports an
//! event, and `pump_step` says what to do next.

use crate::pty::{ExitProbe, TerminalProcess};
use crate::registry::{RegistryView, SessionManager};
use vstd::prelude::*;

verus! {

/// How long one read of the PTY may wait, in milliseconds.
pub const READ_TIMEOUT_MS: u64 = 50;

/// How long the pump rests between two rounds, in milliseconds.
pub const PAUSE_MS: u64 = 10;

/// How many bytes one read of the PTY asks for.
pub const CHUNK_SIZE: usize = 1024;

/// What the driver of a pump has just done or seen.
#[derive(Debug, PartialEq, Eq)]
pub enum PumpEvent {
    /// The pump has been started.
    Started,
    /// The child was probed.
    Probed(ExitProbe),
    /// A read gave this text; the empty text at the end of the stream.
    Chunk(String),
    /// A read gave nothing within the time allowed.
    ReadTimedOut,
    /// A read failed.
    ReadFailed,
    /// The chunk was sent to every subscriber named; the sends to the
    /// subscribers in `failed` failed.
    Delivered { failed: Vec<u64> },
    /// The pause is over.
    Slept,
}

/// What the driver of a pump is to do next.
#[derive(Debug, PartialEq, Eq)]
pub enum PumpAction {
    /// Probe whether the child is still running.
    Probe,
    /// Read up to `capacity` bytes from the PTY, waiting no longer than
    /// `timeout_ms` milliseconds.
    Read { timeout_ms: u64, capacity: usize },
    /// Send `chunk` to each of `subscribers`, and report the subscribers
    /// whose send failed.
    Deliver { chunk: String, subscribers: Vec<u64> },
    /// Rest for `millis` milliseconds.
    Sleep { millis: u64 },
    /// Leave the loop.
    Stop,
}

/// `action` is what follows `event` in a pump of a session whose subscribers
/// are `subscribers`.
pub open spec fn pump_answers(event: PumpEvent, subscribers: Seq<u64>, action: PumpAction) -> bool {
    match event {
        PumpEvent::Started => action is Probe,
        PumpEvent::Slept => action is Probe,
        PumpEvent::ReadFailed => action is Probe,
        PumpEvent::Probed(probe) => if probe == ExitProbe::Running {
            action == (PumpAction::Read { timeout_ms: READ_TIMEOUT_MS, capacity: CHUNK_SIZE })
        } else {
            action is Stop
        },
        PumpEvent::Chunk(text) => if text@.len() > 0 {
            &&& action is Deliver
            &&& action->chunk@ == text@
            &&& action->subscribers@ == subscribers
        } else {
            action == (PumpAction::Sleep { millis: PAUSE_MS })
        },
        PumpEvent::ReadTimedOut => action == (PumpAction::Sleep { millis: PAUSE_MS }),
        PumpEvent::Delivered { .. } => action == (PumpAction::Sleep { millis: PAUSE_MS }),
    }
}

/// What `event` in the pump of the session `id` makes of the registry: a
/// child that is not running terminates the session, a failed send drops the
/// subscriber, and nothing else changes anything.
pub open spec fn pump_effect(
    registry: RegistryView,
    id: Seq<char>,
    event: PumpEvent,
) -> RegistryView {
    match event {
        PumpEvent::Probed(probe) => if probe == ExitProbe::Running {
            registry
        } else {
            registry.after_exit(id)
        },
        PumpEvent::Delivered { failed } => registry.after_detach_all(id, failed@),
        _ => registry,
    }
}

impl SessionManager {
    /// One decision of the output pump of the session `session_id`.
    ///
    /// A round of the pump probes the child, reads with a timeout, delivers
    /// what was read and rests. A child that is not running ends the pump, and
    /// the session is marked terminated. A read that fails is tried again from
    /// the probe. A chunk that is not empty goes to the subscribers that the
    /// session has at that moment. A subscriber to whom a send failed is
    /// dropped; the others stay.
    pub fn pump_step(&mut self, session_id: &str, event: PumpEvent) -> (action: PumpAction)
        requires
            old(self).wf(),
        ensures
            final(self).wf(),
            final(self).spec_config() == old(self).spec_config(),
            final(self)@ == pump_effect(old(self)@, session_id@, event),
            pump_answers(
                event,
                if old(self)@.contains(session_id@) {
                    old(self)@.session(session_id@).subscribers
                } else {
                    Seq::<u64>::empty()
                },
                action,
            ),
            action is Deliver ==> action->subscribers@.no_duplicates(),
    {
        match event {
            PumpEvent::Started => PumpAction::Probe,
            PumpEvent::Slept => PumpAction::Probe,
            PumpEvent::ReadFailed => PumpAction::Probe,
            PumpEvent::Probed(probe) => {
                if TerminalProcess::is_running(probe) {
                    PumpAction::Read { timeout_ms: READ_TIMEOUT_MS, capacity: CHUNK_SIZE }
                } else {
                    self.mark_terminated(session_id);
                    PumpAction::Stop
                }
            },
            PumpEvent::Chunk(text) => {
                if text.as_str().is_empty() {
                    PumpAction::Sleep { millis: PAUSE_MS }
                } else {
                    let subscribers = self.client_senders(session_id);
                    PumpAction::Deliver { chunk: text, subscribers }
                }
            },
            PumpEvent::ReadTimedOut => PumpAction::Sleep { millis: PAUSE_MS },
            PumpEvent::Delivered { failed } => {
                self.remove_client_senders(session_id, &failed);
                PumpAction::Sleep { millis: PAUSE_MS }
            },
        }
    }
}

} // verus!
