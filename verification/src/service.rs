//! The service that transports talk to: one entry for each thing a client can
//! ask of a session.

use crate::error::SessionError;
use crate::ids::is_uuid_text;
use crate::pty::{spec_window_size, WindowSize};
use crate::registry::{RegistryView, SessionManager};
use crate::session::{
    spec_default_profile, Attachment, Session, SessionProfile, SessionStatus,
};
use vstd::prelude::*;
use vstd::utf8::encode_utf8;

verus! {

/// The byte that the line discipline of a PTY takes for an interrupt: Ctrl-C.
pub const INTERRUPT_BYTE: u8 = 0x03;

/// The front of the session subsystem. It owns the registry.
pub struct TerminalService {
    /// The registry behind the service. What the service does not offer, such
    /// as the output pump and the expiry check, is asked of it directly.
    pub session_manager: SessionManager,
}

impl View for TerminalService {
    type V = RegistryView;

    open spec fn view(&self) -> RegistryView {
        self.session_manager@
    }
}

impl TerminalService {
    /// The service is well formed: its registry is.
    pub open spec fn wf(&self) -> bool {
        self.session_manager.wf()
    }

    /// A service in front of the registry `session_manager`.
    pub fn new(session_manager: SessionManager) -> (service: TerminalService)
        ensures
            service.session_manager == session_manager,
    {
        TerminalService { session_manager }
    }

    /// Creates a session under a fresh id and returns the id. `spawned` says
    /// whether the shell process for it was started.
    pub fn create_terminal_session(&mut self, spawned: bool, now: u64) -> (outcome: Result<
        String,
        SessionError,
    >)
        requires
            old(self).wf(),
        ensures
            final(self).wf(),
            final(self).session_manager.spec_config()
                == old(self).session_manager.spec_config(),
            !spawned ==> outcome == Err::<String, SessionError>(SessionError::SpawnFailed),
            spawned && old(self)@.issued.len() == 0 ==> outcome is Ok,
            match outcome {
                Ok(id) => {
                    &&& is_uuid_text(id@)
                    &&& old(self)@.create_error(id@, spawned) is None
                    &&& final(self)@ == old(self)@.after_create(
                        id@,
                        spawned,
                        now,
                        spec_default_profile(old(self).session_manager.spec_config()),
                    )
                    &&& final(self)@.contains(id@)
                },
                Err(error) => {
                    &&& final(self)@ == old(self)@
                    &&& error == SessionError::SpawnFailed || error == SessionError::Internal
                    &&& error == SessionError::SpawnFailed <==> !spawned
                },
            },
    {
        self.session_manager.create_session(spawned, now)
    }

    /// Creates a session under a fresh id, described by `profile`, and returns
    /// the id. `spawned` says whether the shell process for it was started.
    pub fn create_terminal_session_as(
        &mut self,
        spawned: bool,
        now: u64,
        profile: SessionProfile,
    ) -> (outcome: Result<String, SessionError>)
        requires
            old(self).wf(),
        ensures
            final(self).wf(),
            final(self).session_manager.spec_config()
                == old(self).session_manager.spec_config(),
            !spawned ==> outcome == Err::<String, SessionError>(SessionError::SpawnFailed),
            spawned && old(self)@.issued.len() == 0 ==> outcome is Ok,
            match outcome {
                Ok(id) => {
                    &&& is_uuid_text(id@)
                    &&& old(self)@.create_error(id@, spawned) is None
                    &&& final(self)@ == old(self)@.after_create(id@, spawned, now, profile@)
                    &&& final(self)@.contains(id@)
                },
                Err(error) => {
                    &&& final(self)@ == old(self)@
                    &&& error == SessionError::SpawnFailed || error == SessionError::Internal
                    &&& error == SessionError::SpawnFailed <==> !spawned
                },
            },
    {
        self.session_manager.create_session_as(spawned, now, profile)
    }

    /// Attaches a subscriber to the session `session_id`.
    pub fn handle_terminal_connection(&mut self, session_id: &str) -> (outcome: Result<
        Attachment,
        SessionError,
    >)
        requires
            old(self).wf(),
        ensures
            final(self).wf(),
            final(self).session_manager.spec_config()
                == old(self).session_manager.spec_config(),
            final(self)@ == old(self)@.after_attach(session_id@),
            match outcome {
                Ok(attachment) => {
                    &&& old(self)@.attach_error(session_id@) is None
                    &&& attachment.subscriber == old(self)@.session(session_id@).next_subscriber
                    &&& attachment.start_listener == !old(self)@.session(
                        session_id@,
                    ).listener_started
                },
                Err(error) => old(self)@.attach_error(session_id@) == Some(error),
            },
    {
        self.session_manager.add_client_sender(session_id)
    }

    /// Admits `input` for the session `session_id` and returns the bytes to
    /// write to its PTY.
    pub fn handle_terminal_input(&mut self, session_id: &str, input: &str, now: u64) -> (outcome:
        Result<Vec<u8>, SessionError>)
        requires
            old(self).wf(),
        ensures
            final(self).wf(),
            final(self).session_manager.spec_config()
                == old(self).session_manager.spec_config(),
            final(self)@ == old(self)@.after_activity(session_id@, now),
            match outcome {
                Ok(bytes) => old(self)@.access_error(session_id@) is None && bytes@
                    == encode_utf8(input@),
                Err(error) => old(self)@.access_error(session_id@) == Some(error),
            },
    {
        self.session_manager.write_to_session(session_id, input, now)
    }

    /// Admits a resize of the session `session_id` and returns the window to
    /// set on its PTY.
    pub fn resize(&mut self, session_id: &str, columns: u32, rows: u32, now: u64) -> (outcome:
        Result<WindowSize, SessionError>)
        requires
            old(self).wf(),
        ensures
            final(self).wf(),
            final(self).session_manager.spec_config()
                == old(self).session_manager.spec_config(),
            final(self)@ == old(self)@.after_activity(session_id@, now),
            match outcome {
                Ok(window) => old(self)@.access_error(session_id@) is None && window
                    == spec_window_size(columns, rows),
                Err(error) => old(self)@.access_error(session_id@) == Some(error),
            },
    {
        self.session_manager.resize_session(session_id, columns, rows, now)
    }

    /// Admits an interrupt of the session `session_id`: input of the one byte
    /// Ctrl-C, which is returned to be written to its PTY.
    pub fn interrupt(&mut self, session_id: &str, now: u64) -> (outcome: Result<
        Vec<u8>,
        SessionError,
    >)
        requires
            old(self).wf(),
        ensures
            final(self).wf(),
            final(self).session_manager.spec_config()
                == old(self).session_manager.spec_config(),
            final(self)@ == old(self)@.after_activity(session_id@, now),
            match outcome {
                Ok(bytes) => old(self)@.access_error(session_id@) is None && bytes@
                    == seq![INTERRUPT_BYTE],
                Err(error) => old(self)@.access_error(session_id@) == Some(error),
            },
    {
        let outcome = self.session_manager.write_to_session(session_id, "\x03", now);
        proof {
            reveal_strlit("\x03");
            assert((3u32 & 0x7F) as u8 == 3u8) by (bit_vector);
            reveal_with_fuel(vstd::utf8::encode_utf8, 2);
        }
        outcome
    }

    /// Closes the session `session_id` and hands it over; the caller kills
    /// its process.
    pub fn terminate(&mut self, session_id: &str) -> (outcome: Result<Session, SessionError>)
        requires
            old(self).wf(),
        ensures
            final(self).wf(),
            final(self).session_manager.spec_config()
                == old(self).session_manager.spec_config(),
            final(self)@ == old(self)@.removed(session_id@),
            match outcome {
                Ok(session) => {
                    &&& old(self)@.contains(session_id@)
                    &&& session@ == old(self)@.session(session_id@).closed()
                },
                Err(error) => error == SessionError::NotFound && !old(self)@.contains(session_id@),
            },
    {
        self.session_manager.close_session(session_id)
    }

    /// The status of the session `session_id`.
    pub fn status(&self, session_id: &str) -> (status: Result<SessionStatus, SessionError>)
        requires
            self.wf(),
        ensures
            status == if self@.contains(session_id@) {
                Ok::<SessionStatus, SessionError>(self@.session(session_id@).status)
            } else {
                Err::<SessionStatus, SessionError>(SessionError::NotFound)
            },
    {
        self.session_manager.get_session_status(session_id)
    }

    /// Every session with its status, in the order in which the sessions were
    /// created.
    pub fn list(&self) -> (listing: Vec<(String, SessionStatus)>)
        requires
            self.wf(),
        ensures
            listing@.len() == self@.sessions.len(),
            forall|k: int|
                0 <= k < listing@.len() ==> {
                    &&& (#[trigger] listing@[k]).0@ == self@.sessions[k].id
                    &&& listing@[k].1 == self@.sessions[k].status
                },
    {
        self.session_manager.get_all_sessions_with_status()
    }
}

} // verus!
