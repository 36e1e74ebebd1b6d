//! The message protocol: requests that name what is asked of a session, and
//! the replies to them.

use crate::error::SessionError;
use crate::ids::is_uuid_text;
use crate::service::TerminalService;
use crate::session::spec_default_profile;
use crate::text::opt_text;
use vstd::prelude::*;
use vstd::utf8::encode_utf8;

verus! {

/// What a message is about.
#[derive(Clone, Copy, Debug, PartialEq, Eq, Structural)]
pub enum MessageType {
    CreateSession,
    WriteData,
    CloseSession,
    Ping,
}

/// A request of a client.
#[derive(Debug, PartialEq, Eq)]
pub struct ClientMessage {
    pub message_type: MessageType,
    pub session_id: Option<String>,
    pub data: Option<String>,
}

/// The reply to a request.
#[derive(Debug, PartialEq, Eq)]
pub struct ServerMessage {
    pub message_type: MessageType,
    pub session_id: Option<String>,
    pub data: Option<String>,
    pub error: Option<String>,
}

/// What the driver owes the PTY of a session after a request was handled.
#[derive(Debug, PartialEq, Eq)]
pub enum PtyRequest {
    /// Nothing.
    Nothing,
    /// The process that was spawned for the request belongs to this session.
    Adopt { session_id: String },
    /// Write these bytes to the PTY of this session.
    Write { session_id: String, bytes: Vec<u8> },
    /// Kill the process of this session.
    Kill { session_id: String },
}

/// A reply as a mathematical value.
pub struct ServerMessageView {
    pub message_type: MessageType,
    pub session_id: Option<Seq<char>>,
    pub data: Option<Seq<char>>,
    pub error: Option<Seq<char>>,
}

impl View for ServerMessage {
    type V = ServerMessageView;

    open spec fn view(&self) -> ServerMessageView {
        ServerMessageView {
            message_type: self.message_type,
            session_id: opt_text(self.session_id),
            data: opt_text(self.data),
            error: opt_text(self.error),
        }
    }
}

/// The reply that tells of success with the session `session_id`.
pub open spec fn spec_done(message_type: MessageType, session_id: Seq<char>) -> ServerMessageView {
    ServerMessageView { message_type, session_id: Some(session_id), data: None, error: None }
}

/// The reply that refuses a request for what it lacks.
pub open spec fn spec_refused(message_type: MessageType, error: Seq<char>) -> ServerMessageView {
    ServerMessageView { message_type, session_id: None, data: None, error: Some(error) }
}

/// The reply to a ping.
pub open spec fn spec_pong() -> ServerMessageView {
    ServerMessageView {
        message_type: MessageType::Ping,
        session_id: None,
        data: Some("Pong"@),
        error: None,
    }
}

/// Handles one request at `now`.
///
/// - `CreateSession` registers a session under a fresh id; `spawned` says
///   whether the shell process for it was started. The reply carries the id,
///   and the process is the session's.
/// - `WriteData` needs a session id and data. The session is offered the data
///   as input; where it takes it, the bytes are to be written to its PTY.
/// - `CloseSession` needs a session id. The session is closed and its process
///   is to be killed.
/// - `Ping` is answered with `Pong`.
///
/// A request that lacks what it needs is answered with a reply that says so,
/// and changes nothing. A request that the service refuses gives the error of
/// the service, and no reply. The first session of a service whose shell was
/// started is always created. The configuration of the service stays as it
/// is.
pub fn handle_message(
    client_msg: ClientMessage,
    service: &mut TerminalService,
    spawned: bool,
    now: u64,
) -> (outcome: Result<(ServerMessage, PtyRequest), SessionError>)
    requires
        old(service).wf(),
    ensures
        final(service).wf(),
        final(service).session_manager.spec_config() == old(service).session_manager.spec_config(),
        client_msg.message_type == MessageType::CreateSession && spawned && old(
            service,
        )@.issued.len() == 0 ==> outcome is Ok,
        match client_msg.message_type {
            MessageType::CreateSession => match outcome {
                Ok((reply, request)) => {
                    &&& request is Adopt
                    &&& is_uuid_text(request->Adopt_session_id@)
                    &&& reply@ == spec_done(MessageType::CreateSession, request->Adopt_session_id@)
                    &&& old(service)@.create_error(request->Adopt_session_id@, spawned) is None
                    &&& final(service)@.contains(request->Adopt_session_id@)
                    &&& final(service)@ == old(service)@.after_create(
                        request->Adopt_session_id@,
                        spawned,
                        now,
                        spec_default_profile(old(service).session_manager.spec_config()),
                    )
                },
                Err(error) => {
                    &&& final(service)@ == old(service)@
                    &&& error == SessionError::SpawnFailed || error == SessionError::Internal
                    &&& error == SessionError::SpawnFailed <==> !spawned
                },
            },
            MessageType::WriteData => match (client_msg.session_id, client_msg.data) {
                (Some(id), Some(data)) => {
                    &&& final(service)@ == old(service)@.after_activity(id@, now)
                    &&& match outcome {
                        Ok((reply, request)) => {
                            &&& old(service)@.access_error(id@) is None
                            &&& reply@ == spec_done(MessageType::WriteData, id@)
                            &&& request is Write
                            &&& request->Write_session_id@ == id@
                            &&& request->bytes@ == encode_utf8(data@)
                        },
                        Err(error) => old(service)@.access_error(id@) == Some(error),
                    }
                },
                _ => {
                    &&& final(service)@ == old(service)@
                    &&& outcome is Ok
                    &&& outcome->Ok_0.0@ == spec_refused(
                        MessageType::WriteData,
                        "Missing session_id or data"@,
                    )
                    &&& outcome->Ok_0.1 is Nothing
                },
            },
            MessageType::CloseSession => match client_msg.session_id {
                Some(id) => {
                    &&& final(service)@ == old(service)@.removed(id@)
                    &&& match outcome {
                        Ok((reply, request)) => {
                            &&& old(service)@.contains(id@)
                            &&& reply@ == spec_done(MessageType::CloseSession, id@)
                            &&& request is Kill
                            &&& request->Kill_session_id@ == id@
                        },
                        Err(error) => error == SessionError::NotFound && !old(service)@.contains(
                            id@,
                        ),
                    }
                },
                None => {
                    &&& final(service)@ == old(service)@
                    &&& outcome is Ok
                    &&& outcome->Ok_0.0@ == spec_refused(
                        MessageType::CloseSession,
                        "Missing session_id"@,
                    )
                    &&& outcome->Ok_0.1 is Nothing
                },
            },
            MessageType::Ping => {
                &&& final(service)@ == old(service)@
                &&& outcome is Ok
                &&& outcome->Ok_0.0@ == spec_pong()
                &&& outcome->Ok_0.1 is Nothing
            },
        },
{
    match client_msg.message_type {
        MessageType::CreateSession => {
            match service.create_terminal_session(spawned, now) {
                Ok(id) => {
                    let reply = ServerMessage {
                        message_type: MessageType::CreateSession,
                        session_id: Some(id.clone()),
                        data: None,
                        error: None,
                    };
                    Ok((reply, PtyRequest::Adopt { session_id: id }))
                },
                Err(error) => Err(error),
            }
        },
        MessageType::WriteData => {
            match (client_msg.session_id, client_msg.data) {
                (Some(id), Some(data)) => {
                    match service.handle_terminal_input(id.as_str(), data.as_str(), now) {
                        Ok(bytes) => {
                            let reply = ServerMessage {
                                message_type: MessageType::WriteData,
                                session_id: Some(id.clone()),
                                data: None,
                                error: None,
                            };
                            Ok((reply, PtyRequest::Write { session_id: id, bytes }))
                        },
                        Err(error) => Err(error),
                    }
                },
                _ => {
                    let reply = ServerMessage {
                        message_type: MessageType::WriteData,
                        session_id: None,
                        data: None,
                        error: Some("Missing session_id or data".to_owned()),
                    };
                    Ok((reply, PtyRequest::Nothing))
                },
            }
        },
        MessageType::CloseSession => {
            match client_msg.session_id {
                Some(id) => {
                    match service.terminate(id.as_str()) {
                        Ok(_) => {
                            let reply = ServerMessage {
                                message_type: MessageType::CloseSession,
                                session_id: Some(id.clone()),
                                data: None,
                                error: None,
                            };
                            Ok((reply, PtyRequest::Kill { session_id: id }))
                        },
                        Err(error) => Err(error),
                    }
                },
                None => {
                    let reply = ServerMessage {
                        message_type: MessageType::CloseSession,
                        session_id: None,
                        data: None,
                        error: Some("Missing session_id".to_owned()),
                    };
                    Ok((reply, PtyRequest::Nothing))
                },
            }
        },
        MessageType::Ping => {
            let reply = ServerMessage {
                message_type: MessageType::Ping,
                session_id: None,
                data: Some("Pong".to_owned()),
                error: None,
            };
            Ok((reply, PtyRequest::Nothing))
        },
    }
}

} // verus!
