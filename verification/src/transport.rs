//! What the two streaming transports decide, connection by connection.
//!
//! A WebSocket connection has a session of its own: text frames are input,
//! output goes back as text frames, a ping is answered with a pong, and the
//! session ends with the connection. A WebTransport connection names its
//! session in the path of its URL.
//!
//! The sockets are the driver's. It reports what happened on them as events
//! and carries out the actions it gets back.

use crate::error::SessionError;
use crate::ids::is_uuid_text;
use crate::pty::{spec_chunk_text, TerminalProcess};
use crate::registry::lemma_position_unique;
use crate::service::TerminalService;
use crate::session::{spec_default_profile, Attachment, SessionView};
use crate::text::{last_segment, spec_last_segment};
use vstd::prelude::*;
use vstd::utf8::encode_utf8;

verus! {

/// How many chunks of output may wait for one client.
pub const OUTPUT_QUEUE: usize = 100;

/// How many pings may wait for their pong.
pub const PONG_QUEUE: usize = 10;

/// How many bytes one read of a WebTransport stream asks for.
pub const INPUT_BUFFER: usize = 4096;

/// A message that came in on a WebSocket, by its kind.
#[derive(Debug, PartialEq, Eq)]
pub enum Frame {
    Text(String),
    Binary,
    Ping,
    Pong,
    Close,
}

/// What the reading side of a WebSocket connection has just seen.
#[derive(Debug, PartialEq, Eq)]
pub enum ReaderEvent {
    /// A message came in.
    Message(Frame),
    /// Reading failed.
    Failed,
    /// The peer will send no more.
    Ended,
    /// The bytes of the last text frame were written to the PTY.
    InputWritten,
    /// The bytes of the last text frame could not be written to the PTY.
    InputFailed,
    /// The writing side was told of the last ping.
    PongQueued,
    /// The writing side could not be told of the last ping.
    PongRefused,
}

/// What the reading side of a connection is to do next.
#[derive(Debug, PartialEq, Eq)]
pub enum ReaderAction {
    /// Write these bytes to the PTY of the session.
    WriteToPty(Vec<u8>),
    /// Tell the writing side that a pong is due.
    QueuePong,
    /// Wait for the next message.
    Await,
    /// Stop reading; the connection is over.
    Stop,
}

/// What the writing side of a WebSocket connection has just seen.
#[derive(Debug, PartialEq, Eq)]
pub enum WriterEvent {
    /// The session gave a chunk of output.
    Output(String),
    /// A pong is due.
    PongDue,
    /// Neither output nor pings can come any more.
    SourcesClosed,
    /// The last frame was sent.
    Sent,
    /// The last frame could not be sent.
    SendFailed,
}

/// What the writing side of a WebSocket connection is to do next.
#[derive(Debug, PartialEq, Eq)]
pub enum WriterAction {
    /// Send this text as a text frame.
    SendText(String),
    /// Send a pong with no payload.
    SendPong,
    /// Wait for the next chunk or ping.
    Await,
    /// Stop writing; the connection is over.
    Stop,
}

/// `action` is what follows `event` on the writing side.
pub open spec fn writer_answers(event: WriterEvent, action: WriterAction) -> bool {
    match event {
        WriterEvent::Output(text) => action is SendText && action->0@ == text@,
        WriterEvent::PongDue => action is SendPong,
        WriterEvent::SourcesClosed => action is Stop,
        WriterEvent::Sent => action is Await,
        WriterEvent::SendFailed => action is Stop,
    }
}

/// The text that an event offers to the session as input, if it does.
pub open spec fn reader_input(event: ReaderEvent) -> Option<Seq<char>> {
    match event {
        ReaderEvent::Message(Frame::Text(text)) => Some(text@),
        _ => None,
    }
}

/// `action` is what follows an event that offers no input on the reading side.
pub open spec fn reader_answers(event: ReaderEvent, action: ReaderAction) -> bool {
    match event {
        ReaderEvent::Message(Frame::Text(_)) => true,
        ReaderEvent::Message(Frame::Ping) => action is QueuePong,
        ReaderEvent::Message(Frame::Close) => action is Stop,
        ReaderEvent::Message(Frame::Binary) => action is Await,
        ReaderEvent::Message(Frame::Pong) => action is Await,
        ReaderEvent::Failed => action is Stop,
        ReaderEvent::Ended => action is Stop,
        ReaderEvent::InputWritten => action is Await,
        ReaderEvent::InputFailed => action is Stop,
        ReaderEvent::PongQueued => action is Await,
        ReaderEvent::PongRefused => action is Stop,
    }
}

/// Opens the session of a WebSocket connection that was accepted at `now`: a
/// new session under a fresh id, with the connection as its one subscriber,
/// whose pump is to be started. `spawned` says whether the shell process for
/// it was started. Where no session is created the service is left as it was.
pub fn websocket_open(service: &mut TerminalService, spawned: bool, now: u64) -> (outcome: Result<
    (String, Attachment),
    SessionError,
>)
    requires
        old(service).wf(),
    ensures
        final(service).wf(),
        final(service).session_manager.spec_config() == old(service).session_manager.spec_config(),
        !spawned ==> outcome == Err::<(String, Attachment), SessionError>(
            SessionError::SpawnFailed,
        ),
        spawned && old(service)@.issued.len() == 0 ==> outcome is Ok,
        match outcome {
            Ok((id, attachment)) => {
                &&& is_uuid_text(id@)
                &&& old(service)@.create_error(id@, spawned) is None
                &&& attachment == (Attachment { subscriber: 0, start_listener: true })
                &&& final(service)@ == old(service)@.after_create(
                    id@,
                    spawned,
                    now,
                    spec_default_profile(old(service).session_manager.spec_config()),
                ).after_attach(id@)
                &&& final(service)@.contains(id@)
                &&& final(service)@.session(id@) == SessionView::fresh(
                    id@,
                    now,
                    old(service)@.session_timeout,
                    spec_default_profile(old(service).session_manager.spec_config()),
                ).attached()
            },
            Err(error) => {
                &&& final(service)@ == old(service)@
                &&& error == SessionError::SpawnFailed || error == SessionError::Internal
                &&& error == SessionError::SpawnFailed <==> !spawned
            },
        },
{
    match service.create_terminal_session(spawned, now) {
        Ok(id) => {
            proof {
                let created = old(service)@.after_create(
                    id@,
                    spawned,
                    now,
                    spec_default_profile(old(service).session_manager.spec_config()),
                );
                lemma_position_unique(created, id@, created.sessions.len() - 1);
            }
            let ghost created = service@;
            match service.handle_terminal_connection(id.as_str()) {
                Ok(attachment) => {
                    proof {
                        lemma_position_unique(service@, id@, created.sessions.len() - 1);
                    }
                    Ok((id, attachment))
                },
                // A session just created is active and has every number left.
                Err(error) => Err(error),
            }
        },
        Err(error) => Err(error),
    }
}

/// One decision of the reading side of a WebSocket connection whose session
/// is `session_id`. A text frame is input for the session: where the session
/// takes it, its bytes are to be written to the PTY; where it does not, the
/// connection ends. A ping asks for a pong. A close frame, a failed read, a
/// failed write and a pong that cannot be asked for end the connection.
/// Anything else is passed over. Only input changes the service.
pub fn websocket_reader_step(
    service: &mut TerminalService,
    session_id: &str,
    event: ReaderEvent,
    now: u64,
) -> (action: ReaderAction)
    requires
        old(service).wf(),
    ensures
        final(service).wf(),
        final(service).session_manager.spec_config() == old(service).session_manager.spec_config(),
        match reader_input(event) {
            Some(text) => {
                &&& final(service)@ == old(service)@.after_activity(session_id@, now)
                &&& if old(service)@.access_error(session_id@) is None {
                    action is WriteToPty && action->WriteToPty_0@ == encode_utf8(text)
                } else {
                    action is Stop
                }
            },
            None => final(service)@ == old(service)@ && reader_answers(event, action),
        },
{
    match event {
        ReaderEvent::Message(frame) => match frame {
            Frame::Text(text) => match service.handle_terminal_input(
                session_id,
                text.as_str(),
                now,
            ) {
                Ok(bytes) => ReaderAction::WriteToPty(bytes),
                Err(_) => ReaderAction::Stop,
            },
            Frame::Ping => ReaderAction::QueuePong,
            Frame::Close => ReaderAction::Stop,
            Frame::Binary => ReaderAction::Await,
            Frame::Pong => ReaderAction::Await,
        },
        ReaderEvent::Failed => ReaderAction::Stop,
        ReaderEvent::Ended => ReaderAction::Stop,
        ReaderEvent::InputWritten => ReaderAction::Await,
        ReaderEvent::InputFailed => ReaderAction::Stop,
        ReaderEvent::PongQueued => ReaderAction::Await,
        ReaderEvent::PongRefused => ReaderAction::Stop,
    }
}

/// One decision of the writing side of a WebSocket connection: output goes
/// out as a text frame, a ping is answered with a pong, a failed send or the
/// end of both sources ends the connection.
pub fn websocket_writer_step(event: WriterEvent) -> (action: WriterAction)
    ensures
        writer_answers(event, action),
{
    match event {
        WriterEvent::Output(text) => WriterAction::SendText(text),
        WriterEvent::PongDue => WriterAction::SendPong,
        WriterEvent::SourcesClosed => WriterAction::Stop,
        WriterEvent::Sent => WriterAction::Await,
        WriterEvent::SendFailed => WriterAction::Stop,
    }
}

/// Closes the session of a WebSocket connection that is over. Says whether
/// there still was such a session, whose process the caller then kills.
pub fn websocket_close(service: &mut TerminalService, session_id: &str) -> (closed: bool)
    requires
        old(service).wf(),
    ensures
        final(service).wf(),
        final(service).session_manager.spec_config() == old(service).session_manager.spec_config(),
        final(service)@ == old(service)@.removed(session_id@),
        closed == old(service)@.contains(session_id@),
{
    service.terminate(session_id).is_ok()
}

/// The id of the session that a WebTransport connection asks for: the last
/// segment of the path of its URL.
pub fn webtransport_session_id(path: &str) -> (session_id: String)
    ensures
        session_id@ == spec_last_segment(path@),
{
    last_segment(path)
}

/// Opens a WebTransport connection that came in under `path`: its session is
/// the one named by the last segment of the path, and the connection attaches
/// to it as one more subscriber. Returns the id of the session with what
/// attaching gave.
pub fn webtransport_open(service: &mut TerminalService, path: &str) -> (outcome: Result<
    (String, Attachment),
    SessionError,
>)
    requires
        old(service).wf(),
    ensures
        final(service).wf(),
        final(service).session_manager.spec_config() == old(service).session_manager.spec_config(),
        final(service)@ == old(service)@.after_attach(spec_last_segment(path@)),
        match outcome {
            Ok((id, attachment)) => {
                &&& id@ == spec_last_segment(path@)
                &&& old(service)@.attach_error(id@) is None
                &&& attachment.subscriber == old(service)@.session(id@).next_subscriber
                &&& attachment.start_listener == !old(service)@.session(id@).listener_started
            },
            Err(error) => old(service)@.attach_error(spec_last_segment(path@)) == Some(error),
        },
{
    let id: String = webtransport_session_id(path);
    match service.handle_terminal_connection(id.as_str()) {
        Ok(attachment) => Ok((id, attachment)),
        Err(error) => Err(error),
    }
}

/// What to do with one read of a WebTransport stream into `buffer`, for the
/// session `session_id`. `read` is the number of bytes that the read gave,
/// `None` at the end of the stream. Bytes are input for the session, decoded
/// as the output of a PTY is: where the session takes the input, its bytes are
/// to be written to the PTY; where it does not, the connection ends. A read
/// of no bytes and the end of the stream pass on to the next stream.
pub fn webtransport_client_input(
    service: &mut TerminalService,
    session_id: &str,
    buffer: &[u8],
    read: Option<usize>,
    now: u64,
) -> (action: ReaderAction)
    requires
        old(service).wf(),
        read matches Some(n) ==> n <= buffer@.len(),
    ensures
        final(service).wf(),
        final(service).session_manager.spec_config() == old(service).session_manager.spec_config(),
        match read {
            Some(n) => if n == 0 {
                action is Await && final(service)@ == old(service)@
            } else {
                &&& final(service)@ == old(service)@.after_activity(session_id@, now)
                &&& if old(service)@.access_error(session_id@) is None {
                    action is WriteToPty && action->WriteToPty_0@ == encode_utf8(
                        spec_chunk_text(buffer@, n as int),
                    )
                } else {
                    action is Stop
                }
            },
            None => action is Await && final(service)@ == old(service)@,
        },
{
    match read {
        Some(n) => {
            if n == 0 {
                ReaderAction::Await
            } else {
                let text: String = TerminalProcess::read_stdout(buffer, n);
                match service.handle_terminal_input(session_id, text.as_str(), now) {
                    Ok(bytes) => ReaderAction::WriteToPty(bytes),
                    Err(_) => ReaderAction::Stop,
                }
            }
        },
        None => ReaderAction::Await,
    }
}

} // verus!
