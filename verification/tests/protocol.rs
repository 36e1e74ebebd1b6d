use rs_terminal::config::Config;
use rs_terminal::error::SessionError;
use rs_terminal::protocol::{handle_message, ClientMessage, MessageType, PtyRequest, ServerMessage};
use rs_terminal::registry::SessionManager;
use rs_terminal::service::TerminalService;
use rs_terminal::session::SessionStatus;
use std::sync::Arc;

fn service() -> TerminalService {
    TerminalService::new(SessionManager::new(Arc::new(Config::fallback())))
}

fn message(message_type: MessageType, session_id: Option<&str>, data: Option<&str>) -> ClientMessage {
    ClientMessage {
        message_type,
        session_id: session_id.map(|s| s.to_string()),
        data: data.map(|s| s.to_string()),
    }
}

fn done(message_type: MessageType, session_id: &str) -> ServerMessage {
    ServerMessage { message_type, session_id: Some(session_id.to_string()), data: None, error: None }
}

fn refused(message_type: MessageType, error: &str) -> ServerMessage {
    ServerMessage { message_type, session_id: None, data: None, error: Some(error.to_string()) }
}

#[test]
fn a_ping_is_answered_with_pong() {
    let mut s = service();
    let reply = handle_message(message(MessageType::Ping, Some("x"), Some("y")), &mut s, false, 1);
    let pong = ServerMessage {
        message_type: MessageType::Ping,
        session_id: None,
        data: Some("Pong".to_string()),
        error: None,
    };
    assert_eq!(reply, Ok((pong, PtyRequest::Nothing)));
    assert!(s.list().is_empty());
}

#[test]
fn create_session_replies_with_the_new_id() {
    let mut s = service();
    let (reply, request) =
        handle_message(message(MessageType::CreateSession, None, None), &mut s, true, 5).unwrap();
    let id = reply.session_id.clone().unwrap();
    assert!(uuid::Uuid::parse_str(&id).is_ok());
    assert_eq!(reply, done(MessageType::CreateSession, &id));
    assert_eq!(request, PtyRequest::Adopt { session_id: id.clone() });
    assert_eq!(s.status(&id), Ok(SessionStatus::Active));
}

#[test]
fn create_session_without_a_shell_fails() {
    let mut s = service();
    assert_eq!(
        handle_message(message(MessageType::CreateSession, None, None), &mut s, false, 5),
        Err(SessionError::SpawnFailed)
    );
    assert!(s.list().is_empty());
}

#[test]
fn write_data_hands_the_bytes_to_the_pty() {
    let mut s = service();
    let id = s.create_terminal_session(true, 10).unwrap();
    let reply =
        handle_message(message(MessageType::WriteData, Some(&id), Some("pwd\n")), &mut s, false, 20);
    assert_eq!(
        reply,
        Ok((
            done(MessageType::WriteData, &id),
            PtyRequest::Write { session_id: id.clone(), bytes: b"pwd\n".to_vec() }
        ))
    );
    assert_eq!(s.session_manager.get_session(&id).unwrap().get_last_active_time(), 20);
}

#[test]
fn write_data_needs_session_and_data() {
    let mut s = service();
    let id = s.create_terminal_session(true, 10).unwrap();
    let missing = refused(MessageType::WriteData, "Missing session_id or data");
    for (session_id, data) in [(None, Some("x")), (Some(id.as_str()), None), (None, None)] {
        let reply = handle_message(message(MessageType::WriteData, session_id, data), &mut s, true, 20);
        assert_eq!(reply, Ok((refused(MessageType::WriteData, "Missing session_id or data"), PtyRequest::Nothing)));
    }
    assert_eq!(missing.error.as_deref(), Some("Missing session_id or data"));
    assert_eq!(s.session_manager.get_session(&id).unwrap().get_last_active_time(), 10);
}

#[test]
fn write_data_to_a_missing_session_is_an_error() {
    let mut s = service();
    assert_eq!(
        handle_message(message(MessageType::WriteData, Some("nobody"), Some("x")), &mut s, true, 20),
        Err(SessionError::NotFound)
    );
}

#[test]
fn close_session_kills_the_process() {
    let mut s = service();
    let id = s.create_terminal_session(true, 10).unwrap();
    let reply = handle_message(message(MessageType::CloseSession, Some(&id), None), &mut s, false, 20);
    assert_eq!(
        reply,
        Ok((done(MessageType::CloseSession, &id), PtyRequest::Kill { session_id: id.clone() }))
    );
    assert_eq!(s.status(&id), Err(SessionError::NotFound));
    assert_eq!(
        handle_message(message(MessageType::CloseSession, Some(&id), None), &mut s, false, 21),
        Err(SessionError::NotFound)
    );
}

#[test]
fn close_session_needs_a_session() {
    let mut s = service();
    let id = s.create_terminal_session(true, 10).unwrap();
    assert_eq!(
        handle_message(message(MessageType::CloseSession, None, Some("x")), &mut s, false, 20),
        Ok((refused(MessageType::CloseSession, "Missing session_id"), PtyRequest::Nothing))
    );
    assert_eq!(s.status(&id), Ok(SessionStatus::Active));
}

#[test]
fn the_first_session_of_a_service_is_always_created() {
    for _ in 0..20 {
        let mut s = service();
        let created = handle_message(message(MessageType::CreateSession, None, None), &mut s, true, 1);
        assert!(created.is_ok());
        assert_eq!(s.list().len(), 1);
        assert_eq!(s.session_manager.config().http.port, 8080);
    }
}
