use rs_terminal::config::Config;
use rs_terminal::error::SessionError;
use rs_terminal::http::{
    create_default_terminal_session, create_session, execute_command, execute_command_check,
    get_all_sessions, get_session_by_id, get_session_status, interrupt_terminal, outcome_code,
    resize_terminal, session_body, status_text, terminate_session, CreateSessionParams,
    ExecuteParams,
    ResizeParams, TerminalInterruptResponse, TerminalResizeResponse, TerminalSession,
    TerminalSize, TerminalStatusResponse, TerminalTerminateResponse,
};
use rs_terminal::registry::SessionManager;
use rs_terminal::session::{SessionProfile, SessionStatus};
use std::sync::Arc;

fn config() -> Config {
    let mut config = Config::fallback();
    config.terminal.session_timeout = 2_000;
    config.terminal.default_working_directory = "/srv".to_string();
    config
}

fn manager() -> SessionManager {
    SessionManager::new(Arc::new(config()))
}

fn body(id: &str, user: &str, status: &str, now: u64) -> TerminalSession {
    TerminalSession {
        id: id.to_string(),
        user_id: user.to_string(),
        title: None,
        working_directory: "/srv".to_string(),
        shell_type: "powershell".to_string(),
        status: status.to_string(),
        terminal_size: TerminalSize { columns: 80, rows: 24 },
        created_at: now,
        updated_at: now,
        last_active_time: now,
        expired_at: now + 2_000,
    }
}

fn params(user: Option<&str>) -> CreateSessionParams {
    CreateSessionParams {
        user_id: user.map(|u| u.to_string()),
        title: None,
        working_directory: None,
        shell_type: None,
        columns: None,
        rows: None,
    }
}

fn command(text: Option<&str>) -> ExecuteParams {
    ExecuteParams { command: text.map(|t| t.to_string()), timeout_ms: Some(500) }
}

#[test]
fn statuses_are_written_in_capitals() {
    assert_eq!(status_text(SessionStatus::Active), "ACTIVE");
    assert_eq!(status_text(SessionStatus::Terminated), "TERMINATED");
}

#[test]
fn outcomes_map_to_status_codes() {
    assert_eq!(outcome_code(&Ok(())), 200);
    assert_eq!(outcome_code(&Err(SessionError::NotFound)), 404);
    assert_eq!(outcome_code(&Err(SessionError::IoError)), 500);
    assert_eq!(outcome_code(&Err(SessionError::Closed)), 500);
    assert_eq!(outcome_code(&Err(SessionError::SpawnFailed)), 500);
    assert_eq!(outcome_code(&Err(SessionError::Internal)), 500);
    assert_eq!(outcome_code(&Err(SessionError::BadRequest)), 500);
}

#[test]
fn a_session_body_expires_one_timeout_after_now() {
    let session = create_default_terminal_session(
        "id-1".to_string(),
        "u".to_string(),
        Some("t".to_string()),
        "/w".to_string(),
        "sh".to_string(),
        "ACTIVE".to_string(),
        132,
        50,
        &config(),
        10_000,
    );
    assert_eq!(
        session,
        TerminalSession {
            id: "id-1".to_string(),
            user_id: "u".to_string(),
            title: Some("t".to_string()),
            working_directory: "/w".to_string(),
            shell_type: "sh".to_string(),
            status: "ACTIVE".to_string(),
            terminal_size: TerminalSize { columns: 132, rows: 50 },
            created_at: 10_000,
            updated_at: 10_000,
            last_active_time: 10_000,
            expired_at: 12_000,
        }
    );
    assert_eq!(session.expired_at - session.created_at, 2_000);
}

#[test]
fn a_session_body_at_the_end_of_time_does_not_wrap() {
    let session = create_default_terminal_session(
        String::new(),
        String::new(),
        None,
        String::new(),
        String::new(),
        String::new(),
        0,
        0,
        &config(),
        u64::MAX - 5,
    );
    assert_eq!(session.expired_at, u64::MAX);
}

#[test]
fn create_without_a_user_is_a_bad_request() {
    assert!(!params(None).has_user());
    assert!(params(Some("u")).has_user());
    let (code, session) = create_session(params(None), Ok("ignored".to_string()), &config(), 100);
    assert_eq!(code, 400);
    assert_eq!(session, body("", "", "ERROR", 100));
    let (code, session) = create_session(params(None), Err(SessionError::BadRequest), &config(), 100);
    assert_eq!(code, 400);
    assert_eq!(session, body("", "", "ERROR", 100));
}

#[test]
fn create_answers_with_the_new_session() {
    let (code, session) = create_session(params(Some("alice")), Ok("id-9".to_string()), &config(), 100);
    assert_eq!(code, 201);
    assert_eq!(session, body("id-9", "alice", "ACTIVE", 100));
}

#[test]
fn create_that_failed_is_a_server_error() {
    let (code, session) =
        create_session(params(Some("alice")), Err(SessionError::SpawnFailed), &config(), 100);
    assert_eq!(code, 500);
    assert_eq!(session, body("", "alice", "ERROR", 100));
}

#[test]
fn create_takes_what_the_request_gives() {
    let request = CreateSessionParams {
        user_id: Some("bob".to_string()),
        title: Some("build".to_string()),
        working_directory: Some("/work".to_string()),
        shell_type: Some("bash".to_string()),
        columns: Some(120),
        rows: None,
    };
    let (code, session) = create_session(request, Ok("id-2".to_string()), &config(), 7);
    assert_eq!(code, 201);
    assert_eq!(
        session,
        TerminalSession {
            id: "id-2".to_string(),
            user_id: "bob".to_string(),
            title: Some("build".to_string()),
            working_directory: "/work".to_string(),
            shell_type: "bash".to_string(),
            status: "ACTIVE".to_string(),
            terminal_size: TerminalSize { columns: 120, rows: 24 },
            created_at: 7,
            updated_at: 7,
            last_active_time: 7,
            expired_at: 2_007,
        }
    );
}

fn described(user: &str) -> SessionProfile {
    SessionProfile {
        user_id: user.to_string(),
        title: Some("build".to_string()),
        working_directory: "/work".to_string(),
        shell_type: "bash".to_string(),
        terminal_size: rs_terminal::config::TerminalSize { columns: 120, rows: 40 },
    }
}

fn shown(id: &str, user: &str, status: &str, created: u64, active: u64) -> TerminalSession {
    TerminalSession {
        id: id.to_string(),
        user_id: user.to_string(),
        title: Some("build".to_string()),
        working_directory: "/work".to_string(),
        shell_type: "bash".to_string(),
        status: status.to_string(),
        terminal_size: TerminalSize { columns: 120, rows: 40 },
        created_at: created,
        updated_at: active,
        last_active_time: active,
        expired_at: active + 2_000,
    }
}

#[test]
fn a_request_describes_its_session() {
    let request = CreateSessionParams {
        user_id: Some("bob".to_string()),
        title: Some("build".to_string()),
        working_directory: Some("/work".to_string()),
        shell_type: Some("bash".to_string()),
        columns: Some(120),
        rows: Some(40),
    };
    assert_eq!(request.profile(&config()), Ok(described("bob")));
    assert_eq!(
        params(Some("eve")).profile(&config()),
        Ok(SessionProfile {
            user_id: "eve".to_string(),
            title: None,
            working_directory: "/srv".to_string(),
            shell_type: "powershell".to_string(),
            terminal_size: rs_terminal::config::TerminalSize { columns: 80, rows: 24 },
        })
    );
    assert_eq!(params(None).profile(&config()), Err(SessionError::BadRequest));
}

#[test]
fn all_sessions_are_listed_with_their_status() {
    let mut m = manager();
    assert_eq!(get_all_sessions(&m), (200, Vec::new()));
    m.create_session_with_id("a".to_string(), true, 1, described("ann")).unwrap();
    m.create_session_with_id("b".to_string(), true, 2, described("ben")).unwrap();
    m.mark_terminated("b");
    m.write_to_session("a", "x", 700).unwrap();
    assert_eq!(
        get_all_sessions(&m),
        (200, vec![shown("a", "ann", "ACTIVE", 1, 700), shown("b", "ben", "TERMINATED", 2, 2)])
    );
}

#[test]
fn one_session_is_shown_or_not_found() {
    let mut m = manager();
    m.create_session_with_id("a".to_string(), true, 1, described("ann")).unwrap();
    assert_eq!(get_session_by_id(&m, "a".to_string(), 9), (200, shown("a", "ann", "ACTIVE", 1, 1)));
    assert_eq!(get_session_by_id(&m, "zz".to_string(), 9), (404, body("zz", "", "ERROR", 9)));
    m.mark_terminated("a");
    assert_eq!(
        get_session_by_id(&m, "a".to_string(), 9),
        (200, shown("a", "ann", "TERMINATED", 1, 1))
    );
}

#[test]
fn a_new_session_expires_one_timeout_after_its_creation() {
    let mut m = manager();
    let id = m.create_session(true, 5_000).unwrap();
    let shown = session_body(m.get_session(&id).unwrap());
    assert_eq!(shown.id, id);
    assert_eq!(shown.status, "ACTIVE");
    assert_eq!(shown.user_id, "default_user");
    assert_eq!(shown.created_at, 5_000);
    assert_eq!(shown.expired_at - shown.created_at, 2_000);
}

#[test]
fn the_status_is_told_or_not_found() {
    let mut m = manager();
    m.create_session_with_id("a".to_string(), true, 1, described("ann")).unwrap();
    assert_eq!(
        get_session_status(&m, "a"),
        (200, TerminalStatusResponse { status: "ACTIVE".to_string() })
    );
    m.mark_terminated("a");
    assert_eq!(
        get_session_status(&m, "a"),
        (200, TerminalStatusResponse { status: "TERMINATED".to_string() })
    );
    assert_eq!(
        get_session_status(&m, "b"),
        (404, TerminalStatusResponse { status: "ERROR".to_string() })
    );
}

fn resized(id: &str, columns: u32, rows: u32, status: &str) -> TerminalResizeResponse {
    TerminalResizeResponse {
        session_id: id.to_string(),
        terminal_size: TerminalSize { columns, rows },
        status: status.to_string(),
    }
}

#[test]
fn a_resize_needs_both_numbers() {
    let none = ResizeParams { cols: None, rows: None };
    let rows_only = ResizeParams { cols: None, rows: Some(50) };
    let cols_only = ResizeParams { cols: Some(132), rows: None };
    let both = ResizeParams { cols: Some(132), rows: Some(50) };
    assert_eq!(none.size(), Err(SessionError::BadRequest));
    assert_eq!(rows_only.size(), Err(SessionError::BadRequest));
    assert_eq!(cols_only.size(), Err(SessionError::BadRequest));
    assert_eq!(both.size(), Ok((132, 50)));
    assert_eq!(resize_terminal("a".to_string(), none, Ok(())), (400, resized("a", 0, 0, "ERROR")));
    assert_eq!(resize_terminal("a".to_string(), rows_only, Ok(())), (400, resized("a", 0, 0, "ERROR")));
    assert_eq!(resize_terminal("a".to_string(), cols_only, Ok(())), (400, resized("a", 132, 0, "ERROR")));
}

#[test]
fn a_resize_is_answered_by_its_outcome() {
    let both = ResizeParams { cols: Some(132), rows: Some(50) };
    assert_eq!(resize_terminal("a".to_string(), both, Ok(())), (200, resized("a", 132, 50, "ACTIVE")));
    assert_eq!(
        resize_terminal("a".to_string(), both, Err(SessionError::NotFound)),
        (404, resized("a", 132, 50, "ERROR"))
    );
    assert_eq!(
        resize_terminal("a".to_string(), both, Err(SessionError::IoError)),
        (500, resized("a", 132, 50, "ERROR"))
    );
    assert_eq!(
        resize_terminal("a".to_string(), both, Err(SessionError::Closed)),
        (500, resized("a", 132, 50, "ERROR"))
    );
}

#[test]
fn an_interrupt_is_answered_by_its_outcome() {
    let reply = |status: &str| TerminalInterruptResponse {
        session_id: "a".to_string(),
        status: status.to_string(),
    };
    assert_eq!(interrupt_terminal("a".to_string(), Ok(())), (200, reply("interrupted")));
    assert_eq!(interrupt_terminal("a".to_string(), Err(SessionError::NotFound)), (404, reply("ERROR")));
    assert_eq!(interrupt_terminal("a".to_string(), Err(SessionError::IoError)), (500, reply("ERROR")));
    assert_eq!(interrupt_terminal("a".to_string(), Err(SessionError::Closed)), (500, reply("ERROR")));
}

#[test]
fn a_termination_is_answered_with_its_reason() {
    let reply = |reason: &str, status: &str| TerminalTerminateResponse {
        session_id: "a-1".to_string(),
        reason: reason.to_string(),
        status: status.to_string(),
    };
    assert_eq!(
        terminate_session("a-1".to_string(), Ok(()), "unused"),
        (200, reply("User terminated", "TERMINATED"))
    );
    assert_eq!(
        terminate_session("a-1".to_string(), Err(SessionError::NotFound), "unused"),
        (404, reply("Session not found: a-1", "ERROR"))
    );
    assert_eq!(
        terminate_session("a-1".to_string(), Err(SessionError::IoError), "No such process"),
        (500, reply("No such process", "ERROR"))
    );
}

#[test]
fn a_command_is_input_with_a_line_feed() {
    assert_eq!(command(Some("ls -la")).input(), Ok("ls -la\n".to_string()));
    assert_eq!(command(Some("")).input(), Ok("\n".to_string()));
    assert_eq!(command(None).input(), Err(SessionError::BadRequest));
}

#[test]
fn execute_is_answered_by_its_outcome() {
    assert_eq!(execute_command(command(None), Ok(())), (400, "Missing command".to_string()));
    assert_eq!(
        execute_command(command(Some("ls")), Ok(())),
        (200, "Command executed: ls".to_string())
    );
    assert_eq!(
        execute_command(command(Some("ls")), Err(SessionError::NotFound)),
        (404, "Session not found".to_string())
    );
    assert_eq!(
        execute_command(command(Some("ls")), Err(SessionError::IoError)),
        (500, "Failed to execute command".to_string())
    );
    assert_eq!(
        execute_command(command(Some("ls")), Err(SessionError::Closed)),
        (500, "Failed to execute command".to_string())
    );
}

#[test]
fn execute_check_tells_whether_the_command_was_written() {
    assert_eq!(execute_command_check(command(None), Ok(())), (400, false));
    assert_eq!(execute_command_check(command(Some("ls")), Ok(())), (200, true));
    assert_eq!(execute_command_check(command(Some("ls")), Err(SessionError::NotFound)), (404, false));
    assert_eq!(execute_command_check(command(Some("ls")), Err(SessionError::IoError)), (200, false));
    assert_eq!(execute_command_check(command(Some("ls")), Err(SessionError::Closed)), (200, false));
}
