//! The control API: what each request is answered with.
//!
//! A reply is a status code and a body. The functions here build the reply
//! from the parameters of a request and from what the session subsystem made
//! of it; routing and the wire format are the driver's.

use crate::config::Config;
use crate::error::SessionError;
use crate::registry::SessionManager;
use crate::session::{
    deadline, spec_deadline, Session, SessionProfile, SessionProfileView, SessionStatus,
    SessionView,
};
use crate::text::{opt_text, with_newline};
use vstd::prelude::*;

verus! {

/// The request was carried out.
pub const OK: u16 = 200;

/// A session was created.
pub const CREATED: u16 = 201;

/// The request lacks a parameter.
pub const BAD_REQUEST: u16 = 400;

/// There is no such session.
pub const NOT_FOUND: u16 = 404;

/// The request failed on the server.
pub const INTERNAL_SERVER_ERROR: u16 = 500;

/// The body that answers a resize.
#[derive(Debug, PartialEq, Eq)]
pub struct TerminalResizeResponse {
    pub session_id: String,
    pub terminal_size: TerminalSize,
    pub status: String,
}

/// The body that answers an interrupt.
#[derive(Debug, PartialEq, Eq)]
pub struct TerminalInterruptResponse {
    pub session_id: String,
    pub status: String,
}

/// The body that answers a termination.
#[derive(Debug, PartialEq, Eq)]
pub struct TerminalTerminateResponse {
    pub session_id: String,
    pub reason: String,
    pub status: String,
}

/// The body that answers a question for the status.
#[derive(Debug, PartialEq, Eq)]
pub struct TerminalStatusResponse {
    pub status: String,
}

/// A terminal's size in a body.
#[derive(Clone, Copy, Debug, PartialEq, Eq, Structural)]
pub struct TerminalSize {
    pub columns: u32,
    pub rows: u32,
}

/// A session as the control API shows it. Times are milliseconds since the epoch.
#[derive(Debug, PartialEq, Eq)]
pub struct TerminalSession {
    pub id: String,
    pub user_id: String,
    pub title: Option<String>,
    pub working_directory: String,
    pub shell_type: String,
    pub status: String,
    pub terminal_size: TerminalSize,
    pub created_at: u64,
    pub updated_at: u64,
    pub last_active_time: u64,
    pub expired_at: u64,
}

/// The parameters of a request for a new session.
#[derive(Debug, PartialEq, Eq)]
pub struct CreateSessionParams {
    pub user_id: Option<String>,
    pub title: Option<String>,
    pub working_directory: Option<String>,
    pub shell_type: Option<String>,
    pub columns: Option<u32>,
    pub rows: Option<u32>,
}

/// The parameters of a request for a resize.
#[derive(Clone, Copy, Debug, PartialEq, Eq, Structural)]
pub struct ResizeParams {
    pub cols: Option<u32>,
    pub rows: Option<u32>,
}

/// The parameters of a request to run a command.
#[derive(Debug, PartialEq, Eq)]
pub struct ExecuteParams {
    pub command: Option<String>,
    /// Advisory; nothing waits for the command.
    pub timeout_ms: Option<u64>,
}

/// A session body as a mathematical value.
pub struct TerminalSessionView {
    pub id: Seq<char>,
    pub user_id: Seq<char>,
    pub title: Option<Seq<char>>,
    pub working_directory: Seq<char>,
    pub shell_type: Seq<char>,
    pub status: Seq<char>,
    pub terminal_size: TerminalSize,
    pub created_at: u64,
    pub updated_at: u64,
    pub last_active_time: u64,
    pub expired_at: u64,
}

impl View for TerminalSession {
    type V = TerminalSessionView;

    open spec fn view(&self) -> TerminalSessionView {
        TerminalSessionView {
            id: self.id@,
            user_id: self.user_id@,
            title: opt_text(self.title),
            working_directory: self.working_directory@,
            shell_type: self.shell_type@,
            status: self.status@,
            terminal_size: self.terminal_size,
            created_at: self.created_at,
            updated_at: self.updated_at,
            last_active_time: self.last_active_time,
            expired_at: self.expired_at,
        }
    }
}

/// The body of a session whose times all are `now`, and which expires one
/// idle timeout of `config` later.
pub open spec fn spec_terminal_session(
    id: Seq<char>,
    user_id: Seq<char>,
    title: Option<Seq<char>>,
    working_directory: Seq<char>,
    shell_type: Seq<char>,
    status: Seq<char>,
    columns: u32,
    rows: u32,
    config: Config,
    now: u64,
) -> TerminalSessionView {
    TerminalSessionView {
        id,
        user_id,
        title,
        working_directory,
        shell_type,
        status,
        terminal_size: TerminalSize { columns, rows },
        created_at: now,
        updated_at: now,
        last_active_time: now,
        expired_at: spec_deadline(now, config.terminal.session_timeout),
    }
}

/// The body of a session of which only id and status are known: the rest is
/// taken from the defaults of `config`.
pub open spec fn spec_default_session(
    id: Seq<char>,
    user_id: Seq<char>,
    status: Seq<char>,
    config: Config,
    now: u64,
) -> TerminalSessionView {
    spec_terminal_session(
        id,
        user_id,
        None,
        config.terminal.default_working_directory@,
        config.terminal.default_shell_type@,
        status,
        config.terminal.default_terminal_size.columns,
        config.terminal.default_terminal_size.rows,
        config,
        now,
    )
}

/// The body that shows a registered session: its description, its status,
/// the time of its creation, the time of its last activity, also as the time
/// of its last update, and the time at which it expires.
pub open spec fn spec_session_body(session: SessionView) -> TerminalSessionView {
    TerminalSessionView {
        id: session.id,
        user_id: session.profile.user_id,
        title: session.profile.title,
        working_directory: session.profile.working_directory,
        shell_type: session.profile.shell_type,
        status: spec_status_text(session.status),
        terminal_size: TerminalSize {
            columns: session.profile.terminal_size.columns,
            rows: session.profile.terminal_size.rows,
        },
        created_at: session.created_at,
        updated_at: session.last_active_at,
        last_active_time: session.last_active_at,
        expired_at: session.expires_at(),
    }
}

/// The description of the session that a request asks for: what the request
/// gives, and where it gives none, what the configuration gives. `None` for a
/// request that names no user.
pub open spec fn spec_requested_profile(params: CreateSessionParams, config: Config) -> Option<
    SessionProfileView,
> {
    match params.user_id {
        Some(user) => Some(
            SessionProfileView {
                user_id: user@,
                title: opt_text(params.title),
                working_directory: spec_text_or(
                    params.working_directory,
                    config.terminal.default_working_directory,
                ),
                shell_type: spec_text_or(params.shell_type, config.terminal.default_shell_type),
                terminal_size: crate::config::TerminalSize {
                    columns: spec_number_or(
                        params.columns,
                        config.terminal.default_terminal_size.columns,
                    ),
                    rows: spec_number_or(params.rows, config.terminal.default_terminal_size.rows),
                },
            },
        ),
        None => None,
    }
}

/// How a status is written in a body.
pub open spec fn spec_status_text(status: SessionStatus) -> Seq<char> {
    match status {
        SessionStatus::Active => "ACTIVE"@,
        SessionStatus::Terminated => "TERMINATED"@,
    }
}

/// The status code for the outcome of an operation on a session that is to be
/// there: 200 on success, 404 where the session is missing, 500 for any other
/// failure.
pub open spec fn spec_outcome_code(outcome: Result<(), SessionError>) -> u16 {
    match outcome {
        Ok(_) => OK,
        Err(SessionError::NotFound) => NOT_FOUND,
        Err(_) => INTERNAL_SERVER_ERROR,
    }
}

/// The text that a value or, in its absence, a default holds.
pub open spec fn spec_text_or(value: Option<String>, default: String) -> Seq<char> {
    match value {
        Some(text) => text@,
        None => default@,
    }
}

/// The number given or, in its absence, the default.
pub open spec fn spec_number_or(value: Option<u32>, default: u32) -> u32 {
    match value {
        Some(n) => n,
        None => default,
    }
}

/// How a status is written in a body: `ACTIVE` or `TERMINATED`.
pub fn status_text(status: SessionStatus) -> (text: String)
    ensures
        text@ == spec_status_text(status),
{
    match status {
        SessionStatus::Active => "ACTIVE".to_owned(),
        SessionStatus::Terminated => "TERMINATED".to_owned(),
    }
}

/// The status code for the outcome of an operation on a session.
pub fn outcome_code(outcome: &Result<(), SessionError>) -> (code: u16)
    ensures
        code == spec_outcome_code(*outcome),
{
    match outcome {
        Ok(_) => OK,
        Err(SessionError::NotFound) => NOT_FOUND,
        Err(_) => INTERNAL_SERVER_ERROR,
    }
}

/// The body of a session as of `now`: created, updated and last active at
/// `now`, and expiring one idle timeout later.
pub fn create_default_terminal_session(
    id: String,
    user_id: String,
    title: Option<String>,
    working_directory: String,
    shell_type: String,
    status: String,
    columns: u32,
    rows: u32,
    config: &Config,
    now: u64,
) -> (session: TerminalSession)
    ensures
        session@ == spec_terminal_session(
            id@,
            user_id@,
            opt_text(title),
            working_directory@,
            shell_type@,
            status@,
            columns,
            rows,
            *config,
            now,
        ),
{
    TerminalSession {
        id,
        user_id,
        title,
        working_directory,
        shell_type,
        status,
        terminal_size: TerminalSize { columns, rows },
        created_at: now,
        updated_at: now,
        last_active_time: now,
        expired_at: deadline(now, config.terminal.session_timeout),
    }
}

/// The body of a session of which only id and status are known.
fn default_session(
    id: String,
    user_id: String,
    status: String,
    config: &Config,
    now: u64,
) -> (session: TerminalSession)
    ensures
        session@ == spec_default_session(id@, user_id@, status@, *config, now),
{
    create_default_terminal_session(
        id,
        user_id,
        None,
        config.terminal.default_working_directory.clone(),
        config.terminal.default_shell_type.clone(),
        status,
        config.terminal.default_terminal_size.columns,
        config.terminal.default_terminal_size.rows,
        config,
        now,
    )
}

/// The body that shows a registered session.
pub fn session_body(session: &Session) -> (body: TerminalSession)
    ensures
        body@ == spec_session_body(session@),
{
    let profile = session.profile();
    let title: Option<String> = match &profile.title {
        Some(title) => Some(title.clone()),
        None => None,
    };
    TerminalSession {
        id: session.id().clone(),
        user_id: profile.user_id.clone(),
        title,
        working_directory: profile.working_directory.clone(),
        shell_type: profile.shell_type.clone(),
        status: status_text(session.get_status()),
        terminal_size: TerminalSize {
            columns: profile.terminal_size.columns,
            rows: profile.terminal_size.rows,
        },
        created_at: session.created_at(),
        updated_at: session.get_last_active_time(),
        last_active_time: session.get_last_active_time(),
        expired_at: session.expires_at(),
    }
}

impl CreateSessionParams {
    /// Whether the request names its user, without whom no session is created.
    pub fn has_user(&self) -> (yes: bool)
        ensures
            yes == (self.user_id is Some),
    {
        self.user_id.is_some()
    }

    /// The description of the session that the request asks for. A request
    /// that names no user is a bad request: for it no session is created.
    pub fn profile(&self, config: &Config) -> (profile: Result<SessionProfile, SessionError>)
        ensures
            match profile {
                Ok(described) => spec_requested_profile(*self, *config) == Some(described@),
                Err(error) => error == SessionError::BadRequest && spec_requested_profile(
                    *self,
                    *config,
                ) is None,
            },
    {
        match &self.user_id {
            None => Err(SessionError::BadRequest),
            Some(user) => {
                let title: Option<String> = match &self.title {
                    Some(title) => Some(title.clone()),
                    None => None,
                };
                let working_directory: String = match &self.working_directory {
                    Some(directory) => directory.clone(),
                    None => config.terminal.default_working_directory.clone(),
                };
                let shell_type: String = match &self.shell_type {
                    Some(shell) => shell.clone(),
                    None => config.terminal.default_shell_type.clone(),
                };
                let columns: u32 = match self.columns {
                    Some(n) => n,
                    None => config.terminal.default_terminal_size.columns,
                };
                let rows: u32 = match self.rows {
                    Some(n) => n,
                    None => config.terminal.default_terminal_size.rows,
                };
                Ok(
                    SessionProfile {
                        user_id: user.clone(),
                        title,
                        working_directory,
                        shell_type,
                        terminal_size: crate::config::TerminalSize { columns, rows },
                    },
                )
            },
        }
    }
}

impl ResizeParams {
    /// The size asked for, as columns and rows. A request that lacks one of
    /// the two numbers is a bad request.
    pub fn size(&self) -> (size: Result<(u32, u32), SessionError>)
        ensures
            size == match (self.cols, self.rows) {
                (Some(cols), Some(rows)) => Ok::<(u32, u32), SessionError>((cols, rows)),
                _ => Err::<(u32, u32), SessionError>(SessionError::BadRequest),
            },
    {
        match (self.cols, self.rows) {
            (Some(cols), Some(rows)) => Ok((cols, rows)),
            _ => Err(SessionError::BadRequest),
        }
    }
}

impl ExecuteParams {
    /// The input that runs the command: the command and a line feed. A
    /// request that gives no command is a bad request.
    pub fn input(&self) -> (input: Result<String, SessionError>)
        ensures
            match input {
                Ok(line) => self.command is Some && line@ == self.command->0@.push('\n'),
                Err(error) => error == SessionError::BadRequest && self.command is None,
            },
    {
        match &self.command {
            Some(command) => Ok(with_newline(command.as_str())),
            None => Err(SessionError::BadRequest),
        }
    }
}

/// Answers a request for a new session. `created` is what creating the
/// session gave; it is not looked at where the request names no user.
///
/// - No user: 400, and a body without id and user, in status `ERROR`.
/// - Created: 201, and the body of the session, in status `ACTIVE`.
/// - Not created: 500, and a body without id, in status `ERROR`.
///
/// Title, working directory, shell type and size are those of the request,
/// and where it gives none, those of the configuration.
pub fn create_session(
    params: CreateSessionParams,
    created: Result<String, SessionError>,
    config: &Config,
    now: u64,
) -> (reply: (u16, TerminalSession))
    ensures
        reply.0 == match (params.user_id, created) {
            (None, _) => BAD_REQUEST,
            (Some(_), Ok(_)) => CREATED,
            (Some(_), Err(_)) => INTERNAL_SERVER_ERROR,
        },
        reply.1@ == spec_terminal_session(
            match (params.user_id, created) {
                (Some(_), Ok(id)) => id@,
                _ => Seq::<char>::empty(),
            },
            match params.user_id {
                Some(user) => user@,
                None => Seq::<char>::empty(),
            },
            opt_text(params.title),
            spec_text_or(params.working_directory, config.terminal.default_working_directory),
            spec_text_or(params.shell_type, config.terminal.default_shell_type),
            match (params.user_id, created) {
                (Some(_), Ok(_)) => "ACTIVE"@,
                _ => "ERROR"@,
            },
            spec_number_or(params.columns, config.terminal.default_terminal_size.columns),
            spec_number_or(params.rows, config.terminal.default_terminal_size.rows),
            *config,
            now,
        ),
{
    let working_directory: String = match params.working_directory {
        Some(directory) => directory,
        None => config.terminal.default_working_directory.clone(),
    };
    let shell_type: String = match params.shell_type {
        Some(shell) => shell,
        None => config.terminal.default_shell_type.clone(),
    };
    let columns: u32 = match params.columns {
        Some(n) => n,
        None => config.terminal.default_terminal_size.columns,
    };
    let rows: u32 = match params.rows {
        Some(n) => n,
        None => config.terminal.default_terminal_size.rows,
    };
    match params.user_id {
        None => {
            let session = create_default_terminal_session(
                String::new(),
                String::new(),
                params.title,
                working_directory,
                shell_type,
                "ERROR".to_owned(),
                columns,
                rows,
                config,
                now,
            );
            (BAD_REQUEST, session)
        },
        Some(user) => match created {
            Ok(id) => {
                let session = create_default_terminal_session(
                    id,
                    user,
                    params.title,
                    working_directory,
                    shell_type,
                    "ACTIVE".to_owned(),
                    columns,
                    rows,
                    config,
                    now,
                );
                (CREATED, session)
            },
            Err(_) => {
                let session = create_default_terminal_session(
                    String::new(),
                    user,
                    params.title,
                    working_directory,
                    shell_type,
                    "ERROR".to_owned(),
                    columns,
                    rows,
                    config,
                    now,
                );
                (INTERNAL_SERVER_ERROR, session)
            },
        },
    }
}

/// Answers a request for all sessions: 200, and the body of each session of
/// the registry, in the order in which the sessions were created.
pub fn get_all_sessions(manager: &SessionManager) -> (reply: (u16, Vec<TerminalSession>))
    ensures
        reply.0 == OK,
        reply.1@.len() == manager@.sessions.len(),
        forall|k: int|
            0 <= k < reply.1@.len() ==> (#[trigger] reply.1@[k])@ == spec_session_body(
                manager@.sessions[k],
            ),
{
    let mut sessions: Vec<TerminalSession> = Vec::new();
    let mut i: usize = 0;
    while i < manager.session_count()
        invariant
            i <= manager@.sessions.len(),
            sessions@.len() == i,
            forall|k: int|
                0 <= k < i ==> (#[trigger] sessions@[k])@ == spec_session_body(
                    manager@.sessions[k],
                ),
        decreases manager@.sessions.len() - i,
    {
        sessions.push(session_body(manager.session_at(i)));
        i = i + 1;
    }
    (OK, sessions)
}

/// Answers a request for one session: 200 and its body; where there is no
/// such session, 404 and a body in status `ERROR` without a user, with the
/// defaults of the configuration and `now` for its times.
pub fn get_session_by_id(manager: &SessionManager, id: String, now: u64) -> (reply: (
    u16,
    TerminalSession,
))
    requires
        manager.wf(),
    ensures
        reply.0 == if manager@.contains(id@) {
            OK
        } else {
            NOT_FOUND
        },
        reply.1@ == if manager@.contains(id@) {
            spec_session_body(manager@.session(id@))
        } else {
            spec_default_session(
                id@,
                Seq::<char>::empty(),
                "ERROR"@,
                manager.spec_config(),
                now,
            )
        },
{
    match manager.get_session(id.as_str()) {
        Some(session) => (OK, session_body(session)),
        None => {
            let session = default_session(
                id,
                String::new(),
                "ERROR".to_owned(),
                manager.config(),
                now,
            );
            (NOT_FOUND, session)
        },
    }
}

/// Answers a request for the status of a session: 200 and the status; where
/// there is no such session, 404 and `ERROR`.
pub fn get_session_status(manager: &SessionManager, id: &str) -> (reply: (
    u16,
    TerminalStatusResponse,
))
    requires
        manager.wf(),
    ensures
        reply.0 == if manager@.contains(id@) {
            OK
        } else {
            NOT_FOUND
        },
        reply.1.status@ == if manager@.contains(id@) {
            spec_status_text(manager@.session(id@).status)
        } else {
            "ERROR"@
        },
{
    match manager.get_session_status(id) {
        Ok(status) => (OK, TerminalStatusResponse { status: status_text(status) }),
        Err(_) => (NOT_FOUND, TerminalStatusResponse { status: "ERROR".to_owned() }),
    }
}

/// Answers a request for a resize. `outcome` is what resizing gave; it is not
/// looked at where the request lacks a number.
///
/// - No columns: 400, size 0 by 0. No rows: 400, the columns by 0.
/// - Resized: 200 and the size, in status `ACTIVE`.
/// - No such session: 404. Any other failure: 500.
///
/// Every body but that of success is in status `ERROR`.
pub fn resize_terminal(
    id: String,
    params: ResizeParams,
    outcome: Result<(), SessionError>,
) -> (reply: (u16, TerminalResizeResponse))
    ensures
        reply.1.session_id@ == id@,
        match (params.cols, params.rows) {
            (None, _) => {
                &&& reply.0 == BAD_REQUEST
                &&& reply.1.terminal_size == (TerminalSize { columns: 0, rows: 0 })
                &&& reply.1.status@ == "ERROR"@
            },
            (Some(cols), None) => {
                &&& reply.0 == BAD_REQUEST
                &&& reply.1.terminal_size == (TerminalSize { columns: cols, rows: 0 })
                &&& reply.1.status@ == "ERROR"@
            },
            (Some(cols), Some(rows)) => {
                &&& reply.0 == spec_outcome_code(outcome)
                &&& reply.1.terminal_size == (TerminalSize { columns: cols, rows })
                &&& reply.1.status@ == if outcome is Ok {
                    "ACTIVE"@
                } else {
                    "ERROR"@
                }
            },
        },
{
    match params.cols {
        None => (
            BAD_REQUEST,
            TerminalResizeResponse {
                session_id: id,
                terminal_size: TerminalSize { columns: 0, rows: 0 },
                status: "ERROR".to_owned(),
            },
        ),
        Some(cols) => match params.rows {
            None => (
                BAD_REQUEST,
                TerminalResizeResponse {
                    session_id: id,
                    terminal_size: TerminalSize { columns: cols, rows: 0 },
                    status: "ERROR".to_owned(),
                },
            ),
            Some(rows) => {
                let code = outcome_code(&outcome);
                let status: String = match outcome {
                    Ok(_) => "ACTIVE".to_owned(),
                    Err(_) => "ERROR".to_owned(),
                };
                (
                    code,
                    TerminalResizeResponse {
                        session_id: id,
                        terminal_size: TerminalSize { columns: cols, rows },
                        status,
                    },
                )
            },
        },
    }
}

/// Answers a request for an interrupt, of which `outcome` is what it gave:
/// 200 and `interrupted`; 404 where there is no such session, 500 for any
/// other failure, both with `ERROR`.
pub fn interrupt_terminal(id: String, outcome: Result<(), SessionError>) -> (reply: (
    u16,
    TerminalInterruptResponse,
))
    ensures
        reply.0 == spec_outcome_code(outcome),
        reply.1.session_id@ == id@,
        reply.1.status@ == if outcome is Ok {
            "interrupted"@
        } else {
            "ERROR"@
        },
{
    let code = outcome_code(&outcome);
    let status: String = match outcome {
        Ok(_) => "interrupted".to_owned(),
        Err(_) => "ERROR".to_owned(),
    };
    (code, TerminalInterruptResponse { session_id: id, status })
}

/// Why a termination failed, in words: for a missing session that it was not
/// found, with its id; for any other failure `detail`, the words of the
/// failure itself.
pub open spec fn spec_failure_reason(error: SessionError, id: Seq<char>, detail: Seq<char>) -> Seq<
    char,
> {
    if error == SessionError::NotFound {
        "Session not found: "@ + id
    } else {
        detail
    }
}

/// Answers a request to terminate a session, of which `outcome` is what it
/// gave: 200, the reason `User terminated` and `TERMINATED`; 404 where there
/// is no such session, 500 for any other failure, both with `ERROR` and the
/// reason of the failure, for which `detail` are the words of a failure other
/// than a missing session.
pub fn terminate_session(id: String, outcome: Result<(), SessionError>, detail: &str) -> (reply: (
    u16,
    TerminalTerminateResponse,
))
    ensures
        reply.0 == spec_outcome_code(outcome),
        reply.1.session_id@ == id@,
        reply.1.status@ == if outcome is Ok {
            "TERMINATED"@
        } else {
            "ERROR"@
        },
        reply.1.reason@ == match outcome {
            Ok(_) => "User terminated"@,
            Err(error) => spec_failure_reason(error, id@, detail@),
        },
{
    let code = outcome_code(&outcome);
    match outcome {
        Ok(_) => (
            code,
            TerminalTerminateResponse {
                session_id: id,
                reason: "User terminated".to_owned(),
                status: "TERMINATED".to_owned(),
            },
        ),
        Err(error) => {
            let reason: String = match error {
                SessionError::NotFound => "Session not found: ".to_owned().concat(id.as_str()),
                _ => detail.to_owned(),
            };
            (
                code,
                TerminalTerminateResponse { session_id: id, reason, status: "ERROR".to_owned() },
            )
        },
    }
}

/// Answers a request to run a command, of which `outcome` is what writing it
/// to the session gave; it is not looked at where the request gives no
/// command.
///
/// - No command: 400, `Missing command`.
/// - No such session: 404, `Session not found`.
/// - Written: 200, `Command executed: ` and the command. Nothing waits for
///   the command to end.
/// - Any other failure: 500, `Failed to execute command`.
pub fn execute_command(params: ExecuteParams, outcome: Result<(), SessionError>) -> (reply: (
    u16,
    String,
))
    ensures
        match params.command {
            None => reply.0 == BAD_REQUEST && reply.1@ == "Missing command"@,
            Some(command) => {
                &&& reply.0 == spec_outcome_code(outcome)
                &&& reply.1@ == match outcome {
                    Ok(_) => "Command executed: "@ + command@,
                    Err(SessionError::NotFound) => "Session not found"@,
                    Err(_) => "Failed to execute command"@,
                }
            },
        },
{
    match params.command {
        None => (BAD_REQUEST, "Missing command".to_owned()),
        Some(command) => {
            let code = outcome_code(&outcome);
            let body: String = match outcome {
                Ok(_) => "Command executed: ".to_owned().concat(command.as_str()),
                Err(SessionError::NotFound) => "Session not found".to_owned(),
                Err(_) => "Failed to execute command".to_owned(),
            };
            (code, body)
        },
    }
}

/// Answers a request to run a command and say whether that worked: 400 and
/// `false` where no command is given, 404 and `false` where there is no such
/// session, else 200 and whether the command was written to the session.
pub fn execute_command_check(params: ExecuteParams, outcome: Result<(), SessionError>) -> (reply: (
    u16,
    bool,
))
    ensures
        reply == match params.command {
            None => (BAD_REQUEST, false),
            Some(_) => match outcome {
                Ok(_) => (OK, true),
                Err(SessionError::NotFound) => (NOT_FOUND, false),
                Err(_) => (OK, false),
            },
        },
{
    match params.command {
        None => (BAD_REQUEST, false),
        Some(_) => match outcome {
            Ok(_) => (OK, true),
            Err(SessionError::NotFound) => (NOT_FOUND, false),
            Err(_) => (OK, false),
        },
    }
}

} // verus!
