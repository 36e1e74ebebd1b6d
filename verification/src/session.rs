//! One terminal session: its status, its activity clock and its subscribers.
//!
//! A subscriber is known here by a number that the session hands out when the
//! subscriber attaches. The sink that the number stands for, like the PTY of
//! the session, is held by the driver.

use crate::config::{Config, TerminalSize};
use crate::error::SessionError;
use crate::text::opt_text;
use vstd::prelude::*;

verus! {

/// Whether a session still accepts input.
#[derive(Clone, Copy, Debug, PartialEq, Eq, Structural)]
pub enum SessionStatus {
    Active,
    Terminated,
}

/// What attaching a subscriber gave.
#[derive(Clone, Copy, Debug, PartialEq, Eq, Structural)]
pub struct Attachment {
    /// The number by which the session knows the new subscriber.
    pub subscriber: u64,
    /// Whether the output pump of the session has to be started now.
    pub start_listener: bool,
}

/// What a session was asked for: a description that is kept with the session
/// as it was given, and that nothing enforces.
#[derive(Debug, PartialEq, Eq)]
pub struct SessionProfile {
    pub user_id: String,
    pub title: Option<String>,
    pub working_directory: String,
    pub shell_type: String,
    pub terminal_size: TerminalSize,
}

/// The description of a session as a mathematical value.
pub struct SessionProfileView {
    pub user_id: Seq<char>,
    pub title: Option<Seq<char>>,
    pub working_directory: Seq<char>,
    pub shell_type: Seq<char>,
    pub terminal_size: TerminalSize,
}

impl View for SessionProfile {
    type V = SessionProfileView;

    open spec fn view(&self) -> SessionProfileView {
        SessionProfileView {
            user_id: self.user_id@,
            title: opt_text(self.title),
            working_directory: self.working_directory@,
            shell_type: self.shell_type@,
            terminal_size: self.terminal_size,
        }
    }
}

/// The description of a session that nobody described: the user
/// `default_user`, no title, and the defaults of `config`.
pub open spec fn spec_default_profile(config: Config) -> SessionProfileView {
    SessionProfileView {
        user_id: "default_user"@,
        title: None,
        working_directory: config.terminal.default_working_directory@,
        shell_type: config.terminal.default_shell_type@,
        terminal_size: config.terminal.default_terminal_size,
    }
}

impl SessionProfile {
    /// The description of a session that nobody described.
    pub fn default_for(config: &Config) -> (profile: SessionProfile)
        ensures
            profile@ == spec_default_profile(*config),
    {
        SessionProfile {
            user_id: "default_user".to_owned(),
            title: None,
            working_directory: config.terminal.default_working_directory.clone(),
            shell_type: config.terminal.default_shell_type.clone(),
            terminal_size: config.terminal.default_terminal_size,
        }
    }
}

/// The latest of two instants.
pub open spec fn spec_later(a: u64, b: u64) -> u64 {
    if a >= b {
        a
    } else {
        b
    }
}

/// The instant `timeout` milliseconds after `from`, held at the largest
/// instant that can be written down.
pub open spec fn spec_deadline(from: u64, timeout: u64) -> u64 {
    if from + timeout > u64::MAX {
        u64::MAX
    } else {
        (from + timeout) as u64
    }
}

/// The instant `timeout` milliseconds after `from`; the largest instant there
/// is where the sum would pass it.
pub fn deadline(from: u64, timeout: u64) -> (at: u64)
    ensures
        at == spec_deadline(from, timeout),
{
    if timeout > u64::MAX - from {
        u64::MAX
    } else {
        from + timeout
    }
}

/// A session as a mathematical value.
pub struct SessionView {
    pub id: Seq<char>,
    pub status: SessionStatus,
    pub created_at: u64,
    pub last_active_at: u64,
    pub session_timeout: u64,
    /// The attached subscribers, in the order in which they attached.
    pub subscribers: Seq<u64>,
    /// The number that the next subscriber gets.
    pub next_subscriber: u64,
    /// Whether the output pump has been asked for.
    pub listener_started: bool,
    /// What the session was asked for.
    pub profile: SessionProfileView,
}

impl SessionView {
    /// A session as it is created at `now`.
    pub open spec fn fresh(
        id: Seq<char>,
        now: u64,
        session_timeout: u64,
        profile: SessionProfileView,
    ) -> SessionView {
        SessionView {
            id,
            profile,
            status: SessionStatus::Active,
            created_at: now,
            last_active_at: now,
            session_timeout,
            subscribers: Seq::empty(),
            next_subscriber: 0,
            listener_started: false,
        }
    }

    /// Subscribers are numbered in rising order, below the next number.
    pub open spec fn wf(self) -> bool {
        &&& forall|i: int, j: int|
            0 <= i < j < self.subscribers.len() ==> self.subscribers[i] < self.subscribers[j]
        &&& forall|i: int|
            0 <= i < self.subscribers.len() ==> self.subscribers[i] < self.next_subscriber
        &&& self.created_at <= self.last_active_at
    }

    /// The instant after which the session counts as idle for too long.
    pub open spec fn expires_at(self) -> u64 {
        spec_deadline(self.last_active_at, self.session_timeout)
    }

    /// The session has been idle for longer than its timeout at `now`.
    pub open spec fn is_expired(self, now: u64) -> bool {
        self.last_active_at + self.session_timeout < now
    }

    /// The session after activity was seen at `now`.
    pub open spec fn touched(self, now: u64) -> SessionView {
        SessionView { last_active_at: spec_later(self.last_active_at, now), ..self }
    }

    /// The session after a request for `status`: a terminated session stays
    /// terminated.
    pub open spec fn with_status(self, status: SessionStatus) -> SessionView {
        if self.status == SessionStatus::Terminated {
            self
        } else {
            SessionView { status, ..self }
        }
    }

    /// Whether a subscriber can attach: the session is active and has a number left.
    pub open spec fn attach_error(self) -> Option<SessionError> {
        if self.status == SessionStatus::Terminated {
            Some(SessionError::Closed)
        } else if self.next_subscriber == u64::MAX {
            Some(SessionError::Internal)
        } else {
            None
        }
    }

    /// The session after one more subscriber attached.
    pub open spec fn attached(self) -> SessionView {
        SessionView {
            subscribers: self.subscribers.push(self.next_subscriber),
            next_subscriber: (self.next_subscriber + 1) as u64,
            listener_started: true,
            ..self
        }
    }

    /// The session without the subscriber `subscriber`.
    pub open spec fn detached(self, subscriber: u64) -> SessionView {
        if self.subscribers.contains(subscriber) {
            SessionView {
                subscribers: self.subscribers.remove(self.subscribers.index_of(subscriber)),
                ..self
            }
        } else {
            self
        }
    }

    /// The session after it was closed: terminated, with no subscriber left.
    pub open spec fn closed(self) -> SessionView {
        SessionView { status: SessionStatus::Terminated, subscribers: Seq::empty(), ..self }
    }

    /// `self` is a later state of the session `earlier`: the same session,
    /// never back from terminated to active, never back in time.
    pub open spec fn follows(self, earlier: SessionView) -> bool {
        &&& self.id == earlier.id
        &&& self.profile == earlier.profile
        &&& self.created_at == earlier.created_at
        &&& self.session_timeout == earlier.session_timeout
        &&& (earlier.status == SessionStatus::Terminated ==> self.status
            == SessionStatus::Terminated)
        &&& earlier.last_active_at <= self.last_active_at
        &&& earlier.next_subscriber <= self.next_subscriber
        &&& (earlier.listener_started ==> self.listener_started)
    }
}

/// Whatever is done to a session, what comes of it is a later state of the
/// same session: a terminated session stays terminated, and the time of the
/// last activity does not go back.
pub proof fn lemma_later_states(
    session: SessionView,
    now: u64,
    status: SessionStatus,
    subscriber: u64,
)
    ensures
        session.touched(now).follows(session),
        session.with_status(status).follows(session),
        session.attach_error() is None ==> session.attached().follows(session),
        session.detached(subscriber).follows(session),
        session.closed().follows(session),
        session.closed().status == SessionStatus::Terminated,
        session.closed().closed() == session.closed(),
{
}

/// To be a later state carries over: a later state of a later state of a
/// session is a later state of the session.
pub proof fn lemma_follows_carries_over(first: SessionView, second: SessionView, third: SessionView)
    requires
        second.follows(first),
        third.follows(second),
    ensures
        third.follows(first),
        first.follows(first),
{
}

/// The output pump of a session is asked for at most once: the attach that
/// asks for it leaves the session with its pump asked for, and so does
/// everything that comes later, so that no later attach asks again.
pub proof fn lemma_pump_is_asked_for_once(session: SessionView, later: SessionView)
    requires
        session.attach_error() is None,
        later.follows(session.attached()),
    ensures
        session.attached().listener_started,
        later.listener_started,
{
}

/// A terminal session.
#[derive(Debug)]
pub struct Session {
    id: String,
    status: SessionStatus,
    created_at: u64,
    last_active_time: u64,
    session_timeout: u64,
    client_senders: Vec<u64>,
    next_sender: u64,
    listener_started: bool,
    profile: SessionProfile,
}

impl View for Session {
    type V = SessionView;

    closed spec fn view(&self) -> SessionView {
        SessionView {
            id: self.id@,
            status: self.status,
            created_at: self.created_at,
            last_active_at: self.last_active_time,
            session_timeout: self.session_timeout,
            subscribers: self.client_senders@,
            next_subscriber: self.next_sender,
            listener_started: self.listener_started,
            profile: self.profile@,
        }
    }
}

impl Session {
    /// A new, active session created at `now` (milliseconds since the epoch)
    /// that expires after `session_timeout` milliseconds without activity.
    pub fn new(id: String, now: u64, session_timeout: u64, profile: SessionProfile) -> (session:
        Session)
        ensures
            session@ == SessionView::fresh(id@, now, session_timeout, profile@),
            session@.wf(),
    {
        Session {
            id,
            profile,
            status: SessionStatus::Active,
            created_at: now,
            last_active_time: now,
            session_timeout,
            client_senders: Vec::new(),
            next_sender: 0,
            listener_started: false,
        }
    }

    /// The session's id.
    pub fn id(&self) -> (id: &String)
        ensures
            id@ == self@.id,
    {
        &self.id
    }

    /// What the session was asked for.
    pub fn profile(&self) -> (profile: &SessionProfile)
        ensures
            profile@ == self@.profile,
    {
        &self.profile
    }

    /// The session's status.
    pub fn get_status(&self) -> (status: SessionStatus)
        ensures
            status == self@.status,
    {
        self.status
    }

    /// Asks for a status. An active session takes it; a terminated session
    /// stays terminated.
    pub fn set_status(&mut self, new_status: SessionStatus)
        ensures
            final(self)@ == old(self)@.with_status(new_status),
            old(self)@.wf() ==> final(self)@.wf(),
    {
        match self.status {
            SessionStatus::Terminated => {},
            SessionStatus::Active => {
                self.status = new_status;
            },
        }
    }

    /// When the session was created.
    pub fn created_at(&self) -> (at: u64)
        ensures
            at == self@.created_at,
    {
        self.created_at
    }

    /// When the session last saw input or a resize.
    pub fn get_last_active_time(&self) -> (at: u64)
        ensures
            at == self@.last_active_at,
    {
        self.last_active_time
    }

    /// When the session expires unless it sees activity before.
    pub fn expires_at(&self) -> (at: u64)
        ensures
            at == self@.expires_at(),
    {
        deadline(self.last_active_time, self.session_timeout)
    }

    /// Records activity at `now`. The clock of a session never runs backwards:
    /// an instant before the last activity leaves it unchanged.
    pub fn update_last_active_time(&mut self, now: u64)
        ensures
            final(self)@ == old(self)@.touched(now),
            old(self)@.wf() ==> final(self)@.wf(),
    {
        if now > self.last_active_time {
            self.last_active_time = now;
        }
    }

    /// Whether the session has been idle for longer than its timeout at `now`.
    pub fn is_expired(&self, now: u64) -> (expired: bool)
        ensures
            expired == self@.is_expired(now),
            expired == (now > self@.expires_at()),
    {
        now > self.last_active_time && now - self.last_active_time > self.session_timeout
    }

    /// Attaches one more subscriber and gives it the next number. The first
    /// subscriber to attach is told to start the output pump. A terminated
    /// session takes no subscriber (`Closed`), nor does one that has run out
    /// of numbers (`Internal`); it is then left as it was.
    pub fn add_client_sender(&mut self) -> (outcome: Result<Attachment, SessionError>)
        requires
            old(self)@.wf(),
        ensures
            final(self)@.wf(),
            match outcome {
                Ok(attachment) => {
                    &&& old(self)@.attach_error() is None
                    &&& final(self)@ == old(self)@.attached()
                    &&& attachment.subscriber == old(self)@.next_subscriber
                    &&& attachment.start_listener == !old(self)@.listener_started
                },
                Err(error) => {
                    &&& old(self)@.attach_error() == Some(error)
                    &&& final(self)@ == old(self)@
                },
            },
    {
        match self.status {
            SessionStatus::Terminated => {
                return Err(SessionError::Closed);
            },
            SessionStatus::Active => {},
        }
        if self.next_sender == u64::MAX {
            return Err(SessionError::Internal);
        }
        let subscriber: u64 = self.next_sender;
        let start_listener: bool = !self.listener_started;
        self.client_senders.push(subscriber);
        self.next_sender = subscriber + 1;
        self.listener_started = true;
        Ok(Attachment { subscriber, start_listener })
    }

    /// Whether the output pump of the session has been asked for.
    pub fn listener_started(&self) -> (started: bool)
        ensures
            started == self@.listener_started,
    {
        self.listener_started
    }

    /// The subscribers attached now, in the order in which they attached.
    pub fn client_senders(&self) -> (subscribers: Vec<u64>)
        ensures
            subscribers@ == self@.subscribers,
    {
        let mut subscribers: Vec<u64> = Vec::new();
        let mut i: usize = 0;
        while i < self.client_senders.len()
            invariant
                i <= self.client_senders@.len(),
                subscribers@ == self.client_senders@.take(i as int),
            decreases self.client_senders@.len() - i,
        {
            subscribers.push(self.client_senders[i]);
            i = i + 1;
        }
        subscribers
    }

    /// Removes a subscriber, as after a failed send. Says whether it was attached.
    pub fn remove_client_sender(&mut self, subscriber: u64) -> (removed: bool)
        requires
            old(self)@.wf(),
        ensures
            final(self)@.wf(),
            final(self)@ == old(self)@.detached(subscriber),
            removed == old(self)@.subscribers.contains(subscriber),
    {
        let mut i: usize = 0;
        while i < self.client_senders.len()
            invariant
                i <= self.client_senders@.len(),
                *self == *old(self),
                self@.wf(),
                forall|k: int| 0 <= k < i ==> self.client_senders@[k] != subscriber,
            decreases self.client_senders@.len() - i,
        {
            if self.client_senders[i] == subscriber {
                self.client_senders.remove(i);
                return true;
            }
            i = i + 1;
        }
        false
    }

    /// Closes the session: it is terminated and all its subscribers are dropped.
    /// Closing a closed session changes nothing.
    pub fn close(&mut self)
        ensures
            final(self)@ == old(self)@.closed(),
            old(self)@.wf() ==> final(self)@.wf(),
    {
        self.status = SessionStatus::Terminated;
        self.client_senders = Vec::new();
    }
}

} // verus!
