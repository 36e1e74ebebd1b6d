//! The registry of sessions: creation, lookup, activity, removal and the
//! sweep of idle sessions.
//!
//! The registry is a plain value. A server shares it behind one lock and calls
//! one function per critical section; spawning and killing processes happen
//! outside, before or after the call.
//!
//! The registry keeps every id that it gave to a session, also after the
//! session is gone, and gives none of them to another session.

use crate::config::Config;
use crate::error::SessionError;
use crate::ids::{is_uuid_text, new_v4_text};
use crate::pty::{spec_planned, spec_window_size, TerminalProcess, WindowSize};
use crate::session::{
    spec_default_profile, Attachment, Session, SessionProfile, SessionProfileView, SessionStatus,
    SessionView,
};
use crate::text::{opt_str_text, same_text, texts};
use std::sync::Arc;
use vstd::prelude::*;
use vstd::utf8::encode_utf8;

verus! {

/// The registry as a mathematical value: its sessions in the order in which
/// they were created, the idle timeout that new sessions get, and every id
/// that the registry ever gave to a session, in the order in which it gave
/// them.
pub struct RegistryView {
    pub sessions: Seq<SessionView>,
    pub session_timeout: u64,
    pub issued: Seq<Seq<char>>,
}

/// How often the expiry check runs, in milliseconds.
pub const EXPIRY_CHECK_PERIOD_MS: u64 = 60_000;

/// The sessions that are expired at `now`.
pub open spec fn expired_at(now: u64) -> spec_fn(SessionView) -> bool {
    |s: SessionView| s.is_expired(now)
}

/// The sessions that are not expired at `now`.
pub open spec fn live_at(now: u64) -> spec_fn(SessionView) -> bool {
    |s: SessionView| !s.is_expired(now)
}

/// The ids of these sessions, one for one.
pub open spec fn ids_of(sessions: Seq<SessionView>) -> Seq<Seq<char>> {
    sessions.map_values(|s: SessionView| s.id)
}

impl RegistryView {
    /// Some session has this id.
    pub open spec fn contains(self, id: Seq<char>) -> bool {
        exists|i: int| 0 <= i < self.sessions.len() && (#[trigger] self.sessions[i]).id == id
    }

    /// Where the session with this id stands.
    pub open spec fn position(self, id: Seq<char>) -> int {
        choose|i: int| 0 <= i < self.sessions.len() && (#[trigger] self.sessions[i]).id == id
    }

    /// The session with this id.
    pub open spec fn session(self, id: Seq<char>) -> SessionView {
        self.sessions[self.position(id)]
    }

    /// Every session is well formed, no two have the same id, the id of every
    /// session is among the ids given out, and no id was given out twice.
    pub open spec fn wf(self) -> bool {
        &&& forall|i: int| 0 <= i < self.sessions.len() ==> (#[trigger] self.sessions[i]).wf()
        &&& forall|i: int, j: int|
            0 <= i < j < self.sessions.len() ==> (#[trigger] self.sessions[i]).id != (
            #[trigger] self.sessions[j]).id
        &&& forall|i: int|
            0 <= i < self.sessions.len() ==> self.issued.contains(
                (#[trigger] self.sessions[i]).id,
            )
        &&& forall|i: int, j: int|
            0 <= i < j < self.issued.len() ==> #[trigger] self.issued[i]
                != #[trigger] self.issued[j]
    }

    /// The ids of the sessions, in the order of the sessions.
    pub open spec fn ids(self) -> Seq<Seq<char>> {
        ids_of(self.sessions)
    }

    /// The registry with the session `id` replaced by `session`.
    pub open spec fn replaced(self, id: Seq<char>, session: SessionView) -> RegistryView {
        if self.contains(id) {
            RegistryView { sessions: self.sessions.update(self.position(id), session), ..self }
        } else {
            self
        }
    }

    /// The registry with a session created at `now` under `id` added.
    pub open spec fn created(
        self,
        id: Seq<char>,
        now: u64,
        profile: SessionProfileView,
    ) -> RegistryView {
        RegistryView {
            sessions: self.sessions.push(
                SessionView::fresh(id, now, self.session_timeout, profile),
            ),
            issued: self.issued.push(id),
            ..self
        }
    }

    /// The registry without the session `id`.
    pub open spec fn removed(self, id: Seq<char>) -> RegistryView {
        if self.contains(id) {
            RegistryView { sessions: self.sessions.remove(self.position(id)), ..self }
        } else {
            self
        }
    }

    /// The registry without the sessions that are expired at `now`.
    pub open spec fn swept(self, now: u64) -> RegistryView {
        RegistryView { sessions: self.sessions.filter(live_at(now)), ..self }
    }

    /// The ids of the sessions that are expired at `now`, in the order of the sessions.
    pub open spec fn expired_ids(self, now: u64) -> Seq<Seq<char>> {
        ids_of(self.sessions.filter(expired_at(now)))
    }

    /// Why the session `id` takes no input or resize: it is missing, or terminated.
    pub open spec fn access_error(self, id: Seq<char>) -> Option<SessionError> {
        if !self.contains(id) {
            Some(SessionError::NotFound)
        } else if self.session(id).status == SessionStatus::Terminated {
            Some(SessionError::Closed)
        } else {
            None
        }
    }

    /// Why the session `id` takes no subscriber.
    pub open spec fn attach_error(self, id: Seq<char>) -> Option<SessionError> {
        if !self.contains(id) {
            Some(SessionError::NotFound)
        } else {
            self.session(id).attach_error()
        }
    }

    /// The registry after input or a resize was offered to the session `id`
    /// at `now`: the activity is recorded where the session takes it.
    pub open spec fn after_activity(self, id: Seq<char>, now: u64) -> RegistryView {
        if self.access_error(id) is None {
            self.replaced(id, self.session(id).touched(now))
        } else {
            self
        }
    }

    /// The registry after a subscriber asked to attach to the session `id`.
    pub open spec fn after_attach(self, id: Seq<char>) -> RegistryView {
        if self.attach_error(id) is None {
            self.replaced(id, self.session(id).attached())
        } else {
            self
        }
    }

    /// The registry after the subscriber `subscriber` of the session `id` was
    /// dropped.
    pub open spec fn after_detach(self, id: Seq<char>, subscriber: u64) -> RegistryView {
        self.replaced(id, self.session(id).detached(subscriber))
    }

    /// The registry after the subscribers `dropped` of the session `id` were
    /// dropped, one after the other.
    pub open spec fn after_detach_all(self, id: Seq<char>, dropped: Seq<u64>) -> RegistryView
        decreases dropped.len(),
    {
        if dropped.len() == 0 {
            self
        } else {
            self.after_detach_all(id, dropped.drop_last()).after_detach(id, dropped.last())
        }
    }

    /// The registry after the child of the session `id` was seen to have exited.
    pub open spec fn after_exit(self, id: Seq<char>) -> RegistryView {
        self.replaced(id, self.session(id).with_status(SessionStatus::Terminated))
    }

    /// The registry after the creation of a session under `id` was asked for.
    pub open spec fn after_create(
        self,
        id: Seq<char>,
        spawned: bool,
        now: u64,
        profile: SessionProfileView,
    ) -> RegistryView {
        if self.create_error(id, spawned) is None {
            self.created(id, now, profile)
        } else {
            self
        }
    }

    /// Why no session is created under `id`: the shell was not spawned, or the
    /// id was given out before, to a session that is registered or to one
    /// that is gone.
    pub open spec fn create_error(self, id: Seq<char>, spawned: bool) -> Option<SessionError> {
        if !spawned {
            Some(SessionError::SpawnFailed)
        } else if self.issued.contains(id) {
            Some(SessionError::Internal)
        } else {
            None
        }
    }
}

/// In a well-formed registry an id stands at one place only.
pub proof fn lemma_position_unique(registry: RegistryView, id: Seq<char>, i: int)
    requires
        registry.wf(),
        0 <= i < registry.sessions.len(),
        registry.sessions[i].id == id,
    ensures
        registry.contains(id),
        registry.position(id) == i,
        registry.session(id) == registry.sessions[i],
{
}

/// What a filter keeps of the sessions of a well-formed registry is again
/// well formed, holds only sessions of the registry, all of them with the
/// property filtered for, and holds every session of the registry that has it.
pub proof fn lemma_filter_sessions(registry: RegistryView, keep: spec_fn(SessionView) -> bool)
    requires
        registry.wf(),
    ensures
        (RegistryView { sessions: registry.sessions.filter(keep), ..registry }).wf(),
        forall|i: int|
            0 <= i < registry.sessions.filter(keep).len() ==> {
                &&& keep(#[trigger] registry.sessions.filter(keep)[i])
                &&& registry.sessions.contains(registry.sessions.filter(keep)[i])
            },
        forall|i: int|
            0 <= i < registry.sessions.len() && keep(registry.sessions[i])
                ==> registry.sessions.filter(keep).contains(#[trigger] registry.sessions[i]),
    decreases registry.sessions.len(),
{
    reveal(Seq::filter);
    let all = registry.sessions;
    if all.len() > 0 {
        let shorter = RegistryView { sessions: all.drop_last(), ..registry };
        lemma_filter_sessions(shorter, keep);
    }
}

/// The registry of all sessions.
pub struct SessionManager {
    sessions: Vec<Session>,
    config: Arc<Config>,
    /// Every id that was given to a session, so that none is given twice.
    issued: Vec<String>,
}

impl View for SessionManager {
    type V = RegistryView;

    closed spec fn view(&self) -> RegistryView {
        RegistryView {
            sessions: self.sessions@.map_values(|s: Session| s@),
            session_timeout: self.config.terminal.session_timeout,
            issued: texts(self.issued@),
        }
    }
}

impl SessionManager {
    /// The configuration that the registry was made with.
    pub closed spec fn spec_config(&self) -> Config {
        *self.config
    }

    /// The registry is well formed. Every registry that this module hands out is.
    pub open spec fn wf(&self) -> bool {
        &&& self@.wf()
        &&& self@.session_timeout == self.spec_config().terminal.session_timeout
    }

    /// An empty registry, which has given out no id yet.
    pub fn new(config: Arc<Config>) -> (manager: SessionManager)
        ensures
            manager.wf(),
            manager@.sessions == Seq::<SessionView>::empty(),
            manager@.issued == Seq::<Seq<char>>::empty(),
            manager.spec_config() == *config,
    {
        let manager = SessionManager { sessions: Vec::new(), config, issued: Vec::new() };
        assert(manager@.sessions =~= Seq::<SessionView>::empty());
        assert(manager@.issued =~= Seq::<Seq<char>>::empty());
        manager
    }

    /// Whether the registry ever gave this id to a session, be the session
    /// registered still or gone.
    pub fn was_issued(&self, id: &str) -> (issued: bool)
        ensures
            issued == self@.issued.contains(id@),
    {
        let mut i: usize = 0;
        while i < self.issued.len()
            invariant
                i <= self.issued@.len(),
                forall|k: int| 0 <= k < i ==> (#[trigger] self@.issued[k]) != id@,
            decreases self.issued@.len() - i,
        {
            if same_text(self.issued[i].as_str(), id) {
                assert(self@.issued[i as int] == id@);
                return true;
            }
            i = i + 1;
        }
        false
    }

    /// How many ids the registry has given out.
    pub fn issued_count(&self) -> (count: usize)
        ensures
            count == self@.issued.len(),
    {
        self.issued.len()
    }

    /// The configuration that the registry was made with.
    pub fn config(&self) -> (config: &Config)
        ensures
            *config == self.spec_config(),
    {
        &self.config
    }

    /// Where the session `id` stands in the registry.
    fn find(&self, id: &str) -> (found: Option<usize>)
        requires
            self.wf(),
        ensures
            match found {
                Some(i) => {
                    &&& i < self.sessions@.len()
                    &&& self@.contains(id@)
                    &&& self@.position(id@) == i
                },
                None => !self@.contains(id@),
            },
    {
        let mut i: usize = 0;
        while i < self.sessions.len()
            invariant
                i <= self.sessions@.len(),
                self.wf(),
                forall|k: int| 0 <= k < i ==> (#[trigger] self@.sessions[k]).id != id@,
            decreases self.sessions@.len() - i,
        {
            if same_text(self.sessions[i].id().as_str(), id) {
                proof {
                    lemma_position_unique(self@, id@, i as int);
                }
                return Some(i);
            }
            i = i + 1;
        }
        None
    }

    /// The session `session_id`, if it is registered.
    pub fn get_session(&self, session_id: &str) -> (found: Option<&Session>)
        requires
            self.wf(),
        ensures
            match found {
                Some(session) => self@.contains(session_id@) && session@ == self@.session(
                    session_id@,
                ),
                None => !self@.contains(session_id@),
            },
    {
        match self.find(session_id) {
            Some(i) => Some(&self.sessions[i]),
            None => None,
        }
    }

    /// The session that was created as the `index`-th of those registered now.
    pub fn session_at(&self, index: usize) -> (session: &Session)
        requires
            index < self@.sessions.len(),
        ensures
            session@ == self@.sessions[index as int],
    {
        &self.sessions[index]
    }

    /// How many sessions are registered.
    pub fn session_count(&self) -> (count: usize)
        ensures
            count == self@.sessions.len(),
    {
        self.sessions.len()
    }

    /// Whether a session with this id is registered.
    pub fn session_exists(&self, session_id: &str) -> (exists: bool)
        requires
            self.wf(),
        ensures
            exists == self@.contains(session_id@),
    {
        self.find(session_id).is_some()
    }

    /// The status of the session `session_id`; `NotFound` where there is none.
    pub fn get_session_status(&self, session_id: &str) -> (status: Result<
        SessionStatus,
        SessionError,
    >)
        requires
            self.wf(),
        ensures
            status == if self@.contains(session_id@) {
                Ok::<SessionStatus, SessionError>(self@.session(session_id@).status)
            } else {
                Err::<SessionStatus, SessionError>(SessionError::NotFound)
            },
    {
        match self.find(session_id) {
            Some(i) => Ok(self.sessions[i].get_status()),
            None => Err(SessionError::NotFound),
        }
    }

    /// Records activity at `now` on the session `session_id`.
    pub fn update_session_activity(&mut self, session_id: &str, now: u64) -> (outcome: Result<
        (),
        SessionError,
    >)
        requires
            old(self).wf(),
        ensures
            final(self).wf(),
            final(self).spec_config() == old(self).spec_config(),
            outcome == if old(self)@.contains(session_id@) {
                Ok::<(), SessionError>(())
            } else {
                Err::<(), SessionError>(SessionError::NotFound)
            },
            final(self)@ == old(self)@.replaced(
                session_id@,
                old(self)@.session(session_id@).touched(now),
            ),
    {
        match self.find(session_id) {
            Some(i) => {
                self.sessions[i].update_last_active_time(now);
                proof {
                    assert(final(self)@.sessions =~= old(self)@.sessions.update(
                        i as int,
                        old(self)@.session(session_id@).touched(now),
                    ));
                }
                Ok(())
            },
            None => Err(SessionError::NotFound),
        }
    }

    /// Registers a session under `id`, created at `now` and described by
    /// `profile`. `spawned` says whether the shell process of the session was
    /// started. Nothing is registered where it was not (`SpawnFailed`), nor
    /// where the id was given out before (`Internal`): an id is given to one
    /// session only, for as long as the registry lives.
    pub fn create_session_with_id(
        &mut self,
        id: String,
        spawned: bool,
        now: u64,
        profile: SessionProfile,
    ) -> (outcome: Result<String, SessionError>)
        requires
            old(self).wf(),
        ensures
            final(self).wf(),
            final(self).spec_config() == old(self).spec_config(),
            final(self)@ == old(self)@.after_create(id@, spawned, now, profile@),
            match outcome {
                Ok(created) => {
                    &&& created == id
                    &&& old(self)@.create_error(id@, spawned) is None
                    &&& final(self)@.contains(id@)
                    &&& final(self)@.issued.contains(id@)
                    &&& final(self)@.session(id@) == SessionView::fresh(
                        id@,
                        now,
                        old(self)@.session_timeout,
                        profile@,
                    )
                },
                Err(error) => old(self)@.create_error(id@, spawned) == Some(error),
            },
    {
        if !spawned {
            return Err(SessionError::SpawnFailed);
        }
        if self.was_issued(id.as_str()) {
            return Err(SessionError::Internal);
        }
        let created: String = id.clone();
        self.issued.push(id.clone());
        let session = Session::new(id, now, self.config.terminal.session_timeout, profile);
        self.sessions.push(session);
        proof {
            let before = old(self)@;
            let after = final(self)@;
            assert(after.sessions =~= before.created(id@, now, profile@).sessions);
            assert(after.issued =~= before.issued.push(id@));
            assert(after.issued[before.issued.len() as int] == id@);
            assert forall|i: int| 0 <= i < after.sessions.len() implies after.issued.contains(
                (#[trigger] after.sessions[i]).id,
            ) by {
                if i < before.sessions.len() {
                    assert(before.issued.contains(before.sessions[i].id));
                    let at = choose|at: int|
                        0 <= at < before.issued.len() && before.issued[at]
                            == before.sessions[i].id;
                    assert(after.issued[at] == after.sessions[i].id);
                } else {
                    assert(after.issued[before.issued.len() as int] == id@);
                }
            }
            assert forall|i: int, j: int| 0 <= i < j < after.sessions.len() implies (
            #[trigger] after.sessions[i]).id != (#[trigger] after.sessions[j]).id by {
                if j == before.sessions.len() {
                    assert(before.issued.contains(before.sessions[i].id));
                } else {
                    assert(before.sessions[i].id != before.sessions[j].id);
                }
            }
            lemma_position_unique(after, id@, before.sessions.len() as int);
        }
        Ok(created)
    }

    /// Registers a session under a fresh random id, created at `now` and
    /// described by `profile`, and returns the id. `spawned` says whether the
    /// shell process of the session was started; where it was not, nothing is
    /// registered (`SpawnFailed`). The id is a version 4 UUID that the
    /// registry never gave out before; should the generator repeat an id,
    /// nothing is registered (`Internal`). So the first session of a registry
    /// is always created.
    pub fn create_session_as(
        &mut self,
        spawned: bool,
        now: u64,
        profile: SessionProfile,
    ) -> (outcome: Result<String, SessionError>)
        requires
            old(self).wf(),
        ensures
            final(self).wf(),
            final(self).spec_config() == old(self).spec_config(),
            !spawned ==> outcome == Err::<String, SessionError>(SessionError::SpawnFailed),
            spawned && old(self)@.issued.len() == 0 ==> outcome is Ok,
            match outcome {
                Ok(id) => {
                    &&& is_uuid_text(id@)
                    &&& old(self)@.create_error(id@, spawned) is None
                    &&& final(self)@ == old(self)@.after_create(id@, spawned, now, profile@)
                    &&& final(self)@.contains(id@)
                    &&& final(self)@.session(id@) == SessionView::fresh(
                        id@,
                        now,
                        old(self)@.session_timeout,
                        profile@,
                    )
                },
                Err(error) => {
                    &&& final(self)@ == old(self)@
                    &&& error == SessionError::SpawnFailed || error == SessionError::Internal
                    &&& error == SessionError::SpawnFailed <==> !spawned
                },
            },
    {
        let id: String = new_v4_text();
        self.create_session_with_id(id, spawned, now, profile)
    }

    /// Registers a session under a fresh random id, created at `now`, that
    /// nobody described, and returns the id: `create_session_as` with the
    /// description that the configuration gives.
    pub fn create_session(&mut self, spawned: bool, now: u64) -> (outcome: Result<
        String,
        SessionError,
    >)
        requires
            old(self).wf(),
        ensures
            final(self).wf(),
            final(self).spec_config() == old(self).spec_config(),
            !spawned ==> outcome == Err::<String, SessionError>(SessionError::SpawnFailed),
            spawned && old(self)@.issued.len() == 0 ==> outcome is Ok,
            match outcome {
                Ok(id) => {
                    &&& is_uuid_text(id@)
                    &&& old(self)@.create_error(id@, spawned) is None
                    &&& final(self)@ == old(self)@.after_create(
                        id@,
                        spawned,
                        now,
                        spec_default_profile(old(self).spec_config()),
                    )
                    &&& final(self)@.contains(id@)
                    &&& final(self)@.session(id@) == SessionView::fresh(
                        id@,
                        now,
                        old(self)@.session_timeout,
                        spec_default_profile(old(self).spec_config()),
                    )
                },
                Err(error) => {
                    &&& final(self)@ == old(self)@
                    &&& error == SessionError::SpawnFailed || error == SessionError::Internal
                    &&& error == SessionError::SpawnFailed <==> !spawned
                },
            },
    {
        let profile = SessionProfile::default_for(&self.config);
        self.create_session_as(spawned, now, profile)
    }

    /// The process to start for a new session: that of the default shell, on
    /// a PTY of the size of that shell, or of the default size where the shell
    /// has none. `user_profile` is the value of the environment variable
    /// `USERPROFILE`. `SpawnFailed` where the configuration names no usable
    /// shell: neither the default shell type nor `bash` is registered, or its
    /// command is empty.
    pub fn plan_session(&self, user_profile: Option<&str>) -> (planned: Result<
        TerminalProcess,
        SessionError,
    >)
        ensures
            match planned {
                Ok(process) => {
                    &&& self.spec_config().spec_has_default_shell()
                    &&& exists|i: int|
                        #![trigger self.spec_config().terminal.shells@[i]]
                        {
                            &&& self.spec_config().terminal.shell_at(
                                self.spec_config().spec_default_shell_name(),
                                i,
                            )
                            &&& spec_planned(
                                self.spec_config().terminal.shells@[i].1,
                                opt_str_text(user_profile),
                                TerminalProcess {
                                    terminal_size: self.spec_config().terminal.shells@[i].1
                                        .terminal_size,
                                    ..process
                                },
                            )
                            &&& process.terminal_size == Some(
                                match self.spec_config().terminal.shells@[i].1.terminal_size {
                                    Some(size) => size,
                                    None => self.spec_config().terminal.default_terminal_size,
                                },
                            )
                        }
                },
                Err(error) => {
                    &&& error == SessionError::SpawnFailed
                    &&& !self.spec_config().spec_has_default_shell() || exists|i: int|
                        #![trigger self.spec_config().terminal.shells@[i]]
                        {
                            &&& self.spec_config().terminal.shell_at(
                                self.spec_config().spec_default_shell_name(),
                                i,
                            )
                            &&& self.spec_config().terminal.shells@[i].1.command@.len() == 0
                        }
                },
            },
    {
        if !self.config.has_default_shell() {
            return Err(SessionError::SpawnFailed);
        }
        let shell = self.config.get_default_shell_config();
        match TerminalProcess::new_with_config(shell, user_profile) {
            Ok(process) => {
                let size = match process.terminal_size {
                    Some(size) => size,
                    None => self.config.terminal.default_terminal_size,
                };
                Ok(
                    TerminalProcess {
                        program: process.program,
                        arguments: process.arguments,
                        working_directory: process.working_directory,
                        environment: process.environment,
                        terminal_size: Some(size),
                    },
                )
            },
            Err(error) => Err(error),
        }
    }

    /// Attaches a subscriber to the session `session_id`: the session gives
    /// it the next number and keeps it behind the subscribers it has, none of
    /// which is removed or replaced. A missing session takes no subscriber
    /// (`NotFound`), nor does a terminated one (`Closed`) or one that has no
    /// number left (`Internal`); the registry is then left as it was.
    pub fn add_client_sender(&mut self, session_id: &str) -> (outcome: Result<
        Attachment,
        SessionError,
    >)
        requires
            old(self).wf(),
        ensures
            final(self).wf(),
            final(self).spec_config() == old(self).spec_config(),
            final(self)@ == old(self)@.after_attach(session_id@),
            match outcome {
                Ok(attachment) => {
                    &&& old(self)@.attach_error(session_id@) is None
                    &&& attachment.subscriber == old(self)@.session(session_id@).next_subscriber
                    &&& attachment.start_listener == !old(self)@.session(
                        session_id@,
                    ).listener_started
                    &&& final(self)@.contains(session_id@)
                    &&& final(self)@.session(session_id@).subscribers == old(self)@.session(
                        session_id@,
                    ).subscribers.push(attachment.subscriber)
                },
                Err(error) => old(self)@.attach_error(session_id@) == Some(error),
            },
    {
        match self.find(session_id) {
            Some(i) => {
                let outcome = self.sessions[i].add_client_sender();
                proof {
                    match outcome {
                        Ok(_) => {
                            assert(final(self)@.sessions =~= old(self)@.sessions.update(
                                i as int,
                                old(self)@.session(session_id@).attached(),
                            ));
                            lemma_position_unique(final(self)@, session_id@, i as int);
                        },
                        Err(_) => {
                            assert(final(self)@.sessions =~= old(self)@.sessions);
                        },
                    }
                }
                outcome
            },
            None => Err(SessionError::NotFound),
        }
    }

    /// Removes a subscriber of the session `session_id`, as after a failed
    /// send. Says whether there was such a subscriber.
    pub fn remove_client_sender(&mut self, session_id: &str, subscriber: u64) -> (removed: bool)
        requires
            old(self).wf(),
        ensures
            final(self).wf(),
            final(self).spec_config() == old(self).spec_config(),
            removed == (old(self)@.contains(session_id@) && old(self)@.session(
                session_id@,
            ).subscribers.contains(subscriber)),
            final(self)@ == old(self)@.after_detach(session_id@, subscriber),
    {
        match self.find(session_id) {
            Some(i) => {
                let removed = self.sessions[i].remove_client_sender(subscriber);
                proof {
                    assert(final(self)@.sessions =~= old(self)@.sessions.update(
                        i as int,
                        old(self)@.session(session_id@).detached(subscriber),
                    ));
                }
                removed
            },
            None => false,
        }
    }

    /// Removes the subscribers `subscribers` of the session `session_id`, as
    /// after a round of sends of which some failed.
    pub fn remove_client_senders(&mut self, session_id: &str, subscribers: &Vec<u64>)
        requires
            old(self).wf(),
        ensures
            final(self).wf(),
            final(self).spec_config() == old(self).spec_config(),
            final(self)@ == old(self)@.after_detach_all(session_id@, subscribers@),
    {
        let mut k: usize = 0;
        while k < subscribers.len()
            invariant
                k <= subscribers@.len(),
                self.wf(),
                self.spec_config() == old(self).spec_config(),
                self@ == old(self)@.after_detach_all(session_id@, subscribers@.take(k as int)),
            decreases subscribers@.len() - k,
        {
            let _ = self.remove_client_sender(session_id, subscribers[k]);
            proof {
                let upto = subscribers@.take(k + 1);
                assert(upto.drop_last() =~= subscribers@.take(k as int));
            }
            k = k + 1;
        }
        assert(subscribers@.take(k as int) =~= subscribers@);
    }

    /// The subscribers of the session `session_id`, in the order in which
    /// they attached; none where there is no such session.
    pub fn client_senders(&self, session_id: &str) -> (subscribers: Vec<u64>)
        requires
            self.wf(),
        ensures
            subscribers@ == if self@.contains(session_id@) {
                self@.session(session_id@).subscribers
            } else {
                Seq::<u64>::empty()
            },
    {
        match self.find(session_id) {
            Some(i) => self.sessions[i].client_senders(),
            None => Vec::new(),
        }
    }

    /// Admits input for the session `session_id` at `now`: records the
    /// activity and returns the bytes to write to the PTY, those of `data`.
    /// A missing session (`NotFound`) or a terminated one (`Closed`) takes no
    /// input and is left as it was.
    pub fn write_to_session(&mut self, session_id: &str, data: &str, now: u64) -> (outcome:
        Result<Vec<u8>, SessionError>)
        requires
            old(self).wf(),
        ensures
            final(self).wf(),
            final(self).spec_config() == old(self).spec_config(),
            final(self)@ == old(self)@.after_activity(session_id@, now),
            match outcome {
                Ok(bytes) => old(self)@.access_error(session_id@) is None && bytes@
                    == encode_utf8(data@),
                Err(error) => old(self)@.access_error(session_id@) == Some(error),
            },
    {
        match self.find(session_id) {
            Some(i) => {
                match self.sessions[i].get_status() {
                    SessionStatus::Terminated => Err(SessionError::Closed),
                    SessionStatus::Active => {
                        self.sessions[i].update_last_active_time(now);
                        proof {
                            assert(final(self)@.sessions =~= old(self)@.sessions.update(
                                i as int,
                                old(self)@.session(session_id@).touched(now),
                            ));
                        }
                        Ok(TerminalProcess::write_input(data))
                    },
                }
            },
            None => Err(SessionError::NotFound),
        }
    }

    /// Admits a resize of the session `session_id` at `now`: records the
    /// activity and returns the window to set on the PTY. A missing session
    /// (`NotFound`) or a terminated one (`Closed`) is not resized and is left
    /// as it was.
    pub fn resize_session(
        &mut self,
        session_id: &str,
        columns: u32,
        rows: u32,
        now: u64,
    ) -> (outcome: Result<WindowSize, SessionError>)
        requires
            old(self).wf(),
        ensures
            final(self).wf(),
            final(self).spec_config() == old(self).spec_config(),
            final(self)@ == old(self)@.after_activity(session_id@, now),
            match outcome {
                Ok(window) => old(self)@.access_error(session_id@) is None && window
                    == spec_window_size(columns, rows),
                Err(error) => old(self)@.access_error(session_id@) == Some(error),
            },
    {
        match self.find(session_id) {
            Some(i) => {
                match self.sessions[i].get_status() {
                    SessionStatus::Terminated => Err(SessionError::Closed),
                    SessionStatus::Active => {
                        self.sessions[i].update_last_active_time(now);
                        proof {
                            assert(final(self)@.sessions =~= old(self)@.sessions.update(
                                i as int,
                                old(self)@.session(session_id@).touched(now),
                            ));
                        }
                        Ok(TerminalProcess::resize(columns, rows))
                    },
                }
            },
            None => Err(SessionError::NotFound),
        }
    }

    /// Marks the session `session_id` terminated, as when its child was seen
    /// to have exited. The session stays registered until it is closed.
    pub fn mark_terminated(&mut self, session_id: &str)
        requires
            old(self).wf(),
        ensures
            final(self).wf(),
            final(self).spec_config() == old(self).spec_config(),
            final(self)@ == old(self)@.after_exit(session_id@),
    {
        match self.find(session_id) {
            Some(i) => {
                self.sessions[i].set_status(SessionStatus::Terminated);
                proof {
                    assert(final(self)@.sessions =~= old(self)@.sessions.update(
                        i as int,
                        old(self)@.session(session_id@).with_status(SessionStatus::Terminated),
                    ));
                }
            },
            None => {},
        }
    }

    /// Closes the session `session_id`: it leaves the registry, terminated and
    /// without subscribers, and is handed to the caller, who kills its
    /// process. `NotFound` where there is no such session, so also for the
    /// second of two calls.
    pub fn close_session(&mut self, session_id: &str) -> (outcome: Result<Session, SessionError>)
        requires
            old(self).wf(),
        ensures
            final(self).wf(),
            final(self).spec_config() == old(self).spec_config(),
            final(self)@ == old(self)@.removed(session_id@),
            match outcome {
                Ok(session) => {
                    &&& old(self)@.contains(session_id@)
                    &&& session@ == old(self)@.session(session_id@).closed()
                },
                Err(error) => error == SessionError::NotFound && !old(self)@.contains(session_id@),
            },
    {
        match self.find(session_id) {
            Some(i) => {
                let mut session = self.sessions.remove(i);
                session.close();
                proof {
                    assert(final(self)@.sessions =~= old(self)@.sessions.remove(i as int));
                }
                Ok(session)
            },
            None => Err(SessionError::NotFound),
        }
    }

    /// The ids of all sessions, in the order in which the sessions were created.
    pub fn get_all_session_ids(&self) -> (ids: Vec<String>)
        ensures
            texts(ids@) == self@.ids(),
    {
        let mut ids: Vec<String> = Vec::new();
        let mut i: usize = 0;
        while i < self.sessions.len()
            invariant
                i <= self.sessions@.len(),
                ids@.len() == i,
                forall|k: int| 0 <= k < i ==> (#[trigger] ids@[k])@ == self@.sessions[k].id,
            decreases self.sessions@.len() - i,
        {
            ids.push(self.sessions[i].id().clone());
            i = i + 1;
        }
        ids
    }

    /// Every session with its status, in the order in which the sessions were
    /// created.
    pub fn get_all_sessions_with_status(&self) -> (listing: Vec<(String, SessionStatus)>)
        ensures
            listing@.len() == self@.sessions.len(),
            forall|k: int|
                0 <= k < listing@.len() ==> {
                    &&& (#[trigger] listing@[k]).0@ == self@.sessions[k].id
                    &&& listing@[k].1 == self@.sessions[k].status
                },
    {
        let mut listing: Vec<(String, SessionStatus)> = Vec::new();
        let mut i: usize = 0;
        while i < self.sessions.len()
            invariant
                i <= self.sessions@.len(),
                listing@.len() == i,
                forall|k: int|
                    0 <= k < i ==> {
                        &&& (#[trigger] listing@[k]).0@ == self@.sessions[k].id
                        &&& listing@[k].1 == self@.sessions[k].status
                    },
            decreases self.sessions@.len() - i,
        {
            listing.push((self.sessions[i].id().clone(), self.sessions[i].get_status()));
            i = i + 1;
        }
        listing
    }

    /// The ids of the sessions that are expired at `now`, in the order in
    /// which the sessions were created.
    pub fn expired_sessions(&self, now: u64) -> (ids: Vec<String>)
        ensures
            texts(ids@) == self@.expired_ids(now),
    {
        let mut ids: Vec<String> = Vec::new();
        let mut i: usize = 0;
        while i < self.sessions.len()
            invariant
                i <= self.sessions@.len(),
                texts(ids@) == ids_of(self@.sessions.take(i as int).filter(expired_at(now))),
            decreases self.sessions@.len() - i,
        {
            let ghost before = self@.sessions.take(i as int);
            let ghost upto = self@.sessions.take(i + 1);
            proof {
                assert(upto =~= before.push(self@.sessions[i as int]));
                before.lemma_filter_push(self@.sessions[i as int], expired_at(now));
            }
            if self.sessions[i].is_expired(now) {
                let id: String = self.sessions[i].id().clone();
                assert(ids_of(before.filter(expired_at(now)).push(self@.sessions[i as int]))
                    =~= ids_of(before.filter(expired_at(now))).push(self@.sessions[i as int].id));
                ids.push(id);
            }
            i = i + 1;
        }
        assert(self@.sessions.take(i as int) =~= self@.sessions);
        ids
    }

    /// One round of the expiry check at `now`: every session that is expired
    /// leaves the registry. Returns the ids of those sessions, whose processes
    /// the caller kills.
    pub fn session_expiry_checker(&mut self, now: u64) -> (closed: Vec<String>)
        requires
            old(self).wf(),
        ensures
            final(self).wf(),
            final(self).spec_config() == old(self).spec_config(),
            final(self)@ == old(self)@.swept(now),
            texts(closed@) == old(self)@.expired_ids(now),
    {
        let ghost all = self@.sessions;
        let mut closed: Vec<String> = Vec::new();
        let mut i: usize = 0;
        while i < self.sessions.len()
            invariant
                all == old(self)@.sessions,
                self.config == old(self).config,
                self.issued == old(self).issued,
                i + closed@.len() <= all.len(),
                self@.sessions.len() + closed@.len() == all.len(),
                i <= self@.sessions.len(),
                self@.sessions.take(i as int) == all.take(i + closed@.len()).filter(live_at(now)),
                self@.sessions.skip(i as int) == all.skip(i + closed@.len()),
                texts(closed@) == ids_of(all.take(i + closed@.len()).filter(expired_at(now))),
            decreases self.sessions@.len() - i,
        {
            let ghost k = i + closed@.len();
            proof {
                assert(all[k] == all.skip(k)[0]);
                assert(all.take(k + 1) =~= all.take(k).push(all[k]));
                all.take(k).lemma_filter_push(all[k], live_at(now));
                all.take(k).lemma_filter_push(all[k], expired_at(now));
            }
            if self.sessions[i].is_expired(now) {
                let session = self.sessions.remove(i);
                let id: String = session.id().clone();
                proof {
                    assert(all.skip(k + 1) =~= all.skip(k).skip(1));
                    assert(ids_of(all.take(k).filter(expired_at(now)).push(all[k])) =~= ids_of(
                        all.take(k).filter(expired_at(now)),
                    ).push(all[k].id));
                }
                closed.push(id);
            } else {
                proof {
                    assert(all.skip(k + 1) =~= all.skip(k).skip(1));
                }
                i = i + 1;
            }
        }
        proof {
            let k = i + closed@.len();
            assert(self@.sessions.take(i as int) =~= self@.sessions);
            assert(all.take(k) =~= all);
            lemma_filter_sessions(old(self)@, live_at(now));
        }
        closed
    }
}

} // verus!
