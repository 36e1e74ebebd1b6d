//! What holds along the life of a registry, whatever is asked of it and in
//! whatever order.
//!
//! A history is a sequence of steps. Each step is one call of the registry,
//! and takes the registry to the state that the contract of that call names.
//! The theorems here are proved over those states.

use crate::error::SessionError;
use crate::registry::{lemma_filter_sessions, lemma_position_unique, live_at, RegistryView};
use crate::session::{spec_deadline, SessionProfileView, SessionStatus, SessionView};
use vstd::prelude::*;

verus! {

/// One call of the registry.
pub enum RegistryStep {
    /// A session is asked for under `id`; `spawned` says whether its process started.
    Create { id: Seq<char>, spawned: bool, now: u64, profile: SessionProfileView },
    /// A subscriber asks to attach to the session `id`.
    Attach { id: Seq<char> },
    /// The subscriber `subscriber` of the session `id` is dropped.
    Detach { id: Seq<char>, subscriber: u64 },
    /// Input or a resize is offered to the session `id`.
    Activity { id: Seq<char>, now: u64 },
    /// Activity of the session `id` is recorded.
    Touch { id: Seq<char>, now: u64 },
    /// The child of the session `id` is seen to have exited.
    Exit { id: Seq<char> },
    /// The session `id` is closed.
    Close { id: Seq<char> },
    /// The expiry check runs.
    Sweep { now: u64 },
}

impl RegistryView {
    /// The registry after one step.
    pub open spec fn step(self, step: RegistryStep) -> RegistryView {
        match step {
            RegistryStep::Create { id, spawned, now, profile } => self.after_create(
                id,
                spawned,
                now,
                profile,
            ),
            RegistryStep::Attach { id } => self.after_attach(id),
            RegistryStep::Detach { id, subscriber } => self.after_detach(id, subscriber),
            RegistryStep::Activity { id, now } => self.after_activity(id, now),
            RegistryStep::Touch { id, now } => self.replaced(id, self.session(id).touched(now)),
            RegistryStep::Exit { id } => self.after_exit(id),
            RegistryStep::Close { id } => self.removed(id),
            RegistryStep::Sweep { now } => self.swept(now),
        }
    }

    /// The registry after a history.
    pub open spec fn run(self, steps: Seq<RegistryStep>) -> RegistryView
        decreases steps.len(),
    {
        if steps.len() == 0 {
            self
        } else {
            self.run(steps.drop_last()).step(steps.last())
        }
    }

    /// The session `id` is registered all along a history.
    pub open spec fn keeps(self, steps: Seq<RegistryStep>, id: Seq<char>) -> bool {
        forall|k: int| 0 <= k <= steps.len() ==> (#[trigger] self.run(steps.take(k))).contains(id)
    }
}

/// Replacing a session by a well-formed later state of itself leaves the
/// registry well formed and every other session as it was.
pub proof fn lemma_replaced(registry: RegistryView, id: Seq<char>, session: SessionView)
    requires
        registry.wf(),
        registry.contains(id),
        session.wf(),
        session.id == id,
    ensures
        registry.replaced(id, session).wf(),
        registry.replaced(id, session).contains(id),
        registry.replaced(id, session).session(id) == session,
        forall|other: Seq<char>|
            other != id ==> {
                &&& registry.replaced(id, session).contains(other) == registry.contains(other)
                &&& registry.contains(other) ==> registry.replaced(id, session).session(other)
                    == registry.session(other)
            },
{
    let after = registry.replaced(id, session);
    let at = registry.position(id);
    lemma_position_unique(after, id, at);
    assert forall|other: Seq<char>| other != id implies {
        &&& after.contains(other) == registry.contains(other)
        &&& registry.contains(other) ==> after.session(other) == registry.session(other)
    } by {
        if registry.contains(other) {
            let p = registry.position(other);
            lemma_position_unique(after, other, p);
        }
    }
}

/// In a well-formed registry the id of every registered session is among the
/// ids given out.
pub proof fn lemma_registered_was_issued(registry: RegistryView, id: Seq<char>)
    requires
        registry.wf(),
        registry.contains(id),
    ensures
        registry.issued.contains(id),
{
    let at = registry.position(id);
    assert(registry.issued.contains(registry.sessions[at].id));
}

/// A session that is created under an id never given out before is
/// registered as a fresh session, and its id is given out; the registry stays
/// well formed and every other session as it was.
pub proof fn lemma_created(
    registry: RegistryView,
    id: Seq<char>,
    now: u64,
    profile: SessionProfileView,
)
    requires
        registry.wf(),
        !registry.issued.contains(id),
    ensures
        !registry.contains(id),
        registry.created(id, now, profile).wf(),
        registry.created(id, now, profile).contains(id),
        registry.created(id, now, profile).issued == registry.issued.push(id),
        registry.created(id, now, profile).session(id) == SessionView::fresh(
            id,
            now,
            registry.session_timeout,
            profile,
        ),
        forall|other: Seq<char>|
            other != id ==> {
                &&& registry.created(id, now, profile).contains(other) == registry.contains(
                    other,
                )
                &&& registry.contains(other) ==> registry.created(id, now, profile).session(
                    other,
                ) == registry.session(other)
            },
{
    if registry.contains(id) {
        lemma_registered_was_issued(registry, id);
    }
    let after = registry.created(id, now, profile);
    let last = registry.sessions.len() as int;
    assert(after.wf()) by {
        assert forall|i: int| 0 <= i < after.sessions.len() implies after.issued.contains(
            (#[trigger] after.sessions[i]).id,
        ) by {
            if i < last {
                assert(registry.issued.contains(registry.sessions[i].id));
                let at = choose|at: int|
                    0 <= at < registry.issued.len() && registry.issued[at]
                        == registry.sessions[i].id;
                assert(after.issued[at] == after.sessions[i].id);
            } else {
                assert(after.issued[registry.issued.len() as int] == id);
            }
        }
        assert forall|i: int, j: int| 0 <= i < j < after.sessions.len() implies (
        #[trigger] after.sessions[i]).id != (#[trigger] after.sessions[j]).id by {
            if j < last {
                assert(registry.sessions[i].id != registry.sessions[j].id);
            } else {
                assert(registry.issued.contains(registry.sessions[i].id));
            }
        }
    }
    lemma_position_unique(after, id, last);
    assert forall|other: Seq<char>| other != id implies {
        &&& after.contains(other) == registry.contains(other)
        &&& registry.contains(other) ==> after.session(other) == registry.session(other)
    } by {
        if registry.contains(other) {
            let p = registry.position(other);
            lemma_position_unique(after, other, p);
        }
    }
}

/// A session that is removed is registered no more; the registry stays well
/// formed and every other session as it was.
pub proof fn lemma_removed(registry: RegistryView, id: Seq<char>)
    requires
        registry.wf(),
    ensures
        registry.removed(id).wf(),
        !registry.removed(id).contains(id),
        forall|other: Seq<char>|
            other != id ==> {
                &&& registry.removed(id).contains(other) == registry.contains(other)
                &&& registry.contains(other) ==> registry.removed(id).session(other)
                    == registry.session(other)
            },
{
    let after = registry.removed(id);
    if registry.contains(id) {
        let at = registry.position(id);
        assert forall|other: Seq<char>| other != id implies {
            &&& after.contains(other) == registry.contains(other)
            &&& registry.contains(other) ==> after.session(other) == registry.session(other)
        } by {
            if registry.contains(other) {
                let p = registry.position(other);
                let q = if p < at {
                    p
                } else {
                    p - 1
                };
                lemma_position_unique(after, other, q);
            }
        }
    }
}

/// The expiry check removes just the sessions that are expired; the registry
/// stays well formed and every other session as it was.
pub proof fn lemma_swept(registry: RegistryView, now: u64)
    requires
        registry.wf(),
    ensures
        registry.swept(now).wf(),
        forall|id: Seq<char>|
            registry.swept(now).contains(id) == (registry.contains(id) && !registry.session(
                id,
            ).is_expired(now)),
        forall|id: Seq<char>|
            registry.swept(now).contains(id) ==> registry.swept(now).session(id)
                == registry.session(id),
{
    lemma_filter_sessions(registry, live_at(now));
}

/// Dropping a subscriber leaves a session well formed.
pub proof fn lemma_detached_wf(session: SessionView, subscriber: u64)
    requires
        session.wf(),
    ensures
        session.detached(subscriber).wf(),
        !session.detached(subscriber).subscribers.contains(subscriber),
        forall|other: u64|
            other != subscriber ==> session.detached(subscriber).subscribers.contains(other)
                == session.subscribers.contains(other),
{
    let after = session.detached(subscriber);
    if session.subscribers.contains(subscriber) {
        let at = session.subscribers.index_of(subscriber);
        assert forall|other: u64| other != subscriber implies after.subscribers.contains(other)
            == session.subscribers.contains(other) by {
            if session.subscribers.contains(other) {
                let p = choose|p: int|
                    0 <= p < session.subscribers.len() && session.subscribers[p] == other;
                let q = if p < at {
                    p
                } else {
                    p - 1
                };
                assert(after.subscribers[q] == other);
            }
        }
    }
}

/// Every step leaves a well-formed registry well formed. In particular no
/// two registered sessions ever have the same id, and no id is on record as
/// given out twice.
pub proof fn lemma_step_wf(registry: RegistryView, step: RegistryStep)
    requires
        registry.wf(),
    ensures
        registry.step(step).wf(),
        registry.step(step).session_timeout == registry.session_timeout,
{
    match step {
        RegistryStep::Create { id, spawned, now, profile } => {
            if registry.create_error(id, spawned) is None {
                lemma_created(registry, id, now, profile);
            }
        },
        RegistryStep::Attach { id } => {
            if registry.attach_error(id) is None {
                lemma_replaced(registry, id, registry.session(id).attached());
            }
        },
        RegistryStep::Detach { id, subscriber } => {
            if registry.contains(id) {
                lemma_detached_wf(registry.session(id), subscriber);
                lemma_replaced(registry, id, registry.session(id).detached(subscriber));
            }
        },
        RegistryStep::Activity { id, now } => {
            if registry.access_error(id) is None {
                lemma_replaced(registry, id, registry.session(id).touched(now));
            }
        },
        RegistryStep::Touch { id, now } => {
            if registry.contains(id) {
                lemma_replaced(registry, id, registry.session(id).touched(now));
            }
        },
        RegistryStep::Exit { id } => {
            if registry.contains(id) {
                lemma_replaced(
                    registry,
                    id,
                    registry.session(id).with_status(SessionStatus::Terminated),
                );
            }
        },
        RegistryStep::Close { id } => {
            lemma_removed(registry, id);
        },
        RegistryStep::Sweep { now } => {
            lemma_swept(registry, now);
        },
    }
}

/// Every history leaves a well-formed registry well formed.
pub proof fn lemma_run_wf(registry: RegistryView, steps: Seq<RegistryStep>)
    requires
        registry.wf(),
    ensures
        registry.run(steps).wf(),
    decreases steps.len(),
{
    if steps.len() > 0 {
        lemma_run_wf(registry, steps.drop_last());
        lemma_step_wf(registry.run(steps.drop_last()), steps.last());
    }
}

/// A session that is created gets an id that the registry never gave out
/// before, so an id that no session has or ever had, and is registered under
/// it as an active session; the id counts as given out from then on.
pub proof fn lemma_created_id_is_new(
    registry: RegistryView,
    id: Seq<char>,
    spawned: bool,
    now: u64,
    profile: SessionProfileView,
)
    requires
        registry.wf(),
        registry.create_error(id, spawned) is None,
    ensures
        !registry.issued.contains(id),
        !registry.contains(id),
        registry.after_create(id, spawned, now, profile).contains(id),
        registry.after_create(id, spawned, now, profile).issued == registry.issued.push(id),
        registry.after_create(id, spawned, now, profile).issued.contains(id),
        registry.after_create(id, spawned, now, profile).session(id).status
            == SessionStatus::Active,
        registry.after_create(id, spawned, now, profile).session(id).created_at == now,
        registry.after_create(id, spawned, now, profile).session(id).profile == profile,
        registry.after_create(id, spawned, now, profile).session(id).expires_at() - now
            == registry.session_timeout || registry.after_create(
            id,
            spawned,
            now,
            profile,
        ).session(id).expires_at() == u64::MAX,
{
    lemma_created(registry, id, now, profile);
}

/// A session that is registered before and after a step is, after it, a later
/// state of what it was: the same session, not back from terminated to
/// active, its last activity not earlier than before.
pub proof fn lemma_step_follows(registry: RegistryView, step: RegistryStep, id: Seq<char>)
    requires
        registry.wf(),
        registry.contains(id),
        registry.step(step).contains(id),
    ensures
        registry.step(step).session(id).follows(registry.session(id)),
{
    match step {
        RegistryStep::Create { id: created, spawned, now, profile } => {
            if registry.create_error(created, spawned) is None {
                lemma_created(registry, created, now, profile);
            }
        },
        RegistryStep::Attach { id: at } => {
            if registry.attach_error(at) is None {
                lemma_replaced(registry, at, registry.session(at).attached());
            }
        },
        RegistryStep::Detach { id: at, subscriber } => {
            if registry.contains(at) {
                lemma_detached_wf(registry.session(at), subscriber);
                lemma_replaced(registry, at, registry.session(at).detached(subscriber));
            }
        },
        RegistryStep::Activity { id: at, now } => {
            if registry.access_error(at) is None {
                lemma_replaced(registry, at, registry.session(at).touched(now));
            }
        },
        RegistryStep::Touch { id: at, now } => {
            if registry.contains(at) {
                lemma_replaced(registry, at, registry.session(at).touched(now));
            }
        },
        RegistryStep::Exit { id: at } => {
            if registry.contains(at) {
                lemma_replaced(
                    registry,
                    at,
                    registry.session(at).with_status(SessionStatus::Terminated),
                );
            }
        },
        RegistryStep::Close { id: at } => {
            lemma_removed(registry, at);
        },
        RegistryStep::Sweep { now } => {
            lemma_swept(registry, now);
        },
    }
}

/// Along a history through which a session stays registered, its state at the
/// end is a later state of its state at the start. So its status goes from
/// active to terminated only, never back, and each time its last activity is
/// looked at it is no earlier than the time before.
pub proof fn lemma_run_follows(registry: RegistryView, steps: Seq<RegistryStep>, id: Seq<char>)
    requires
        registry.wf(),
        registry.keeps(steps, id),
    ensures
        registry.run(steps).session(id).follows(registry.session(id)),
    decreases steps.len(),
{
    if steps.len() > 0 {
        let before = steps.drop_last();
        assert(steps.take(steps.len() as int) =~= steps);
        assert(registry.keeps(before, id)) by {
            assert forall|k: int| 0 <= k <= before.len() implies (#[trigger] registry.run(
                before.take(k),
            )).contains(id) by {
                assert(before.take(k) =~= steps.take(k));
            }
        }
        lemma_run_follows(registry, before, id);
        lemma_run_wf(registry, before);
        lemma_step_follows(registry.run(before), steps.last(), id);
    }
}

/// Once a session is closed, nothing can be done with it: it is not
/// registered, takes neither input nor a resize, and takes no subscriber.
pub proof fn lemma_closed_refuses(registry: RegistryView, id: Seq<char>)
    requires
        registry.wf(),
    ensures
        !registry.removed(id).contains(id),
        registry.removed(id).access_error(id) == Some(SessionError::NotFound),
        registry.removed(id).attach_error(id) == Some(SessionError::NotFound),
        forall|now: u64| #[trigger]
            registry.removed(id).after_activity(id, now) == registry.removed(id),
{
}

/// A session that was closed is gone for good: whatever is asked of the
/// registry afterwards, no session is registered under its id again, and
/// input, resizes and subscribers for it find no session.
pub proof fn lemma_closed_for_good(registry: RegistryView, id: Seq<char>, steps: Seq<RegistryStep>)
    requires
        registry.wf(),
        registry.contains(id),
    ensures
        !registry.removed(id).run(steps).contains(id),
        registry.removed(id).run(steps).access_error(id) == Some(SessionError::NotFound),
        registry.removed(id).run(steps).attach_error(id) == Some(SessionError::NotFound),
{
    lemma_registered_was_issued(registry, id);
    lemma_removed(registry, id);
    lemma_gone_stays_gone(registry.removed(id), steps, id);
}

/// A session that the expiry check found expired is gone for good: whatever
/// is asked of the registry afterwards, no session is registered under its
/// id again.
pub proof fn lemma_swept_for_good(
    registry: RegistryView,
    id: Seq<char>,
    now: u64,
    steps: Seq<RegistryStep>,
)
    requires
        registry.wf(),
        registry.contains(id),
        registry.session(id).is_expired(now),
    ensures
        !registry.swept(now).run(steps).contains(id),
        registry.swept(now).run(steps).access_error(id) == Some(SessionError::NotFound),
        registry.swept(now).run(steps).attach_error(id) == Some(SessionError::NotFound),
{
    lemma_registered_was_issued(registry, id);
    lemma_swept(registry, now);
    lemma_gone_stays_gone(registry.swept(now), steps, id);
}

/// No step takes back an id that was given out.
pub proof fn lemma_step_keeps_issued(registry: RegistryView, step: RegistryStep, id: Seq<char>)
    requires
        registry.issued.contains(id),
    ensures
        registry.step(step).issued.contains(id),
{
    let at = choose|at: int| 0 <= at < registry.issued.len() && registry.issued[at] == id;
    assert(registry.step(step).issued[at] == id);
}

/// An id that was given out counts as given out for ever after.
pub proof fn lemma_run_keeps_issued(registry: RegistryView, steps: Seq<RegistryStep>, id: Seq<char>)
    requires
        registry.issued.contains(id),
    ensures
        registry.run(steps).issued.contains(id),
    decreases steps.len(),
{
    if steps.len() > 0 {
        lemma_run_keeps_issued(registry, steps.drop_last(), id);
        lemma_step_keeps_issued(registry.run(steps.drop_last()), steps.last(), id);
    }
}

/// The step is the creation of a session under `id`, and it succeeds in the
/// registry `registry`.
pub open spec fn creates(registry: RegistryView, step: RegistryStep, id: Seq<char>) -> bool {
    step matches RegistryStep::Create { id: created, spawned, .. } && created == id
        && registry.create_error(id, spawned) is None
}

/// No id is given to two sessions: of two creations that succeed in one
/// history, whatever happens between them and whether the first session is
/// still registered or long gone, the second gets another id than the first.
pub proof fn lemma_ids_are_never_given_twice(
    registry: RegistryView,
    steps: Seq<RegistryStep>,
    first: int,
    second: int,
    first_id: Seq<char>,
    second_id: Seq<char>,
)
    requires
        registry.wf(),
        0 <= first < second < steps.len(),
        creates(registry.run(steps.take(first)), steps[first], first_id),
        creates(registry.run(steps.take(second)), steps[second], second_id),
    ensures
        first_id != second_id,
{
    let before_first = registry.run(steps.take(first));
    let after_first = registry.run(steps.take(first + 1));
    assert(steps.take(first + 1).drop_last() =~= steps.take(first));
    assert(steps.take(first + 1).last() == steps[first]);
    assert(after_first == before_first.step(steps[first]));
    lemma_run_wf(registry, steps.take(first));
    match steps[first] {
        RegistryStep::Create { id, spawned, now, profile } => {
            lemma_created(before_first, id, now, profile);
            assert(after_first.issued[before_first.issued.len() as int] == first_id);
        },
        _ => {},
    }
    assert(after_first.issued.contains(first_id));
    let between = steps.subrange(first + 1, second);
    lemma_run_of_parts(registry, steps.take(first + 1), between);
    assert(steps.take(first + 1) + between =~= steps.take(second));
    lemma_run_keeps_issued(after_first, between, first_id);
}

/// A history in two parts: what the whole of it makes of a registry is what
/// the second part makes of what the first part made of it.
pub proof fn lemma_run_of_parts(
    registry: RegistryView,
    first: Seq<RegistryStep>,
    second: Seq<RegistryStep>,
)
    ensures
        registry.run(first + second) == registry.run(first).run(second),
    decreases second.len(),
{
    if second.len() == 0 {
        assert(first + second =~= first);
    } else {
        lemma_run_of_parts(registry, first, second.drop_last());
        assert((first + second).drop_last() =~= first + second.drop_last());
        assert((first + second).last() == second.last());
    }
}

/// The id of a session that is gone is free no more: no session is ever
/// registered under it again. So what is asked of a session that was closed
/// or swept finds no session, whatever is asked of the registry in between.
pub proof fn lemma_gone_stays_gone(registry: RegistryView, steps: Seq<RegistryStep>, id: Seq<char>)
    requires
        registry.wf(),
        registry.issued.contains(id),
        !registry.contains(id),
    ensures
        !registry.run(steps).contains(id),
        registry.run(steps).access_error(id) == Some(SessionError::NotFound),
        registry.run(steps).attach_error(id) == Some(SessionError::NotFound),
    decreases steps.len(),
{
    if steps.len() > 0 {
        let before = steps.drop_last();
        lemma_gone_stays_gone(registry, before, id);
        lemma_run_wf(registry, before);
        lemma_run_keeps_issued(registry, before, id);
        let earlier = registry.run(before);
        match steps.last() {
            RegistryStep::Create { id: created, spawned, now, profile } => {
                if earlier.create_error(created, spawned) is None {
                    lemma_created(earlier, created, now, profile);
                }
            },
            RegistryStep::Attach { id: at } => {
                if earlier.attach_error(at) is None {
                    lemma_replaced(earlier, at, earlier.session(at).attached());
                }
            },
            RegistryStep::Detach { id: at, subscriber } => {
                if earlier.contains(at) {
                    lemma_detached_wf(earlier.session(at), subscriber);
                    lemma_replaced(earlier, at, earlier.session(at).detached(subscriber));
                }
            },
            RegistryStep::Activity { id: at, now } => {
                if earlier.access_error(at) is None {
                    lemma_replaced(earlier, at, earlier.session(at).touched(now));
                }
            },
            RegistryStep::Touch { id: at, now } => {
                if earlier.contains(at) {
                    lemma_replaced(earlier, at, earlier.session(at).touched(now));
                }
            },
            RegistryStep::Exit { id: at } => {
                if earlier.contains(at) {
                    lemma_replaced(
                        earlier,
                        at,
                        earlier.session(at).with_status(SessionStatus::Terminated),
                    );
                }
            },
            RegistryStep::Close { id: at } => {
                lemma_removed(earlier, at);
            },
            RegistryStep::Sweep { now } => {
                lemma_swept(earlier, now);
            },
        }
    }
}

/// Once the child of a session is seen to have exited, the session, while
/// still registered, is terminated: it takes neither input nor a resize, and
/// takes no subscriber.
pub proof fn lemma_exited_refuses(registry: RegistryView, id: Seq<char>)
    requires
        registry.wf(),
        registry.contains(id),
    ensures
        registry.after_exit(id).contains(id),
        registry.after_exit(id).session(id).status == SessionStatus::Terminated,
        registry.after_exit(id).access_error(id) == Some(SessionError::Closed),
        registry.after_exit(id).attach_error(id) == Some(SessionError::Closed),
{
    lemma_replaced(registry, id, registry.session(id).with_status(SessionStatus::Terminated));
}

/// Closing a session twice is the same as closing it once; the second time
/// there is no such session.
pub proof fn lemma_close_twice(registry: RegistryView, id: Seq<char>)
    requires
        registry.wf(),
    ensures
        registry.removed(id).removed(id) == registry.removed(id),
        !registry.removed(id).contains(id),
{
}

/// Input and resizes do not terminate: a session that takes one is active
/// after it, and has only moved its last activity. Where the clock has not
/// gone back, the last activity is the time of the input, and the session
/// expires one timeout after it.
pub proof fn lemma_activity_keeps_active(registry: RegistryView, id: Seq<char>, now: u64)
    requires
        registry.wf(),
        registry.access_error(id) is None,
    ensures
        registry.after_activity(id, now).contains(id),
        registry.after_activity(id, now).session(id) == registry.session(id).touched(now),
        registry.after_activity(id, now).session(id).status == SessionStatus::Active,
        registry.after_activity(id, now).access_error(id) is None,
        registry.session(id).last_active_at <= now ==> registry.after_activity(
            id,
            now,
        ).session(id).last_active_at == now && registry.after_activity(id, now).session(
            id,
        ).expires_at() == spec_deadline(now, registry.session(id).session_timeout),
{
    lemma_replaced(registry, id, registry.session(id).touched(now));
}

/// A session that has been idle for longer than its timeout is not registered
/// after the expiry check; every other session is, unchanged.
pub proof fn lemma_sweep_closes_expired(registry: RegistryView, id: Seq<char>, now: u64)
    requires
        registry.wf(),
        registry.contains(id),
    ensures
        registry.session(id).is_expired(now) ==> !registry.swept(now).contains(id),
        !registry.session(id).is_expired(now) ==> registry.swept(now).contains(id)
            && registry.swept(now).session(id) == registry.session(id),
{
    lemma_swept(registry, now);
}

/// A session that saw input or a resize at `now` outlives an expiry check
/// that runs no later than its timeout after `now`.
pub proof fn lemma_activity_defers_expiry(
    registry: RegistryView,
    id: Seq<char>,
    now: u64,
    check: u64,
)
    requires
        registry.wf(),
        registry.access_error(id) is None,
        check <= now + registry.session(id).session_timeout,
    ensures
        registry.after_activity(id, now).swept(check).contains(id),
{
    lemma_activity_keeps_active(registry, id, now);
    lemma_swept(registry.after_activity(id, now), check);
}

/// Two subscribers that attach to an active session one after the other are
/// both taken, and are both among its subscribers, the first before the
/// second, behind those that were attached before: none of these is removed
/// or replaced. So the next chunk of output goes to all of them. The session
/// must have two numbers left to give: the numbers are 64 bits wide.
pub proof fn lemma_two_attached(registry: RegistryView, id: Seq<char>)
    requires
        registry.wf(),
        registry.contains(id),
        registry.session(id).status == SessionStatus::Active,
        registry.session(id).next_subscriber + 2 <= u64::MAX,
    ensures
        registry.attach_error(id) is None,
        registry.after_attach(id).attach_error(id) is None,
        registry.after_attach(id).after_attach(id).contains(id),
        registry.after_attach(id).after_attach(id).session(id).subscribers
            == registry.session(id).subscribers.push(registry.session(id).next_subscriber).push(
            (registry.session(id).next_subscriber + 1) as u64,
        ),
        registry.after_attach(id).after_attach(id).session(id).subscribers.len()
            == registry.session(id).subscribers.len() + 2,
        forall|i: int|
            0 <= i < registry.session(id).subscribers.len() ==> registry.after_attach(
                id,
            ).after_attach(id).session(id).subscribers[i] == #[trigger] registry.session(
                id,
            ).subscribers[i],
        registry.after_attach(id).after_attach(id).session(id).subscribers.contains(
            registry.session(id).next_subscriber,
        ),
        registry.after_attach(id).after_attach(id).session(id).subscribers.contains(
            (registry.session(id).next_subscriber + 1) as u64,
        ),
        registry.after_attach(id).after_attach(id).session(id).status == SessionStatus::Active,
{
    lemma_replaced(registry, id, registry.session(id).attached());
    let once = registry.after_attach(id);
    lemma_replaced(once, id, once.session(id).attached());
    let twice = once.after_attach(id);
    let subscribers = twice.session(id).subscribers;
    assert(subscribers[subscribers.len() - 2] == registry.session(id).next_subscriber);
    assert(subscribers[subscribers.len() - 1] == (registry.session(id).next_subscriber + 1) as u64);
}

/// Dropping one subscriber leaves every other subscriber attached.
pub proof fn lemma_detach_spares_others(
    registry: RegistryView,
    id: Seq<char>,
    dropped: u64,
    other: u64,
)
    requires
        registry.wf(),
        registry.contains(id),
        other != dropped,
    ensures
        registry.after_detach(id, dropped).contains(id),
        registry.after_detach(id, dropped).session(id).subscribers.contains(other)
            == registry.session(id).subscribers.contains(other),
        !registry.after_detach(id, dropped).session(id).subscribers.contains(dropped),
{
    lemma_detached_wf(registry.session(id), dropped);
    lemma_replaced(registry, id, registry.session(id).detached(dropped));
}

/// Dropping several subscribers leaves just the others attached.
pub proof fn lemma_detach_all(registry: RegistryView, id: Seq<char>, dropped: Seq<u64>)
    requires
        registry.wf(),
        registry.contains(id),
    ensures
        registry.after_detach_all(id, dropped).wf(),
        registry.after_detach_all(id, dropped).contains(id),
        registry.after_detach_all(id, dropped).session(id).follows(registry.session(id)),
        forall|subscriber: u64|
            #[trigger] registry.after_detach_all(id, dropped).session(id).subscribers.contains(
                subscriber,
            ) == (registry.session(id).subscribers.contains(subscriber) && !dropped.contains(
                subscriber,
            )),
    decreases dropped.len(),
{
    if dropped.len() > 0 {
        let before = registry.after_detach_all(id, dropped.drop_last());
        lemma_detach_all(registry, id, dropped.drop_last());
        lemma_detached_wf(before.session(id), dropped.last());
        lemma_replaced(before, id, before.session(id).detached(dropped.last()));
        let after = registry.after_detach_all(id, dropped);
        assert forall|subscriber: u64|
            #[trigger] after.session(id).subscribers.contains(subscriber) == (registry.session(
                id,
            ).subscribers.contains(subscriber) && !dropped.contains(subscriber)) by {
            assert(before.session(id).subscribers.contains(subscriber) == (registry.session(
                id,
            ).subscribers.contains(subscriber) && !dropped.drop_last().contains(subscriber)));
            if dropped.contains(subscriber) {
                let p = choose|p: int| 0 <= p < dropped.len() && dropped[p] == subscriber;
                if p < dropped.len() - 1 {
                    assert(dropped.drop_last()[p] == subscriber);
                }
            }
        }
    }
}

/// A session that is expired stays expired until it sees activity: the later
/// the check, the more it is expired.
pub proof fn lemma_expiry_lasts(session: SessionView, now: u64, later: u64)
    requires
        session.is_expired(now),
        now <= later,
    ensures
        session.is_expired(later),
{
}

/// One step in the life of one session, as its subscribers see it.
pub enum SessionStep {
    /// A subscriber asks to attach.
    Attach,
    /// The subscriber `subscriber` is dropped.
    Detach { subscriber: u64 },
    /// The pump read `chunk` and sent it to every subscriber of that moment;
    /// the sends to the subscribers in `failed` failed.
    Output { chunk: Seq<char>, failed: Set<u64> },
}

impl SessionView {
    /// The session after one step.
    pub open spec fn step(self, step: SessionStep) -> SessionView {
        match step {
            SessionStep::Attach => if self.attach_error() is None {
                self.attached()
            } else {
                self
            },
            SessionStep::Detach { subscriber } => self.detached(subscriber),
            SessionStep::Output { .. } => self,
        }
    }

    /// The session after a history.
    pub open spec fn run(self, steps: Seq<SessionStep>) -> SessionView
        decreases steps.len(),
    {
        if steps.len() == 0 {
            self
        } else {
            self.run(steps.drop_last()).step(steps.last())
        }
    }
}

/// The chunks that the pump read in a history, in the order in which it read them.
pub open spec fn outputs(steps: Seq<SessionStep>) -> Seq<Seq<char>>
    decreases steps.len(),
{
    if steps.len() == 0 {
        Seq::empty()
    } else {
        match steps.last() {
            SessionStep::Output { chunk, .. } => outputs(steps.drop_last()).push(chunk),
            _ => outputs(steps.drop_last()),
        }
    }
}

/// How often `subscriber` is named in `targets`.
pub open spec fn copies(targets: Seq<u64>, subscriber: u64) -> nat
    decreases targets.len(),
{
    if targets.len() == 0 {
        0
    } else if targets.last() == subscriber {
        copies(targets.drop_last(), subscriber) + 1
    } else {
        copies(targets.drop_last(), subscriber)
    }
}

/// What `subscriber` received in a history of `session`: for each chunk that
/// was sent to it, as often as it was sent, the place of the chunk among the
/// outputs of the history.
pub open spec fn receipts(session: SessionView, steps: Seq<SessionStep>, subscriber: u64) -> Seq<
    int,
>
    decreases steps.len(),
{
    if steps.len() == 0 {
        Seq::empty()
    } else {
        let earlier = receipts(session, steps.drop_last(), subscriber);
        match steps.last() {
            SessionStep::Output { chunk, failed } => if failed.contains(subscriber) {
                earlier
            } else {
                earlier + Seq::new(
                    copies(session.run(steps.drop_last()).subscribers, subscriber),
                    |i: int| outputs(steps.drop_last()).len() as int,
                )
            },
            _ => earlier,
        }
    }
}

/// The chunks that `subscriber` received in a history of `session`, in the
/// order in which it received them.
pub open spec fn received(session: SessionView, steps: Seq<SessionStep>, subscriber: u64) -> Seq<
    Seq<char>,
> {
    receipts(session, steps, subscriber).map_values(|place: int| outputs(steps)[place])
}

/// Every step leaves a well-formed session well formed.
pub proof fn lemma_session_run_wf(session: SessionView, steps: Seq<SessionStep>)
    requires
        session.wf(),
    ensures
        session.run(steps).wf(),
    decreases steps.len(),
{
    if steps.len() > 0 {
        lemma_session_run_wf(session, steps.drop_last());
    }
}

/// Among subscribers in rising order none is named twice.
pub proof fn lemma_copies_at_most_one(targets: Seq<u64>, subscriber: u64)
    requires
        forall|i: int, j: int| 0 <= i < j < targets.len() ==> targets[i] < targets[j],
    ensures
        copies(targets, subscriber) == if targets.contains(subscriber) {
            1nat
        } else {
            0nat
        },
    decreases targets.len(),
{
    if targets.len() > 0 {
        let shorter = targets.drop_last();
        lemma_copies_at_most_one(shorter, subscriber);
        if targets.last() != subscriber && targets.contains(subscriber) {
            let p = choose|p: int| 0 <= p < targets.len() && targets[p] == subscriber;
            assert(shorter[p] == subscriber);
        }
    }
}

/// What a subscriber receives is part of what the PTY gave, in the order in
/// which the PTY gave it: the chunks it received stand at places of the
/// outputs that rise strictly. So nothing reaches a subscriber twice and
/// nothing out of order; chunks are missing only from before it attached,
/// after it was dropped, or where a send to it failed.
pub proof fn lemma_delivery_in_order(session: SessionView, steps: Seq<SessionStep>, subscriber: u64)
    requires
        session.wf(),
    ensures
        received(session, steps, subscriber).len() == receipts(session, steps, subscriber).len(),
        forall|i: int|
            0 <= i < receipts(session, steps, subscriber).len() ==> {
                &&& 0 <= #[trigger] receipts(session, steps, subscriber)[i] < outputs(steps).len()
                &&& received(session, steps, subscriber)[i] == outputs(steps)[receipts(
                    session,
                    steps,
                    subscriber,
                )[i]]
            },
        forall|i: int, j: int|
            0 <= i < j < receipts(session, steps, subscriber).len() ==> receipts(
                session,
                steps,
                subscriber,
            )[i] < receipts(session, steps, subscriber)[j],
    decreases steps.len(),
{
    if steps.len() > 0 {
        let before = steps.drop_last();
        lemma_delivery_in_order(session, before, subscriber);
        lemma_session_run_wf(session, before);
        lemma_copies_at_most_one(session.run(before).subscribers, subscriber);
    }
}

/// A chunk goes to a subscriber just when the subscriber is attached as the
/// chunk is read and the send to it does not fail.
pub proof fn lemma_output_reaches_attached(
    session: SessionView,
    steps: Seq<SessionStep>,
    chunk: Seq<char>,
    failed: Set<u64>,
    subscriber: u64,
)
    requires
        session.wf(),
    ensures
        received(session, steps.push(SessionStep::Output { chunk, failed }), subscriber)
            == if session.run(steps).subscribers.contains(subscriber) && !failed.contains(
            subscriber,
        ) {
            received(session, steps, subscriber).push(chunk)
        } else {
            received(session, steps, subscriber)
        },
{
    let longer = steps.push(SessionStep::Output { chunk, failed });
    assert(longer.drop_last() =~= steps);
    lemma_session_run_wf(session, steps);
    lemma_copies_at_most_one(session.run(steps).subscribers, subscriber);
    lemma_delivery_in_order(session, steps, subscriber);
}

} // verus!
