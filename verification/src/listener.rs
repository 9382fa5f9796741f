//! The listener: binding the endpoint and accepting connections.
//!
//! Failing to bind the endpoint is fatal. A failed accept costs only that one attempt. Each
//! accepted connection gets a session of its own, which the driver starts without waiting for
//! it: accepting goes on at once.

use vstd::prelude::*;

verus! {

/// The state of the listener.
#[derive(Clone, Copy, Debug, PartialEq, Eq, Structural)]
pub enum ListenerState {
    /// The endpoint is not bound yet.
    Binding,
    /// The endpoint is bound and connections are accepted.
    Serving,
    /// The endpoint could not be bound.
    Stopped,
}

/// What the driver reports to the listener.
#[derive(Clone, Copy, Debug, PartialEq, Eq, Structural)]
pub enum ListenerEvent {
    Bound,
    BindFailed,
    Accepted,
    AcceptFailed,
}

/// What the driver is to do next.
#[derive(Clone, Copy, Debug, PartialEq, Eq, Structural)]
pub enum ListenerAction {
    /// Bind the endpoint and report the outcome.
    Bind,
    /// Wait for the next connection and report the outcome.
    Accept,
    /// Start a session with this number for the connection just accepted, detached, and then
    /// wait for the next connection.
    Spawn(u64),
    /// Terminate the process with a diagnostic.
    Exit,
}

/// The number after `accepted`, starting over after the largest.
pub open spec fn next_number(accepted: u64) -> u64 {
    if accepted == u64::MAX {
        0
    } else {
        (accepted + 1) as u64
    }
}

/// Where a listener in `state` that has accepted `accepted` connections goes on `event`, how
/// many connections it has accepted then, and what its driver is to do.
///
/// A binding listener serves once the endpoint is bound and stops when binding fails. A
/// serving listener starts a session for each accepted connection and goes on accepting,
/// also after a failed accept. A stopped listener stays stopped. A report that does not fit
/// the state changes nothing: the listener asks again for what it is waiting for.
pub open spec fn listener_transition(state: ListenerState, accepted: u64, event: ListenerEvent) -> (
    ListenerState,
    u64,
    ListenerAction,
) {
    match state {
        ListenerState::Binding => match event {
            ListenerEvent::Bound => (ListenerState::Serving, accepted, ListenerAction::Accept),
            ListenerEvent::BindFailed => (ListenerState::Stopped, accepted, ListenerAction::Exit),
            _ => (ListenerState::Binding, accepted, ListenerAction::Bind),
        },
        ListenerState::Serving => match event {
            ListenerEvent::Accepted => (
                ListenerState::Serving,
                next_number(accepted),
                ListenerAction::Spawn(accepted),
            ),
            _ => (ListenerState::Serving, accepted, ListenerAction::Accept),
        },
        ListenerState::Stopped => (ListenerState::Stopped, accepted, ListenerAction::Exit),
    }
}

/// The state machine of the listener.
#[derive(Debug, PartialEq, Eq)]
pub struct Listener {
    state: ListenerState,
    accepted: u64,
}

impl Listener {
    /// The state of the listener.
    pub closed spec fn state(&self) -> ListenerState {
        self.state
    }

    /// How many connections the listener has accepted, counted up to the largest number and
    /// then from zero again.
    pub closed spec fn accepted(&self) -> u64 {
        self.accepted
    }

    /// A listener whose endpoint is not bound yet.
    pub fn new() -> (listener: Listener)
        ensures
            listener.state() == ListenerState::Binding,
            listener.accepted() == 0,
    {
        Listener { state: ListenerState::Binding, accepted: 0 }
    }

    /// The state of the listener.
    pub fn current_state(&self) -> (state: ListenerState)
        ensures
            state == self.state(),
    {
        self.state
    }

    /// How many connections the listener has accepted.
    pub fn accepted_count(&self) -> (accepted: u64)
        ensures
            accepted == self.accepted(),
    {
        self.accepted
    }

    /// Takes what the driver reports and answers with what the driver is to do next.
    pub fn step(&mut self, event: ListenerEvent) -> (action: ListenerAction)
        ensures
            (final(self).state(), final(self).accepted(), action) == listener_transition(
                old(self).state(),
                old(self).accepted(),
                event,
            ),
    {
        match self.state {
            ListenerState::Binding => match event {
                ListenerEvent::Bound => {
                    self.state = ListenerState::Serving;
                    ListenerAction::Accept
                },
                ListenerEvent::BindFailed => {
                    self.state = ListenerState::Stopped;
                    ListenerAction::Exit
                },
                _ => ListenerAction::Bind,
            },
            ListenerState::Serving => match event {
                ListenerEvent::Accepted => {
                    let number: u64 = self.accepted;
                    self.accepted = number.wrapping_add(1);
                    ListenerAction::Spawn(number)
                },
                _ => ListenerAction::Accept,
            },
            ListenerState::Stopped => ListenerAction::Exit,
        }
    }
}

/// The process is told to terminate exactly when binding the endpoint fails or has failed.
pub proof fn lemma_only_bind_failure_is_fatal(
    state: ListenerState,
    accepted: u64,
    event: ListenerEvent,
)
    ensures
        listener_transition(state, accepted, event).2 is Exit <==> state == ListenerState::Stopped
            || (state == ListenerState::Binding && event == ListenerEvent::BindFailed),
        listener_transition(state, accepted, event).2 is Exit <==> listener_transition(
            state,
            accepted,
            event,
        ).0 == ListenerState::Stopped,
{
}

/// A listener that could not bind never starts a session: it stays stopped, whatever is
/// reported to it, and accepts nothing.
pub proof fn lemma_stopped_listener_accepts_nothing(accepted: u64, event: ListenerEvent)
    ensures
        listener_transition(ListenerState::Stopped, accepted, event) == (
            ListenerState::Stopped,
            accepted,
            ListenerAction::Exit,
        ),
{
}

/// A failed accept costs only that attempt: the listener keeps serving and accepts again.
pub proof fn lemma_failed_accept_is_not_fatal(accepted: u64)
    ensures
        listener_transition(ListenerState::Serving, accepted, ListenerEvent::AcceptFailed) == (
            ListenerState::Serving,
            accepted,
            ListenerAction::Accept,
        ),
{
}

/// A session is started exactly for an accepted connection on a serving listener, and two
/// connections accepted one after the other get different numbers.
pub proof fn lemma_each_connection_gets_a_session(
    state: ListenerState,
    accepted: u64,
    event: ListenerEvent,
)
    ensures
        listener_transition(state, accepted, event).2 is Spawn <==> state == ListenerState::Serving
            && event == ListenerEvent::Accepted,
        listener_transition(state, accepted, event).2 matches ListenerAction::Spawn(number)
            ==> number == accepted && listener_transition(state, accepted, event).1 != number,
{
}

} // verus!
