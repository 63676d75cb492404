//! The listening endpoint: accepts many concurrent sessions, each serviced
//! by its own acceptor, independently of every sibling session.

use vstd::prelude::*;

use crate::acceptor::{step_post, AcceptAction, AcceptorState, SessionAcceptor, SessionEvent};

verus! {

/// Owns one acceptor per inbound session. Every event is routed to exactly
/// the session it belongs to; no event ever changes a sibling session.
pub struct Listener {
    pub sessions: Vec<SessionAcceptor>,
}

impl Listener {
    /// Every session the listener holds is well-formed.
    pub open spec fn wf(self) -> bool {
        forall|j: int| 0 <= j < self.sessions@.len() ==> (#[trigger] self.sessions@[j]).wf()
    }

    pub fn new() -> (l: Self)
        ensures
            l.wf(),
            l.sessions@ == Seq::<SessionAcceptor>::empty(),
    {
        Listener { sessions: Vec::new() }
    }

    /// A new inbound session: a fresh acceptor is added for it, and every
    /// session already present is left untouched.
    pub fn on_incoming(&mut self) -> (idx: usize)
        requires
            old(self).wf(),
        ensures
            final(self).wf(),
            idx == old(self).sessions@.len(),
            final(self).sessions@.len() == old(self).sessions@.len() + 1,
            final(self).sessions@[idx as int].state == AcceptorState::Listening,
            forall|j: int|
                0 <= j < old(self).sessions@.len() ==> final(self).sessions@[j] == old(
                    self,
                ).sessions@[j],
    {
        let idx = self.sessions.len();
        self.sessions.push(SessionAcceptor::new());
        idx
    }

    /// Session `i` has an inbound negotiation: it starts negotiating, and
    /// every other session is untouched.
    pub fn session_inbound(&mut self, i: usize)
        requires
            old(self).wf(),
            i < old(self).sessions@.len(),
            old(self).sessions@[i as int].state == AcceptorState::Listening,
        ensures
            final(self).wf(),
            final(self).sessions@.len() == old(self).sessions@.len(),
            final(self).sessions@[i as int].state == AcceptorState::Negotiating,
            final(self).sessions@[i as int].channels@ == old(self).sessions@[i as int].channels@,
            final(self).sessions@[i as int].echoer == old(self).sessions@[i as int].echoer,
            forall|j: int|
                0 <= j < old(self).sessions@.len() && j != i ==> final(self).sessions@[j] == old(
                    self,
                ).sessions@[j],
    {
        let acc = &mut self.sessions[i];
        acc.on_inbound();
    }

    /// Session `i`'s negotiation finished: on success it becomes active,
    /// on failure it closes. Every other session is untouched.
    pub fn session_negotiated(&mut self, i: usize, ok: bool)
        requires
            old(self).wf(),
            i < old(self).sessions@.len(),
            old(self).sessions@[i as int].state == AcceptorState::Negotiating,
        ensures
            final(self).wf(),
            final(self).sessions@.len() == old(self).sessions@.len(),
            ok ==> final(self).sessions@[i as int].state == AcceptorState::Active,
            !ok ==> final(self).sessions@[i as int].state == AcceptorState::Closed,
            final(self).sessions@[i as int].channels@ == old(self).sessions@[i as int].channels@,
            forall|j: int|
                0 <= j < old(self).sessions@.len() && j != i ==> final(self).sessions@[j] == old(
                    self,
                ).sessions@[j],
    {
        let acc = &mut self.sessions[i];
        acc.on_negotiated(ok);
    }

    /// Routes one event to the session it belongs to. The named session
    /// moves exactly as its own `step` says; every other session's state is
    /// untouched.
    pub fn session_step(&mut self, i: usize, ev: SessionEvent) -> (a: AcceptAction)
        requires
            old(self).wf(),
            i < old(self).sessions@.len(),
            old(self).sessions@[i as int].state == AcceptorState::Active,
            ev matches SessionEvent::ChannelStopped(c, _) ==> c < old(self).sessions@[
                i as int
            ].channels@.len(),
        ensures
            final(self).wf(),
            final(self).sessions@.len() == old(self).sessions@.len(),
            step_post(old(self).sessions@[i as int], ev, final(self).sessions@[i as int], a),
            forall|j: int|
                0 <= j < old(self).sessions@.len() && j != i ==> final(self).sessions@[j] == old(
                    self,
                ).sessions@[j],
    {
        let acc = &mut self.sessions[i];
        acc.step(ev)
    }

    /// Session isolation: closing session `i` shuts down that session —
    /// its loop ends and its handlers are cancelled — while the state of
    /// every other concurrently active session is untouched.
    pub fn close_session(&mut self, i: usize) -> (a: AcceptAction)
        requires
            old(self).wf(),
            i < old(self).sessions@.len(),
            old(self).sessions@[i as int].state == AcceptorState::Active,
        ensures
            final(self).wf(),
            final(self).sessions@.len() == old(self).sessions@.len(),
            final(self).sessions@[i as int].state == AcceptorState::Closed,
            a is ShutdownAll,
            step_post(
                old(self).sessions@[i as int],
                SessionEvent::SessionClosed,
                final(self).sessions@[i as int],
                a,
            ),
            forall|j: int|
                0 <= j < old(self).sessions@.len() && j != i ==> final(self).sessions@[j] == old(
                    self,
                ).sessions@[j],
    {
        self.session_step(i, SessionEvent::SessionClosed)
    }

    pub fn session_count(&self) -> (n: usize)
        ensures
            n == self.sessions@.len(),
    {
        self.sessions.len()
    }

    pub fn session_state(&self, i: usize) -> (s: AcceptorState)
        requires
            i < self.sessions@.len(),
        ensures
            s == self.sessions@[i as int].state,
    {
        self.sessions[i].state()
    }
}

} // verus!
