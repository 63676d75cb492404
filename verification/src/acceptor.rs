//! Server-side session lifecycle: negotiation, the active loop racing the
//! three acceptance sources, per-channel handler bookkeeping, and shutdown.

use vstd::prelude::*;

use crate::channel::{HandlerStatus, StopReason};
use crate::codec::{echo_reply_of, utf8_ok};
use crate::datagram::{DatagramAction, DatagramEchoer};

verus! {

/// Direction of an accepted channel, from the acceptor's point of view.
#[derive(Clone, Copy, PartialEq, Eq, Structural, Debug)]
pub enum ChannelKind {
    Bidirectional,
    Unidirectional,
}

/// One accepted channel and the liveness of its dedicated handler task.
/// Exactly one handler exists per accepted channel.
#[derive(Clone, Copy, PartialEq, Eq, Structural, Debug)]
pub struct ChannelEntry {
    pub kind: ChannelKind,
    pub status: HandlerStatus,
}

/// Phase of one server-side session.
#[derive(Clone, Copy, PartialEq, Eq, Structural, Debug)]
pub enum AcceptorState {
    Listening,
    Negotiating,
    Active,
    Closed,
}

/// The events the active session loop races, one at a time: the three
/// acceptance sources, a handler's termination report, and closure of the
/// session itself. When several sources are ready at once the driver must
/// pick among them fairly — say uniformly at random — so that neither
/// datagrams nor channel acceptance can starve the other under load.
pub enum SessionEvent {
    BiAccepted,
    UniAccepted,
    DatagramReceived(Vec<u8>),
    ChannelStopped(usize, StopReason),
    SessionClosed,
}

/// What the acceptor's driver must do after one event.
pub enum AcceptAction {
    /// Spawn an independent bidirectional handler task for the channel at
    /// this index.
    SpawnBistream(usize),
    /// Spawn an independent unidirectional handler task for the channel at
    /// this index.
    SpawnUnistream(usize),
    /// Send these bytes back as a reply datagram.
    ReplyDatagram(Vec<u8>),
    /// The datagram was malformed: log it and move on.
    DiscardDatagram,
    /// The session is over: cancel and join every outstanding handler task,
    /// then release the session.
    ShutdownAll,
    /// Nothing to perform; keep racing the sources.
    Continue,
}

/// A channel entry after session shutdown: a still-running handler is
/// cancelled, a finished one keeps the reason it already reported.
pub open spec fn after_shutdown(e: ChannelEntry) -> ChannelEntry {
    if e.status is Running {
        (ChannelEntry { kind: e.kind, status: HandlerStatus::Stopped(StopReason::Cancelled) })
    } else {
        e
    }
}

/// Accepts one inbound session, promotes it to active, and multiplexes its
/// lifetime over new channels and datagrams. Each accepted channel gets a
/// slot here and a dedicated handler task at the driver; one channel's
/// failure never touches a sibling slot, the datagram loop, or the session.
pub struct SessionAcceptor {
    pub state: AcceptorState,
    /// One slot per accepted channel, in acceptance order.
    pub channels: Vec<ChannelEntry>,
    /// The session-wide datagram echo loop.
    pub echoer: DatagramEchoer,
}

/// Exactly how one event moves an active acceptor from `pre` to `post`
/// with directive `a`.
pub open spec fn step_post(
    pre: SessionAcceptor,
    ev: SessionEvent,
    post: SessionAcceptor,
    a: AcceptAction,
) -> bool {
    match ev {
        SessionEvent::BiAccepted => {
            &&& a == AcceptAction::SpawnBistream(pre.channels@.len() as usize)
            &&& post.channels@ == pre.channels@.push(
                (ChannelEntry { kind: ChannelKind::Bidirectional, status: HandlerStatus::Running }),
            )
            &&& post.state == AcceptorState::Active
            &&& post.echoer == pre.echoer
        },
        SessionEvent::UniAccepted => {
            &&& a == AcceptAction::SpawnUnistream(pre.channels@.len() as usize)
            &&& post.channels@ == pre.channels@.push(
                (ChannelEntry { kind: ChannelKind::Unidirectional, status: HandlerStatus::Running }),
            )
            &&& post.state == AcceptorState::Active
            &&& post.echoer == pre.echoer
        },
        SessionEvent::DatagramReceived(p) => {
            &&& post.state == AcceptorState::Active
            &&& post.channels@ == pre.channels@
            &&& post.echoer.running
            &&& utf8_ok(p@) ==> {
                &&& a matches AcceptAction::ReplyDatagram(r) && r@ == echo_reply_of(p@)
                &&& post.echoer.echoed@ == pre.echoer.echoed@.push(p@)
            }
            &&& !utf8_ok(p@) ==> {
                &&& a is DiscardDatagram
                &&& post.echoer == pre.echoer
            }
        },
        SessionEvent::ChannelStopped(i, reason) => {
            &&& a is Continue
            &&& post.channels@ == pre.channels@.update(
                i as int,
                (ChannelEntry { kind: pre.channels@[i as int].kind, status: HandlerStatus::Stopped(reason) }),
            )
            &&& forall|j: int|
                0 <= j < pre.channels@.len() && j != i ==> post.channels@[j] == pre.channels@[j]
            &&& post.state == AcceptorState::Active
            &&& post.echoer == pre.echoer
        },
        SessionEvent::SessionClosed => {
            &&& a is ShutdownAll
            &&& post.state == AcceptorState::Closed
            &&& post.channels@ == pre.channels@.map_values(|e: ChannelEntry| after_shutdown(e))
            &&& !post.echoer.running
            &&& post.echoer.echoed@ == pre.echoer.echoed@
        },
    }
}

impl SessionAcceptor {
    /// Phase-dependent well-formedness: no channels exist before the
    /// session is active, and the datagram loop lives exactly as long as
    /// the session does.
    pub open spec fn wf(self) -> bool {
        &&& (self.state is Listening || self.state is Negotiating) ==> self.channels@.len() == 0
        &&& (self.echoer.running <==> !(self.state is Closed))
    }

    pub fn new() -> (s: Self)
        ensures
            s.wf(),
            s.state == AcceptorState::Listening,
            s.channels@ == Seq::<ChannelEntry>::empty(),
            s.echoer.echoed@ == Seq::<Seq<u8>>::empty(),
    {
        SessionAcceptor {
            state: AcceptorState::Listening,
            channels: Vec::new(),
            echoer: DatagramEchoer::new(),
        }
    }

    /// An inbound session negotiation arrived: start negotiating it.
    pub fn on_inbound(&mut self)
        requires
            old(self).state == AcceptorState::Listening,
            old(self).wf(),
        ensures
            final(self).wf(),
            final(self).state == AcceptorState::Negotiating,
            final(self).channels@ == old(self).channels@,
            final(self).echoer == old(self).echoer,
    {
        self.state = AcceptorState::Negotiating;
    }

    /// The negotiation finished: on success the session is active and the
    /// loop starts; on failure the session is closed before it ever carried
    /// a channel.
    pub fn on_negotiated(&mut self, ok: bool)
        requires
            old(self).state == AcceptorState::Negotiating,
            old(self).wf(),
        ensures
            final(self).wf(),
            ok ==> final(self).state == AcceptorState::Active,
            !ok ==> final(self).state == AcceptorState::Closed,
            final(self).channels@ == old(self).channels@,
            final(self).echoer.echoed@ == old(self).echoer.echoed@,
    {
        if ok {
            self.state = AcceptorState::Active;
        } else {
            self.state = AcceptorState::Closed;
            self.echoer.on_session_closed();
        }
    }

    /// One turn of the active loop, given whichever event won the race.
    ///
    /// A new channel gets a running slot and a spawn directive; a datagram
    /// is echoed or discarded inline; a handler's termination marks exactly
    /// its own slot; only `SessionClosed` ends the loop, cancelling every
    /// outstanding handler.
    pub fn step(&mut self, ev: SessionEvent) -> (a: AcceptAction)
        requires
            old(self).state == AcceptorState::Active,
            old(self).wf(),
            ev matches SessionEvent::ChannelStopped(i, _) ==> i < old(self).channels@.len(),
        ensures
            final(self).wf(),
            step_post(*old(self), ev, *final(self), a),
    {
        match ev {
            SessionEvent::BiAccepted => {
                let idx = self.channels.len();
                self.channels.push(
                    ChannelEntry { kind: ChannelKind::Bidirectional, status: HandlerStatus::Running },
                );
                AcceptAction::SpawnBistream(idx)
            },
            SessionEvent::UniAccepted => {
                let idx = self.channels.len();
                self.channels.push(
                    ChannelEntry { kind: ChannelKind::Unidirectional, status: HandlerStatus::Running },
                );
                AcceptAction::SpawnUnistream(idx)
            },
            SessionEvent::DatagramReceived(p) => {
                match self.echoer.on_datagram(&p) {
                    DatagramAction::Reply(r) => AcceptAction::ReplyDatagram(r),
                    DatagramAction::Discard => AcceptAction::DiscardDatagram,
                }
            },
            SessionEvent::ChannelStopped(i, reason) => {
                let slot = &mut self.channels[i];
                slot.status = HandlerStatus::Stopped(reason);
                AcceptAction::Continue
            },
            SessionEvent::SessionClosed => {
                let ghost pre = *self;
                let mut i: usize = 0;
                while i < self.channels.len()
                    invariant
                        self.channels@.len() == pre.channels@.len(),
                        i <= pre.channels@.len(),
                        forall|j: int|
                            0 <= j < i ==> #[trigger] self.channels@[j] == after_shutdown(
                                pre.channels@[j],
                            ),
                        forall|j: int|
                            i <= j < pre.channels@.len() ==> self.channels@[j] == pre.channels@[j],
                        self.state == pre.state,
                        self.echoer == pre.echoer,
                    decreases pre.channels@.len() - i,
                {
                    let slot = &mut self.channels[i];
                    match slot.status {
                        HandlerStatus::Running => {
                            slot.status = HandlerStatus::Stopped(StopReason::Cancelled);
                        },
                        HandlerStatus::Stopped(_) => {},
                    }
                    i += 1;
                }
                proof {
                    assert(self.channels@ =~= pre.channels@.map_values(
                        |e: ChannelEntry| after_shutdown(e),
                    ));
                }
                self.state = AcceptorState::Closed;
                self.echoer.on_session_closed();
                AcceptAction::ShutdownAll
            },
        }
    }

    pub fn state(&self) -> (s: AcceptorState)
        ensures
            s == self.state,
    {
        self.state
    }

    pub fn channel_count(&self) -> (n: usize)
        ensures
            n == self.channels@.len(),
    {
        self.channels.len()
    }

    pub fn channel(&self, i: usize) -> (e: ChannelEntry)
        requires
            i < self.channels@.len(),
        ensures
            e == self.channels@[i as int],
    {
        self.channels[i]
    }
}

/// Channel isolation: when one handler's termination is recorded, every
/// sibling channel's slot, the datagram loop, and the session phase are all
/// untouched — the loss stays contained to that one channel.
pub proof fn lemma_channel_isolation(
    pre: SessionAcceptor,
    i: usize,
    reason: StopReason,
    post: SessionAcceptor,
    a: AcceptAction,
)
    requires
        i < pre.channels@.len(),
        step_post(pre, SessionEvent::ChannelStopped(i, reason), post, a),
    ensures
        post.state == AcceptorState::Active,
        post.echoer == pre.echoer,
        post.channels@.len() == pre.channels@.len(),
        post.channels@[i as int].status == HandlerStatus::Stopped(reason),
        post.channels@[i as int].kind == pre.channels@[i as int].kind,
        forall|j: int|
            0 <= j < pre.channels@.len() && j != i ==> post.channels@[j] == pre.channels@[j],
{
}

/// The channel table after `n` consecutive bidirectional accepts, as
/// `step` performs them one `BiAccepted` event at a time.
pub open spec fn accept_bi_n(s: Seq<ChannelEntry>, n: nat) -> Seq<ChannelEntry>
    decreases n,
{
    if n == 0 {
        s
    } else {
        accept_bi_n(s, (n - 1) as nat).push(
            (ChannelEntry { kind: ChannelKind::Bidirectional, status: HandlerStatus::Running }),
        )
    }
}

/// Concurrent accept: `n` simultaneous inbound bidirectional-channel
/// requests, drained through the acceptor in any arrival order, are all
/// accepted — each ends up with its own running handler slot, and every
/// channel accepted earlier is left untouched.
pub proof fn lemma_all_accepted(s: Seq<ChannelEntry>, n: nat)
    ensures
        accept_bi_n(s, n).len() == s.len() + n,
        forall|j: int| 0 <= j < s.len() ==> accept_bi_n(s, n)[j] == s[j],
        forall|j: int|
            s.len() <= j < s.len() + n ==> (#[trigger] accept_bi_n(s, n)[j]).status is Running
                && accept_bi_n(s, n)[j].kind is Bidirectional,
    decreases n,
{
    if n > 0 {
        lemma_all_accepted(s, (n - 1) as nat);
    }
}

} // verus!
