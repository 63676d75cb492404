//! Handler for one bidirectional channel: reads chunks, echoes each back
//! with the fixed marker, and keeps its own failures to itself.

use vstd::prelude::*;

use crate::channel::{HandlerStatus, ReadEvent, StopReason};
use crate::codec::{echo_reply_of, make_echo_reply, utf8_check, utf8_ok};

verus! {

/// What the handler asks its driver to do after one read.
pub enum BistreamAction {
    /// Write these bytes back on the send half, then read again.
    Reply(Vec<u8>),
    /// Transient empty read: read again without replying.
    Retry,
    /// Stop servicing this channel for the given reason and report it.
    Stop(StopReason),
}

/// The replies owed for a sequence of delivered messages: one echo reply
/// per message, in delivery order.
pub open spec fn replies_for(msgs: Seq<Seq<u8>>) -> Seq<Seq<u8>> {
    msgs.map_values(|m: Seq<u8>| echo_reply_of(m))
}

/// Services exactly one bidirectional channel. It runs until the receive
/// half ends, a read or write fails, or a chunk fails to decode; whichever
/// way it stops, the reason is recorded here and nothing outside this
/// handler is touched.
pub struct BistreamHandler {
    pub status: HandlerStatus,
    /// Every non-empty chunk delivered so far, in delivery order.
    pub received: Ghost<Seq<Seq<u8>>>,
    /// Every reply issued so far, in issue order.
    pub replied: Ghost<Seq<Seq<u8>>>,
}

impl BistreamHandler {
    /// The handler has issued exactly the replies owed for the messages
    /// delivered to it, in order: one reply per message, no reordering,
    /// no duplication.
    pub open spec fn wf(self) -> bool {
        self.replied@ == replies_for(self.received@)
    }

    pub open spec fn is_running(self) -> bool {
        self.status is Running
    }

    pub fn new() -> (h: Self)
        ensures
            h.wf(),
            h.is_running(),
            h.received@ == Seq::<Seq<u8>>::empty(),
            h.replied@ == Seq::<Seq<u8>>::empty(),
    {
        proof {
            assert(replies_for(Seq::<Seq<u8>>::empty()) =~= Seq::<Seq<u8>>::empty());
        }
        BistreamHandler {
            status: HandlerStatus::Running,
            received: Ghost(Seq::empty()),
            replied: Ghost(Seq::empty()),
        }
    }

    /// One iteration of the echo loop, given the outcome of the latest read.
    ///
    /// A non-empty, well-formed chunk is answered with the marker followed
    /// by the chunk itself; an empty chunk is retried; everything else stops
    /// this handler — and only this handler — with the reason recorded.
    pub fn step(&mut self, ev: ReadEvent) -> (a: BistreamAction)
        requires
            old(self).is_running(),
            old(self).wf(),
        ensures
            final(self).wf(),
            match ev {
                ReadEvent::Chunk(m) => {
                    if m@.len() == 0 {
                        &&& a is Retry
                        &&& *final(self) == *old(self)
                    } else if utf8_ok(m@) {
                        &&& a matches BistreamAction::Reply(r) && r@ == echo_reply_of(m@)
                        &&& final(self).is_running()
                        &&& final(self).received@ == old(self).received@.push(m@)
                        &&& final(self).replied@ == old(self).replied@.push(echo_reply_of(m@))
                    } else {
                        &&& a == BistreamAction::Stop(StopReason::Decode)
                        &&& final(self).status == HandlerStatus::Stopped(StopReason::Decode)
                        &&& final(self).received@ == old(self).received@
                        &&& final(self).replied@ == old(self).replied@
                    }
                },
                ReadEvent::EndOfStream => {
                    &&& a == BistreamAction::Stop(StopReason::EndOfStream)
                    &&& final(self).status == HandlerStatus::Stopped(StopReason::EndOfStream)
                    &&& final(self).received@ == old(self).received@
                    &&& final(self).replied@ == old(self).replied@
                },
                ReadEvent::Failure => {
                    &&& a == BistreamAction::Stop(StopReason::Transport)
                    &&& final(self).status == HandlerStatus::Stopped(StopReason::Transport)
                    &&& final(self).received@ == old(self).received@
                    &&& final(self).replied@ == old(self).replied@
                },
            },
    {
        match ev {
            ReadEvent::Chunk(m) => {
                if m.len() == 0 {
                    BistreamAction::Retry
                } else if utf8_check(&m) {
                    let r = make_echo_reply(&m);
                    self.received = Ghost(self.received@.push(m@));
                    self.replied = Ghost(self.replied@.push(echo_reply_of(m@)));
                    proof {
                        assert(self.replied@ =~= replies_for(self.received@));
                    }
                    BistreamAction::Reply(r)
                } else {
                    self.status = HandlerStatus::Stopped(StopReason::Decode);
                    BistreamAction::Stop(StopReason::Decode)
                }
            },
            ReadEvent::EndOfStream => {
                self.status = HandlerStatus::Stopped(StopReason::EndOfStream);
                BistreamAction::Stop(StopReason::EndOfStream)
            },
            ReadEvent::Failure => {
                self.status = HandlerStatus::Stopped(StopReason::Transport);
                BistreamAction::Stop(StopReason::Transport)
            },
        }
    }

    /// The driver failed to write a reply: a channel-level transport error,
    /// fatal to this handler alone.
    pub fn on_write_error(&mut self)
        requires
            old(self).is_running(),
            old(self).wf(),
        ensures
            final(self).wf(),
            final(self).status == HandlerStatus::Stopped(StopReason::Transport),
            final(self).received@ == old(self).received@,
            final(self).replied@ == old(self).replied@,
    {
        self.status = HandlerStatus::Stopped(StopReason::Transport);
    }

    pub fn status(&self) -> (s: HandlerStatus)
        ensures
            s == self.status,
    {
        self.status
    }
}

/// Ordering within a channel: a well-formed handler has issued one reply per
/// delivered message, in delivery order, and the k-th reply echoes the k-th
/// message — no reordering and no duplication.
pub proof fn lemma_replies_in_order(h: BistreamHandler)
    requires
        h.wf(),
    ensures
        h.replied@.len() == h.received@.len(),
        forall|k: int|
            0 <= k < h.received@.len() ==> h.replied@[k] == echo_reply_of(h.received@[k]),
{
}

} // verus!
