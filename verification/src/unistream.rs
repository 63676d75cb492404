//! Handler for one receive-only channel: drains chunks and surfaces each
//! decoded message to the observability sink; no reply path exists.

use vstd::prelude::*;

use crate::channel::{HandlerStatus, ReadEvent, StopReason};
use crate::codec::{utf8_check, utf8_ok};

verus! {

/// What the handler asks its driver to do after one read.
pub enum UnistreamAction {
    /// Hand these bytes — one well-formed message, exactly as delivered —
    /// to the sink, then read again.
    Deliver(Vec<u8>),
    /// Transient empty read: read again without delivering.
    Retry,
    /// Stop servicing this channel for the given reason and report it.
    Stop(StopReason),
}

/// Services exactly one unidirectional (receive-only) channel. It runs
/// until the receive half ends, a read fails, or a chunk fails to decode;
/// whichever way it stops, the reason is recorded here and nothing outside
/// this handler is touched.
pub struct UnistreamHandler {
    pub status: HandlerStatus,
    /// Every non-empty chunk delivered to the sink so far, in order.
    pub delivered: Ghost<Seq<Seq<u8>>>,
}

impl UnistreamHandler {
    pub open spec fn is_running(self) -> bool {
        self.status is Running
    }

    pub fn new() -> (h: Self)
        ensures
            h.is_running(),
            h.delivered@ == Seq::<Seq<u8>>::empty(),
    {
        UnistreamHandler { status: HandlerStatus::Running, delivered: Ghost(Seq::empty()) }
    }

    /// One iteration of the drain loop, given the outcome of the latest
    /// read.
    ///
    /// A non-empty, well-formed chunk goes to the sink unchanged; an empty
    /// chunk is retried; everything else stops this handler — and only this
    /// handler — with the reason recorded.
    pub fn step(&mut self, ev: ReadEvent) -> (a: UnistreamAction)
        requires
            old(self).is_running(),
        ensures
            match ev {
                ReadEvent::Chunk(m) => {
                    if m@.len() == 0 {
                        &&& a is Retry
                        &&& *final(self) == *old(self)
                    } else if utf8_ok(m@) {
                        &&& a matches UnistreamAction::Deliver(d) && d@ == m@
                        &&& final(self).is_running()
                        &&& final(self).delivered@ == old(self).delivered@.push(m@)
                    } else {
                        &&& a == UnistreamAction::Stop(StopReason::Decode)
                        &&& final(self).status == HandlerStatus::Stopped(StopReason::Decode)
                        &&& final(self).delivered@ == old(self).delivered@
                    }
                },
                ReadEvent::EndOfStream => {
                    &&& a == UnistreamAction::Stop(StopReason::EndOfStream)
                    &&& final(self).status == HandlerStatus::Stopped(StopReason::EndOfStream)
                    &&& final(self).delivered@ == old(self).delivered@
                },
                ReadEvent::Failure => {
                    &&& a == UnistreamAction::Stop(StopReason::Transport)
                    &&& final(self).status == HandlerStatus::Stopped(StopReason::Transport)
                    &&& final(self).delivered@ == old(self).delivered@
                },
            },
    {
        match ev {
            ReadEvent::Chunk(m) => {
                if m.len() == 0 {
                    UnistreamAction::Retry
                } else if utf8_check(&m) {
                    self.delivered = Ghost(self.delivered@.push(m@));
                    UnistreamAction::Deliver(m)
                } else {
                    self.status = HandlerStatus::Stopped(StopReason::Decode);
                    UnistreamAction::Stop(StopReason::Decode)
                }
            },
            ReadEvent::EndOfStream => {
                self.status = HandlerStatus::Stopped(StopReason::EndOfStream);
                UnistreamAction::Stop(StopReason::EndOfStream)
            },
            ReadEvent::Failure => {
                self.status = HandlerStatus::Stopped(StopReason::Transport);
                UnistreamAction::Stop(StopReason::Transport)
            },
        }
    }

    pub fn status(&self) -> (s: HandlerStatus)
        ensures
            s == self.status,
    {
        self.status
    }
}

} // verus!
