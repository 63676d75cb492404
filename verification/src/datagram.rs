//! Datagram echo loop: best-effort, unordered, loss-tolerant. One bad
//! datagram never stops the loop; only session closure does.

use vstd::prelude::*;

use crate::codec::{echo_reply_of, make_echo_reply, utf8_check, utf8_ok};

verus! {

/// What to do with one received datagram.
pub enum DatagramAction {
    /// Send these bytes back as a reply datagram.
    Reply(Vec<u8>),
    /// The datagram was malformed: log it and move on.
    Discard,
}

/// Echoes datagrams on the server side of one session. Each datagram is
/// independent: a decode or send failure is logged and skipped, and the
/// loop runs on until the session itself closes.
pub struct DatagramEchoer {
    pub running: bool,
    /// Every well-formed payload echoed so far, in receipt order.
    pub echoed: Ghost<Seq<Seq<u8>>>,
}

impl DatagramEchoer {
    pub fn new() -> (e: Self)
        ensures
            e.running,
            e.echoed@ == Seq::<Seq<u8>>::empty(),
    {
        DatagramEchoer { running: true, echoed: Ghost(Seq::empty()) }
    }

    /// Handles one received datagram: a well-formed payload is answered
    /// with the marker followed by the payload itself; a malformed one is
    /// discarded. Either way the loop keeps running — loss tolerance is the
    /// point of the datagram path.
    pub fn on_datagram(&mut self, payload: &Vec<u8>) -> (a: DatagramAction)
        requires
            old(self).running,
        ensures
            final(self).running,
            utf8_ok(payload@) ==> {
                &&& a matches DatagramAction::Reply(r) && r@ == echo_reply_of(payload@)
                &&& final(self).echoed@ == old(self).echoed@.push(payload@)
            },
            !utf8_ok(payload@) ==> {
                &&& a is Discard
                &&& final(self).echoed@ == old(self).echoed@
            },
    {
        if utf8_check(payload) {
            let r = make_echo_reply(payload);
            self.echoed = Ghost(self.echoed@.push(payload@));
            DatagramAction::Reply(r)
        } else {
            DatagramAction::Discard
        }
    }

    /// Sending one reply datagram failed: logged and skipped, never fatal
    /// to the loop.
    pub fn on_send_error(&mut self)
        requires
            old(self).running,
        ensures
            *final(self) == *old(self),
    {
    }

    /// The owning session closed: the one condition that ends the loop.
    pub fn on_session_closed(&mut self)
        ensures
            !final(self).running,
            final(self).echoed@ == old(self).echoed@,
    {
        self.running = false;
    }

    pub fn is_running(&self) -> (b: bool)
        ensures
            b == self.running,
    {
        self.running
    }
}

} // verus!
