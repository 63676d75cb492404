//! Client side: establishes a session, opens the two tagged bidirectional
//! channels, and races their receive halves to display incoming data.

use vstd::prelude::*;

use crate::channel::{ReadEvent, StopReason};
use crate::codec::{extend_bytes, utf8_check, utf8_ok};

verus! {

/// Tag prepended to a displayed line: the ASCII bytes of `"Stream 1: "`
/// for the first channel and of `"Stream 2: "` for the second.
pub open spec fn stream_tag_prefix(is_first: bool) -> Seq<u8> {
    if is_first {
        seq![83u8, 116u8, 114u8, 101u8, 97u8, 109u8, 32u8, 49u8, 58u8, 32u8]
    } else {
        seq![83u8, 116u8, 114u8, 101u8, 97u8, 109u8, 32u8, 50u8, 58u8, 32u8]
    }
}

/// The display line owed for a message on a channel: that channel's tag —
/// and no other's — followed by the message itself, byte for byte.
pub open spec fn display_line_of(is_first: bool, m: Seq<u8>) -> Seq<u8> {
    stream_tag_prefix(is_first) + m
}

/// Builds the display line for a message received on the tagged channel.
pub fn make_display_line(is_first: bool, msg: &Vec<u8>) -> (r: Vec<u8>)
    ensures
        r@ == display_line_of(is_first, msg@),
{
    let mut r: Vec<u8> = Vec::new();
    r.push(83u8);
    r.push(116u8);
    r.push(114u8);
    r.push(101u8);
    r.push(97u8);
    r.push(109u8);
    r.push(32u8);
    if is_first {
        r.push(49u8);
    } else {
        r.push(50u8);
    }
    r.push(58u8);
    r.push(32u8);
    proof {
        assert(r@ =~= stream_tag_prefix(is_first));
    }
    extend_bytes(&mut r, msg);
    r
}

/// Errors the dialer reports to its caller.
#[derive(Clone, Copy, PartialEq, Eq, Structural, Debug)]
pub enum DialError {
    /// A channel was requested before any session was established.
    NotConnected,
}

/// What the dialer asks its driver to do after one read on a racing
/// receive half.
pub enum DialerAction {
    /// Show this line — already tagged with its channel — on the display
    /// sink, then read that channel again.
    Display(Vec<u8>),
    /// Transient empty read: read that channel again without displaying.
    Retry,
    /// The channel was lost for the given reason. The loss is reported
    /// tagged with the channel it struck, and — as the single combined
    /// wait over both halves has it — the first loss ends the whole race.
    ChannelLost(StopReason),
}

/// Establishes one outbound session, opens exactly two bidirectional
/// channels tagged first and second, then consumes both receive halves
/// concurrently, tagging every displayed line with the channel it came
/// from — never with the other.
pub struct SessionDialer {
    /// A transport session has been established.
    pub connected: bool,
    /// The first tagged channel has been opened on the session.
    pub first_open: bool,
    /// The second tagged channel has been opened on the session.
    pub second_open: bool,
    /// Both receive halves are being raced.
    pub racing: bool,
    /// Every message displayed for the first channel, in arrival order.
    pub shown_first: Ghost<Seq<Seq<u8>>>,
    /// Every message displayed for the second channel, in arrival order.
    pub shown_second: Ghost<Seq<Seq<u8>>>,
}

impl SessionDialer {
    /// Channels exist only on an established session, and the race runs
    /// only once both channels are open.
    pub open spec fn wf(self) -> bool {
        &&& (self.first_open || self.second_open) ==> self.connected
        &&& self.racing ==> self.first_open && self.second_open
    }

    pub fn new() -> (d: Self)
        ensures
            d.wf(),
            !d.connected,
            !d.first_open,
            !d.second_open,
            !d.racing,
            d.shown_first@ == Seq::<Seq<u8>>::empty(),
            d.shown_second@ == Seq::<Seq<u8>>::empty(),
    {
        SessionDialer {
            connected: false,
            first_open: false,
            second_open: false,
            racing: false,
            shown_first: Ghost(Seq::empty()),
            shown_second: Ghost(Seq::empty()),
        }
    }

    /// The driver established the transport session (address dialled,
    /// identity verified against the out-of-band certificate digest).
    pub fn init_session(&mut self)
        requires
            old(self).wf(),
        ensures
            final(self).wf(),
            final(self).connected,
            final(self).first_open == old(self).first_open,
            final(self).second_open == old(self).second_open,
            final(self).racing == old(self).racing,
            final(self).shown_first@ == old(self).shown_first@,
            final(self).shown_second@ == old(self).shown_second@,
    {
        self.connected = true;
    }

    /// Opens the tagged bidirectional channel on the session. Without an
    /// established session this fails — and changes nothing; with one it
    /// succeeds and marks exactly the requested channel open.
    pub fn setup_bistream(&mut self, is_first: bool) -> (r: Result<(), DialError>)
        requires
            old(self).wf(),
        ensures
            final(self).wf(),
            !old(self).connected ==> {
                &&& r == Result::<(), DialError>::Err(DialError::NotConnected)
                &&& *final(self) == *old(self)
            },
            old(self).connected ==> {
                &&& r == Result::<(), DialError>::Ok(())
                &&& final(self).first_open == (old(self).first_open || is_first)
                &&& final(self).second_open == (old(self).second_open || !is_first)
                &&& final(self).connected
                &&& final(self).racing == old(self).racing
                &&& final(self).shown_first@ == old(self).shown_first@
                &&& final(self).shown_second@ == old(self).shown_second@
            },
    {
        if !self.connected {
            Err(DialError::NotConnected)
        } else {
            if is_first {
                self.first_open = true;
            } else {
                self.second_open = true;
            }
            Ok(())
        }
    }

    /// Starts racing the two receive halves. Both tagged channels must have
    /// been opened first.
    pub fn start_bistreams(&mut self)
        requires
            old(self).wf(),
            old(self).first_open,
            old(self).second_open,
        ensures
            final(self).wf(),
            final(self).racing,
            final(self).shown_first@ == old(self).shown_first@,
            final(self).shown_second@ == old(self).shown_second@,
    {
        self.racing = true;
    }

    /// One turn of the race, given which channel's read finished and how.
    ///
    /// A well-formed chunk is displayed under its own channel's tag and is
    /// recorded against that channel only — never cross-attributed. An
    /// empty chunk is retried. End-of-stream, a read failure, or a decode
    /// failure loses the channel, and the first loss ends the race.
    pub fn on_chunk(&mut self, is_first: bool, ev: ReadEvent) -> (a: DialerAction)
        requires
            old(self).wf(),
            old(self).racing,
        ensures
            final(self).wf(),
            final(self).connected == old(self).connected,
            final(self).first_open == old(self).first_open,
            final(self).second_open == old(self).second_open,
            match ev {
                ReadEvent::Chunk(m) => {
                    if m@.len() == 0 {
                        &&& a is Retry
                        &&& *final(self) == *old(self)
                    } else if utf8_ok(m@) {
                        &&& a matches DialerAction::Display(d) && d@ == display_line_of(
                            is_first,
                            m@,
                        )
                        &&& final(self).racing
                        &&& is_first ==> final(self).shown_first@ == old(self).shown_first@.push(m@)
                            && final(self).shown_second@ == old(self).shown_second@
                        &&& !is_first ==> final(self).shown_second@ == old(
                            self,
                        ).shown_second@.push(m@) && final(self).shown_first@ == old(
                            self,
                        ).shown_first@
                    } else {
                        &&& a == DialerAction::ChannelLost(StopReason::Decode)
                        &&& !final(self).racing
                        &&& final(self).shown_first@ == old(self).shown_first@
                        &&& final(self).shown_second@ == old(self).shown_second@
                    }
                },
                ReadEvent::EndOfStream => {
                    &&& a == DialerAction::ChannelLost(StopReason::EndOfStream)
                    &&& !final(self).racing
                    &&& final(self).shown_first@ == old(self).shown_first@
                    &&& final(self).shown_second@ == old(self).shown_second@
                },
                ReadEvent::Failure => {
                    &&& a == DialerAction::ChannelLost(StopReason::Transport)
                    &&& !final(self).racing
                    &&& final(self).shown_first@ == old(self).shown_first@
                    &&& final(self).shown_second@ == old(self).shown_second@
                },
            },
    {
        match ev {
            ReadEvent::Chunk(m) => {
                if m.len() == 0 {
                    DialerAction::Retry
                } else if utf8_check(&m) {
                    let d = make_display_line(is_first, &m);
                    if is_first {
                        self.shown_first = Ghost(self.shown_first@.push(m@));
                    } else {
                        self.shown_second = Ghost(self.shown_second@.push(m@));
                    }
                    DialerAction::Display(d)
                } else {
                    self.racing = false;
                    DialerAction::ChannelLost(StopReason::Decode)
                }
            },
            ReadEvent::EndOfStream => {
                self.racing = false;
                DialerAction::ChannelLost(StopReason::EndOfStream)
            },
            ReadEvent::Failure => {
                self.racing = false;
                DialerAction::ChannelLost(StopReason::Transport)
            },
        }
    }

    pub fn is_racing(&self) -> (b: bool)
        ensures
            b == self.racing,
    {
        self.racing
    }

    pub fn is_connected(&self) -> (b: bool)
        ensures
            b == self.connected,
    {
        self.connected
    }
}

} // verus!
