//! Events and statuses shared by every channel handler.

use vstd::prelude::*;

verus! {

/// Outcome of one read on a channel's receive half.
///
/// `Chunk` carries the bytes of one delivered chunk; an empty chunk is a
/// transient condition that the reader must retry, not termination.
/// `EndOfStream` is the explicit no-more-data signal, distinct from an empty
/// read. `Failure` is a transport-level read error on this channel.
///
/// A chunk is at most as long as the driver's read buffer (64 KiB in the
/// driver here): one application-level message is assumed to fit one
/// buffer, a known size bound rather than something this type enforces.
pub enum ReadEvent {
    Chunk(Vec<u8>),
    EndOfStream,
    Failure,
}

/// Why a handler stopped servicing its channel.
#[derive(Clone, Copy, PartialEq, Eq, Structural, Debug)]
pub enum StopReason {
    /// The receive half signalled that no more data will arrive.
    EndOfStream,
    /// A read or write on the channel failed at the transport level.
    Transport,
    /// A delivered chunk was not well-formed UTF-8.
    Decode,
    /// The owning session closed and the handler's task was cancelled.
    Cancelled,
}

/// Running state of one handler task.
#[derive(Clone, Copy, PartialEq, Eq, Structural, Debug)]
pub enum HandlerStatus {
    Running,
    Stopped(StopReason),
}

} // verus!
