//! Byte-level construction of reply and display lines, and the UTF-8
//! well-formedness check that every handler applies to an incoming chunk.

use vstd::prelude::*;

verus! {

/// Marker prepended to every echoed payload: the ASCII bytes of
/// `"Received: "`.
pub open spec fn echo_prefix() -> Seq<u8> {
    seq![82u8, 101u8, 99u8, 101u8, 105u8, 118u8, 101u8, 100u8, 58u8, 32u8]
}

/// Whether a byte sequence is well-formed UTF-8, exactly as
/// `core::str::from_utf8` decides it.
pub uninterp spec fn utf8_ok(bytes: Seq<u8>) -> bool;

/// Relies on `core::str::from_utf8`: it returns `Ok` exactly when the bytes
/// are well-formed UTF-8.
#[verifier::external_body]
pub(crate) fn utf8_check(bytes: &Vec<u8>) -> (r: bool)
    ensures
        r == utf8_ok(bytes@),
{
    core::str::from_utf8(bytes.as_slice()).is_ok()
}

/// The reply owed for a payload: the fixed marker followed by the payload
/// itself, byte for byte.
pub open spec fn echo_reply_of(m: Seq<u8>) -> Seq<u8> {
    echo_prefix() + m
}

/// Appends every byte of `tail` to `acc`, in order.
pub(crate) fn extend_bytes(acc: &mut Vec<u8>, tail: &Vec<u8>)
    ensures
        final(acc)@ == old(acc)@ + tail@,
{
    let mut i: usize = 0;
    while i < tail.len()
        invariant
            i <= tail.len(),
            acc@ == old(acc)@ + tail@.subrange(0, i as int),
        decreases tail.len() - i,
    {
        acc.push(tail[i]);
        proof {
            assert(acc@ =~= old(acc)@ + tail@.subrange(0, (i + 1) as int));
        }
        i += 1;
    }
    proof {
        assert(tail@.subrange(0, tail@.len() as int) =~= tail@);
    }
}

/// Builds the echo reply for `msg`: the marker bytes followed by every byte
/// of `msg`.
pub fn make_echo_reply(msg: &Vec<u8>) -> (r: Vec<u8>)
    ensures
        r@ == echo_reply_of(msg@),
{
    let mut r: Vec<u8> = Vec::new();
    r.push(82u8);
    r.push(101u8);
    r.push(99u8);
    r.push(101u8);
    r.push(105u8);
    r.push(118u8);
    r.push(101u8);
    r.push(100u8);
    r.push(58u8);
    r.push(32u8);
    proof {
        assert(r@ =~= echo_prefix());
    }
    extend_bytes(&mut r, msg);
    r
}

} // verus!
