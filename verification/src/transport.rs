//! Model of the datagram receive path.
//!
//! The transport reads each inbound datagram into a fixed-size buffer: a
//! datagram that fits is delivered whole, with the unused tail of the buffer
//! trimmed away, and a larger datagram is silently truncated to the buffer
//! length. Every wire encoding this crate produces fits well within the
//! buffer, so truncation never touches a well-formed message.

use vstd::prelude::*;
use crate::codec::{
    GameData, UserCommand, spec_encode_command, spec_encode_game_data, COMMAND_LEN, SNAPSHOT_LEN,
};

verus! {

/// Length of the receive buffer each inbound datagram is read into.
pub const RECV_BUFFER_LEN: usize = 2024;

/// The payload the transport hands to the caller when `datagram` arrives at a
/// socket whose receive buffer holds `buffer_len` bytes.
pub open spec fn spec_received_payload(datagram: Seq<u8>, buffer_len: nat) -> Seq<u8> {
    if datagram.len() <= buffer_len {
        datagram
    } else {
        datagram.take(buffer_len as int)
    }
}

/// Delivers an inbound datagram through a receive buffer of `buffer_len`
/// bytes: the payload is copied out whole when it fits and truncated to the
/// buffer length when it does not, never padded with garbage bytes.
pub fn received_payload(datagram: &[u8], buffer_len: usize) -> (r: Vec<u8>)
    ensures
        r@ == spec_received_payload(datagram@, buffer_len as nat),
{
    let n = if datagram.len() <= buffer_len {
        datagram.len()
    } else {
        buffer_len
    };
    let mut out: Vec<u8> = Vec::new();
    let mut i: usize = 0;
    while i < n
        invariant
            i <= n,
            n <= datagram@.len(),
            out@ == datagram@.take(i as int),
        decreases n - i,
    {
        out.push(datagram[i]);
        proof {
            assert(out@ =~= datagram@.take(i + 1));
        }
        i = i + 1;
    }
    proof {
        assert(out@ =~= spec_received_payload(datagram@, buffer_len as nat));
    }
    out
}

/// Law: every wire encoding fits in the receive buffer, so the protocol's own
/// messages are never truncated on receive.
pub proof fn lemma_encodings_fit_buffer(c: UserCommand, g: GameData)
    ensures
        spec_encode_command(c).len() == COMMAND_LEN,
        spec_encode_game_data(g).len() == SNAPSHOT_LEN,
        COMMAND_LEN <= RECV_BUFFER_LEN,
        SNAPSHOT_LEN <= RECV_BUFFER_LEN,
{
}

/// Law: a datagram no longer than the receive buffer is delivered exactly,
/// byte for byte; in particular a loopback echo of any fitting payload is the
/// payload itself.
pub proof fn lemma_fitting_payload_delivered_whole(datagram: Seq<u8>, buffer_len: nat)
    requires
        datagram.len() <= buffer_len,
    ensures
        spec_received_payload(datagram, buffer_len) == datagram,
{
}

} // verus!
