//! Control packets: the handshake request and the stop request.

use vstd::prelude::*;

verus! {

/// Length of a handshake request.
pub const HANDSHAKE_LEN: usize = 4;

/// Length of a stop request.
pub const STOP_LEN: usize = 3;

/// ASCII `"helo"`.
pub open spec fn handshake_bytes() -> Seq<u8> {
    seq![104u8, 101u8, 108u8, 111u8]
}

/// ASCII `"bye"`.
pub open spec fn stop_bytes() -> Seq<u8> {
    seq![98u8, 121u8, 101u8]
}

/// Whether a datagram is exactly the handshake request.
pub fn is_handshake(bytes: &[u8]) -> (r: bool)
    ensures
        r == (bytes@ == handshake_bytes()),
{
    let r = bytes.len() == 4 && bytes[0] == 104 && bytes[1] == 101 && bytes[2] == 108
        && bytes[3] == 111;
    proof {
        if r {
            assert(bytes@ =~= handshake_bytes());
        }
    }
    r
}

/// Whether a datagram is exactly the stop request.
pub fn is_stop_request(bytes: &[u8]) -> (r: bool)
    ensures
        r == (bytes@ == stop_bytes()),
{
    let r = bytes.len() == 3 && bytes[0] == 98 && bytes[1] == 121 && bytes[2] == 101;
    proof {
        if r {
            assert(bytes@ =~= stop_bytes());
        }
    }
    r
}

/// The handshake request a client sends.
pub fn handshake_packet() -> (r: Vec<u8>)
    ensures
        r@ == handshake_bytes(),
{
    let r = vec![104u8, 101u8, 108u8, 111u8];
    assert(r@ =~= handshake_bytes());
    r
}

/// The stop request a client sends.
pub fn stop_packet() -> (r: Vec<u8>)
    ensures
        r@ == stop_bytes(),
{
    let r = vec![98u8, 121u8, 101u8];
    assert(r@ =~= stop_bytes());
    r
}

} // verus!
