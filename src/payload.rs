//! Data packets: filler bytes mapped into a printable alphabet, with an
//! optional end-of-stream sentinel in the last byte.

use vstd::prelude::*;

verus! {

/// Length in bytes of every data packet.
pub const PACKET_LEN: usize = 2048;

/// The byte that marks the last packet of a stream.
pub const SENTINEL: u8 = 0;

/// The printable symbol for a raw byte: `n mod 36` as a base-36 digit,
/// written `'0'..'9'` then `'A'..'Z'`.
pub open spec fn symbol_of(n: u8) -> u8 {
    let d = n % 36;
    if d > 9 {
        (d + 7 + 48) as u8
    } else {
        (d + 48) as u8
    }
}

/// The symbols the encoding can produce: ASCII digits and upper-case letters.
pub open spec fn is_symbol(b: u8) -> bool {
    (48 <= b && b <= 57) || (65 <= b && b <= 90)
}

/// The packet built from raw bytes: each byte mapped to its symbol, and,
/// for the last packet of a stream, the final byte overwritten by the sentinel.
pub open spec fn packet_of(raw: Seq<u8>, is_last: bool) -> Seq<u8> {
    Seq::new(
        raw.len(),
        |i: int|
            if is_last && i == raw.len() - 1 {
                SENTINEL
            } else {
                symbol_of(raw[i])
            },
    )
}

/// Maps a raw byte to a printable symbol.
pub fn printable_char_encode(n: &u8) -> (r: u8)
    ensures
        r == symbol_of(*n),
        is_symbol(r),
{
    let lower_range: u8 = *n % 36;
    let result: u8;
    if lower_range > 9 {
        result = lower_range + 7;
    } else {
        result = lower_range;
    }
    result + 48
}

/// Builds a data packet from raw random bytes (normally `PACKET_LEN` of them).
pub fn generate_response_packet(raw: &Vec<u8>, is_last: bool) -> (r: Vec<u8>)
    ensures
        r@ == packet_of(raw@, is_last),
{
    let len = raw.len();
    let mut out: Vec<u8> = Vec::with_capacity(len);
    let mut i: usize = 0;
    while i < len
        invariant
            len == raw@.len(),
            i <= len,
            out@.len() == i,
            forall|j: int| 0 <= j < i ==> out@[j] == #[trigger] packet_of(raw@, is_last)[j],
        decreases len - i,
    {
        let mut b = printable_char_encode(&raw[i]);
        if is_last && i == len - 1 {
            b = SENTINEL;
        }
        out.push(b);
        i += 1;
    }
    assert(out@ =~= packet_of(raw@, is_last));
    out
}

/// A symbol is never the sentinel, so the sentinel can only come from the
/// end-of-stream rule: a byte of a packet is zero exactly when it is the final
/// byte of the last packet of a stream.
pub proof fn lemma_sentinel_only_when_last(raw: Seq<u8>, is_last: bool, i: int)
    requires
        0 <= i < raw.len(),
    ensures
        (packet_of(raw, is_last)[i] == SENTINEL) <==> (is_last && i == raw.len() - 1),
        !(is_last && i == raw.len() - 1) ==> is_symbol(packet_of(raw, is_last)[i]),
{
}

/// A packet that is not the last of its stream never ends in the sentinel;
/// the last one always does, whatever the raw byte mapped to.
pub proof fn lemma_terminal_byte(raw: Seq<u8>)
    requires
        raw.len() > 0,
    ensures
        packet_of(raw, false).last() != SENTINEL,
        packet_of(raw, true).last() == SENTINEL,
{
    lemma_sentinel_only_when_last(raw, false, raw.len() - 1);
}

} // verus!
