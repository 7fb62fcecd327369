use vstd::prelude::*;

use crate::error::BridgeError;

verus! {

/// First byte of every wire packet: the high bit marks it as a header.
pub const HEADER_BYTE: u8 = 0x80;

/// Second byte of every wire packet: the zero timestamp, high bit set.
pub const TIMESTAMP_BYTE: u8 = 0x80;

/// A byte whose most significant bit is set.
pub open spec fn high_bit_set(b: u8) -> bool {
    b >= 0x80
}

/// The wire packet that carries `payload`: header, timestamp, then the payload.
pub open spec fn framed(payload: Seq<u8>) -> Seq<u8> {
    seq![HEADER_BYTE, TIMESTAMP_BYTE] + payload
}

/// A packet that `decode` accepts: at least two bytes, both with the high bit set.
pub open spec fn is_well_framed(packet: Seq<u8>) -> bool {
    packet.len() >= 2 && high_bit_set(packet[0]) && high_bit_set(packet[1])
}

/// The payload that a well-framed packet carries.
pub open spec fn unframed(packet: Seq<u8>) -> Seq<u8> {
    packet.subrange(2, packet.len() as int)
}

/// A payload that can be framed: non-empty, and small enough that its packet
/// length fits in `usize`.
pub open spec fn is_encodable(payload: Seq<u8>) -> bool {
    0 < payload.len() && payload.len() + 2 <= usize::MAX
}

/// Wraps one raw event in a wire packet. An empty payload is refused.
pub fn encode(payload: &[u8]) -> (r: Result<Vec<u8>, BridgeError>)
    requires
        payload@.len() + 2 <= usize::MAX,
    ensures
        payload@.len() == 0 ==> r == Err::<Vec<u8>, BridgeError>(BridgeError::EmptyPayload),
        payload@.len() > 0 ==> r is Ok && r->Ok_0@ == framed(payload@),
{
    if payload.len() == 0 {
        return Err(BridgeError::EmptyPayload);
    }
    let mut out: Vec<u8> = Vec::with_capacity(payload.len() + 2);
    out.push(HEADER_BYTE);
    out.push(TIMESTAMP_BYTE);
    let mut i: usize = 0;
    while i < payload.len()
        invariant
            i <= payload@.len(),
            out@ == framed(payload@.subrange(0, i as int)),
        decreases payload@.len() - i,
    {
        out.push(payload[i]);
        i += 1;
        assert(payload@.subrange(0, i as int) == payload@.subrange(0, i - 1 as int).push(
            payload@[i - 1],
        ));
    }
    assert(payload@.subrange(0, payload@.len() as int) == payload@);
    Ok(out)
}

/// Extracts the raw event from a wire packet, refusing anything that is not
/// well framed.
pub fn decode(packet: &[u8]) -> (r: Result<Vec<u8>, BridgeError>)
    ensures
        is_well_framed(packet@) ==> r is Ok && r->Ok_0@ == unframed(packet@),
        !is_well_framed(packet@) ==> r == Err::<Vec<u8>, BridgeError>(
            BridgeError::MalformedPacket,
        ),
{
    if packet.len() < 2 || packet[0] < 0x80 || packet[1] < 0x80 {
        return Err(BridgeError::MalformedPacket);
    }
    let mut out: Vec<u8> = Vec::with_capacity(packet.len() - 2);
    let mut i: usize = 2;
    while i < packet.len()
        invariant
            2 <= i <= packet@.len(),
            out@ == packet@.subrange(2, i as int),
        decreases packet@.len() - i,
    {
        out.push(packet[i]);
        i += 1;
        assert(packet@.subrange(2, i as int) == packet@.subrange(2, i - 1 as int).push(
            packet@[i - 1],
        ));
    }
    Ok(out)
}

/// Every packet that `encode` produces is two bytes longer than its payload
/// and opens with two bytes whose high bit is set.
pub proof fn lemma_encoded_shape(payload: Seq<u8>)
    ensures
        framed(payload).len() == payload.len() + 2,
        high_bit_set(framed(payload)[0]),
        high_bit_set(framed(payload)[1]),
        framed(payload).subrange(2, framed(payload).len() as int) == payload,
{
    assert(framed(payload).subrange(2, framed(payload).len() as int) =~= payload);
}

/// Decoding what encoding produced gives back the original payload, for every
/// non-empty payload.
pub proof fn lemma_round_trip(payload: Seq<u8>)
    requires
        payload.len() > 0,
    ensures
        is_well_framed(framed(payload)),
        unframed(framed(payload)) == payload,
{
    lemma_encoded_shape(payload);
}

/// `decode` refuses exactly the packets that are shorter than two bytes or
/// whose first or second byte has its high bit clear.
pub proof fn lemma_rejects_malformed(packet: Seq<u8>)
    ensures
        !is_well_framed(packet) <==> (packet.len() < 2 || !high_bit_set(packet[0])
            || !high_bit_set(packet[1])),
{
}

} // verus!
