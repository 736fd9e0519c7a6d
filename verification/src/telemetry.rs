use vstd::prelude::*;

use crate::shared_data::SharedData;

verus! {

/// What a parent passes down when a child module or group is created: the
/// parent's hierarchical path. Children append their own name to it.
pub struct Parent {
    pub path: String,
}

impl Parent {
    /// The parent record of a root group: the path is the root's own name.
    pub fn root(name: &str) -> (r: Self)
        ensures
            r.path@ == name@,
    {
        Parent { path: name.to_owned() }
    }

    /// The parent record a node hands to its children: the node's path.
    pub fn child(&self, name: &str) -> (r: Self)
        ensures
            r.path@ == self.path@ + "/"@ + name@,
    {
        let mut path = self.path.clone();
        path.append("/");
        path.append(name);
        Parent { path }
    }
}

/// The single-slot buffer between the cycle drivers and the telemetry
/// drain: a `send` overwrites whatever the slot held (last value wins, the
/// producer never waits for the drain), and the drain `take`s the slot,
/// leaving it empty. Loss under overload is expected and tolerated.
pub struct TelemetrySlot {
    slot: Option<SharedData>,
}

impl TelemetrySlot {
    /// The snapshot currently waiting to be drained, if any.
    pub closed spec fn spec_slot(self) -> Option<SharedData> {
        self.slot
    }

    /// Creates an empty slot.
    pub fn new() -> (r: Self)
        ensures
            r.spec_slot() is None,
    {
        TelemetrySlot { slot: None }
    }

    /// Deposits a snapshot, replacing any undrained one.
    pub fn send(&mut self, element: SharedData)
        ensures
            final(self).spec_slot() == Some(element),
    {
        self.slot = Some(element);
    }

    /// Drains the slot: returns the waiting snapshot and leaves the slot
    /// empty.
    pub fn take(&mut self) -> (r: Option<SharedData>)
        ensures
            r == old(self).spec_slot(),
            final(self).spec_slot() is None,
    {
        let mut out = None;
        core::mem::swap(&mut out, &mut self.slot);
        out
    }
}

/// The bytes of `n` in big-endian order, most significant first.
pub open spec fn spec_be32(n: u32) -> Seq<u8> {
    seq![
        (n / 0x1000000) as u8,
        ((n / 0x10000) % 0x100) as u8,
        ((n / 0x100) % 0x100) as u8,
        (n % 0x100) as u8,
    ]
}

/// The value the four big-endian bytes stand for.
pub open spec fn spec_be32_value(b: Seq<u8>) -> int {
    b[0] * 0x1000000 + b[1] * 0x10000 + b[2] * 0x100 + b[3]
}

/// Splits `n` into its four big-endian bytes.
pub fn be32_encode(n: u32) -> (r: [u8; 4])
    ensures
        r@ == spec_be32(n),
{
    let r = [(n / 0x1000000) as u8, ((n / 0x10000) % 0x100) as u8, ((n / 0x100) % 0x100) as u8, (
    n % 0x100) as u8];
    proof {
        assert(r@ =~= spec_be32(n));
    }
    r
}

/// Reads the value four big-endian bytes stand for.
pub fn be32_decode(b0: u8, b1: u8, b2: u8, b3: u8) -> (r: u32)
    ensures
        r == spec_be32_value(seq![b0, b1, b2, b3]),
{
    (b0 as u32) * 0x1000000 + (b1 as u32) * 0x10000 + (b2 as u32) * 0x100 + (b3 as u32)
}

/// Big-endian encoding and decoding of a length are inverse to each other.
pub proof fn lemma_be32_round_trip(n: u32)
    ensures
        spec_be32_value(spec_be32(n)) == n,
{
    assert(spec_be32_value(spec_be32(n)) == n) by (nonlinear_arith);
}

/// Frames one telemetry payload for the wire: a four-byte big-endian length
/// prefix followed by the payload bytes.
pub fn frame_message(payload: &Vec<u8>) -> (r: Vec<u8>)
    requires
        payload@.len() <= u32::MAX,
    ensures
        r@ == spec_be32(payload@.len() as u32) + payload@,
        r@.len() == payload@.len() + 4,
{
    let len = payload.len() as u32;
    let prefix = be32_encode(len);
    let mut out: Vec<u8> = Vec::new();
    out.push(prefix[0]);
    out.push(prefix[1]);
    out.push(prefix[2]);
    out.push(prefix[3]);
    let mut i: usize = 0;
    while i < payload.len()
        invariant
            i <= payload@.len(),
            payload@.len() <= u32::MAX,
            out@ == spec_be32(payload@.len() as u32) + payload@.subrange(0, i as int),
        decreases payload@.len() - i,
    {
        out.push(payload[i]);
        proof {
            assert(payload@.subrange(0, i + 1) =~= payload@.subrange(0, i as int).push(
                payload@[i as int],
            ));
        }
        i = i + 1;
    }
    proof {
        assert(payload@.subrange(0, payload@.len() as int) =~= payload@);
        assert(out@ =~= spec_be32(payload@.len() as u32) + payload@);
    }
    out
}

/// Reads one frame off the front of `bytes`: `Some((payload, rest))` when a
/// whole frame is present, `None` when more bytes are needed. The length
/// prefix is the four big-endian bytes at the front.
pub fn parse_frame(bytes: &Vec<u8>) -> (r: Option<(Vec<u8>, usize)>)
    ensures
        r is Some <==> bytes@.len() >= 4 && bytes@.len() >= 4 + spec_be32_value(
            bytes@.subrange(0, 4),
        ),
        r matches Some((payload, rest)) ==> {
            &&& payload@ == bytes@.subrange(4, 4 + spec_be32_value(bytes@.subrange(0, 4)))
            &&& rest == 4 + spec_be32_value(bytes@.subrange(0, 4))
            &&& rest <= bytes@.len()
        },
{
    if bytes.len() < 4 {
        return None;
    }
    let len = be32_decode(bytes[0], bytes[1], bytes[2], bytes[3]) as usize;
    proof {
        assert(seq![bytes@[0], bytes@[1], bytes@[2], bytes@[3]] =~= bytes@.subrange(0, 4));
    }
    if bytes.len() < 4 || bytes.len() - 4 < len {
        return None;
    }
    let end = 4 + len;
    let mut payload: Vec<u8> = Vec::new();
    let mut i: usize = 4;
    while i < end
        invariant
            4 <= i <= end,
            end == 4 + len,
            end <= bytes@.len(),
            payload@ == bytes@.subrange(4, i as int),
        decreases end - i,
    {
        payload.push(bytes[i]);
        proof {
            assert(bytes@.subrange(4, i + 1) =~= bytes@.subrange(4, i as int).push(
                bytes@[i as int],
            ));
        }
        i = i + 1;
    }
    Some((payload, end))
}

/// Round trip: a framed message parses back to exactly the payload, and the
/// frame's length is consumed in full.
pub proof fn lemma_frame_round_trip(payload: Seq<u8>, tail: Seq<u8>)
    requires
        payload.len() <= u32::MAX,
    ensures
        ({
            let framed = spec_be32(payload.len() as u32) + payload + tail;
            &&& framed.subrange(0, 4) =~= spec_be32(payload.len() as u32)
            &&& spec_be32_value(framed.subrange(0, 4)) == payload.len()
            &&& framed.subrange(4, 4 + payload.len() as int) =~= payload
        }),
{
    let framed = spec_be32(payload.len() as u32) + payload + tail;
    assert(framed.subrange(0, 4) =~= spec_be32(payload.len() as u32));
    lemma_be32_round_trip(payload.len() as u32);
    assert(framed.subrange(4, 4 + payload.len() as int) =~= payload);
}

} // verus!
