//! Packet processing: peel one encryption layer off a raw packet and decide
//! whether it is forwarded to another relay, delivered locally, or malformed.
//!
//! The transform is a keyed single-layer decrypt with a fixed result shape.
//! After decryption the first byte is a tag: a forward packet carries an
//! eight-byte big-endian destination address followed by the payload; a
//! deliver packet carries the payload directly. Anything outside the size
//! bounds, too short for its header, or with an unrecognized tag is
//! malformed — a normal outcome, counted and discarded by the caller.

use vstd::prelude::*;

verus! {

/// Largest raw packet the relay accepts; longer input is malformed.
pub const MAX_PACKET_SIZE: usize = 2048;

/// Tag byte of a decrypted packet that is to be forwarded to another relay.
pub const FORWARD_TAG: u8 = 1;

/// Tag byte of a decrypted packet whose payload is delivered locally.
pub const DELIVER_TAG: u8 = 2;

/// Bytes of the forward header: the tag byte and the destination address.
pub const FORWARD_HEADER_LEN: usize = 9;

/// Why a raw packet was judged malformed.
#[derive(Clone, Copy, Debug, PartialEq, Eq, Structural)]
pub enum MalformedReason {
    /// The packet held no bytes at all.
    Empty,
    /// The packet exceeded `MAX_PACKET_SIZE`.
    Oversized,
    /// A forward packet too short to hold its destination address.
    Truncated,
    /// The decrypted tag byte named no known packet kind.
    UnrecognizedTag,
}

/// The mathematical shape of a routing decision, over byte sequences.
pub enum SpecDecision {
    Forward { destination: u64, payload: Seq<u8> },
    Deliver { payload: Seq<u8> },
    Malformed { reason: MalformedReason },
}

/// What the relay does with one processed packet: forward the inner payload
/// to another relay, hand it to local delivery, or drop it as malformed.
pub enum RoutingDecision {
    ForwardTo { destination: u64, payload: Vec<u8> },
    DeliverLocally { payload: Vec<u8> },
    Malformed { reason: MalformedReason },
}

impl View for RoutingDecision {
    type V = SpecDecision;

    open spec fn view(&self) -> SpecDecision {
        match self {
            RoutingDecision::ForwardTo { destination, payload } => SpecDecision::Forward {
                destination: *destination,
                payload: payload@,
            },
            RoutingDecision::DeliverLocally { payload } => SpecDecision::Deliver {
                payload: payload@,
            },
            RoutingDecision::Malformed { reason } => SpecDecision::Malformed { reason: *reason },
        }
    }
}

/// The node's keypair. The private component is held only here and inside
/// the packet processor; it is never copied anywhere else.
pub struct KeyMaterial {
    pub private_key: Vec<u8>,
    pub public_key: Vec<u8>,
}

impl KeyMaterial {
    /// A usable key has a non-empty private component.
    pub open spec fn wf(&self) -> bool {
        self.private_key@.len() > 0
    }

    /// Builds key material from raw key bytes, rejecting an empty private
    /// component: the node cannot decrypt anything without one.
    pub fn new(private_key: Vec<u8>, public_key: Vec<u8>) -> (r: Option<KeyMaterial>)
        ensures
            match r {
                Some(km) => km.wf() && km.private_key@ == private_key@ && km.public_key@
                    == public_key@ && private_key@.len() > 0,
                None => private_key@.len() == 0,
            },
    {
        if private_key.len() == 0 {
            None
        } else {
            Some(KeyMaterial { private_key, public_key })
        }
    }
}

/// One decrypted byte: the raw byte combined with the key byte at the same
/// position, the key repeating cyclically over the packet.
pub open spec fn spec_decrypt_byte(key: Seq<u8>, raw: Seq<u8>, i: int) -> u8
    recommends
        key.len() > 0,
        0 <= i < raw.len(),
{
    raw[i] ^ key[i % key.len() as int]
}

/// The packet with one encryption layer peeled off.
pub open spec fn spec_decrypt(key: Seq<u8>, raw: Seq<u8>) -> Seq<u8>
    recommends
        key.len() > 0,
{
    Seq::new(raw.len(), |i: int| spec_decrypt_byte(key, raw, i))
}

/// The destination address read from eight big-endian bytes.
pub open spec fn spec_address(b: Seq<u8>) -> u64
    recommends
        b.len() >= 8,
{
    ((b[0] as u64) << 56) | ((b[1] as u64) << 48) | ((b[2] as u64) << 40) | ((b[3] as u64) << 32)
        | ((b[4] as u64) << 24) | ((b[5] as u64) << 16) | ((b[6] as u64) << 8) | (b[7] as u64)
}

/// The routing decision for a raw packet under a given private key: the
/// whole behaviour of packet processing, stated over byte sequences.
pub open spec fn spec_process(key: Seq<u8>, raw: Seq<u8>) -> SpecDecision
    recommends
        key.len() > 0,
{
    if raw.len() == 0 {
        SpecDecision::Malformed { reason: MalformedReason::Empty }
    } else if raw.len() > MAX_PACKET_SIZE {
        SpecDecision::Malformed { reason: MalformedReason::Oversized }
    } else {
        let plain = spec_decrypt(key, raw);
        if plain[0] == FORWARD_TAG {
            if raw.len() < FORWARD_HEADER_LEN {
                SpecDecision::Malformed { reason: MalformedReason::Truncated }
            } else {
                SpecDecision::Forward {
                    destination: spec_address(plain.subrange(1, 9)),
                    payload: plain.subrange(9, plain.len() as int),
                }
            }
        } else if plain[0] == DELIVER_TAG {
            SpecDecision::Deliver { payload: plain.subrange(1, plain.len() as int) }
        } else {
            SpecDecision::Malformed { reason: MalformedReason::UnrecognizedTag }
        }
    }
}

/// A stateless per-packet transform holding the one shared, read-only handle
/// on the node's private key.
pub struct PacketProcessor {
    pub private_key: Vec<u8>,
}

impl PacketProcessor {
    pub open spec fn wf(&self) -> bool {
        self.private_key@.len() > 0
    }

    /// Builds a processor around the private component of the node's key.
    pub fn new(key: &KeyMaterial) -> (r: PacketProcessor)
        requires
            key.wf(),
        ensures
            r.wf(),
            r.private_key@ == key.private_key@,
    {
        PacketProcessor { private_key: key.private_key.clone() }
    }

    /// Peels one layer off `raw`. Total over every byte sequence: any input,
    /// including an empty or oversized one, yields exactly one decision and
    /// never aborts the caller.
    pub fn process(&self, raw: &Vec<u8>) -> (decision: RoutingDecision)
        requires
            self.wf(),
        ensures
            decision@ == spec_process(self.private_key@, raw@),
            raw@.len() == 0 ==> decision@ == (SpecDecision::Malformed {
                reason: MalformedReason::Empty,
            }),
            raw@.len() > MAX_PACKET_SIZE ==> decision@ == (SpecDecision::Malformed {
                reason: MalformedReason::Oversized,
            }),
    {
        if raw.len() == 0 {
            return RoutingDecision::Malformed { reason: MalformedReason::Empty };
        }
        if raw.len() > MAX_PACKET_SIZE {
            return RoutingDecision::Malformed { reason: MalformedReason::Oversized };
        }
        let plain = self.decrypt(raw);
        let tag = plain[0];
        if tag == FORWARD_TAG {
            if raw.len() < FORWARD_HEADER_LEN {
                RoutingDecision::Malformed { reason: MalformedReason::Truncated }
            } else {
                let destination = read_address(&plain, 1);
                let payload = copy_tail(&plain, FORWARD_HEADER_LEN);
                proof {
                    assert(payload@ =~= spec_decrypt(self.private_key@, raw@).subrange(
                        9,
                        raw@.len() as int,
                    ));
                    assert(plain@.subrange(1, 9) =~= spec_decrypt(
                        self.private_key@,
                        raw@,
                    ).subrange(1, 9));
                }
                RoutingDecision::ForwardTo { destination, payload }
            }
        } else if tag == DELIVER_TAG {
            let payload = copy_tail(&plain, 1);
            proof {
                assert(payload@ =~= spec_decrypt(self.private_key@, raw@).subrange(
                    1,
                    raw@.len() as int,
                ));
            }
            RoutingDecision::DeliverLocally { payload }
        } else {
            RoutingDecision::Malformed { reason: MalformedReason::UnrecognizedTag }
        }
    }

    /// Applies the keyed byte transform to the whole packet.
    fn decrypt(&self, raw: &Vec<u8>) -> (plain: Vec<u8>)
        requires
            self.wf(),
        ensures
            plain@ == spec_decrypt(self.private_key@, raw@),
    {
        let mut plain: Vec<u8> = Vec::new();
        let mut i: usize = 0;
        while i < raw.len()
            invariant
                self.wf(),
                i <= raw@.len(),
                plain@ =~= spec_decrypt(self.private_key@, raw@).take(i as int),
            decreases raw@.len() - i,
        {
            let b = raw[i] ^ self.private_key[i % self.private_key.len()];
            plain.push(b);
            i = i + 1;
        }
        proof {
            assert(plain@ =~= spec_decrypt(self.private_key@, raw@));
        }
        plain
    }
}

/// Reads the eight-byte big-endian destination address starting at `at`.
fn read_address(b: &Vec<u8>, at: usize) -> (addr: u64)
    requires
        at + 8 <= b@.len(),
    ensures
        addr == spec_address(b@.subrange(at as int, at + 8)),
{
    let n = b.len();
    assert(at + 8 <= n);  // binds the vector's length to a machine word
    let addr = ((b[at] as u64) << 56u64) | ((b[at + 1] as u64) << 48u64) | ((b[at + 2] as u64)
        << 40u64) | ((b[at + 3] as u64) << 32u64) | ((b[at + 4] as u64) << 24u64) | ((b[at
        + 5] as u64) << 16u64) | ((b[at + 6] as u64) << 8u64) | (b[at + 7] as u64);
    proof {
        let s = b@.subrange(at as int, at + 8);
        assert(s[0] == b@[at as int]);
        assert(s[1] == b@[at + 1]);
        assert(s[2] == b@[at + 2]);
        assert(s[3] == b@[at + 3]);
        assert(s[4] == b@[at + 4]);
        assert(s[5] == b@[at + 5]);
        assert(s[6] == b@[at + 6]);
        assert(s[7] == b@[at + 7]);
    }
    addr
}

/// Copies a byte vector; the relay queues a copy of a payload whose
/// routing decision the caller still holds.
pub(crate) fn clone_bytes(b: &Vec<u8>) -> (r: Vec<u8>)
    ensures
        r@ == b@,
{
    let mut r: Vec<u8> = Vec::new();
    let mut i: usize = 0;
    while i < b.len()
        invariant
            i <= b@.len(),
            r@ =~= b@.take(i as int),
        decreases b@.len() - i,
    {
        let x = b[i];
        r.push(x);
        i = i + 1;
    }
    proof {
        assert(r@ =~= b@);
    }
    r
}

/// Copies the bytes of `b` from `from` to the end into a fresh vector.
fn copy_tail(b: &Vec<u8>, from: usize) -> (tail: Vec<u8>)
    requires
        from <= b@.len(),
    ensures
        tail@ == b@.subrange(from as int, b@.len() as int),
{
    let mut tail: Vec<u8> = Vec::new();
    let mut i: usize = from;
    while i < b.len()
        invariant
            from <= i <= b@.len(),
            tail@ =~= b@.subrange(from as int, i as int),
        decreases b@.len() - i,
    {
        let x = b[i];
        tail.push(x);
        i = i + 1;
    }
    proof {
        assert(tail@ =~= b@.subrange(from as int, b@.len() as int));
    }
    tail
}

} // verus!
