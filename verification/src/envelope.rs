//! Splitting an inbound binary frame into its destination and its payload.
//!
//! A frame is `ADDRESS_LEN` bytes of encoded routing address followed by the payload, which
//! may be empty.

use crate::address::canonical_form;
use crate::address::RoutingAddress;
use crate::address::ADDRESS_LEN;
use crate::address::IPV4_TAG;
use crate::address::IPV6_TAG;
use vstd::prelude::*;

verus! {

/// Why a frame was rejected.
#[derive(Clone, Copy, Debug, PartialEq, Eq, Structural)]
pub enum DecodeError {
    /// The frame is shorter than an encoded address.
    ShortFrame,
    /// The head of the frame does not encode an address.
    MalformedAddress,
}

/// What an envelope holds: the canonical form of the destination and the payload.
pub struct EnvelopeModel {
    pub address: Seq<u8>,
    pub payload: Seq<u8>,
}

/// One decoded frame: where the payload goes, and the payload.
#[derive(Clone, Debug, PartialEq, Eq)]
pub struct Envelope {
    pub address: RoutingAddress,
    pub payload: Vec<u8>,
}

impl View for Envelope {
    type V = EnvelopeModel;

    open spec fn view(&self) -> EnvelopeModel {
        EnvelopeModel { address: self.address@, payload: self.payload@ }
    }
}

impl Envelope {
    /// The destination is a well-formed address.
    pub open spec fn wf(&self) -> bool {
        self.address.wf()
    }
}

/// The head of a frame: the bytes that encode the destination.
pub open spec fn address_part(raw: Seq<u8>) -> Seq<u8> {
    raw.subrange(0, ADDRESS_LEN as int)
}

/// The rest of a frame: the payload.
pub open spec fn payload_part(raw: Seq<u8>) -> Seq<u8> {
    raw.subrange(ADDRESS_LEN as int, raw.len() as int)
}

/// What decoding the frame `raw` yields.
pub open spec fn decoded(raw: Seq<u8>) -> Result<EnvelopeModel, DecodeError> {
    if raw.len() < ADDRESS_LEN {
        Err(DecodeError::ShortFrame)
    } else {
        match canonical_form(address_part(raw)) {
            Some(address) => Ok(EnvelopeModel { address, payload: payload_part(raw) }),
            None => Err(DecodeError::MalformedAddress),
        }
    }
}

/// Decodes one binary frame. A frame shorter than `ADDRESS_LEN` is rejected as `ShortFrame`
/// before its head is looked at; a head that encodes no address is rejected as
/// `MalformedAddress`; any other frame yields its destination and its payload.
pub fn decode_envelope(raw: Vec<u8>) -> (r: Result<Envelope, DecodeError>)
    ensures
        r is Ok <==> decoded(raw@) is Ok,
        r matches Ok(envelope) ==> envelope.wf() && envelope@ == decoded(raw@)->Ok_0,
        r matches Err(error) ==> error == decoded(raw@)->Err_0,
{
    let mut head = raw;
    if head.len() < ADDRESS_LEN {
        return Err(DecodeError::ShortFrame);
    }
    let payload = head.split_off(ADDRESS_LEN);
    match RoutingAddress::decode(head.as_slice()) {
        Some(address) => Ok(Envelope { address, payload }),
        None => Err(DecodeError::MalformedAddress),
    }
}

/// A frame made of an encoded address `head` of `ADDRESS_LEN` bytes and any payload decodes to
/// the address of `head` and exactly that payload.
pub proof fn lemma_decode_splits_frame(head: Seq<u8>, payload: Seq<u8>)
    requires
        head.len() == ADDRESS_LEN,
        canonical_form(head) is Some,
    ensures
        decoded(head + payload) is Ok,
        decoded(head + payload)->Ok_0.address == canonical_form(head)->0,
        decoded(head + payload)->Ok_0.payload == payload,
{
    let raw = head + payload;
    assert(address_part(raw) =~= head);
    assert(payload_part(raw) =~= payload);
}

/// A frame is rejected as short exactly when it holds fewer than `ADDRESS_LEN` bytes, whatever
/// those bytes are.
pub proof fn lemma_short_frame_is_rejected(raw: Seq<u8>)
    ensures
        (decoded(raw) is Err && decoded(raw)->Err_0 == DecodeError::ShortFrame) <==> raw.len()
            < ADDRESS_LEN,
{
}

/// A frame of full length is rejected as malformed exactly when its head encodes no address,
/// which is when its first byte is neither the IPv4 nor the IPv6 tag.
pub proof fn lemma_malformed_address_is_rejected(raw: Seq<u8>)
    requires
        raw.len() >= ADDRESS_LEN,
    ensures
        (decoded(raw) is Err && decoded(raw)->Err_0 == DecodeError::MalformedAddress)
            <==> canonical_form(address_part(raw)) is None,
        canonical_form(address_part(raw)) is None <==> raw[0] != IPV4_TAG && raw[0] != IPV6_TAG,
{
    assert(address_part(raw)[0] == raw[0]);
}

/// Decoding never fails in any other way, and it succeeds on every frame of full length whose
/// first byte is a known tag.
pub proof fn lemma_decode_succeeds_on_tagged_frames(raw: Seq<u8>)
    ensures
        decoded(raw) is Ok <==> raw.len() >= ADDRESS_LEN && (raw[0] == IPV4_TAG || raw[0]
            == IPV6_TAG),
{
    if raw.len() >= ADDRESS_LEN {
        assert(address_part(raw)[0] == raw[0]);
    }
}

} // verus!
