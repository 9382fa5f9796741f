//! Routing addresses of downstream nodes.
//!
//! An encoded address starts with a tag that names the IP version, followed by the port in
//! big-endian order and the octets of the IP address. Whatever follows is padding. The
//! canonical form of an address is its encoding without the padding.

use nym_sphinx_addressing::nodes::NymNodeRoutingAddress;
use nym_sphinx_addressing::nodes::NymNodeRoutingAddressError;
use vstd::prelude::*;

verus! {

/// Number of bytes that an encoded routing address occupies at the head of a frame.
pub const ADDRESS_LEN: usize = 32;

/// Tag of an IPv4 address.
pub const IPV4_TAG: u8 = 4;

/// Tag of an IPv6 address.
pub const IPV6_TAG: u8 = 6;

/// Length of the canonical form of an IPv4 address: tag, port, four octets.
pub const IPV4_CANONICAL_LEN: usize = 7;

/// Length of the canonical form of an IPv6 address: tag, port, sixteen octets.
pub const IPV6_CANONICAL_LEN: usize = 19;

/// The error of the node address codec, `NymNodeRoutingAddressError`. Nothing is known of its
/// values here; the library only tells success from failure.
#[verifier::external_type_specification]
#[verifier::external_body]
pub struct ExNymNodeRoutingAddressError(NymNodeRoutingAddressError);

/// The number of leading bytes of `encoded` that carry an address, if it carries one.
pub open spec fn significant_len(encoded: Seq<u8>) -> Option<nat> {
    if encoded.len() >= IPV4_CANONICAL_LEN && encoded[0] == IPV4_TAG {
        Some(IPV4_CANONICAL_LEN as nat)
    } else if encoded.len() >= IPV6_CANONICAL_LEN && encoded[0] == IPV6_TAG {
        Some(IPV6_CANONICAL_LEN as nat)
    } else {
        None
    }
}

/// The canonical form of the address that `encoded` carries: its significant bytes.
pub open spec fn canonical_form(encoded: Seq<u8>) -> Option<Seq<u8>> {
    match significant_len(encoded) {
        Some(n) => Some(encoded.subrange(0, n as int)),
        None => None,
    }
}

/// Whether `bytes` is the canonical form of some address.
pub open spec fn is_canonical(bytes: Seq<u8>) -> bool {
    significant_len(bytes) == Some(bytes.len())
}

/// Decodes `encoded` with `NymNodeRoutingAddress::try_from_bytes` and writes the address back
/// with `NymNodeRoutingAddress::as_bytes`.
///
/// Trusted: the codec accepts exactly the inputs that start with tag 4 and hold at least 7
/// bytes, or start with tag 6 and hold at least 19 bytes. It reads the port from bytes 1 and 2
/// and the IP octets from byte 3 on, and writes tag, port and octets back in the same order,
/// so what comes back is the input cut to its significant bytes.
#[verifier::external_body]
fn codec_canonical_bytes(encoded: &[u8]) -> (r: Result<Vec<u8>, NymNodeRoutingAddressError>)
    ensures
        r is Ok <==> canonical_form(encoded@) is Some,
        r matches Ok(bytes) ==> canonical_form(encoded@) == Some(bytes@),
{
    match NymNodeRoutingAddress::try_from_bytes(encoded) {
        Ok(address) => Ok(address.as_bytes()),
        Err(e) => Err(e),
    }
}

/// The decoded identifier of a downstream node, kept in canonical form.
#[derive(Debug, PartialEq, Eq)]
pub struct RoutingAddress {
    canonical: Vec<u8>,
}

impl Clone for RoutingAddress {
    /// A copy names the same node.
    fn clone(&self) -> (copy: RoutingAddress)
        ensures
            copy@ == self@,
    {
        proof {
            use_type_invariant(self);
        }
        let canonical = self.canonical.clone();
        assert(canonical@ =~= self.canonical@);
        RoutingAddress { canonical }
    }
}

impl View for RoutingAddress {
    type V = Seq<u8>;

    closed spec fn view(&self) -> Seq<u8> {
        self.canonical@
    }
}

impl RoutingAddress {
    /// Every address holds a canonical form.
    #[verifier::type_invariant]
    pub open spec fn wf(&self) -> bool {
        is_canonical(self@)
    }

    /// Decodes an address from `encoded`, ignoring the padding behind its significant bytes.
    /// Returns `None` exactly when `encoded` carries no address.
    pub fn decode(encoded: &[u8]) -> (r: Option<RoutingAddress>)
        ensures
            r is Some <==> canonical_form(encoded@) is Some,
            r matches Some(address) ==> address.wf() && canonical_form(encoded@) == Some(
                address@,
            ),
    {
        match codec_canonical_bytes(encoded) {
            Ok(canonical) => Some(RoutingAddress { canonical }),
            Err(_) => None,
        }
    }

    /// The canonical form of the address.
    pub fn as_bytes(&self) -> (bytes: &[u8])
        ensures
            bytes@ == self@,
    {
        self.canonical.as_slice()
    }

    /// Whether the address is an IPv4 address; otherwise it is an IPv6 address.
    pub fn is_ipv4(&self) -> (v4: bool)
        ensures
            self.wf(),
            v4 <==> self@[0] == IPV4_TAG,
            !v4 <==> self@[0] == IPV6_TAG,
    {
        proof {
            use_type_invariant(self);
        }
        self.canonical[0] == IPV4_TAG
    }
}

/// The canonical form of an address is an encoding of that same address.
pub proof fn lemma_canonical_form_is_fixed_point(encoded: Seq<u8>)
    requires
        canonical_form(encoded) is Some,
    ensures
        is_canonical(canonical_form(encoded)->0),
        canonical_form(canonical_form(encoded)->0) == canonical_form(encoded),
{
    let c = canonical_form(encoded)->0;
    assert(c.subrange(0, c.len() as int) =~= c);
}

/// Padding does not matter: two encodings that agree on their first `n` bytes, where `n`
/// covers the significant bytes of the first, carry the same address.
pub proof fn lemma_padding_is_ignored(a: Seq<u8>, b: Seq<u8>)
    requires
        significant_len(a) matches Some(n) && b.len() >= n && a.subrange(0, n as int)
            == b.subrange(0, n as int),
    ensures
        canonical_form(b) == canonical_form(a),
{
    let n = significant_len(a)->0;
    assert(a.subrange(0, n as int)[0] == b.subrange(0, n as int)[0]);
}

} // verus!
