//! The wire packet model: an IP datagram and its destination address.

use vstd::prelude::*;
use crate::addr::IpAddress;
use crate::error::{NetworkError, QuincyError, Result};
use crate::text::{concat, decimal, owned, u64_to_decimal};

verus! {

#[verifier::external_type_specification]
#[verifier::external_body]
pub struct ExBytes(bytes::Bytes);

/// The bytes that a `bytes::Bytes` buffer holds, in order.
pub uninterp spec fn bytes_content(b: bytes::Bytes) -> Seq<u8>;

/// Relies on `impl From<Vec<u8>> for bytes::Bytes`: the buffer holds the vector's bytes.
#[verifier::external_body]
fn bytes_from_vec(v: Vec<u8>) -> (r: bytes::Bytes)
    ensures
        bytes_content(r) == v@,
{
    bytes::Bytes::from(v)
}

/// Relies on `impl Clone for bytes::Bytes`: the clone shares the same bytes.
pub assume_specification[ <bytes::Bytes as core::clone::Clone>::clone ](b: &bytes::Bytes) -> (r: bytes::Bytes)
    ensures
        bytes_content(r) == bytes_content(*b),
;

/// Relies on `bytes::Bytes::len`: the number of bytes held.
#[verifier::external_body]
fn bytes_len(b: &bytes::Bytes) -> (r: usize)
    ensures
        r == bytes_content(*b).len(),
{
    b.len()
}

/// Relies on indexing through `bytes::Bytes`'s `Deref` to `[u8]`: byte `i`.
#[verifier::external_body]
fn bytes_at(b: &bytes::Bytes, i: usize) -> (r: u8)
    requires
        i < bytes_content(*b).len(),
    ensures
        r == bytes_content(*b)[i as int],
{
    b[i]
}

/// One IP datagram, as raw bytes. Nothing parsed is cached.
#[derive(Debug, Clone)]
pub struct Packet {
    pub data: bytes::Bytes,
}

/// The IP version: the high nibble of the first byte.
pub open spec fn ip_version(d: Seq<u8>) -> nat {
    (d[0] / 16) as nat
}

pub open spec fn empty_reason() -> Seq<char> {
    "Packet is empty"@
}

pub open spec fn short_ipv4_reason() -> Seq<char> {
    "Packet is too short for IPv4 header"@
}

pub open spec fn short_ipv6_reason() -> Seq<char> {
    "Packet is too short for IPv6 header"@
}

pub open spec fn unsupported_version_reason(v: nat) -> Seq<char> {
    "Unsupported IP version: "@ + decimal(v)
}

/// A packet error carrying exactly `reason`.
pub open spec fn is_packet_error(e: QuincyError, reason: Seq<char>) -> bool {
    e matches QuincyError::Network(NetworkError::PacketError { reason: r }) && r@ == reason
}

/// What `destination` gives for a datagram `d`: `Ok` with the destination
/// address, or `Err` with the reason for which none can be read.
pub open spec fn destination_of(d: Seq<u8>, r: Result<IpAddress>) -> bool {
    if d.len() == 0 {
        r is Err && is_packet_error(r->Err_0, empty_reason())
    } else if ip_version(d) == 4 {
        if d.len() < 20 {
            r is Err && is_packet_error(r->Err_0, short_ipv4_reason())
        } else {
            r matches Ok(IpAddress::V4(a)) && a@ == d.subrange(16, 20)
        }
    } else if ip_version(d) == 6 {
        if d.len() < 40 {
            r is Err && is_packet_error(r->Err_0, short_ipv6_reason())
        } else {
            r matches Ok(IpAddress::V6(a)) && a@ == d.subrange(24, 40)
        }
    } else {
        r is Err && is_packet_error(r->Err_0, unsupported_version_reason(ip_version(d)))
    }
}

fn packet_error(reason: String) -> (r: QuincyError)
    ensures
        is_packet_error(r, reason@),
{
    QuincyError::Network(NetworkError::PacketError { reason })
}

impl Packet {
    pub open spec fn view(&self) -> Seq<u8> {
        bytes_content(self.data)
    }

    pub fn new(data: bytes::Bytes) -> (r: Packet)
        ensures
            r.view() == bytes_content(data),
    {
        Packet { data }
    }

    /// A packet holding the bytes of `v`.
    pub fn from_vec(v: Vec<u8>) -> (r: Packet)
        ensures
            r.view() == v@,
    {
        Packet { data: bytes_from_vec(v) }
    }

    /// The number of bytes of the datagram.
    pub fn len(&self) -> (r: usize)
        ensures
            r == self.view().len(),
    {
        bytes_len(&self.data)
    }

    /// Byte `i` of the datagram.
    pub fn byte_at(&self, i: usize) -> (r: u8)
        requires
            i < self.view().len(),
        ensures
            r == self.view()[i as int],
    {
        bytes_at(&self.data, i)
    }

    /// The destination address of the datagram, read from its header.
    pub fn destination(&self) -> (r: Result<IpAddress>)
        ensures
            destination_of(self.view(), r),
    {
        let len = bytes_len(&self.data);
        if len == 0 {
            return Err(packet_error(owned("Packet is empty")));
        }
        let first: u8 = bytes_at(&self.data, 0);
        let version: u8 = first >> 4;
        assert(version == first / 16) by (bit_vector)
            requires version == first >> 4;
        if version == 4 {
            match self.parse_ipv4_destination() {
                Ok(a) => Ok(IpAddress::V4(a)),
                Err(e) => Err(e),
            }
        } else if version == 6 {
            match self.parse_ipv6_destination() {
                Ok(a) => Ok(IpAddress::V6(a)),
                Err(e) => Err(e),
            }
        } else {
            let reason = concat(owned("Unsupported IP version: "), u64_to_decimal(version as u64).as_str());
            Err(packet_error(reason))
        }
    }

    fn parse_ipv4_destination(&self) -> (r: Result<[u8; 4]>)
        ensures
            self.view().len() < 20 ==> r is Err && is_packet_error(r->Err_0, short_ipv4_reason()),
            self.view().len() >= 20 ==> (r matches Ok(a) && a@ == self.view().subrange(16, 20)),
    {
        if bytes_len(&self.data) < 20 {
            return Err(packet_error(owned("Packet is too short for IPv4 header")));
        }
        let a: [u8; 4] = [
            bytes_at(&self.data, 16),
            bytes_at(&self.data, 17),
            bytes_at(&self.data, 18),
            bytes_at(&self.data, 19),
        ];
        assert(a@ =~= self.view().subrange(16, 20));
        Ok(a)
    }

    fn parse_ipv6_destination(&self) -> (r: Result<[u8; 16]>)
        ensures
            self.view().len() < 40 ==> r is Err && is_packet_error(r->Err_0, short_ipv6_reason()),
            self.view().len() >= 40 ==> (r matches Ok(a) && a@ == self.view().subrange(24, 40)),
    {
        if bytes_len(&self.data) < 40 {
            return Err(packet_error(owned("Packet is too short for IPv6 header")));
        }
        let mut a: [u8; 16] = [0u8; 16];
        let mut i: usize = 0;
        while i < 16
            invariant
                i <= 16,
                self.view().len() >= 40,
                forall|j: int| 0 <= j < i ==> a@[j] == self.view()[24 + j],
            decreases 16 - i,
        {
            a[i] = bytes_at(&self.data, 24 + i);
            i = i + 1;
        }
        assert(a@ =~= self.view().subrange(24, 40));
        Ok(a)
    }
}

impl From<bytes::Bytes> for Packet {
    fn from(data: bytes::Bytes) -> (r: Packet) {
        Packet { data }
    }
}

impl vstd::std_specs::convert::FromSpecImpl<bytes::Bytes> for Packet {
    open spec fn obeys_from_spec() -> bool {
        true
    }

    open spec fn from_spec(data: bytes::Bytes) -> Packet {
        Packet { data }
    }
}

impl From<Packet> for bytes::Bytes {
    fn from(packet: Packet) -> (r: bytes::Bytes) {
        packet.data
    }
}

impl vstd::std_specs::convert::FromSpecImpl<Packet> for bytes::Bytes {
    open spec fn obeys_from_spec() -> bool {
        true
    }

    open spec fn from_spec(packet: Packet) -> bytes::Bytes {
        packet.data
    }
}

} // verus!
