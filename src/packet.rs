//! Bounds-checked access to packet bytes.
//!
//! A packet is a read-only byte window. Every header access goes through
//! [`header_at`], which succeeds only when the whole header lies inside the
//! window.
use vstd::prelude::*;

verus! {

/// Length of an Ethernet II header.
pub const ETH_HDR_LEN: usize = 14;

/// Length of an IPv4 header without options.
pub const IPV4_HDR_LEN: usize = 20;

/// Length of an IPv6 fixed header.
pub const IPV6_HDR_LEN: usize = 40;

/// Length of a TCP header without options.
pub const TCP_HDR_LEN: usize = 20;

/// Length of a UDP header.
pub const UDP_HDR_LEN: usize = 8;

/// Why a header could not be read.
#[derive(Debug, Clone, Copy, PartialEq, Eq, Structural)]
pub enum ParseError {
    /// The header of `size` bytes at `offset` does not fit in the packet.
    OutOfBounds { offset: usize, size: usize },
}

/// A header of `size` bytes at `offset` lies inside a packet of `len` bytes.
pub open spec fn fits(len: int, offset: int, size: int) -> bool {
    offset + size <= len
}

/// The big-endian 16-bit integer made of `hi` and `lo`.
pub open spec fn be16(hi: u8, lo: u8) -> int {
    hi as int * 256 + lo as int
}

/// The big-endian 16-bit integer at `offset` of `bytes`.
pub open spec fn be16_at(bytes: Seq<u8>, offset: int) -> int {
    be16(bytes[offset], bytes[offset + 1])
}

/// Checks that a header of `size` bytes at `offset` lies inside `packet`,
/// and hands back the offset at which it may be read.
pub fn header_at(packet: &[u8], offset: usize, size: usize) -> (r: Result<usize, ParseError>)
    ensures
        fits(packet@.len() as int, offset as int, size as int) <==> r.is_ok(),
        r.is_ok() ==> r == Ok::<usize, ParseError>(offset),
        r.is_err() ==> r == Err::<usize, ParseError>(ParseError::OutOfBounds { offset, size }),
{
    if offset <= packet.len() && size <= packet.len() - offset {
        Ok(offset)
    } else {
        Err(ParseError::OutOfBounds { offset, size })
    }
}

/// Reads the big-endian 16-bit integer at `offset`.
pub fn read_be16(packet: &[u8], offset: usize) -> (r: u16)
    requires
        offset + 2 <= packet@.len(),
    ensures
        r as int == be16_at(packet@, offset as int),
{
    let hi = packet[offset];
    let lo = packet[offset + 1];
    (hi as u16) * 256 + (lo as u16)
}

/// Copies the bytes from `start` up to `end`.
pub fn copy_range(packet: &[u8], start: usize, end: usize) -> (r: Vec<u8>)
    requires
        start <= end <= packet@.len(),
    ensures
        r@ == packet@.subrange(start as int, end as int),
{
    let mut out: Vec<u8> = Vec::new();
    let mut i: usize = start;
    while i < end
        invariant
            start <= i <= end <= packet@.len(),
            out@ == packet@.subrange(start as int, i as int),
        decreases end - i,
    {
        out.push(packet[i]);
        i = i + 1;
    }
    out
}

/// The network-layer protocol that a link-layer header announces.
#[derive(Debug, Clone, Copy, PartialEq, Eq, Structural)]
pub enum LinkProto {
    Ipv4,
    Ipv6,
    /// Any protocol tag that is not inspected further.
    Other,
}

/// The protocol announced by an ether-type field whose two bytes are
/// `hi` and `lo`, in the order they stand in the packet.
pub open spec fn link_proto_of(hi: u8, lo: u8) -> LinkProto {
    if be16(hi, lo) == 0x0800 {
        LinkProto::Ipv4
    } else if be16(hi, lo) == 0x86DD {
        LinkProto::Ipv6
    } else {
        LinkProto::Other
    }
}

/// Relies on `network_types::eth::EthHdr::ether_type`: the raw field, read
/// in memory order, is matched against the `EtherType` variants, whose values
/// are the big-endian protocol numbers (IPv4 is 0x0800, IPv6 is 0x86DD).
#[verifier::external_body]
pub(crate) fn ether_type_of(hi: u8, lo: u8) -> (r: LinkProto)
    ensures
        r == link_proto_of(hi, lo),
{
    let hdr = network_types::eth::EthHdr {
        dst_addr: [0u8; 6],
        src_addr: [0u8; 6],
        ether_type: u16::from_ne_bytes([hi, lo]),
    };
    match hdr.ether_type() {
        Ok(network_types::eth::EtherType::Ipv4) => LinkProto::Ipv4,
        Ok(network_types::eth::EtherType::Ipv6) => LinkProto::Ipv6,
        _ => LinkProto::Other,
    }
}

} // verus!
