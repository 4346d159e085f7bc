//! The header walker and the two directional classifier entry points.
//!
//! The walker reads headers strictly left to right, each one only after
//! [`header_at`] has shown that it lies inside the packet. Whatever it finds,
//! the entry points let the packet pass.
use vstd::prelude::*;
use crate::packet::{
    be16_at, copy_range, ether_type_of, fits, header_at, link_proto_of, read_be16, LinkProto,
    ParseError, ETH_HDR_LEN, IPV4_HDR_LEN, IPV6_HDR_LEN, TCP_HDR_LEN, UDP_HDR_LEN,
};

verus! {

/// The verdict that lets a packet continue on its path unchanged.
pub const TC_ACT_OK: i32 = 0;

/// IANA protocol number of TCP.
pub const PROTO_TCP: u8 = 6;

/// IANA protocol number of UDP.
pub const PROTO_UDP: u8 = 17;

/// The hook direction on which a packet was seen.
#[derive(Debug, Clone, Copy, PartialEq, Eq, Structural)]
pub enum Direction {
    Ingress,
    Egress,
}

impl Direction {
    pub open spec fn name(self) -> Seq<char> {
        match self {
            Direction::Ingress => "ingress"@,
            Direction::Egress => "egress"@,
        }
    }

    /// The lower-case name of the direction, as it appears in log records.
    pub fn as_str(&self) -> (r: &'static str)
        ensures
            r@ == self.name(),
    {
        match self {
            Direction::Ingress => "ingress",
            Direction::Egress => "egress",
        }
    }
}

/// How the interface frames its packets; chosen by the deployment.
#[derive(Debug, Clone, Copy, PartialEq, Eq, Structural)]
pub enum Framing {
    /// Each packet starts with an Ethernet II header.
    Ethernet,
    /// Each packet starts directly with an IPv4 header (tunnel devices).
    Tunnel,
}

/// The network layer of a flow record.
#[derive(Debug, Clone, Copy, PartialEq, Eq, Structural)]
pub enum Network {
    Ipv4,
    Ipv6,
}

/// The transport layer of a flow record.
#[derive(Debug, Clone, Copy, PartialEq, Eq, Structural)]
pub enum Transport {
    Tcp { src_port: u16, dst_port: u16 },
    Udp { src_port: u16, dst_port: u16 },
    /// A protocol whose ports are not parsed; only its number is kept.
    Unknown { proto: u8 },
}

/// What the walker reports of one packet.
#[derive(Debug, Clone, PartialEq, Eq)]
pub enum LogRecord {
    /// The identity of a flow: addresses are in network byte order.
    Flow {
        direction: Direction,
        network: Network,
        src_addr: Vec<u8>,
        dst_addr: Vec<u8>,
        transport: Transport,
    },
    /// A tunnel packet whose IP version field is not 4.
    BadVersion { direction: Direction, version: u8 },
}

/// The mathematical form of a [`LogRecord`].
pub enum RecordView {
    Flow {
        direction: Direction,
        network: Network,
        src_addr: Seq<u8>,
        dst_addr: Seq<u8>,
        transport: Transport,
    },
    BadVersion { direction: Direction, version: u8 },
}

impl View for LogRecord {
    type V = RecordView;

    open spec fn view(&self) -> RecordView {
        match self {
            LogRecord::Flow { direction, network, src_addr, dst_addr, transport } => RecordView::Flow {
                direction: *direction,
                network: *network,
                src_addr: src_addr@,
                dst_addr: dst_addr@,
                transport: *transport,
            },
            LogRecord::BadVersion { direction, version } => RecordView::BadVersion {
                direction: *direction,
                version: *version,
            },
        }
    }
}

pub open spec fn record_opt_view(r: Option<LogRecord>) -> Option<RecordView> {
    match r {
        Some(rec) => Some(rec@),
        None => None,
    }
}

pub open spec fn walk_result_view(r: Result<Option<LogRecord>, ParseError>) -> Result<
    Option<RecordView>,
    ParseError,
> {
    match r {
        Ok(rec) => Ok(record_opt_view(rec)),
        Err(e) => Err(e),
    }
}

/// The transport layer with protocol number `proto` whose header starts at
/// `off`.
pub open spec fn transport_spec(p: Seq<u8>, off: int, proto: u8) -> Result<Transport, ParseError> {
    if proto == PROTO_TCP {
        if fits(p.len() as int, off, TCP_HDR_LEN as int) {
            Ok(
                Transport::Tcp {
                    src_port: be16_at(p, off) as u16,
                    dst_port: be16_at(p, off + 2) as u16,
                },
            )
        } else {
            Err(ParseError::OutOfBounds { offset: off as usize, size: TCP_HDR_LEN })
        }
    } else if proto == PROTO_UDP {
        if fits(p.len() as int, off, UDP_HDR_LEN as int) {
            Ok(
                Transport::Udp {
                    src_port: be16_at(p, off) as u16,
                    dst_port: be16_at(p, off + 2) as u16,
                },
            )
        } else {
            Err(ParseError::OutOfBounds { offset: off as usize, size: UDP_HDR_LEN })
        }
    } else {
        Ok(Transport::Unknown { proto })
    }
}

/// The flow record of an IP header of `hdr_len` bytes at `off`, whose
/// addresses are at `addr` and `addr + addr_len`, and whose transport
/// protocol number is at `proto_at`.
pub open spec fn ip_spec(
    p: Seq<u8>,
    d: Direction,
    network: Network,
    off: int,
    hdr_len: int,
    proto_at: int,
    addr: int,
    addr_len: int,
) -> Result<Option<RecordView>, ParseError> {
    if !fits(p.len() as int, off, hdr_len) {
        Err(ParseError::OutOfBounds { offset: off as usize, size: hdr_len as usize })
    } else {
        match transport_spec(p, off + hdr_len, p[off + proto_at]) {
            Err(e) => Err(e),
            Ok(t) => Ok(
                Some(
                    RecordView::Flow {
                        direction: d,
                        network,
                        src_addr: p.subrange(off + addr, off + addr + addr_len),
                        dst_addr: p.subrange(off + addr + addr_len, off + addr + 2 * addr_len),
                        transport: t,
                    },
                ),
            ),
        }
    }
}

/// The flow record of an IPv4 header at `off`.
pub open spec fn ipv4_spec(p: Seq<u8>, d: Direction, off: int) -> Result<
    Option<RecordView>,
    ParseError,
> {
    ip_spec(p, d, Network::Ipv4, off, IPV4_HDR_LEN as int, 9, 12, 4)
}

/// The flow record of an IPv6 header at `off`.
pub open spec fn ipv6_spec(p: Seq<u8>, d: Direction, off: int) -> Result<
    Option<RecordView>,
    ParseError,
> {
    ip_spec(p, d, Network::Ipv6, off, IPV6_HDR_LEN as int, 6, 8, 16)
}

/// The version field of an IP header whose first byte is `b`.
pub open spec fn ip_version(b: u8) -> u8 {
    b >> 4u8
}

/// What the walker reports of packet `p`, seen in direction `d`.
pub open spec fn walk(p: Seq<u8>, f: Framing, d: Direction) -> Result<
    Option<RecordView>,
    ParseError,
> {
    match f {
        Framing::Ethernet => {
            if !fits(p.len() as int, 0, ETH_HDR_LEN as int) {
                Err(ParseError::OutOfBounds { offset: 0, size: ETH_HDR_LEN })
            } else {
                match link_proto_of(p[12], p[13]) {
                    LinkProto::Ipv4 => ipv4_spec(p, d, ETH_HDR_LEN as int),
                    LinkProto::Ipv6 => ipv6_spec(p, d, ETH_HDR_LEN as int),
                    LinkProto::Other => Ok(None),
                }
            }
        },
        Framing::Tunnel => {
            if !fits(p.len() as int, 0, 1) {
                Err(ParseError::OutOfBounds { offset: 0, size: 1 })
            } else if ip_version(p[0]) != 4 {
                Ok(Some(RecordView::BadVersion { direction: d, version: ip_version(p[0]) }))
            } else {
                ipv4_spec(p, d, 0)
            }
        },
    }
}

/// Reads the transport header with protocol number `proto` at `off`.
fn read_transport(packet: &[u8], off: usize, proto: u8) -> (r: Result<Transport, ParseError>)
    requires
        off <= 64,
    ensures
        r == transport_spec(packet@, off as int, proto),
{
    if proto == PROTO_TCP {
        match header_at(packet, off, TCP_HDR_LEN) {
            Ok(at) => {
                let src_port = read_be16(packet, at);
                let dst_port = read_be16(packet, at + 2);
                Ok(Transport::Tcp { src_port, dst_port })
            },
            Err(e) => Err(e),
        }
    } else if proto == PROTO_UDP {
        match header_at(packet, off, UDP_HDR_LEN) {
            Ok(at) => {
                let src_port = read_be16(packet, at);
                let dst_port = read_be16(packet, at + 2);
                Ok(Transport::Udp { src_port, dst_port })
            },
            Err(e) => Err(e),
        }
    } else {
        Ok(Transport::Unknown { proto })
    }
}

/// Reads an IP header and the transport header after it; the layout
/// arguments are those of [`ip_spec`].
fn read_ip(
    packet: &[u8],
    d: Direction,
    network: Network,
    off: usize,
    hdr_len: usize,
    proto_at: usize,
    addr: usize,
    addr_len: usize,
) -> (r: Result<Option<LogRecord>, ParseError>)
    requires
        off <= 14,
        hdr_len <= 40,
        proto_at < hdr_len,
        addr + 2 * addr_len <= hdr_len,
    ensures
        walk_result_view(r) == ip_spec(
            packet@,
            d,
            network,
            off as int,
            hdr_len as int,
            proto_at as int,
            addr as int,
            addr_len as int,
        ),
{
    match header_at(packet, off, hdr_len) {
        Err(e) => Err(e),
        Ok(at) => {
            let proto = packet[at + proto_at];
            match read_transport(packet, at + hdr_len, proto) {
                Err(e) => Err(e),
                Ok(transport) => {
                    let src_addr = copy_range(packet, at + addr, at + addr + addr_len);
                    let dst_addr = copy_range(
                        packet,
                        at + addr + addr_len,
                        at + addr + 2 * addr_len,
                    );
                    Ok(Some(LogRecord::Flow { direction: d, network, src_addr, dst_addr, transport }))
                },
            }
        },
    }
}

/// Walks the headers of one packet and reports what it found: a record, or
/// nothing where a protocol tag is not one that is inspected. Fails only
/// where a header that the walk needs does not fit in the packet.
pub fn try_krait(packet: &[u8], framing: Framing, direction: Direction) -> (r: Result<
    Option<LogRecord>,
    ParseError,
>)
    ensures
        walk_result_view(r) == walk(packet@, framing, direction),
{
    match framing {
        Framing::Ethernet => match header_at(packet, 0, ETH_HDR_LEN) {
            Err(e) => Err(e),
            Ok(_) => match ether_type_of(packet[12], packet[13]) {
                LinkProto::Ipv4 => read_ip(
                    packet,
                    direction,
                    Network::Ipv4,
                    ETH_HDR_LEN,
                    IPV4_HDR_LEN,
                    9,
                    12,
                    4,
                ),
                LinkProto::Ipv6 => read_ip(
                    packet,
                    direction,
                    Network::Ipv6,
                    ETH_HDR_LEN,
                    IPV6_HDR_LEN,
                    6,
                    8,
                    16,
                ),
                LinkProto::Other => Ok(None),
            },
        },
        Framing::Tunnel => match header_at(packet, 0, 1) {
            Err(e) => Err(e),
            Ok(_) => {
                let version = packet[0] >> 4u8;
                if version != 4 {
                    Ok(Some(LogRecord::BadVersion { direction, version }))
                } else {
                    read_ip(packet, direction, Network::Ipv4, 0, IPV4_HDR_LEN, 9, 12, 4)
                }
            },
        },
    }
}

/// What an entry point hands back to the hook: its verdict, and the record
/// it emits to the log relay, if any.
#[derive(Debug, Clone, PartialEq, Eq)]
pub struct Classification {
    pub verdict: i32,
    pub record: Option<LogRecord>,
}

/// The record that classifying packet `p` emits: the walker's, and none
/// where the walker failed.
pub open spec fn emitted(p: Seq<u8>, f: Framing, d: Direction) -> Option<RecordView> {
    match walk(p, f, d) {
        Ok(rec) => rec,
        Err(_) => None,
    }
}

/// Classifies one packet seen in `direction`. The packet always passes.
pub fn classify(packet: &[u8], framing: Framing, direction: Direction) -> (r: Classification)
    ensures
        r.verdict == TC_ACT_OK,
        record_opt_view(r.record) == emitted(packet@, framing, direction),
{
    match try_krait(packet, framing, direction) {
        Ok(record) => Classification { verdict: TC_ACT_OK, record },
        Err(_) => Classification { verdict: TC_ACT_OK, record: None },
    }
}

/// Entry point of the ingress hook.
pub fn krait_ingress(packet: &[u8], framing: Framing) -> (r: Classification)
    ensures
        r.verdict == TC_ACT_OK,
        record_opt_view(r.record) == emitted(packet@, framing, Direction::Ingress),
{
    classify(packet, framing, Direction::Ingress)
}

/// Entry point of the egress hook.
pub fn krait_egress(packet: &[u8], framing: Framing) -> (r: Classification)
    ensures
        r.verdict == TC_ACT_OK,
        record_opt_view(r.record) == emitted(packet@, framing, Direction::Egress),
{
    classify(packet, framing, Direction::Egress)
}

} // verus!
