//! Properties of the header walker that hold of every packet.
use vstd::prelude::*;
use crate::packet::{be16_at, link_proto_of, LinkProto, ETH_HDR_LEN, IPV4_HDR_LEN, IPV6_HDR_LEN};
use crate::walker::{
    emitted, ip_version, walk, Direction, Framing, Network, RecordView, Transport, PROTO_TCP,
    PROTO_UDP,
};

verus! {

/// Bytes that the transport header with protocol number `proto` takes.
pub open spec fn transport_len(proto: u8) -> int {
    if proto == PROTO_TCP {
        20
    } else if proto == PROTO_UDP {
        8
    } else {
        0
    }
}

/// The number of bytes the walk needs, given the protocol tags that `p`
/// holds: a prefix of `p` shorter than this fails the walk.
pub open spec fn needed(p: Seq<u8>, f: Framing) -> int {
    match f {
        Framing::Ethernet => match link_proto_of(p[12], p[13]) {
            LinkProto::Ipv4 => ETH_HDR_LEN + IPV4_HDR_LEN + transport_len(p[23]),
            LinkProto::Ipv6 => ETH_HDR_LEN + IPV6_HDR_LEN + transport_len(p[20]),
            LinkProto::Other => ETH_HDR_LEN as int,
        },
        Framing::Tunnel => if ip_version(p[0]) != 4 {
            1
        } else {
            IPV4_HDR_LEN + transport_len(p[9])
        },
    }
}

/// Cutting a packet at any point before the end of the last header that its
/// protocol tags call for makes the walk fail, and then nothing is emitted;
/// cutting it at or after that point lets the walk succeed.
pub proof fn lemma_truncation(p: Seq<u8>, f: Framing, d: Direction, k: int)
    requires
        needed(p, f) <= p.len(),
        0 <= k <= p.len(),
    ensures
        walk(p.take(k), f, d).is_err() <==> k < needed(p, f),
        k < needed(p, f) ==> emitted(p.take(k), f, d) == None::<RecordView>,
{
    let q = p.take(k);
    assert(forall|i: int| 0 <= i < k ==> q[i] == p[i]);
}

/// An Ethernet frame that carries IPv4 and then TCP yields the flow record
/// of exactly the addresses and ports that its bytes encode.
pub proof fn lemma_ethernet_ipv4_tcp(p: Seq<u8>, d: Direction)
    requires
        p.len() >= 54,
        link_proto_of(p[12], p[13]) == LinkProto::Ipv4,
        p[23] == PROTO_TCP,
    ensures
        walk(p, Framing::Ethernet, d) == Ok::<Option<RecordView>, crate::packet::ParseError>(
            Some(
                RecordView::Flow {
                    direction: d,
                    network: Network::Ipv4,
                    src_addr: p.subrange(26, 30),
                    dst_addr: p.subrange(30, 34),
                    transport: Transport::Tcp {
                        src_port: be16_at(p, 34) as u16,
                        dst_port: be16_at(p, 36) as u16,
                    },
                },
            ),
        ),
{
}

/// On a tunnel interface, a packet whose version field is not 4 yields a
/// diagnostic record of that version.
pub proof fn lemma_tunnel_bad_version(p: Seq<u8>, d: Direction)
    requires
        p.len() >= 1,
        ip_version(p[0]) != 4,
    ensures
        emitted(p, Framing::Tunnel, d) == Some(
            RecordView::BadVersion { direction: d, version: ip_version(p[0]) },
        ),
{
}

/// Where the network header starts under framing `f`.
pub open spec fn network_offset(f: Framing) -> int {
    match f {
        Framing::Ethernet => ETH_HDR_LEN as int,
        Framing::Tunnel => 0,
    }
}

/// The framing of `p` announces an IPv4 header.
pub open spec fn carries_ipv4(p: Seq<u8>, f: Framing) -> bool {
    match f {
        Framing::Ethernet => p.len() >= ETH_HDR_LEN && link_proto_of(p[12], p[13])
            == LinkProto::Ipv4,
        Framing::Tunnel => p.len() >= 1 && ip_version(p[0]) == 4,
    }
}

/// A whole IPv4 header whose transport protocol is neither TCP nor UDP
/// yields a flow record with its addresses and the protocol number, and no
/// ports.
pub proof fn lemma_unknown_transport(p: Seq<u8>, f: Framing, d: Direction)
    requires
        carries_ipv4(p, f),
        p.len() >= network_offset(f) + IPV4_HDR_LEN,
        p[network_offset(f) + 9] != PROTO_TCP,
        p[network_offset(f) + 9] != PROTO_UDP,
    ensures
        ({
            let o = network_offset(f);
            walk(p, f, d) == Ok::<Option<RecordView>, crate::packet::ParseError>(
                Some(
                    RecordView::Flow {
                        direction: d,
                        network: Network::Ipv4,
                        src_addr: p.subrange(o + 12, o + 16),
                        dst_addr: p.subrange(o + 16, o + 20),
                        transport: Transport::Unknown { proto: p[o + 9] },
                    },
                ),
            )
        }),
{
}

} // verus!
