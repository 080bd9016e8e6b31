//! Decoding of raw link-layer frames: Ethernet, then IPv4, then the name of
//! the transport protocol.
use pnet::packet::ethernet::EthernetPacket;
use pnet::packet::ipv4::Ipv4Packet;
use pnet::packet::Packet;
use vstd::prelude::*;

use crate::dotted::{dotted_quad, dotted_text};

verus! {

/// Length of an Ethernet header: two hardware addresses and the EtherType.
pub const ETHERNET_HEADER_LEN: usize = 14;

/// Length of an IPv4 header without options.
pub const IPV4_MIN_HEADER_LEN: usize = 20;

/// EtherType value of an IPv4 payload.
pub const ETHERTYPE_IPV4: u16 = 0x0800;

/// IPv4 next-level protocol number of TCP.
pub const IP_PROTOCOL_TCP: u8 = 6;

/// IPv4 next-level protocol number of UDP.
pub const IP_PROTOCOL_UDP: u8 = 17;

/// The transport protocol carried by an IPv4 packet, as far as it is told apart.
#[derive(PartialEq, Eq, Structural, Clone, Copy, Debug)]
pub enum TransportProtocol {
    Tcp,
    Udp,
    Other,
}

/// Classification of an IPv4 next-level protocol number.
pub open spec fn protocol_of(number: u8) -> TransportProtocol {
    if number == IP_PROTOCOL_TCP {
        TransportProtocol::Tcp
    } else if number == IP_PROTOCOL_UDP {
        TransportProtocol::Udp
    } else {
        TransportProtocol::Other
    }
}

/// The text label of a protocol: `TCP`, `UDP` or `Other`.
pub open spec fn protocol_label(p: TransportProtocol) -> Seq<char> {
    match p {
        TransportProtocol::Tcp => seq!['T', 'C', 'P'],
        TransportProtocol::Udp => seq!['U', 'D', 'P'],
        TransportProtocol::Other => seq!['O', 't', 'h', 'e', 'r'],
    }
}

impl TransportProtocol {
    /// The label of this protocol, as handed to consumers of records.
    pub fn label(&self) -> (r: &'static str)
        ensures
            r@ == protocol_label(*self),
    {
        match self {
            TransportProtocol::Tcp => {
                proof {
                    reveal_strlit("TCP");
                }
                "TCP"
            },
            TransportProtocol::Udp => {
                proof {
                    reveal_strlit("UDP");
                }
                "UDP"
            },
            TransportProtocol::Other => {
                proof {
                    reveal_strlit("Other");
                }
                "Other"
            },
        }
    }
}

/// Classifies an IPv4 next-level protocol number: 6 is TCP, 17 is UDP and
/// every other number is `Other`.
pub fn classify_protocol(number: u8) -> (r: TransportProtocol)
    ensures
        r == protocol_of(number),
        number == 6 ==> r == TransportProtocol::Tcp,
        number == 17 ==> r == TransportProtocol::Udp,
        number != 6 && number != 17 ==> r == TransportProtocol::Other,
{
    if number == IP_PROTOCOL_TCP {
        TransportProtocol::Tcp
    } else if number == IP_PROTOCOL_UDP {
        TransportProtocol::Udp
    } else {
        TransportProtocol::Other
    }
}

/// One decoded IPv4-carrying frame.
#[derive(Clone, Debug)]
pub struct DecodedRecord {
    pub protocol: TransportProtocol,
    /// Source address in dotted-decimal form.
    pub source_ip: String,
    /// Destination address in dotted-decimal form.
    pub dest_ip: String,
    /// Length of the whole link-layer frame in bytes.
    pub size_bytes: usize,
}

/// Mathematical value of a [`DecodedRecord`].
pub struct RecordView {
    pub protocol: TransportProtocol,
    pub source_ip: Seq<char>,
    pub dest_ip: Seq<char>,
    pub size_bytes: nat,
}

impl View for DecodedRecord {
    type V = RecordView;

    open spec fn view(&self) -> RecordView {
        RecordView {
            protocol: self.protocol,
            source_ip: self.source_ip@,
            dest_ip: self.dest_ip@,
            size_bytes: self.size_bytes as nat,
        }
    }
}

/// A 16-bit big-endian value read from two bytes.
pub open spec fn be_u16(hi: u8, lo: u8) -> u16 {
    (hi as int * 256 + lo as int) as u16
}

/// The EtherType field of a frame of at least `ETHERNET_HEADER_LEN` bytes.
pub open spec fn ether_type(frame: Seq<u8>) -> u16 {
    be_u16(frame[12], frame[13])
}

/// What follows the Ethernet header.
pub open spec fn ethernet_payload(frame: Seq<u8>) -> Seq<u8> {
    frame.subrange(ETHERNET_HEADER_LEN as int, frame.len() as int)
}

/// The record that a frame decodes to, if any: the frame must hold a whole
/// Ethernet header with the IPv4 EtherType, followed by at least a minimal
/// IPv4 header; the protocol, the source address and the destination address
/// sit at bytes 9, 12 to 15 and 16 to 19 of that header.
pub open spec fn decoded(frame: Seq<u8>) -> Option<RecordView> {
    if frame.len() < ETHERNET_HEADER_LEN || ether_type(frame) != ETHERTYPE_IPV4
        || ethernet_payload(frame).len() < IPV4_MIN_HEADER_LEN {
        None
    } else {
        let ip = ethernet_payload(frame);
        Some(
            RecordView {
                protocol: protocol_of(ip[9]),
                source_ip: dotted_text(ip.subrange(12, 16)),
                dest_ip: dotted_text(ip.subrange(16, 20)),
                size_bytes: frame.len(),
            },
        )
    }
}

/// Relies on pnet's `EthernetPacket::new`, which accepts a buffer of at least
/// 14 bytes, `get_ethertype`, which reads bytes 12 and 13 big-endian, and
/// `payload`, which is everything after byte 13.
#[verifier::external_body]
fn read_ethernet(frame: &[u8]) -> (r: Option<(u16, Vec<u8>)>)
    ensures
        r is None <==> frame@.len() < ETHERNET_HEADER_LEN,
        r matches Some((t, p)) ==> t == ether_type(frame@) && p@ == ethernet_payload(frame@),
{
    match EthernetPacket::new(frame) {
        Some(eth) => Some((eth.get_ethertype().0, eth.payload().to_vec())),
        None => None,
    }
}

/// The fields of an IPv4 header that a record needs.
struct Ipv4Header {
    protocol: u8,
    source: [u8; 4],
    destination: [u8; 4],
}

/// Relies on pnet's `Ipv4Packet::new`, which accepts a buffer of at least 20
/// bytes, and on `get_next_level_protocol`, `get_source` and
/// `get_destination`, which read byte 9, bytes 12 to 15 and bytes 16 to 19.
#[verifier::external_body]
fn read_ipv4(packet: &[u8]) -> (r: Option<Ipv4Header>)
    ensures
        r is None <==> packet@.len() < IPV4_MIN_HEADER_LEN,
        r matches Some(h) ==> h.protocol == packet@[9] && h.source@ == packet@.subrange(12, 16)
            && h.destination@ == packet@.subrange(16, 20),
{
    match Ipv4Packet::new(packet) {
        Some(ip) => Some(
            Ipv4Header {
                protocol: ip.get_next_level_protocol().0,
                source: ip.get_source().octets(),
                destination: ip.get_destination().octets(),
            },
        ),
        None => None,
    }
}

/// Decodes one raw frame. Frames that are too short for an Ethernet header,
/// that carry anything but IPv4, or whose payload is too short for an IPv4
/// header give `None`; no byte outside `frame` is read.
pub fn decode(frame: &[u8]) -> (r: Option<DecodedRecord>)
    ensures
        match r {
            Some(rec) => decoded(frame@) == Some(rec@),
            None => decoded(frame@) is None,
        },
{
    let (ether, payload) = match read_ethernet(frame) {
        Some(parts) => parts,
        None => return None,
    };
    if ether != ETHERTYPE_IPV4 {
        return None;
    }
    let header = match read_ipv4(payload.as_slice()) {
        Some(h) => h,
        None => return None,
    };
    Some(
        DecodedRecord {
            protocol: classify_protocol(header.protocol),
            source_ip: dotted_quad(&header.source),
            dest_ip: dotted_quad(&header.destination),
            size_bytes: frame.len(),
        },
    )
}

/// A frame is rejected when it is shorter than an Ethernet header, when its
/// EtherType is not IPv4, or when its payload is shorter than an IPv4 header.
pub proof fn lemma_decode_rejects(frame: Seq<u8>)
    ensures
        frame.len() < ETHERNET_HEADER_LEN ==> decoded(frame) is None,
        frame.len() >= ETHERNET_HEADER_LEN && ether_type(frame) != ETHERTYPE_IPV4 ==> decoded(
            frame,
        ) is None,
        frame.len() >= ETHERNET_HEADER_LEN && frame.len() - ETHERNET_HEADER_LEN
            < IPV4_MIN_HEADER_LEN ==> decoded(frame) is None,
{
}

/// An Ethernet frame laid out from known header values: the two hardware
/// addresses, the IPv4 EtherType, the first nine bytes of an IPv4 header, its
/// protocol number, its checksum, its two addresses, then anything at all.
pub open spec fn ipv4_frame(
    hardware: Seq<u8>,
    ip_lead: Seq<u8>,
    protocol: u8,
    checksum: Seq<u8>,
    source: Seq<u8>,
    destination: Seq<u8>,
    rest: Seq<u8>,
) -> Seq<u8> {
    hardware + seq![0x08u8, 0x00u8] + ip_lead + seq![protocol] + checksum + source + destination
        + rest
}

/// Decoding a frame built from known header values gives those values back:
/// the protocol's class, both addresses as text, and the whole frame length.
pub proof fn lemma_decode_built_frame(
    hardware: Seq<u8>,
    ip_lead: Seq<u8>,
    protocol: u8,
    checksum: Seq<u8>,
    source: Seq<u8>,
    destination: Seq<u8>,
    rest: Seq<u8>,
)
    requires
        hardware.len() == 12,
        ip_lead.len() == 9,
        checksum.len() == 2,
        source.len() == 4,
        destination.len() == 4,
    ensures
        ({
            let frame = ipv4_frame(hardware, ip_lead, protocol, checksum, source, destination, rest);
            decoded(frame) == Some(
                RecordView {
                    protocol: protocol_of(protocol),
                    source_ip: dotted_text(source),
                    dest_ip: dotted_text(destination),
                    size_bytes: frame.len(),
                },
            )
        }),
        protocol == IP_PROTOCOL_TCP ==> decoded(
            ipv4_frame(hardware, ip_lead, protocol, checksum, source, destination, rest),
        ).unwrap().protocol == TransportProtocol::Tcp,
{
    let frame = ipv4_frame(hardware, ip_lead, protocol, checksum, source, destination, rest);
    let ip = ethernet_payload(frame);
    assert(frame[12] == 0x08u8 && frame[13] == 0x00u8);
    assert(ip[9] == protocol);
    assert(ip.subrange(12, 16) =~= source);
    assert(ip.subrange(16, 20) =~= destination);
}

} // verus!
