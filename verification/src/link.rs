//! The link-layer address to which the frame source is bound.
//!
//! The frame source is a raw socket of the packet family. It is bound to one
//! interface and one hardware address, and the address names the broadcast
//! packet type explicitly: an interface that is bound as for unicast traffic
//! only sees nothing. The protocol is named in network byte order, as the
//! system reads it: given in the byte order of the machine it would select
//! another protocol on a little-endian machine, and no frame would arrive.

use vstd::prelude::*;

verus! {

/// The address family of link-layer sockets.
pub const AF_PACKET: u16 = 17;

/// The protocol number that stands for every protocol carried on the link.
/// On the wire and in a socket address it travels in network byte order.
pub const ETH_P_ALL: u16 = 0x0003;

/// The packet type of frames sent to the link's broadcast address.
pub const PACKET_BROADCAST: u8 = 1;

/// Number of bytes that a link-layer address has room for.
pub const ADDRESS_ROOM: usize = 8;

/// A link-layer socket address, field by field as the system has it. The
/// protocol is held as the two bytes that lie in memory, so that it means the
/// same on every machine.
#[derive(Clone, Copy, Debug, PartialEq, Eq)]
pub struct LinkLayerAddress {
    /// The address family.
    pub family: u16,
    /// The protocol whose frames are wanted, in network byte order: the
    /// bytes of the field as they lie in memory, most significant first.
    pub protocol: [u8; 2],
    /// The index of the interface.
    pub ifindex: i32,
    /// The hardware type.
    pub hatype: u16,
    /// The packet type.
    pub pkttype: u8,
    /// The number of bytes of `addr` that are in use.
    pub halen: u8,
    /// The hardware address, padded with zeros.
    pub addr: [u8; 8],
}

/// `nix::sys::socket::AddressFamily::Packet`, as a number: the enum is
/// declared with the values of the system's `AF_` constants, and `AF_PACKET`
/// is 17.
#[verifier::external_body]
fn packet_family() -> (family: u16)
    ensures
        family == AF_PACKET,
{
    nix::sys::socket::AddressFamily::Packet as u16
}

/// `nix::libc::PACKET_BROADCAST`: a constant of the system's packet
/// interface, declared as 1.
#[verifier::external_body]
fn broadcast_packet_type() -> (kind: u8)
    ensures
        kind == PACKET_BROADCAST,
{
    nix::libc::PACKET_BROADCAST
}

/// `n` in network byte order: its two bytes, the most significant first.
pub open spec fn network_order(n: u16) -> Seq<u8> {
    seq![(n / 0x100) as u8, (n % 0x100) as u8]
}

/// The two bytes of `n` in network byte order.
pub fn to_network_order(n: u16) -> (bytes: [u8; 2])
    ensures
        bytes@ == network_order(n),
{
    let bytes: [u8; 2] = [(n / 0x100) as u8, (n % 0x100) as u8];
    assert(bytes@ =~= network_order(n));
    bytes
}

/// The address that binds the frame source to the interface `ifindex` and the
/// hardware address `peer_mac`: packet family, all protocols (in network
/// byte order), broadcast packet type, six address bytes and two bytes of
/// padding.
pub fn bind_address(peer_mac: [u8; 6], ifindex: i32) -> (address: LinkLayerAddress)
    ensures
        address.family == AF_PACKET,
        address.protocol@ == network_order(ETH_P_ALL),
        address.protocol@ == seq![0x00u8, 0x03u8],
        address.ifindex == ifindex,
        address.hatype == 0,
        address.pkttype == PACKET_BROADCAST,
        address.halen == 6,
        address.addr@ == peer_mac@ + seq![0u8, 0u8],
{
    let addr: [u8; 8] = [
        peer_mac[0],
        peer_mac[1],
        peer_mac[2],
        peer_mac[3],
        peer_mac[4],
        peer_mac[5],
        0,
        0,
    ];
    assert(addr@ =~= peer_mac@ + seq![0u8, 0u8]);
    let protocol: [u8; 2] = to_network_order(ETH_P_ALL);
    assert(protocol@ =~= seq![0x00u8, 0x03u8]);
    LinkLayerAddress {
        family: packet_family(),
        protocol,
        ifindex,
        hatype: 0,
        pkttype: broadcast_packet_type(),
        halen: 6,
        addr,
    }
}

} // verus!
