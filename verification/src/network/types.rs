//! Addresses, sockets, neighbours and routes.
use vstd::prelude::*;

verus! {

/// Descriptor of a socket of the network.
pub type SocketDescriptor = i32;

/// Identifier of a physical binding of the network.
pub type BindingDescriptor = u64;

/// Any network.
pub const MCTP_NET_ANY: u8 = 0x08;

/// Any address.
pub const MCTP_ADDR_ANY: u8 = 0x08;

/// The broadcast address.
pub const MCTP_ADDR_BCAST: u8 = 0xff;

/// The tag-owner flag inside a socket tag.
pub const MCTP_TAG_OWNER: u8 = 0x08;

/// What a physical binding hands up to the network.
#[derive(Debug, PartialEq, Eq)]
pub enum NetworkBindingCallbackMsg {
    /// A frame, whole and unchanged, that the binding known as `id` has read.
    Receive { id: u64, buf: Vec<u8> },
}

/// An endpoint address.
#[derive(Copy, Clone, Debug, PartialEq, Eq, Default)]
pub struct MctpAddr {
    pub s_addr: u8,
}

/// A socket address: network, endpoint, message type and tag.
#[derive(Copy, Clone, Debug, PartialEq, Eq, Default)]
pub struct SockAddrMctp {
    pub smctp_family: u16,
    pub smctp_pad0: u16,
    pub smctp_network: u32,
    pub smctp_addr: MctpAddr,
    pub smctp_type: u8,
    pub smctp_tag: u8,
    pub smctp_pad1: u8,
}

/// A socket address together with the interface and the hardware address behind it.
#[derive(Copy, Clone, Debug, PartialEq, Eq, Default)]
pub struct SockAddrMctpExt {
    pub smctp_base: SockAddrMctp,
    pub smctp_ifindex: i32,
    pub smctp_halen: u8,
    pub smctp_pad0: [u8; 3],
    pub smctp_haddr: [u8; 32],
}

/// Where a message goes to or comes from.
#[derive(Copy, Clone, Debug, PartialEq, Eq, Structural)]
pub enum SocketAddress {
    /// An endpoint, to be reached over whatever route leads to it.
    Basic { address: u8, msg_type: u8, tag: u8 },
    /// An endpoint behind a given physical binding and physical address.
    Extended { address: u8, network: u32, binding_id: u64, phy_addr: u64 },
}

/// What the network hands to the owner of a socket.
#[derive(Debug, PartialEq, Eq)]
pub enum ClientCallbackMsg {
    /// Bytes that came from `addr`.
    Receive { addr: SocketAddress, buf: Vec<u8> },
}

/// What a socket is bound to: local endpoint, message type and tag.
#[derive(Copy, Clone, Debug, PartialEq, Eq, Structural)]
pub struct Client {
    pub address: u8,
    pub msg_type: u8,
    pub tag: u8,
}

impl Client {
    /// A socket bound to the given triple.
    pub fn new(address: u8, msg_type: u8, tag: u8) -> (c: Self)
        ensures
            c == (Client { address, msg_type, tag }),
    {
        Client { address, msg_type, tag }
    }
}

/// How a neighbour became known.
#[derive(Copy, Clone, Debug, PartialEq, Eq, Structural)]
pub enum NeighbourSource {
    /// By configuration.
    Static,
    /// By discovery.
    Discover,
}

/// An endpoint that can be reached directly, with its hardware address.
#[derive(Debug, PartialEq, Eq)]
pub struct Neighbour {
    pub eid: u8,
    pub source: NeighbourSource,
    pub ha: [u8; 32],
}

/// A range of endpoints of one network that are reached the same way.
#[derive(Copy, Clone, Debug, PartialEq, Eq, Structural)]
pub struct Route {
    pub min_eid: u8,
    pub max_eid: u8,
    pub net: u32,
    pub mtu: u32,
    pub route_type: u8,
}

impl Route {
    /// Whether endpoint `daddr` of network `dnet` lies in the range of this route.
    pub open spec fn spec_matches(&self, dnet: u32, daddr: u8) -> bool {
        dnet == self.net && self.min_eid <= daddr <= self.max_eid
    }

    /// Whether endpoint `daddr` of network `dnet` lies in the range of this route.
    #[verifier::when_used_as_spec(spec_matches)]
    pub fn matches(&self, dnet: u32, daddr: u8) -> (b: bool)
        ensures
            b == self.spec_matches(dnet, daddr),
    {
        dnet == self.net && self.min_eid <= daddr && self.max_eid >= daddr
    }
}

} // verus!
