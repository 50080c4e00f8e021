//! The network layer: sockets, bindings and the routing of received packets.
pub mod error;
pub mod simple_network;
pub mod types;
pub mod virtual_network;

pub use self::error::Error;
pub use self::types::{
    BindingDescriptor, Client, ClientCallbackMsg, MctpAddr, Neighbour, NeighbourSource,
    NetworkBindingCallbackMsg, Route, SockAddrMctp, SockAddrMctpExt, SocketAddress,
    SocketDescriptor, MCTP_ADDR_ANY, MCTP_ADDR_BCAST, MCTP_NET_ANY, MCTP_TAG_OWNER,
};
