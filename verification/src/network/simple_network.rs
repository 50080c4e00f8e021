//! A network with sockets, physical bindings and one table of waiting requests.
//!
//! The network decides; it performs no input or output. Sending is split in two:
//! [`SimpleNetwork::sendto`] builds the packet and records the waiting request, the
//! caller transmits the packet and waits, and [`complete_sendto`] turns what the
//! binding said and what the waiter got into the result. Receiving is one step:
//! [`SimpleNetwork::callback_handler`] says what is to be done with a frame.
use std::collections::HashMap;
use vstd::prelude::*;
use vstd::std_specs::hash::group_hash_axioms;
use crate::base::buffer::{append_bytes, tail_from};
use crate::base::models::TransportHeader;
use crate::base::traits::FromBinary;
use crate::endpoint::types::{matched_waiter, without_match, FlowTable, MsgFlowTag};
use crate::network::error::Error;
use crate::network::types::{Client, ClientCallbackMsg, NetworkBindingCallbackMsg, SocketAddress};
use crate::phys::smbus_types::SmbusPhysTransportHeader;
use crate::{MctpEmuEmptyResult, MctpEmuError, MctpEmuResult};

verus! {

broadcast use group_hash_axioms;

/// The network number under which received packets are reported.
pub const DEFAULT_NETWORK: u32 = 1;

/// The flow tag of the packet `bytes`: that of its transport header. Fewer than four
/// bytes hold no transport header, and have no tag.
pub open spec fn spec_create_tag(bytes: Seq<u8>) -> Option<MsgFlowTag> {
    if bytes.len() < TransportHeader::spec_size() {
        None
    } else {
        Some(MsgFlowTag::spec_of_header(TransportHeader::spec_decode(bytes)))
    }
}

/// Computes the flow tag of a packet; see [`spec_create_tag`].
pub fn create_tag(bytes: &[u8]) -> (r: Option<MsgFlowTag>)
    ensures
        r == spec_create_tag(bytes@),
        bytes@.len() < 4 ==> r is None,
        bytes@.len() >= 4 ==> r == Some(
            MsgFlowTag::spec_of_header(TransportHeader::spec_decode(bytes@)),
        ),
{
    match TransportHeader::try_from_bytes(bytes) {
        Ok(hdr) => Some(MsgFlowTag::of_header(&hdr)),
        Err(_) => None,
    }
}

/// A packet that is ready to be handed to a physical binding.
#[derive(Debug, PartialEq, Eq)]
pub struct Transmit {
    pub binding_id: u64,
    pub phy_addr: u64,
    pub buf: Vec<u8>,
}

/// What is to be done with a received frame.
#[derive(Debug, PartialEq, Eq)]
pub enum ReceiveAction<W> {
    /// The frame answers a waiting request: `msg` goes to `waiter`.
    Deliver { waiter: W, msg: ClientCallbackMsg },
    /// The frame answers nothing that waits: `request`, the packet without its physical
    /// header, goes to the responder, whose reply goes back through `binding_id` to
    /// `phy_addr`.
    Dispatch { binding_id: u64, phy_addr: u64, request: Vec<u8> },
    /// The frame is malformed or not MCTP, and is dropped.
    Drop,
}

/// The transport header that socket `client` puts in front of a message to `address`:
/// a single packet that owns its tag.
pub open spec fn spec_send_header(client: Client, address: u8) -> TransportHeader {
    TransportHeader::spec_new(
        client.address,
        address,
        client.tag,
        Some(true),
        Some(true),
        Some(true),
    )
}

/// Whether `frame` carries an MCTP packet: an SMBus header with the MCTP command code,
/// and behind it at least a transport header.
pub open spec fn is_mctp_frame(frame: Seq<u8>) -> bool {
    &&& frame.len() >= 8
    &&& SmbusPhysTransportHeader::spec_decode(frame).is_mctp()
}

/// The address under which a frame that came through binding `id` is reported.
pub open spec fn spec_receive_addr(id: u64) -> SocketAddress {
    SocketAddress::Extended { address: 0, network: DEFAULT_NETWORK, binding_id: id, phy_addr: 0 }
}

/// The result of a send, given what the binding said of the transmission and what the
/// waiter got.
///
/// An error of the binding is the result, whatever the waiter got: the caller need not
/// wait for it. After a transmission that went well the result is the sender of the
/// response and the response; or [`Error::FlowCancelled`] when the waiter was given up
/// before anything came.
pub fn complete_sendto(transmitted: MctpEmuEmptyResult, outcome: Option<ClientCallbackMsg>) -> (r:
    MctpEmuResult<(SocketAddress, Vec<u8>)>)
    ensures
        transmitted is Err ==> r == Err::<(SocketAddress, Vec<u8>), MctpEmuError>(
            transmitted->Err_0,
        ),
        transmitted is Ok && outcome is None ==> r == Err::<
            (SocketAddress, Vec<u8>),
            MctpEmuError,
        >(MctpEmuError::Network(Error::FlowCancelled)),
        transmitted is Ok && outcome is Some ==> r == Ok::<
            (SocketAddress, Vec<u8>),
            MctpEmuError,
        >((outcome->Some_0->addr, outcome->Some_0->buf)),
{
    match transmitted {
        Ok(()) => {},
        Err(e) => {
            return Err(e);
        },
    }
    match outcome {
        None => Err(MctpEmuError::Network(Error::FlowCancelled)),
        Some(ClientCallbackMsg::Receive { addr, buf }) => Ok((addr, buf)),
    }
}

/// The state of the network: the sockets, how many descriptors and binding identifiers
/// were given out, and the requests that wait for their response.
#[derive(Debug)]
pub struct SimpleNetwork<W> {
    pub clients: HashMap<i32, Client>,
    pub num_clients: i32,
    pub num_bindings: u64,
    pub flows: FlowTable<W>,
}

impl<W> SimpleNetwork<W> {
    /// Whether `binding_id` was given out by [`SimpleNetwork::add_physical_binding`].
    pub open spec fn has_binding(&self, binding_id: u64) -> bool {
        1 <= binding_id <= self.num_bindings
    }

    /// A network without sockets, bindings or waiting requests.
    pub fn new_mctp_network() -> (n: Self)
        ensures
            n.clients@ == Map::<i32, Client>::empty(),
            n.num_clients == 0,
            n.num_bindings == 0,
            n.flows@ == Seq::<(MsgFlowTag, W)>::empty(),
    {
        SimpleNetwork {
            clients: HashMap::new(),
            num_clients: 0,
            num_bindings: 0,
            flows: FlowTable::new(),
        }
    }

    /// `Ok` exactly for the identifiers that were given out.
    pub fn get_binding(&self, binding_id: u64) -> (r: Result<(), Error>)
        ensures
            self.has_binding(binding_id) ==> r == Ok::<(), Error>(()),
            !self.has_binding(binding_id) ==> r == Err::<(), Error>(
                Error::InvalidBindingError { binding_id },
            ),
    {
        if binding_id < 1 || binding_id > self.num_bindings {
            return Err(Error::InvalidBindingError { binding_id });
        }
        Ok(())
    }

    /// What socket `sd` is bound to.
    pub fn get_client(&self, sd: i32) -> (r: MctpEmuResult<Client>)
        ensures
            self.clients@.contains_key(sd) ==> r == Ok::<Client, MctpEmuError>(self.clients@[sd]),
            !self.clients@.contains_key(sd) ==> r == Err::<Client, MctpEmuError>(
                MctpEmuError::Network(Error::InvalidSocketError { sd }),
            ),
    {
        match self.clients.get(&sd) {
            Some(client) => Ok(*client),
            None => Err(MctpEmuError::Network(Error::InvalidSocketError { sd })),
        }
    }

    /// Gives out the next socket descriptor: descriptors count up from zero, and every
    /// descriptor that was given out stays known.
    pub fn socket(&mut self) -> (sd: i32)
        requires
            old(self).num_clients < i32::MAX,
        ensures
            sd == old(self).num_clients,
            final(self).num_clients == sd + 1,
            sd >= 0 ==> final(self).has_socket(sd),
            forall|earlier: i32| old(self).has_socket(earlier) ==> final(self).has_socket(earlier),
            final(self).clients@ == old(self).clients@,
            final(self).num_bindings == old(self).num_bindings,
            final(self).flows@ == old(self).flows@,
    {
        let sd = self.num_clients;
        self.num_clients = sd + 1;
        sd
    }

    /// Whether `sd` was given out by [`SimpleNetwork::socket`].
    pub open spec fn has_socket(&self, sd: i32) -> bool {
        0 <= sd < self.num_clients
    }

    /// Binds socket `sd` to a local endpoint, a message type and a tag; a second binding
    /// replaces the first. A descriptor that was never given out is refused.
    pub fn bind(&mut self, sd: i32, address: u8, msg_type: u8, tag: u8) -> (r: MctpEmuResult<()>)
        ensures
            final(self).num_clients == old(self).num_clients,
            final(self).num_bindings == old(self).num_bindings,
            final(self).flows@ == old(self).flows@,
            old(self).has_socket(sd) ==> r == Ok::<(), MctpEmuError>(())
                && final(self).clients@ == old(self).clients@.insert(
                sd,
                Client { address, msg_type, tag },
            ),
            !old(self).has_socket(sd) ==> r == Err::<(), MctpEmuError>(
                MctpEmuError::Network(Error::InvalidSocketError { sd }),
            ) && final(self).clients@ == old(self).clients@,
    {
        if sd < 0 || sd >= self.num_clients {
            return Err(MctpEmuError::Network(Error::InvalidSocketError { sd }));
        }
        let client = Client::new(address, msg_type, tag);
        self.clients.insert(sd, client);
        Ok(())
    }

    /// Gives out the identifier for one more physical binding: identifiers count up
    /// from one.
    pub fn add_physical_binding(&mut self) -> (binding_id: u64)
        requires
            old(self).num_bindings < u64::MAX,
        ensures
            binding_id == old(self).num_bindings + 1,
            final(self).num_bindings == binding_id,
            final(self).has_binding(binding_id),
            !old(self).has_binding(binding_id),
            final(self).clients@ == old(self).clients@,
            final(self).num_clients == old(self).num_clients,
            final(self).flows@ == old(self).flows@,
    {
        self.num_bindings = self.num_bindings + 1;
        self.num_bindings
    }

    /// Prepares the message `payload` from socket `sd` to `addr`, and records `waiter`
    /// for its response.
    ///
    /// Only an extended address names a binding and a physical address; a basic one is
    /// refused, as are an unknown binding and an unbound socket, in this order, and then
    /// nothing is recorded. Otherwise the packet is the transport header of
    /// [`spec_send_header`] in front of `payload`, and `waiter` is appended to the
    /// waiting requests under the tag of that header.
    pub fn sendto(&mut self, sd: i32, payload: &[u8], addr: SocketAddress, waiter: W) -> (r:
        MctpEmuResult<Transmit>)
        ensures
            final(self).clients@ == old(self).clients@,
            final(self).num_clients == old(self).num_clients,
            final(self).num_bindings == old(self).num_bindings,
            r is Err ==> final(self).flows@ == old(self).flows@,
            addr is Basic ==> {
                &&& r matches Err(MctpEmuError::Network(Error::Other { msg }))
                &&& msg@ == "looking up routes is not yet supported"@
            },
            addr is Extended && !old(self).has_binding(addr->binding_id) ==> r == Err::<
                Transmit,
                MctpEmuError,
            >(MctpEmuError::Network(Error::InvalidBindingError { binding_id: addr->binding_id })),
            addr is Extended && old(self).has_binding(addr->binding_id) && !old(
                self,
            ).clients@.contains_key(sd) ==> r == Err::<Transmit, MctpEmuError>(
                MctpEmuError::Network(Error::InvalidSocketError { sd }),
            ),
            addr is Extended && old(self).has_binding(addr->binding_id) && old(
                self,
            ).clients@.contains_key(sd) ==> {
                let hdr = spec_send_header(old(self).clients@[sd], addr->Extended_address);
                &&& r matches Ok(t)
                &&& t.binding_id == addr->binding_id
                &&& t.phy_addr == addr->phy_addr
                &&& t.buf@ == hdr.spec_encode() + payload@
                &&& final(self).flows@ == old(self).flows@.push(
                    (MsgFlowTag::spec_of_header(hdr), waiter),
                )
            },
    {
        let (address, binding_id, phy_addr) = match addr {
            SocketAddress::Extended { address, network: _, binding_id, phy_addr } => (
                address,
                binding_id,
                phy_addr,
            ),
            SocketAddress::Basic { .. } => {
                return Err(
                    MctpEmuError::Network(
                        Error::Other { msg: "looking up routes is not yet supported".to_owned() },
                    ),
                );
            },
        };
        match self.get_binding(binding_id) {
            Ok(()) => {},
            Err(e) => {
                return Err(MctpEmuError::Network(e));
            },
        }
        let client = match self.get_client(sd) {
            Ok(client) => client,
            Err(e) => {
                return Err(e);
            },
        };
        let hdr = TransportHeader::new(
            client.address,
            address,
            client.tag,
            Some(true),
            Some(true),
            Some(true),
        );
        let mut buf = hdr.to_bytes();
        append_bytes(&mut buf, payload);
        let tag = MsgFlowTag::of_header(&hdr);
        self.flows.insert(tag, waiter);
        Ok(Transmit { binding_id, phy_addr, buf })
    }

    /// Decides what is to be done with a frame that a binding has read.
    ///
    /// A frame that is no MCTP frame (see [`is_mctp_frame`]) is dropped. Otherwise the
    /// flow tag is that of the transport header behind the physical header. If a
    /// waiting request matches it, the first such request leaves the table and its
    /// waiter gets the bytes behind the transport header. If none does, the packet is a
    /// request for the responder, to be answered through the same binding to the
    /// physical address that the frame came from.
    pub fn callback_handler(&mut self, cmd: NetworkBindingCallbackMsg) -> (r: ReceiveAction<W>)
        ensures
            final(self).clients@ == old(self).clients@,
            final(self).num_clients == old(self).num_clients,
            final(self).num_bindings == old(self).num_bindings,
            !is_mctp_frame(cmd->buf@) ==> r is Drop && final(self).flows@ == old(self).flows@,
            is_mctp_frame(cmd->buf@) ==> {
                let tag = MsgFlowTag::spec_of_header(
                    TransportHeader::spec_decode(cmd->buf@.skip(4)),
                );
                &&& final(self).flows@ == without_match(old(self).flows@, tag)
                &&& match matched_waiter(old(self).flows@, tag) {
                    Some(w) => {
                        &&& r matches ReceiveAction::Deliver {
                            waiter,
                            msg: ClientCallbackMsg::Receive { addr, buf: handed },
                        }
                        &&& waiter == w
                        &&& addr == spec_receive_addr(cmd->id)
                        &&& handed@ == cmd->buf@.skip(8)
                    },
                    None => {
                        &&& r matches ReceiveAction::Dispatch { binding_id, phy_addr, request }
                        &&& binding_id == cmd->id
                        &&& phy_addr == SmbusPhysTransportHeader::spec_decode(
                            cmd->buf@,
                        ).src_addr_7bit()
                        &&& request@ == cmd->buf@.skip(4)
                    },
                }
            },
    {
        let NetworkBindingCallbackMsg::Receive { id, buf } = cmd;
        let phys_hdr = match SmbusPhysTransportHeader::try_from_bytes(buf.as_slice()) {
            Ok(hdr) => hdr,
            Err(_) => {
                return ReceiveAction::Drop;
            },
        };
        if !phys_hdr.is_mctp() {
            return ReceiveAction::Drop;
        }
        let packet = tail_from(buf.as_slice(), 4);
        let recv_tag = match create_tag(packet.as_slice()) {
            Some(tag) => tag,
            None => {
                return ReceiveAction::Drop;
            },
        };
        match self.flows.take_match(recv_tag) {
            Some(waiter) => {
                let handed = tail_from(packet.as_slice(), 4);
                assert(packet@.skip(4) == buf@.skip(8));
                ReceiveAction::Deliver {
                    waiter,
                    msg: ClientCallbackMsg::Receive {
                        addr: SocketAddress::Extended {
                            address: 0,
                            network: DEFAULT_NETWORK,
                            binding_id: id,
                            phy_addr: 0,
                        },
                        buf: handed,
                    },
                }
            },
            None => ReceiveAction::Dispatch {
                binding_id: id,
                phy_addr: phys_hdr.src_addr_7bit() as u64,
                request: packet,
            },
        }
    }
}

} // verus!
