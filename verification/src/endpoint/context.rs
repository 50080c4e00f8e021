//! The state of the local endpoint, and the requests it sends.
use vstd::prelude::*;
use crate::base::buffer::append_bytes;
use crate::base::models::TransportHeader;
use crate::base::traits::FromBinary;
use crate::control::allocate_eids;
use crate::control::enums::CommandCode;
use crate::control::get_eid;
use crate::control::models::ControlMsgHeader;
use crate::control::set_eid;

verus! {

/// What the local endpoint knows of itself.
#[derive(Debug, PartialEq, Eq)]
pub struct MctpEndpointContext {
    /// Seven-bit address on the bus.
    pub smbus_addr: u8,
    /// The message types that are supported.
    pub msg_types: Vec<u8>,
    /// Whether this endpoint owns the bus.
    pub topmost_bus_owner: bool,
    /// The EID that is assigned at present; zero for none.
    pub assigned_eid: u8,
    /// Whether a device has announced itself and waits to be discovered.
    pub perform_discovery: bool,
    /// Lowest EID of the pool that this endpoint hands out.
    pub min_eid_in_pool: u8,
    /// Number of EIDs in that pool.
    pub eid_pool_size: u8,
    /// The message tag of the next request; counted modulo 8.
    pub next_msg_tag: u8,
    /// The instance id of the next request; counted modulo 32.
    pub next_instance_id: u8,
}

/// The packet that carries the control message `msg` behind transport header `hdr`.
pub open spec fn spec_packet(hdr: TransportHeader, msg: Seq<u8>) -> Seq<u8> {
    hdr.spec_encode() + msg
}

impl MctpEndpointContext {
    /// Whether the two counters are within their ranges.
    pub open spec fn wf(&self) -> bool {
        self.next_msg_tag < 8 && self.next_instance_id < 32
    }

    /// `self` with other counters; every other field as it is.
    pub open spec fn with_counters(&self, next_msg_tag: u8, next_instance_id: u8) -> Self {
        MctpEndpointContext { next_msg_tag, next_instance_id, ..*self }
    }

    /// The transport header of the next request to `dst_eid`.
    pub open spec fn spec_request_transport_hdr(&self, dst_eid: u8) -> TransportHeader {
        TransportHeader::spec_new(
            self.assigned_eid,
            dst_eid,
            self.next_msg_tag,
            Some(true),
            Some(true),
            Some(true),
        )
    }

    /// The control header of the next request with command `cmd`.
    pub open spec fn spec_request_control_hdr(&self, cmd: CommandCode) -> ControlMsgHeader {
        ControlMsgHeader::spec_new(cmd, self.next_instance_id, false, true, false)
    }

    /// The counters after one more request: the tag counts modulo 8, the instance id
    /// modulo 32.
    pub open spec fn after_request(&self) -> Self {
        self.with_counters(
            ((self.next_msg_tag + 1) % 8) as u8,
            ((self.next_instance_id + 1) % 32) as u8,
        )
    }

    /// An endpoint without an EID that hands out the pool of `eid_pool_size` EIDs from
    /// `min_eid_in_pool` on; both counters start at one.
    pub fn new(smbus_addr: u8, min_eid_in_pool: u8, eid_pool_size: u8) -> (ctx: Self)
        ensures
            ctx.smbus_addr == smbus_addr,
            ctx.msg_types@ == Seq::<u8>::empty(),
            !ctx.topmost_bus_owner,
            ctx.assigned_eid == 0,
            !ctx.perform_discovery,
            ctx.min_eid_in_pool == min_eid_in_pool,
            ctx.eid_pool_size == eid_pool_size,
            ctx.next_msg_tag == 1,
            ctx.next_instance_id == 1,
            ctx.wf(),
    {
        MctpEndpointContext {
            smbus_addr,
            msg_types: Vec::new(),
            topmost_bus_owner: false,
            assigned_eid: 0,
            perform_discovery: false,
            min_eid_in_pool,
            eid_pool_size,
            next_msg_tag: 1,
            next_instance_id: 1,
        }
    }

    /// The transport header of a request to `dst_eid`, with the next message tag; the
    /// tag counter moves on.
    pub fn new_transport_hdr(&mut self, dst_eid: u8) -> (hdr: TransportHeader)
        ensures
            hdr == old(self).spec_request_transport_hdr(dst_eid),
            *final(self) == old(self).with_counters(
                ((old(self).next_msg_tag % 8 + 1) % 8) as u8,
                old(self).next_instance_id,
            ),
    {
        let tag = self.next_msg_tag % 8;
        self.next_msg_tag = (tag + 1) % 8;
        TransportHeader::new(self.assigned_eid, dst_eid, tag, Some(true), Some(true), Some(true))
    }

    /// The control header of a request with command `cmd`, with the next instance id;
    /// the instance-id counter moves on.
    pub fn new_control_hdr(&mut self, cmd: CommandCode) -> (hdr: ControlMsgHeader)
        ensures
            hdr == old(self).spec_request_control_hdr(cmd),
            *final(self) == old(self).with_counters(
                old(self).next_msg_tag,
                ((old(self).next_instance_id % 32 + 1) % 32) as u8,
            ),
    {
        let id = self.next_instance_id % 32;
        self.next_instance_id = (id + 1) % 32;
        ControlMsgHeader::new(cmd, id, false, true, false)
    }

    /// The Get Endpoint ID request to `dest_eid`, as a packet.
    pub fn send_get_eid_request(&mut self, dest_eid: u8) -> (packet: Vec<u8>)
        ensures
            packet@ == spec_packet(
                old(self).spec_request_transport_hdr(dest_eid),
                (get_eid::Request {
                    hdr: old(self).spec_request_control_hdr(CommandCode::GetEndpointID),
                }).spec_encode(),
            ),
            *final(self) == old(self).after_request(),
            final(self).wf(),
    {
        let transport_hdr = self.new_transport_hdr(dest_eid);
        let ctrl_hdr = self.new_control_hdr(CommandCode::GetEndpointID);
        let req = get_eid::Request { hdr: ctrl_hdr };
        let mut packet = transport_hdr.to_bytes();
        let msg = req.to_bytes();
        append_bytes(&mut packet, msg.as_slice());
        packet
    }

    /// The Set Endpoint ID request that assigns `eid`, as a packet to the null EID.
    pub fn send_set_eid_request(&mut self, eid: u8) -> (packet: Vec<u8>)
        ensures
            packet@ == spec_packet(
                old(self).spec_request_transport_hdr(0),
                set_eid::Request::spec_new(
                    old(self).spec_request_control_hdr(CommandCode::SetEndpointID),
                    set_eid::Operation::SetEid,
                    eid,
                ).spec_encode(),
            ),
            *final(self) == old(self).after_request(),
            final(self).wf(),
    {
        let transport_hdr = self.new_transport_hdr(0);
        let ctrl_hdr = self.new_control_hdr(CommandCode::SetEndpointID);
        let req = set_eid::Request::new(ctrl_hdr, set_eid::Operation::SetEid, eid);
        let mut packet = transport_hdr.to_bytes();
        let msg = req.to_bytes();
        append_bytes(&mut packet, msg.as_slice());
        packet
    }

    /// The Allocate Endpoint IDs request that hands the pool of `number_of_eids` EIDs
    /// from `starting_eid` on to the endpoint `dest_eid`, as a packet.
    pub fn send_allocate_eids_request(
        &mut self,
        dest_eid: u8,
        starting_eid: u8,
        number_of_eids: u8,
    ) -> (packet: Vec<u8>)
        ensures
            packet@ == spec_packet(
                old(self).spec_request_transport_hdr(dest_eid),
                allocate_eids::Request::spec_new(
                    old(self).spec_request_control_hdr(CommandCode::AllocateEndpointIDs),
                    allocate_eids::Operation::AllocateEids,
                    number_of_eids,
                    starting_eid,
                ).spec_encode(),
            ),
            *final(self) == old(self).after_request(),
            final(self).wf(),
    {
        let transport_hdr = self.new_transport_hdr(dest_eid);
        let ctrl_hdr = self.new_control_hdr(CommandCode::AllocateEndpointIDs);
        let req = allocate_eids::Request::new(
            ctrl_hdr,
            allocate_eids::Operation::AllocateEids,
            number_of_eids,
            starting_eid,
        );
        let mut packet = transport_hdr.to_bytes();
        let msg = req.to_bytes();
        append_bytes(&mut packet, msg.as_slice());
        packet
    }
}

} // verus!
