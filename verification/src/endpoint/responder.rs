//! The responder: what the local endpoint answers to a control request.
use vstd::prelude::*;
use crate::base::errors::MctpBaseLibError;
use crate::base::models::TransportHeader;
use crate::base::traits::{FromBinary, U8Enum};
use crate::control::enums::{CommandCode, CompletionCode};
use crate::control::get_eid;
use crate::control::get_routing_table;
use crate::control::models::{ControlMsgHeader, EmptyRequest, EmptyResponse};
use crate::control::set_eid;
use crate::control::{control_payload_min_len, ControlPayload};
use crate::endpoint::context::{spec_packet, MctpEndpointContext};

verus! {

/// The handle that ends a routing table.
pub const ROUTING_TABLE_END: u8 = 0xff;

/// The command of the control message `msg`.
pub open spec fn spec_command(msg: Seq<u8>) -> CommandCode {
    ControlMsgHeader::spec_decode(msg).command_code
}

/// What is owed when a control message of `found` bytes is too short for a layout of
/// `expected` bytes.
pub open spec fn too_short(expected: nat, found: nat) -> MctpBaseLibError {
    MctpBaseLibError::InvalidPayloadSize { expected: expected as usize, found: found as usize }
}

/// The control message that answers the control message `msg`, of at least three
/// bytes, at an endpoint whose EID is `assigned_eid`.
///
/// - Set Endpoint ID: success, no pool support, accepted, the EID of the request, pool
///   size zero.
/// - Get Endpoint ID: success, `assigned_eid`, dynamic, simple endpoint, medium zero.
/// - Discovery Notify: success.
/// - Get Routing Table Entries: success, the end handle, no entries.
/// - any other command: unsupported command.
///
/// A request that is too short for its command has no answer.
pub open spec fn spec_response_msg(assigned_eid: u8, msg: Seq<u8>) -> Result<
    Seq<u8>,
    MctpBaseLibError,
> {
    match spec_command(msg) {
        CommandCode::SetEndpointID => if msg.len() < set_eid::Request::spec_size() {
            Err(too_short(set_eid::Request::spec_size(), msg.len()))
        } else {
            let req = set_eid::Request::spec_decode(msg);
            Ok(
                set_eid::Response::spec_from(
                    req,
                    CompletionCode::Success,
                    set_eid::EidAllocationStatus::NoPoolSupport,
                    set_eid::EidAssignmentStatus::Accepted,
                    req.eid,
                    0,
                ).spec_encode(),
            )
        },
        CommandCode::GetEndpointID => Ok(
            get_eid::Response::spec_from(
                get_eid::Request::spec_decode(msg),
                CompletionCode::Success,
                assigned_eid,
                get_eid::EidType::Dynamic,
                get_eid::EndpointType::Simple,
                0,
            ).spec_encode(),
        ),
        CommandCode::DiscoveryNotify => Ok(
            EmptyResponse::spec_from(
                EmptyRequest::spec_decode(msg),
                CompletionCode::Success,
            ).spec_encode(),
        ),
        CommandCode::GetRoutingTableEntries => if msg.len()
            < get_routing_table::Request::spec_size() {
            Err(too_short(get_routing_table::Request::spec_size(), msg.len()))
        } else {
            Ok(
                get_routing_table::Response::spec_from(
                    get_routing_table::Request::spec_decode(msg),
                    CompletionCode::Success,
                    ROUTING_TABLE_END,
                    0,
                ).spec_encode(),
            )
        },
        _ => Ok(
            EmptyResponse::spec_from(
                EmptyRequest::spec_decode(msg),
                CompletionCode::ErrorUnsupportedCmd,
            ).spec_encode(),
        ),
    }
}

/// The packet that answers the packet `bytes`: the transport header of the reply in
/// front of [`spec_response_msg`]. A packet without room for both headers has no answer.
pub open spec fn spec_handle_request(assigned_eid: u8, bytes: Seq<u8>) -> Result<
    Seq<u8>,
    MctpBaseLibError,
> {
    if bytes.len() < control_payload_min_len() {
        Err(too_short(control_payload_min_len(), bytes.len()))
    } else {
        match spec_response_msg(assigned_eid, bytes.skip(4)) {
            Ok(msg) => Ok(
                spec_packet(TransportHeader::spec_decode(bytes).spec_create_response(), msg),
            ),
            Err(e) => Err(e),
        }
    }
}

/// Whether `bytes` is a Set Endpoint ID request that can be read.
pub open spec fn is_set_eid_request(bytes: Seq<u8>) -> bool {
    &&& bytes.len() >= 4 + set_eid::Request::spec_size()
    &&& spec_command(bytes.skip(4)) == CommandCode::SetEndpointID
}

/// Whether `bytes` is a Discovery Notify request that can be read.
pub open spec fn is_discovery_notify(bytes: Seq<u8>) -> bool {
    &&& bytes.len() >= control_payload_min_len()
    &&& spec_command(bytes.skip(4)) == CommandCode::DiscoveryNotify
}

/// The state of the endpoint after the packet `bytes`: a Set Endpoint ID request
/// stores its EID, a Discovery Notify raises the discovery flag, nothing else changes.
pub open spec fn spec_after_request(
    ctx: MctpEndpointContext,
    bytes: Seq<u8>,
) -> MctpEndpointContext {
    MctpEndpointContext {
        assigned_eid: if is_set_eid_request(bytes) {
            set_eid::Request::spec_decode(bytes.skip(4)).eid
        } else {
            ctx.assigned_eid
        },
        perform_discovery: ctx.perform_discovery || is_discovery_notify(bytes),
        ..ctx
    }
}

impl MctpEndpointContext {
    /// Answers the control request `bytes`, a packet without its physical header.
    ///
    /// The answer is [`spec_handle_request`], computed with the EID that was assigned
    /// before the request; the state afterwards is [`spec_after_request`]. In
    /// particular a Set Endpoint ID request has stored its EID before its response
    /// is handed out, and the response carries that EID.
    pub fn handle_request(&mut self, bytes: &[u8]) -> (r: Result<Vec<u8>, MctpBaseLibError>)
        ensures
            *final(self) == spec_after_request(*old(self), bytes@),
            match spec_handle_request(old(self).assigned_eid, bytes@) {
                Ok(packet) => r matches Ok(v) && v@ == packet,
                Err(e) => r == Err::<Vec<u8>, MctpBaseLibError>(e),
            },
            r is Ok && is_set_eid_request(bytes@) ==> set_eid::Response::spec_decode(
                r->Ok_0@.skip(4),
            ).eid_setting == final(self).assigned_eid,
    {
        let payload = match ControlPayload::try_from_bytes(bytes) {
            Ok(payload) => payload,
            Err(e) => {
                return Err(e);
            },
        };
        let body: Vec<u8> = match payload.control_hdr.command_code {
            CommandCode::SetEndpointID => {
                let req = match payload.parse_msg::<set_eid::Request>() {
                    Ok(req) => req,
                    Err(e) => {
                        return Err(e);
                    },
                };
                self.assigned_eid = req.eid;
                let resp = set_eid::Response::from(
                    req,
                    CompletionCode::Success,
                    set_eid::EidAllocationStatus::NoPoolSupport,
                    set_eid::EidAssignmentStatus::Accepted,
                    self.assigned_eid,
                    0,
                );
                proof {
                    resp.lemma_round_trip();
                }
                resp.to_bytes()
            },
            CommandCode::GetEndpointID => {
                let req = match payload.parse_msg::<get_eid::Request>() {
                    Ok(req) => req,
                    Err(e) => {
                        return Err(e);
                    },
                };
                let resp = get_eid::Response::from(
                    req,
                    CompletionCode::Success,
                    self.assigned_eid,
                    get_eid::EidType::Dynamic,
                    get_eid::EndpointType::Simple,
                    0,
                );
                resp.to_bytes()
            },
            CommandCode::DiscoveryNotify => {
                let req = match payload.parse_msg::<EmptyRequest>() {
                    Ok(req) => req,
                    Err(e) => {
                        return Err(e);
                    },
                };
                let resp = EmptyResponse::from(req, CompletionCode::Success);
                self.perform_discovery = true;
                resp.to_bytes()
            },
            CommandCode::GetRoutingTableEntries => {
                let req = match payload.parse_msg::<get_routing_table::Request>() {
                    Ok(req) => req,
                    Err(e) => {
                        return Err(e);
                    },
                };
                let resp = get_routing_table::Response::from(
                    req,
                    CompletionCode::Success,
                    ROUTING_TABLE_END,
                    0,
                );
                resp.to_bytes()
            },
            _ => {
                let req = match payload.parse_msg::<EmptyRequest>() {
                    Ok(req) => req,
                    Err(e) => {
                        return Err(e);
                    },
                };
                let resp = EmptyResponse::from(req, CompletionCode::ErrorUnsupportedCmd);
                resp.to_bytes()
            },
        };
        let ctrl_hdr = payload.control_hdr.to_response();
        let resp_payload = payload.create_response_payload(ctrl_hdr, body);
        let packet = resp_payload.to_bytes();
        assert(packet@.skip(4) == body@);
        Ok(packet)
    }
}

/// After a Set Endpoint ID request with EID `E` was handled, the answer to a Get
/// Endpoint ID request that follows at once reports success and the EID `E`.
pub proof fn lemma_get_eid_after_set_eid(
    ctx: MctpEndpointContext,
    set_request: Seq<u8>,
    get_request: Seq<u8>,
)
    requires
        is_set_eid_request(set_request),
        get_request.len() >= control_payload_min_len(),
        spec_command(get_request.skip(4)) == CommandCode::GetEndpointID,
    ensures
        ({
            let eid = set_eid::Request::spec_decode(set_request.skip(4)).eid;
            let after = spec_after_request(ctx, set_request);
            &&& after.assigned_eid == eid
            &&& spec_handle_request(after.assigned_eid, get_request) matches Ok(packet)
            &&& get_eid::Response::spec_decode(packet.skip(4)).eid == eid
            &&& get_eid::Response::spec_decode(packet.skip(4)).completion_code
                == CompletionCode::Success.spec_to_u8()
        }),
{
    let eid = set_eid::Request::spec_decode(set_request.skip(4)).eid;
    let resp = get_eid::Response::spec_from(
        get_eid::Request::spec_decode(get_request.skip(4)),
        CompletionCode::Success,
        eid,
        get_eid::EidType::Dynamic,
        get_eid::EndpointType::Simple,
        0,
    );
    resp.lemma_round_trip();
    let hdr = TransportHeader::spec_decode(get_request).spec_create_response();
    assert(spec_packet(hdr, resp.spec_encode()).skip(4) == resp.spec_encode());
}

/// Every answer goes back to the sender of the request, with the same message tag and
/// the tag-owner bit inverted; its control header is that of the request with the
/// request bit cleared, so the instance id is the same.
pub proof fn lemma_response_headers(assigned_eid: u8, bytes: Seq<u8>)
    requires
        spec_handle_request(assigned_eid, bytes) is Ok,
    ensures
        ({
            let packet = spec_handle_request(assigned_eid, bytes)->Ok_0;
            let req_hdr = TransportHeader::spec_decode(bytes);
            let req_ctrl = ControlMsgHeader::spec_decode(bytes.skip(4));
            let hdr = TransportHeader::spec_decode(packet);
            let ctrl = ControlMsgHeader::spec_decode(packet.skip(4));
            &&& packet.len() >= control_payload_min_len() + 1
            &&& hdr.destination_eid == req_hdr.source_eid
            &&& hdr.source_eid == req_hdr.destination_eid
            &&& hdr.msg_tag() == req_hdr.msg_tag()
            &&& hdr.tag_owner() == 1 - req_hdr.tag_owner()
            &&& ctrl == req_ctrl.spec_to_response()
            &&& ctrl.rq() == 0
            &&& ctrl.instance_id() == req_ctrl.instance_id()
        }),
{
    let msg = bytes.skip(4);
    let answer = spec_response_msg(assigned_eid, msg)->Ok_0;
    let hdr = TransportHeader::spec_decode(bytes).spec_create_response();
    let packet = spec_packet(hdr, answer);
    assert(packet.skip(4) == answer);
    let req_ctrl = ControlMsgHeader::spec_decode(msg);
    req_ctrl.spec_to_response().lemma_round_trip();
    match spec_command(msg) {
        CommandCode::SetEndpointID => {
            let req = set_eid::Request::spec_decode(msg);
            let resp = set_eid::Response::spec_from(
                req,
                CompletionCode::Success,
                set_eid::EidAllocationStatus::NoPoolSupport,
                set_eid::EidAssignmentStatus::Accepted,
                req.eid,
                0,
            );
            resp.lemma_round_trip();
            resp.lemma_encode_len();
        },
        CommandCode::GetEndpointID => {
            let resp = get_eid::Response::spec_from(
                get_eid::Request::spec_decode(msg),
                CompletionCode::Success,
                assigned_eid,
                get_eid::EidType::Dynamic,
                get_eid::EndpointType::Simple,
                0,
            );
            resp.lemma_round_trip();
            resp.lemma_encode_len();
        },
        CommandCode::DiscoveryNotify => {
            let resp = EmptyResponse::spec_from(
                EmptyRequest::spec_decode(msg),
                CompletionCode::Success,
            );
            resp.lemma_round_trip();
            resp.lemma_encode_len();
        },
        CommandCode::GetRoutingTableEntries => {
            let resp = get_routing_table::Response::spec_from(
                get_routing_table::Request::spec_decode(msg),
                CompletionCode::Success,
                ROUTING_TABLE_END,
                0,
            );
            resp.lemma_round_trip();
            resp.lemma_encode_len();
        },
        _ => {
            let resp = EmptyResponse::spec_from(
                EmptyRequest::spec_decode(msg),
                CompletionCode::ErrorUnsupportedCmd,
            );
            resp.lemma_round_trip();
            resp.lemma_encode_len();
        },
    }
}

} // verus!
