//! Bus-owner discovery: the exchange by which a bus owner takes in a device that has
//! announced itself.
//!
//! The driver decides and builds packets; it neither sends nor waits. Its caller polls
//! it, transmits the packet of a [`DiscoveryAction::Send`], and comes back with the
//! response or with the news that the link failed.
use vstd::prelude::*;
use crate::base::errors::MctpBaseLibError;
use crate::base::traits::{FromBinary, U8Enum};
use crate::control::allocate_eids;
use crate::control::enums::{CommandCode, CompletionCode};
use crate::control::get_eid;
use crate::control::get_eid::{EidType, EndpointType};
use crate::control::set_eid;
use crate::control::set_eid::{EidAllocationStatus, EidAssignmentStatus};
use crate::control::{control_payload_min_len, ControlMsgReponseStatus, ControlPayload};
use crate::endpoint::context::{spec_packet, MctpEndpointContext};
use crate::endpoint::responder::too_short;

verus! {

/// What the bus owner has learnt of a remote endpoint.
#[derive(Copy, Clone, Debug, PartialEq, Eq, Structural)]
pub struct EndpointContext {
    pub eid: u8,
    pub endpoint_type: EndpointType,
    pub eid_type: EidType,
    pub eid_allocation_status: EidAllocationStatus,
    pub min_dynamic_eid: u8,
    pub max_dynamic_eid: u8,
    pub dynamic_eid_pool_size: u8,
}

/// Why a discovery was given up.
#[derive(Debug, PartialEq, Eq)]
pub enum DiscoveryError {
    /// A response could not be read.
    Decode(MctpBaseLibError),
    /// A response reported something else than success; `code` is the byte it carried.
    CompletionCode { code: u8 },
    /// The endpoint did not take the EID it was given.
    EidAssignmentRejected,
    /// The endpoint did not take the pool it was given.
    PoolAllocationRejected,
    /// The pool of this bus owner has too few EIDs left.
    PoolExhausted,
    /// A request could not be sent, or no response came.
    LinkFailed,
}

/// Where the driver stands in the exchange.
#[derive(Copy, Clone, Debug, PartialEq, Eq, Structural)]
pub enum DiscoveryState {
    /// No exchange is under way.
    Idle,
    /// Get Endpoint ID was sent.
    GetEidSent,
    /// Set Endpoint ID was sent; `endpoint` already holds the EID that was given.
    SetEidSent { endpoint: EndpointContext },
    /// Allocate Endpoint IDs was sent for the pool recorded in `endpoint`.
    AllocSent { endpoint: EndpointContext },
}

/// What the caller of the driver is to do next.
#[derive(Debug, PartialEq, Eq)]
pub enum DiscoveryAction {
    /// Transmit `packet` and come back with the response.
    Send { packet: Vec<u8> },
    /// Nothing is to be done; poll again later.
    Sleep,
    /// The exchange has ended well.
    Enumerated { endpoint: EndpointContext },
    /// The exchange was given up. The driver is ready for the next one.
    Failed { error: DiscoveryError },
}

/// What follows from a response.
#[derive(Debug, PartialEq, Eq)]
pub enum Decision {
    /// Give up.
    Fail { error: DiscoveryError },
    /// Give the endpoint the EID recorded in `endpoint`.
    AssignEid { endpoint: EndpointContext },
    /// Give the endpoint the pool recorded in `endpoint`.
    AllocatePool { endpoint: EndpointContext },
    /// Nothing is left to do.
    Done { endpoint: EndpointContext },
}

/// The response of kind `T` inside the packet `bytes`.
pub open spec fn spec_response<T: FromBinary>(bytes: Seq<u8>) -> Result<T, MctpBaseLibError> {
    if bytes.len() < control_payload_min_len() {
        Err(too_short(control_payload_min_len(), bytes.len()))
    } else if bytes.len() < 4 + T::spec_size() {
        Err(too_short(T::spec_size(), (bytes.len() - 4) as nat))
    } else {
        Ok(T::spec_decode(bytes.skip(4)))
    }
}

/// What follows from a Get Endpoint ID response when `next_eid` is the next free EID of
/// a pool that ends before `pool_end`.
///
/// Anything but success ends the exchange. An endpoint with a dynamic EID is given the
/// next EID of the pool, if one is left; any other endpoint keeps the EID it reports.
pub open spec fn after_get_eid(resp: get_eid::Response, next_eid: u16, pool_end: int) -> Decision {
    let endpoint = EndpointContext {
        eid: resp.eid,
        endpoint_type: EndpointType::spec_from_u8(resp.endpoint_type()),
        eid_type: EidType::spec_from_u8(resp.eid_type()),
        eid_allocation_status: EidAllocationStatus::NoPoolSupport,
        min_dynamic_eid: 0,
        max_dynamic_eid: 0,
        dynamic_eid_pool_size: 0,
    };
    if CompletionCode::spec_from_u8(resp.completion_code) != CompletionCode::Success {
        Decision::Fail { error: DiscoveryError::CompletionCode { code: resp.completion_code } }
    } else if endpoint.eid_type != EidType::Dynamic {
        Decision::Done { endpoint }
    } else if next_eid >= pool_end || next_eid > 0xff {
        Decision::Fail { error: DiscoveryError::PoolExhausted }
    } else {
        Decision::AssignEid { endpoint: EndpointContext { eid: next_eid as u8, ..endpoint } }
    }
}

/// What follows from a Set Endpoint ID response for `endpoint`.
///
/// Anything but success, and an EID that was not accepted, end the exchange. A bus
/// owner or bridge that requires a pool of a size above zero is given the next EIDs of
/// the pool, if enough are left; for any other endpoint nothing is left to do.
pub open spec fn after_set_eid(
    resp: set_eid::Response,
    endpoint: EndpointContext,
    next_eid: u16,
    pool_end: int,
) -> Decision {
    let known = EndpointContext { eid_allocation_status: resp.eid_allocation_status(), ..endpoint };
    if CompletionCode::spec_from_u8(resp.completion_code) != CompletionCode::Success {
        Decision::Fail { error: DiscoveryError::CompletionCode { code: resp.completion_code } }
    } else if resp.eid_assignment_status() != EidAssignmentStatus::Accepted.spec_to_u8() {
        Decision::Fail { error: DiscoveryError::EidAssignmentRejected }
    } else if !(known.endpoint_type == EndpointType::BusOwnerOrBridge
        && known.eid_allocation_status == EidAllocationStatus::RequiresPoolAllocation
        && resp.eid_pool_size > 0) {
        Decision::Done { endpoint: known }
    } else if next_eid + resp.eid_pool_size > pool_end || next_eid + resp.eid_pool_size > 0x100 {
        Decision::Fail { error: DiscoveryError::PoolExhausted }
    } else {
        Decision::AllocatePool {
            endpoint: EndpointContext {
                min_dynamic_eid: next_eid as u8,
                max_dynamic_eid: (next_eid + resp.eid_pool_size - 1) as u8,
                dynamic_eid_pool_size: resp.eid_pool_size,
                ..known
            },
        }
    }
}

/// What follows from an Allocate Endpoint IDs response for `endpoint`: anything but
/// success, and a pool that was not accepted, end the exchange; else nothing is left
/// to do.
pub open spec fn after_allocate_eids(
    resp: allocate_eids::Response,
    endpoint: EndpointContext,
) -> Decision {
    if CompletionCode::spec_from_u8(resp.completion_code) != CompletionCode::Success {
        Decision::Fail { error: DiscoveryError::CompletionCode { code: resp.completion_code } }
    } else if resp.allocation_status() != allocate_eids::AllocationStatus::AllocationAccepted {
        Decision::Fail { error: DiscoveryError::PoolAllocationRejected }
    } else {
        Decision::Done { endpoint }
    }
}

/// The driver of the exchange: the next free EID of the pool, and the state.
#[derive(Debug, PartialEq, Eq)]
pub struct BusOwner {
    pub next_eid: u16,
    pub state: DiscoveryState,
}

/// The first EID behind the pool of `ctx`.
pub open spec fn pool_end(ctx: MctpEndpointContext) -> int {
    ctx.min_eid_in_pool + ctx.eid_pool_size
}

/// Whether the driver has carried out `decision`: given up, ended well, or sent the
/// request that the decision asks for and moved to the state that waits for its response.
pub open spec fn carried_out(
    decision: Decision,
    ctx_before: MctpEndpointContext,
    next_eid_before: u16,
    ctx_after: MctpEndpointContext,
    owner_after: BusOwner,
    action: DiscoveryAction,
) -> bool {
    match decision {
        Decision::Fail { error } => {
            &&& action == DiscoveryAction::Failed { error }
            &&& owner_after.state == DiscoveryState::Idle
            &&& owner_after.next_eid == next_eid_before
            &&& ctx_after == ctx_before
        },
        Decision::Done { endpoint } => {
            &&& action == DiscoveryAction::Enumerated { endpoint }
            &&& owner_after.state == DiscoveryState::Idle
            &&& owner_after.next_eid == next_eid_before
            &&& ctx_after == ctx_before
        },
        Decision::AssignEid { endpoint } => {
            &&& action matches DiscoveryAction::Send { packet }
            &&& packet@ == spec_packet(
                ctx_before.spec_request_transport_hdr(0),
                set_eid::Request::spec_new(
                    ctx_before.spec_request_control_hdr(CommandCode::SetEndpointID),
                    set_eid::Operation::SetEid,
                    endpoint.eid,
                ).spec_encode(),
            )
            &&& owner_after.state == DiscoveryState::SetEidSent { endpoint }
            &&& owner_after.next_eid == next_eid_before + 1
            &&& ctx_after == ctx_before.after_request()
        },
        Decision::AllocatePool { endpoint } => {
            &&& action matches DiscoveryAction::Send { packet }
            &&& packet@ == spec_packet(
                ctx_before.spec_request_transport_hdr(endpoint.eid),
                allocate_eids::Request::spec_new(
                    ctx_before.spec_request_control_hdr(CommandCode::AllocateEndpointIDs),
                    allocate_eids::Operation::AllocateEids,
                    endpoint.dynamic_eid_pool_size,
                    endpoint.min_dynamic_eid,
                ).spec_encode(),
            )
            &&& owner_after.state == DiscoveryState::AllocSent { endpoint }
            &&& owner_after.next_eid == next_eid_before + endpoint.dynamic_eid_pool_size
            &&& ctx_after == ctx_before.after_request()
        },
    }
}

/// The decision that the driver in state `state` takes on the response packet `bytes`.
pub open spec fn spec_decision(
    state: DiscoveryState,
    next_eid: u16,
    pool_end: int,
    bytes: Seq<u8>,
) -> Decision
    recommends
        state != DiscoveryState::Idle,
{
    match state {
        DiscoveryState::GetEidSent => match spec_response::<get_eid::Response>(bytes) {
            Ok(resp) => after_get_eid(resp, next_eid, pool_end),
            Err(e) => Decision::Fail { error: DiscoveryError::Decode(e) },
        },
        DiscoveryState::SetEidSent { endpoint } => match spec_response::<set_eid::Response>(
            bytes,
        ) {
            Ok(resp) => after_set_eid(resp, endpoint, next_eid, pool_end),
            Err(e) => Decision::Fail { error: DiscoveryError::Decode(e) },
        },
        DiscoveryState::AllocSent { endpoint } => match spec_response::<allocate_eids::Response>(
            bytes,
        ) {
            Ok(resp) => after_allocate_eids(resp, endpoint),
            Err(e) => Decision::Fail { error: DiscoveryError::Decode(e) },
        },
        DiscoveryState::Idle => Decision::Fail { error: DiscoveryError::LinkFailed },
    }
}

/// Discovery of a simple endpoint with a dynamic EID, while the pool has an EID left.
///
/// The answer to Get Endpoint ID makes the driver give the endpoint the next free EID:
/// by [`carried_out`] it builds one Set Endpoint ID request for that EID and counts the
/// next free EID up by one. The accepted answer to that request ends the exchange: no
/// Allocate Endpoint IDs request is built, whatever allocation status is reported, and
/// the next free EID stays where it is.
pub proof fn lemma_discovery_of_simple_dynamic_endpoint(
    next_eid: u16,
    pool_end: int,
    get_response: Seq<u8>,
    set_response: Seq<u8>,
)
    requires
        next_eid < pool_end,
        next_eid <= 0xff,
        spec_response::<get_eid::Response>(get_response) matches Ok(resp)
            && CompletionCode::spec_from_u8(resp.completion_code) == CompletionCode::Success
            && EidType::spec_from_u8(resp.eid_type()) == EidType::Dynamic
            && EndpointType::spec_from_u8(resp.endpoint_type()) == EndpointType::Simple,
        spec_response::<set_eid::Response>(set_response) matches Ok(resp)
            && CompletionCode::spec_from_u8(resp.completion_code) == CompletionCode::Success
            && resp.eid_assignment_status() == EidAssignmentStatus::Accepted.spec_to_u8(),
    ensures
        ({
            let accepted = spec_response::<set_eid::Response>(set_response)->Ok_0;
            let endpoint = EndpointContext {
                eid: next_eid as u8,
                endpoint_type: EndpointType::Simple,
                eid_type: EidType::Dynamic,
                eid_allocation_status: EidAllocationStatus::NoPoolSupport,
                min_dynamic_eid: 0,
                max_dynamic_eid: 0,
                dynamic_eid_pool_size: 0,
            };
            &&& spec_decision(DiscoveryState::GetEidSent, next_eid, pool_end, get_response)
                == (Decision::AssignEid { endpoint })
            &&& spec_decision(
                DiscoveryState::SetEidSent { endpoint },
                (next_eid + 1) as u16,
                pool_end,
                set_response,
            ) == (Decision::Done {
                endpoint: EndpointContext {
                    eid_allocation_status: accepted.eid_allocation_status(),
                    ..endpoint
                },
            })
        }),
{
}

/// Executable form of [`after_get_eid`].
pub fn decide_after_get_eid(resp: &get_eid::Response, next_eid: u16, pool_end: u16) -> (d: Decision)
    ensures
        d == after_get_eid(*resp, next_eid, pool_end as int),
{
    match resp.is_success() {
        Ok(()) => {},
        Err(code) => {
            return Decision::Fail { error: DiscoveryError::CompletionCode { code } };
        },
    }
    let endpoint = EndpointContext {
        eid: resp.eid,
        endpoint_type: EndpointType::from_u8(resp.endpoint_type()),
        eid_type: EidType::from_u8(resp.eid_type()),
        eid_allocation_status: EidAllocationStatus::NoPoolSupport,
        min_dynamic_eid: 0,
        max_dynamic_eid: 0,
        dynamic_eid_pool_size: 0,
    };
    match endpoint.eid_type {
        EidType::Dynamic => {},
        _ => {
            return Decision::Done { endpoint };
        },
    }
    if next_eid >= pool_end || next_eid > 0xff {
        return Decision::Fail { error: DiscoveryError::PoolExhausted };
    }
    Decision::AssignEid { endpoint: EndpointContext { eid: next_eid as u8, ..endpoint } }
}

/// Executable form of [`after_set_eid`].
pub fn decide_after_set_eid(
    resp: &set_eid::Response,
    endpoint: EndpointContext,
    next_eid: u16,
    pool_end: u16,
) -> (d: Decision)
    ensures
        d == after_set_eid(*resp, endpoint, next_eid, pool_end as int),
{
    match resp.is_success() {
        Ok(()) => {},
        Err(code) => {
            return Decision::Fail { error: DiscoveryError::CompletionCode { code } };
        },
    }
    let known = EndpointContext { eid_allocation_status: resp.eid_allocation_status(), ..endpoint };
    if resp.eid_assignment_status() != 0 {
        return Decision::Fail { error: DiscoveryError::EidAssignmentRejected };
    }
    let wants_pool = match (known.endpoint_type, known.eid_allocation_status) {
        (EndpointType::BusOwnerOrBridge, EidAllocationStatus::RequiresPoolAllocation) =>
            resp.eid_pool_size > 0,
        _ => false,
    };
    if !wants_pool {
        return Decision::Done { endpoint: known };
    }
    let size: u16 = resp.eid_pool_size as u16;
    if next_eid > 0x100 || next_eid + size > pool_end || next_eid + size > 0x100 {
        return Decision::Fail { error: DiscoveryError::PoolExhausted };
    }
    Decision::AllocatePool {
        endpoint: EndpointContext {
            min_dynamic_eid: next_eid as u8,
            max_dynamic_eid: (next_eid + size - 1) as u8,
            dynamic_eid_pool_size: resp.eid_pool_size,
            ..known
        },
    }
}

/// Executable form of [`after_allocate_eids`].
pub fn decide_after_allocate_eids(resp: &allocate_eids::Response, endpoint: EndpointContext) -> (d:
    Decision)
    ensures
        d == after_allocate_eids(*resp, endpoint),
{
    match resp.is_success() {
        Ok(()) => {},
        Err(code) => {
            return Decision::Fail { error: DiscoveryError::CompletionCode { code } };
        },
    }
    match resp.allocation_status() {
        allocate_eids::AllocationStatus::AllocationAccepted => Decision::Done { endpoint },
        allocate_eids::AllocationStatus::AllocationRejected => Decision::Fail {
            error: DiscoveryError::PoolAllocationRejected,
        },
    }
}

impl BusOwner {
    /// A driver at rest that hands out the pool of `ctx` from its lowest EID on.
    pub fn new(ctx: &MctpEndpointContext) -> (owner: Self)
        ensures
            owner.next_eid == ctx.min_eid_in_pool,
            owner.state == DiscoveryState::Idle,
    {
        BusOwner { next_eid: ctx.min_eid_in_pool as u16, state: DiscoveryState::Idle }
    }

    /// Looks whether a device has announced itself.
    ///
    /// At rest and with the discovery flag raised, the driver lowers the flag, builds
    /// the Get Endpoint ID request to the null EID and waits for its response. In every
    /// other case nothing changes and nothing is to be done.
    pub fn poll(&mut self, ctx: &mut MctpEndpointContext) -> (action: DiscoveryAction)
        ensures
            final(self).next_eid == old(self).next_eid,
            old(self).state == DiscoveryState::Idle && old(ctx).perform_discovery ==> {
                let lowered = MctpEndpointContext { perform_discovery: false, ..*old(ctx) };
                &&& action matches DiscoveryAction::Send { packet }
                &&& packet@ == spec_packet(
                    lowered.spec_request_transport_hdr(0),
                    (get_eid::Request {
                        hdr: lowered.spec_request_control_hdr(CommandCode::GetEndpointID),
                    }).spec_encode(),
                )
                &&& *final(ctx) == lowered.after_request()
                &&& final(self).state == DiscoveryState::GetEidSent
            },
            !(old(self).state == DiscoveryState::Idle && old(ctx).perform_discovery) ==> {
                &&& action == DiscoveryAction::Sleep
                &&& *final(ctx) == *old(ctx)
                &&& final(self).state == old(self).state
            },
    {
        match self.state {
            DiscoveryState::Idle => {},
            _ => {
                return DiscoveryAction::Sleep;
            },
        }
        if !ctx.perform_discovery {
            return DiscoveryAction::Sleep;
        }
        ctx.perform_discovery = false;
        let packet = ctx.send_get_eid_request(0);
        self.state = DiscoveryState::GetEidSent;
        DiscoveryAction::Send { packet }
    }

    /// Takes the response packet `bytes` to the request that was sent last.
    ///
    /// At rest no response is awaited: nothing changes and nothing is to be done. Else
    /// the driver carries out (see [`carried_out`]) the decision of [`spec_decision`].
    pub fn on_response(&mut self, ctx: &mut MctpEndpointContext, bytes: &[u8]) -> (action:
        DiscoveryAction)
        ensures
            old(self).state == DiscoveryState::Idle ==> {
                &&& action == DiscoveryAction::Sleep
                &&& *final(ctx) == *old(ctx)
                &&& *final(self) == *old(self)
            },
            old(self).state != DiscoveryState::Idle ==> carried_out(
                spec_decision(old(self).state, old(self).next_eid, pool_end(*old(ctx)), bytes@),
                *old(ctx),
                old(self).next_eid,
                *final(ctx),
                *final(self),
                action,
            ),
    {
        let pool_end: u16 = ctx.min_eid_in_pool as u16 + ctx.eid_pool_size as u16;
        let decision = match self.state {
            DiscoveryState::Idle => {
                return DiscoveryAction::Sleep;
            },
            DiscoveryState::GetEidSent => {
                match ControlPayload::try_to_response::<get_eid::Response>(bytes) {
                    Ok((_, resp)) => decide_after_get_eid(&resp, self.next_eid, pool_end),
                    Err(e) => Decision::Fail { error: DiscoveryError::Decode(e) },
                }
            },
            DiscoveryState::SetEidSent { endpoint } => {
                match ControlPayload::try_to_response::<set_eid::Response>(bytes) {
                    Ok((_, resp)) => decide_after_set_eid(&resp, endpoint, self.next_eid, pool_end),
                    Err(e) => Decision::Fail { error: DiscoveryError::Decode(e) },
                }
            },
            DiscoveryState::AllocSent { endpoint } => {
                match ControlPayload::try_to_response::<allocate_eids::Response>(bytes) {
                    Ok((_, resp)) => decide_after_allocate_eids(&resp, endpoint),
                    Err(e) => Decision::Fail { error: DiscoveryError::Decode(e) },
                }
            },
        };
        match decision {
            Decision::Fail { error } => {
                self.state = DiscoveryState::Idle;
                DiscoveryAction::Failed { error }
            },
            Decision::Done { endpoint } => {
                self.state = DiscoveryState::Idle;
                DiscoveryAction::Enumerated { endpoint }
            },
            Decision::AssignEid { endpoint } => {
                let packet = ctx.send_set_eid_request(endpoint.eid);
                self.next_eid = self.next_eid + 1;
                self.state = DiscoveryState::SetEidSent { endpoint };
                DiscoveryAction::Send { packet }
            },
            Decision::AllocatePool { endpoint } => {
                let packet = ctx.send_allocate_eids_request(
                    endpoint.eid,
                    endpoint.min_dynamic_eid,
                    endpoint.dynamic_eid_pool_size,
                );
                self.next_eid = self.next_eid + endpoint.dynamic_eid_pool_size as u16;
                self.state = DiscoveryState::AllocSent { endpoint };
                DiscoveryAction::Send { packet }
            },
        }
    }

    /// Takes the news that the request could not be sent or that no response came: an
    /// exchange that is under way is given up.
    pub fn on_failure(&mut self) -> (action: DiscoveryAction)
        ensures
            final(self).next_eid == old(self).next_eid,
            final(self).state == DiscoveryState::Idle,
            old(self).state == DiscoveryState::Idle ==> action == DiscoveryAction::Sleep,
            old(self).state != DiscoveryState::Idle ==> action == (DiscoveryAction::Failed {
                error: DiscoveryError::LinkFailed,
            }),
    {
        match self.state {
            DiscoveryState::Idle => DiscoveryAction::Sleep,
            _ => {
                self.state = DiscoveryState::Idle;
                DiscoveryAction::Failed { error: DiscoveryError::LinkFailed }
            },
        }
    }
}

} // verus!
