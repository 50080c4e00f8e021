use mctp_emu::base::{FromBinary, MctpBaseLibError, TransportHeader};
use mctp_emu::control::allocate_eids;
use mctp_emu::control::enums::{CommandCode, CompletionCode};
use mctp_emu::control::get_eid;
use mctp_emu::control::get_eid::{EidType, EndpointType};
use mctp_emu::control::models::ControlMsgHeader;
use mctp_emu::control::set_eid;
use mctp_emu::control::set_eid::{EidAllocationStatus, EidAssignmentStatus};
use mctp_emu::control::ControlPayload;
use mctp_emu::endpoint::context::MctpEndpointContext;
use mctp_emu::endpoint::discovery::{
    decide_after_allocate_eids, decide_after_get_eid, decide_after_set_eid, BusOwner, Decision,
    DiscoveryAction, DiscoveryError, DiscoveryState, EndpointContext,
};

fn context(assigned_eid: u8) -> MctpEndpointContext {
    let mut ctx = MctpEndpointContext::new(0x10, 0x80, 32);
    ctx.assigned_eid = assigned_eid;
    ctx
}

/// The packet in which the peer answers the request packet `request` with the control
/// message body `body` (everything behind the control header).
fn response_packet(request: &[u8], body: &[u8]) -> Vec<u8> {
    let req_hdr = TransportHeader::try_from_bytes(request).unwrap();
    let ctrl = ControlMsgHeader::try_from_bytes(&request[4..]).unwrap();
    let mut packet = req_hdr.create_response().to_bytes();
    packet.extend_from_slice(&ctrl.to_response().to_bytes());
    packet.extend_from_slice(body);
    packet
}

fn sent(action: DiscoveryAction) -> Vec<u8> {
    match action {
        DiscoveryAction::Send { packet } => packet,
        other => panic!("expected a packet to send, got {:?}", other),
    }
}

#[test]
fn get_endpoint_id_request_and_response() {
    let mut ctx = context(0x42);
    let request = [0x01, 0x00, 0x02, 0xC8, 0x00, 0x80, 0x02];
    let response = ctx.handle_request(&request).unwrap();
    assert_eq!(
        response,
        vec![0x01, 0x02, 0x00, 0xC0, 0x00, 0x00, 0x02, 0x00, 0x42, 0x00, 0x00]
    );
    assert_eq!(ctx.assigned_eid, 0x42);
    assert!(!ctx.perform_discovery);
}

#[test]
fn a_packet_without_room_for_both_headers_has_no_answer() {
    let mut ctx = context(0x42);
    assert_eq!(
        ctx.handle_request(&[0x01, 0x00, 0x02, 0x00, 0x02]),
        Err(MctpBaseLibError::InvalidPayloadSize { expected: 7, found: 5 })
    );
    assert_eq!(
        ctx.handle_request(&[]),
        Err(MctpBaseLibError::InvalidPayloadSize { expected: 7, found: 0 })
    );
    assert_eq!(ctx.assigned_eid, 0x42);
}

#[test]
fn set_endpoint_id_mutates_state() {
    let mut ctx = context(0x00);
    let set = [0x01, 0x00, 0x02, 0xC9, 0x00, 0x85, 0x01, 0x00, 0x20];
    let response = ctx.handle_request(&set).unwrap();
    assert_eq!(
        response,
        vec![0x01, 0x02, 0x00, 0xC1, 0x00, 0x05, 0x01, 0x00, 0x00, 0x20, 0x00]
    );
    let (_, rsp) = ControlPayload::try_to_response::<set_eid::Response>(&response).unwrap();
    assert_eq!(rsp.eid_setting, 0x20);
    assert_eq!(rsp.eid_pool_size, 0);
    assert_eq!(rsp.eid_allocation_status(), EidAllocationStatus::NoPoolSupport);
    assert_eq!(rsp.eid_assignment_status(), 0);
    assert_eq!(ctx.assigned_eid, 0x20);

    let get = [0x01, 0x00, 0x02, 0xCA, 0x00, 0x86, 0x02];
    let response = ctx.handle_request(&get).unwrap();
    let (_, rsp) = ControlPayload::try_to_response::<get_eid::Response>(&response).unwrap();
    assert_eq!(rsp.eid, 0x20);
    assert_eq!(rsp.completion_code, 0);
    assert_eq!(rsp.hdr.instance_id(), 6);
}

#[test]
fn get_endpoint_id_after_set_endpoint_id_for_every_eid() {
    for eid in 0..=255u8 {
        let mut ctx = context(0x11);
        ctx.handle_request(&[0x01, 0x00, 0x02, 0xC9, 0x00, 0x81, 0x01, 0x00, eid]).unwrap();
        let response = ctx.handle_request(&[0x01, 0x00, 0x02, 0xCA, 0x00, 0x82, 0x02]).unwrap();
        assert_eq!(response[8], eid);
        assert_eq!(response[7], 0x00);
    }
}

#[test]
fn unknown_command_is_unsupported() {
    let mut ctx = context(0x42);
    let response = ctx.handle_request(&[0x01, 0x00, 0x02, 0xC8, 0x00, 0x83, 0x50]).unwrap();
    assert_eq!(response, vec![0x01, 0x02, 0x00, 0xC0, 0x00, 0x03, 0xFF, 0x05]);
    assert_eq!(response[7], CompletionCode::ErrorUnsupportedCmd as u8);
}

#[test]
fn known_commands_without_a_handler_are_unsupported() {
    for code in [0x00u8, 0x03, 0x04, 0x05, 0x06, 0x07, 0x08, 0x09, 0x0B, 0x0C, 0x0E, 0x14] {
        let mut ctx = context(0x42);
        let response = ctx.handle_request(&[0x01, 0x00, 0x02, 0xC8, 0x00, 0x80, code]).unwrap();
        assert_eq!(response, vec![0x01, 0x02, 0x00, 0xC0, 0x00, 0x00, code, 0x05]);
        assert_eq!(ctx.assigned_eid, 0x42);
        assert!(!ctx.perform_discovery);
    }
}

#[test]
fn discovery_notify_raises_the_flag() {
    let mut ctx = context(0x08);
    let response = ctx.handle_request(&[0x01, 0x08, 0x00, 0xCB, 0x00, 0x80, 0x0D]).unwrap();
    assert_eq!(response, vec![0x01, 0x00, 0x08, 0xC3, 0x00, 0x00, 0x0D, 0x00]);
    assert!(ctx.perform_discovery);
}

#[test]
fn get_routing_table_entries_reports_an_empty_table() {
    let mut ctx = context(0x08);
    let response = ctx.handle_request(&[0x01, 0x08, 0x09, 0xC8, 0x00, 0x9F, 0x0A, 0x00]).unwrap();
    assert_eq!(response, vec![0x01, 0x09, 0x08, 0xC0, 0x00, 0x1F, 0x0A, 0x00, 0xFF, 0x00]);
}

#[test]
fn requests_too_short_for_their_command_have_no_answer() {
    let mut ctx = context(0x42);
    assert_eq!(
        ctx.handle_request(&[0x01, 0x00, 0x02, 0xC8, 0x00, 0x80, 0x01, 0x00]),
        Err(MctpBaseLibError::InvalidPayloadSize { expected: 5, found: 4 })
    );
    assert_eq!(ctx.assigned_eid, 0x42);
    assert_eq!(
        ctx.handle_request(&[0x01, 0x00, 0x02, 0xC8, 0x00, 0x80, 0x0A]),
        Err(MctpBaseLibError::InvalidPayloadSize { expected: 4, found: 3 })
    );
}

#[test]
fn responses_keep_instance_id_and_invert_tag_owner() {
    for iid in 0..32u8 {
        for tag in 0..8u8 {
            let mut ctx = context(0x42);
            let request = [0x01, 0x42, 0x09, 0xC8 | tag, 0x00, 0x80 | iid, 0x02];
            let response = ctx.handle_request(&request).unwrap();
            let (p, rsp) =
                ControlPayload::try_to_response::<get_eid::Response>(&response).unwrap();
            assert_eq!(p.hdr.tag_owner(), 0);
            assert_eq!(p.hdr.msg_tag(), tag);
            assert_eq!(p.hdr.destination_eid, 0x09);
            assert_eq!(p.hdr.source_eid, 0x42);
            assert_eq!(rsp.hdr.instance_id(), iid);
            assert_eq!(rsp.hdr.rq(), 0);
        }
    }
}

#[test]
fn request_counters_wrap() {
    let mut ctx = MctpEndpointContext::new(0x10, 0x80, 32);
    let mut tags = Vec::new();
    let mut ids = Vec::new();
    for _ in 0..40 {
        let packet = ctx.send_get_eid_request(0);
        tags.push(packet[3] & 0x07);
        ids.push(packet[5] & 0x1f);
    }
    for (i, t) in tags.iter().enumerate() {
        assert_eq!(*t as usize, (i + 1) % 8);
    }
    for (i, id) in ids.iter().enumerate() {
        assert_eq!(*id as usize, (i + 1) % 32);
    }
    assert_eq!(ctx.next_msg_tag, 1);
    assert_eq!(ctx.next_instance_id, 9);
}

#[test]
fn request_packets_layout() {
    let mut ctx = context(0x08);
    assert_eq!(ctx.send_get_eid_request(0x20), vec![0x01, 0x20, 0x08, 0xC9, 0x00, 0x81, 0x02]);
    assert_eq!(
        ctx.send_set_eid_request(0x80),
        vec![0x01, 0x00, 0x08, 0xCA, 0x00, 0x82, 0x01, 0x00, 0x80]
    );
    assert_eq!(
        ctx.send_allocate_eids_request(0x80, 0x81, 4),
        vec![0x01, 0x80, 0x08, 0xCB, 0x00, 0x83, 0x08, 0x00, 0x04, 0x81]
    );
    let hdr = ctx.new_transport_hdr(0x30);
    assert_eq!(hdr.to_bytes(), vec![0x01, 0x30, 0x08, 0xCC]);
    let hdr = ctx.new_control_hdr(CommandCode::DiscoveryNotify);
    assert_eq!(hdr.to_bytes(), vec![0x00, 0x84, 0x0D]);
}

#[test]
fn bus_owner_discovery_happy_path() {
    let mut ctx = context(0x08);
    let mut owner = BusOwner::new(&ctx);
    assert_eq!(owner.next_eid, 0x80);
    assert_eq!(owner.poll(&mut ctx), DiscoveryAction::Sleep);

    ctx.perform_discovery = true;
    let get = sent(owner.poll(&mut ctx));
    assert!(!ctx.perform_discovery);
    assert_eq!(get, vec![0x01, 0x00, 0x08, 0xC9, 0x00, 0x81, 0x02]);
    assert_eq!(owner.state, DiscoveryState::GetEidSent);

    let answer = response_packet(&get, &[0x00, 0x00, 0x00, 0x00]);
    let set = sent(owner.on_response(&mut ctx, &answer));
    assert_eq!(set, vec![0x01, 0x00, 0x08, 0xCA, 0x00, 0x82, 0x01, 0x00, 0x80]);

    let answer = response_packet(&set, &[0x00, 0x00, 0x80, 0x00]);
    let done = owner.on_response(&mut ctx, &answer);
    assert_eq!(
        done,
        DiscoveryAction::Enumerated {
            endpoint: EndpointContext {
                eid: 0x80,
                endpoint_type: EndpointType::Simple,
                eid_type: EidType::Dynamic,
                eid_allocation_status: EidAllocationStatus::NoPoolSupport,
                min_dynamic_eid: 0,
                max_dynamic_eid: 0,
                dynamic_eid_pool_size: 0,
            }
        }
    );
    assert_eq!(owner.next_eid, 0x81);
    assert_eq!(owner.state, DiscoveryState::Idle);
    assert_eq!(owner.poll(&mut ctx), DiscoveryAction::Sleep);
}

#[test]
fn bus_owner_discovery_of_a_bridge_allocates_a_pool() {
    let mut ctx = context(0x08);
    let mut owner = BusOwner::new(&ctx);
    ctx.perform_discovery = true;
    let get = sent(owner.poll(&mut ctx));
    let answer = response_packet(&get, &[0x00, 0x00, 0x10, 0x00]);
    let set = sent(owner.on_response(&mut ctx, &answer));
    assert_eq!(set[8], 0x80);

    let answer = response_packet(&set, &[0x00, 0x01, 0x80, 0x04]);
    let alloc = sent(owner.on_response(&mut ctx, &answer));
    assert_eq!(alloc, vec![0x01, 0x80, 0x08, 0xCB, 0x00, 0x83, 0x08, 0x00, 0x04, 0x81]);
    assert_eq!(owner.next_eid, 0x85);

    let answer = response_packet(&alloc, &[0x00, 0x00, 0x04, 0x81]);
    assert_eq!(
        owner.on_response(&mut ctx, &answer),
        DiscoveryAction::Enumerated {
            endpoint: EndpointContext {
                eid: 0x80,
                endpoint_type: EndpointType::BusOwnerOrBridge,
                eid_type: EidType::Dynamic,
                eid_allocation_status: EidAllocationStatus::RequiresPoolAllocation,
                min_dynamic_eid: 0x81,
                max_dynamic_eid: 0x84,
                dynamic_eid_pool_size: 4,
            }
        }
    );
    assert_eq!(owner.state, DiscoveryState::Idle);
}

#[test]
fn bus_owner_discovery_of_a_static_endpoint_sends_nothing_more() {
    let mut ctx = context(0x08);
    let mut owner = BusOwner::new(&ctx);
    ctx.perform_discovery = true;
    let get = sent(owner.poll(&mut ctx));
    let answer = response_packet(&get, &[0x00, 0x33, 0x02, 0x00]);
    match owner.on_response(&mut ctx, &answer) {
        DiscoveryAction::Enumerated { endpoint } => {
            assert_eq!(endpoint.eid, 0x33);
            assert_eq!(endpoint.eid_type, EidType::StaticMatch);
        }
        other => panic!("unexpected action {:?}", other),
    }
    assert_eq!(owner.next_eid, 0x80);
}

#[test]
fn bus_owner_discovery_failures() {
    // a completion code other than success
    let mut ctx = context(0x08);
    let mut owner = BusOwner::new(&ctx);
    ctx.perform_discovery = true;
    let get = sent(owner.poll(&mut ctx));
    let answer = response_packet(&get, &[0x04, 0x00, 0x00, 0x00]);
    assert_eq!(
        owner.on_response(&mut ctx, &answer),
        DiscoveryAction::Failed { error: DiscoveryError::CompletionCode { code: 0x04 } }
    );
    assert_eq!(owner.state, DiscoveryState::Idle);

    // a response that cannot be read
    ctx.perform_discovery = true;
    let _ = sent(owner.poll(&mut ctx));
    assert_eq!(
        owner.on_response(&mut ctx, &[0x01, 0x08, 0x00]),
        DiscoveryAction::Failed {
            error: DiscoveryError::Decode(MctpBaseLibError::InvalidPayloadSize {
                expected: 7,
                found: 3
            })
        }
    );

    // an EID that is rejected
    ctx.perform_discovery = true;
    let get = sent(owner.poll(&mut ctx));
    let set = sent(owner.on_response(&mut ctx, &response_packet(&get, &[0x00, 0x00, 0x00, 0x00])));
    assert_eq!(
        owner.on_response(&mut ctx, &response_packet(&set, &[0x00, 0x10, 0x00, 0x00])),
        DiscoveryAction::Failed { error: DiscoveryError::EidAssignmentRejected }
    );
    assert_eq!(owner.next_eid, 0x81);

    // a pool that is rejected
    ctx.perform_discovery = true;
    let get = sent(owner.poll(&mut ctx));
    let set = sent(owner.on_response(&mut ctx, &response_packet(&get, &[0x00, 0x00, 0x10, 0x00])));
    let alloc =
        sent(owner.on_response(&mut ctx, &response_packet(&set, &[0x00, 0x01, 0x81, 0x02])));
    assert_eq!(
        owner.on_response(&mut ctx, &response_packet(&alloc, &[0x00, 0x01, 0x00, 0x00])),
        DiscoveryAction::Failed { error: DiscoveryError::PoolAllocationRejected }
    );

    // a link that fails
    ctx.perform_discovery = true;
    let _ = sent(owner.poll(&mut ctx));
    assert_eq!(
        owner.on_failure(),
        DiscoveryAction::Failed { error: DiscoveryError::LinkFailed }
    );
    assert_eq!(owner.on_failure(), DiscoveryAction::Sleep);
    assert_eq!(owner.on_response(&mut ctx, &[0; 16]), DiscoveryAction::Sleep);
}

#[test]
fn bus_owner_pool_runs_out() {
    let mut ctx = MctpEndpointContext::new(0x10, 0xFD, 2);
    let mut owner = BusOwner::new(&ctx);
    for expected in [0xFDu8, 0xFE] {
        ctx.perform_discovery = true;
        let get = sent(owner.poll(&mut ctx));
        let set =
            sent(owner.on_response(&mut ctx, &response_packet(&get, &[0x00, 0x00, 0x00, 0x00])));
        assert_eq!(set[8], expected);
        let _ = owner.on_response(&mut ctx, &response_packet(&set, &[0x00, 0x00, expected, 0x00]));
    }
    assert_eq!(owner.next_eid, 0xFF);
    ctx.perform_discovery = true;
    let get = sent(owner.poll(&mut ctx));
    assert_eq!(
        owner.on_response(&mut ctx, &response_packet(&get, &[0x00, 0x00, 0x00, 0x00])),
        DiscoveryAction::Failed { error: DiscoveryError::PoolExhausted }
    );
    assert_eq!(owner.next_eid, 0xFF);
    assert_eq!(owner.state, DiscoveryState::Idle);
}

#[test]
fn decisions_after_each_response() {
    let hdr = ControlMsgHeader::default();
    let record = EndpointContext {
        eid: 0x80,
        endpoint_type: EndpointType::BusOwnerOrBridge,
        eid_type: EidType::Dynamic,
        eid_allocation_status: EidAllocationStatus::NoPoolSupport,
        min_dynamic_eid: 0,
        max_dynamic_eid: 0,
        dynamic_eid_pool_size: 0,
    };

    let rsp = get_eid::Response::new(hdr, 0, 0x09, EidType::Dynamic, EndpointType::Simple, 0);
    assert_eq!(
        decide_after_get_eid(&rsp, 0x80, 0x80),
        Decision::Fail { error: DiscoveryError::PoolExhausted }
    );
    match decide_after_get_eid(&rsp, 0x80, 0x81) {
        Decision::AssignEid { endpoint } => assert_eq!(endpoint.eid, 0x80),
        other => panic!("unexpected decision {:?}", other),
    }
    assert_eq!(
        decide_after_get_eid(&rsp, 0x100, 0x1FE),
        Decision::Fail { error: DiscoveryError::PoolExhausted }
    );

    let rsp = set_eid::Response::new(
        hdr,
        0,
        EidAllocationStatus::RequiresPoolAllocation,
        EidAssignmentStatus::Accepted,
        0x80,
        8,
    );
    assert_eq!(
        decide_after_set_eid(&rsp, record, 0x81, 0x88),
        Decision::Fail { error: DiscoveryError::PoolExhausted }
    );
    assert_eq!(
        decide_after_set_eid(&rsp, record, 0x81, 0x89),
        Decision::AllocatePool {
            endpoint: EndpointContext {
                eid_allocation_status: EidAllocationStatus::RequiresPoolAllocation,
                min_dynamic_eid: 0x81,
                max_dynamic_eid: 0x88,
                dynamic_eid_pool_size: 8,
                ..record
            }
        }
    );
    let simple = EndpointContext { endpoint_type: EndpointType::Simple, ..record };
    assert_eq!(
        decide_after_set_eid(&rsp, simple, 0x81, 0x89),
        Decision::Done {
            endpoint: EndpointContext {
                eid_allocation_status: EidAllocationStatus::RequiresPoolAllocation,
                ..simple
            }
        }
    );
    let rsp = set_eid::Response::new(
        hdr,
        0,
        EidAllocationStatus::RequiresPoolAllocation,
        EidAssignmentStatus::Accepted,
        0x80,
        0,
    );
    assert_eq!(
        decide_after_set_eid(&rsp, record, 0x81, 0x89),
        Decision::Done {
            endpoint: EndpointContext {
                eid_allocation_status: EidAllocationStatus::RequiresPoolAllocation,
                ..record
            }
        }
    );

    let rsp = allocate_eids::Response::new(
        hdr,
        0,
        allocate_eids::AllocationStatus::AllocationAccepted,
        8,
        0x81,
    );
    assert_eq!(decide_after_allocate_eids(&rsp, record), Decision::Done { endpoint: record });
    let rsp = get_eid::Response::new(hdr, 0x77, 0x09, EidType::Dynamic, EndpointType::Simple, 0);
    assert_eq!(
        decide_after_get_eid(&rsp, 0x80, 0x81),
        Decision::Fail { error: DiscoveryError::CompletionCode { code: 0x77 } }
    );
    let rsp = allocate_eids::Response::new(
        hdr,
        1,
        allocate_eids::AllocationStatus::AllocationAccepted,
        8,
        0x81,
    );
    assert_eq!(
        decide_after_allocate_eids(&rsp, record),
        Decision::Fail { error: DiscoveryError::CompletionCode { code: 1 } }
    );
}
