use mctp_emu::base::traits::{decode_u8_enum, encode_u8_enum};
use mctp_emu::base::{FromBinary, MctpBaseLibError, TransportHeader, U8Enum};
use mctp_emu::control::allocate_eids;
use mctp_emu::control::enums::{
    CommandCode, CompletionCode, MessageType, PhysicalMediumIdentifier, PhysicalTransportBinding,
};
use mctp_emu::control::get_eid;
use mctp_emu::control::get_routing_table;
use mctp_emu::control::models::ControlMsgHeader;
use mctp_emu::control::set_eid;
use mctp_emu::control::{ControlMsgReponseStatus, ControlPayload, EmptyRequest, EmptyResponse};

#[test]
fn control_test_completion_code_serialize() {
    let bytes: Vec<u8> = vec![
        0x01, 0x02, 0x0a, 0xc0, 0x00, 0x00, 0x02, 0x00, 0x0a, 0x10, 0x00, 0x9c,
    ];

    let ctrl_payload = ControlPayload::try_from_bytes(&bytes).unwrap();

    assert_eq!(ctrl_payload.to_bytes(), bytes);
}

#[test]
fn control_test_completion_code_known_u8_deserialize() {
    let bytes = vec![2];

    assert_eq!(
        CompletionCode::ErrorInvalidData,
        decode_u8_enum::<CompletionCode>(&bytes).unwrap()
    );
}

#[test]
fn enums_test_completion_code_serialize() {
    let bytes = vec![0x03 as u8];

    let completion_code = CompletionCode::ErrorInvalidLength;

    assert_eq!(encode_u8_enum(&completion_code), bytes);
}

#[test]
fn enums_test_completion_code_known_u8_deserialize() {
    let bytes = vec![2];

    assert_eq!(
        CompletionCode::ErrorInvalidData,
        decode_u8_enum::<CompletionCode>(&bytes).unwrap()
    );
}

#[test]
fn test_completion_code_unknown_u8_deserialize() {
    let bytes = vec![0x55];

    assert_eq!(
        CompletionCode::ErrorUnsupportedCmd,
        decode_u8_enum::<CompletionCode>(&bytes).unwrap()
    );
}

#[test]
fn test_completion_code_from_u8() {
    assert_eq!(CompletionCode::Success, 0.into());
    assert_eq!(CompletionCode::Success, CompletionCode::from(0));
    assert_eq!(CompletionCode::Error, CompletionCode::from(1));
    assert_eq!(CompletionCode::Error, 1.into());
    assert_eq!(CompletionCode::ErrorUnsupportedCmd, CompletionCode::from(5));
    assert_eq!(CompletionCode::ErrorUnsupportedCmd, CompletionCode::from(0x55));
}

#[test]
#[allow(non_snake_case)]
fn test_EmptyResponse_to_Bytes() {
    let ctrl_hdr = ControlMsgHeader::new(CommandCode::DiscoveryNotify, 0, false, false, false);
    let ctrl_hdr_bytes = ctrl_hdr.to_bytes();
    assert_eq!(ctrl_hdr_bytes.len(), 3);

    let resp = EmptyResponse::new(ctrl_hdr, CompletionCode::Success as u8);
    let bytes: Vec<u8> = resp.to_bytes();
    assert_eq!(bytes.len(), 4);
}

#[test]
#[allow(non_snake_case)]
fn test_EmptyResponse_try_from_Bytes() {
    let ctrl_hdr = ControlMsgHeader::new(CommandCode::DiscoveryNotify, 0, false, false, false);
    let ctrl_hdr_bytes = ctrl_hdr.to_bytes();

    let resp = EmptyResponse::new(ctrl_hdr, CompletionCode::Success as u8);
    let bytes: Vec<u8> = resp.to_bytes();
    let back = EmptyResponse::try_from_bytes(&bytes).expect("Failed to unmarshal buffer");

    assert_eq!(ctrl_hdr_bytes.len(), 3);
    assert_eq!(bytes.len(), 4);
    assert_eq!(back, resp);
    assert_eq!(bytes, vec![0x00, 0x00, 0x0D, 0x00]);
}

#[test]
fn transport_header_packs_fields_least_significant_bit_first() {
    let hdr = TransportHeader::new(0x0a, 0x20, 1, Some(true), Some(true), Some(true));
    assert_eq!(hdr.to_bytes(), vec![0x01, 0x20, 0x0a, 0xC9]);
    assert_eq!(hdr.header_version(), 1);
    assert_eq!(hdr.rsvd(), 0);
    assert_eq!(hdr.msg_tag(), 1);
    assert_eq!(hdr.tag_owner(), 1);
    assert_eq!(hdr.packet_seq(), 0);
    assert_eq!(hdr.eom(), 1);
    assert_eq!(hdr.som(), 1);

    let bare = TransportHeader::new(1, 2, 7, None, None, None);
    assert_eq!(bare.to_bytes(), vec![0x01, 0x02, 0x01, 0x07]);
}

#[test]
fn transport_header_tag_is_reduced_modulo_eight() {
    let hdr = TransportHeader::new(0, 0, 9, None, None, None);
    assert_eq!(hdr.msg_tag(), 1);
    let hdr = TransportHeader::new(0, 0, 0xff, None, None, None);
    assert_eq!(hdr.msg_tag(), 7);
    assert_eq!(hdr.tag_owner(), 0);
}

#[test]
fn transport_header_setters_touch_only_their_field() {
    let mut hdr = TransportHeader::try_from_bytes(&[0xA5, 0x11, 0x22, 0x5A]).unwrap();
    assert_eq!(hdr.header_version(), 5);
    assert_eq!(hdr.rsvd(), 0xA);
    assert_eq!(hdr.msg_tag(), 2);
    assert_eq!(hdr.tag_owner(), 1);
    assert_eq!(hdr.packet_seq(), 1);
    assert_eq!(hdr.eom(), 1);
    assert_eq!(hdr.som(), 0);

    hdr.set_packet_seq(7);
    assert_eq!(hdr.to_bytes(), vec![0xA5, 0x11, 0x22, 0x7A]);
    hdr.set_msg_tag(0);
    assert_eq!(hdr.to_bytes(), vec![0xA5, 0x11, 0x22, 0x78]);
    hdr.set_som(1);
    assert_eq!(hdr.to_bytes(), vec![0xA5, 0x11, 0x22, 0xF8]);
    hdr.set_eom(0);
    assert_eq!(hdr.to_bytes(), vec![0xA5, 0x11, 0x22, 0xB8]);
    hdr.set_tag_owner(0);
    assert_eq!(hdr.to_bytes(), vec![0xA5, 0x11, 0x22, 0xB0]);
    hdr.set_header_version(1);
    assert_eq!(hdr.to_bytes(), vec![0xA1, 0x11, 0x22, 0xB0]);
    hdr.set_rsvd(0x10);
    assert_eq!(hdr.to_bytes(), vec![0x01, 0x11, 0x22, 0xB0]);
}

#[test]
fn transport_header_round_trips_for_every_flag_byte() {
    for b in 0..=255u8 {
        let bytes = vec![b, b.wrapping_mul(3), b.wrapping_add(7), b ^ 0x5a];
        let hdr = TransportHeader::try_from_bytes(&bytes).unwrap();
        assert_eq!(hdr.to_bytes(), bytes);
        assert_eq!(TransportHeader::try_from_bytes(&hdr.to_bytes()).unwrap(), hdr);
    }
}

#[test]
fn transport_header_decode_ignores_what_follows() {
    let hdr = TransportHeader::try_from_bytes(&[1, 2, 3, 4, 5, 6]).unwrap();
    assert_eq!(hdr.to_bytes(), vec![1, 2, 3, 4]);
}

#[test]
fn transport_header_too_short_is_refused() {
    assert_eq!(
        TransportHeader::try_from_bytes(&[1, 2, 3]),
        Err(MctpBaseLibError::InvalidPayloadSize { expected: 4, found: 3 })
    );
    assert_eq!(
        TransportHeader::try_from_bytes(&[]),
        Err(MctpBaseLibError::InvalidPayloadSize { expected: 4, found: 0 })
    );
}

#[test]
fn create_response_swaps_endpoints_and_inverts_tag_owner() {
    let req = TransportHeader::new(0x0a, 0x20, 5, Some(true), Some(true), Some(true));
    let rsp = req.create_response();
    assert_eq!(rsp.source_eid, 0x20);
    assert_eq!(rsp.destination_eid, 0x0a);
    assert_eq!(rsp.msg_tag(), 5);
    assert_eq!(rsp.tag_owner(), 0);
    assert_eq!(rsp.to_bytes(), vec![0x01, 0x0a, 0x20, 0xC5]);
    assert_eq!(rsp.create_response().tag_owner(), 1);
}

#[test]
fn control_header_layout() {
    let hdr = ControlMsgHeader::new(CommandCode::GetEndpointID, 1, false, true, false);
    assert_eq!(hdr.to_bytes(), vec![0x00, 0x81, 0x02]);
    let hdr = ControlMsgHeader::new(CommandCode::SetEndpointID, 33, true, false, true);
    assert_eq!(hdr.to_bytes(), vec![0x80, 0x41, 0x01]);
    assert_eq!(hdr.instance_id(), 1);
    assert_eq!(hdr.integrity_check(), 1);
    assert_eq!(hdr.d_bit(), 1);
    assert_eq!(hdr.rq(), 0);
    assert_eq!(hdr.msg_type(), 0);
    assert_eq!(hdr.rsvd(), 0);
}

#[test]
fn control_header_unknown_command_decodes_to_unknown() {
    let hdr = ControlMsgHeader::try_from_bytes(&[0x00, 0x80, 0x50]).unwrap();
    assert_eq!(hdr.command_code, CommandCode::Unknown);
    assert_eq!(hdr.to_bytes(), vec![0x00, 0x80, 0xFF]);
    assert_eq!(ControlMsgHeader::try_from_bytes(&hdr.to_bytes()).unwrap(), hdr);
}

#[test]
fn control_header_to_response_clears_only_the_request_bit() {
    let hdr = ControlMsgHeader::try_from_bytes(&[0x85, 0xFF, 0x0A]).unwrap();
    let rsp = hdr.to_response();
    assert_eq!(rsp.to_bytes(), vec![0x85, 0x7F, 0x0A]);
    assert_eq!(rsp.instance_id(), hdr.instance_id());
}

#[test]
fn control_header_from_transport_header() {
    let t = TransportHeader::new(1, 0xff, 0, Some(true), None, None);
    let c = ControlMsgHeader::from(t);
    assert_eq!(c.to_bytes(), vec![0x80, 0xC0, 0xFF]);
    let t = TransportHeader::new(1, 2, 0, Some(false), None, None);
    let c = ControlMsgHeader::from(t);
    assert_eq!(c.to_bytes(), vec![0x80, 0x00, 0xFF]);
}

#[test]
fn control_header_setters() {
    let mut hdr = ControlMsgHeader::default();
    hdr.set_instance_id(0x3f);
    assert_eq!(hdr.instance_id(), 0x1f);
    hdr.set_rq(1);
    hdr.set_d_bit(3);
    hdr.set_rsvd(1);
    assert_eq!(hdr.instance_id_rsvd_d_bit_rq, 0xFF);
    hdr.set_rsvd(0);
    assert_eq!(hdr.instance_id_rsvd_d_bit_rq, 0xDF);
    hdr.set_msg_type(0xff);
    assert_eq!(hdr.msg_type(), 0x7f);
    assert_eq!(hdr.integrity_check(), 0);
    hdr.set_integrity_check(1);
    assert_eq!(hdr.msg_type_integrity_check, 0xFF);
}

#[test]
fn command_code_values() {
    assert_eq!(CommandCode::from(0x00), CommandCode::Reserved);
    assert_eq!(CommandCode::from(0x01), CommandCode::SetEndpointID);
    assert_eq!(CommandCode::from(0x02), CommandCode::GetEndpointID);
    assert_eq!(CommandCode::from(0x08), CommandCode::AllocateEndpointIDs);
    assert_eq!(CommandCode::from(0x0A), CommandCode::GetRoutingTableEntries);
    assert_eq!(CommandCode::from(0x0D), CommandCode::DiscoveryNotify);
    assert_eq!(CommandCode::from(0x14), CommandCode::QuerySupportedInterfaces);
    assert_eq!(CommandCode::from(0x15), CommandCode::Unknown);
    assert_eq!(CommandCode::from(0xFF), CommandCode::Unknown);
    assert_eq!(CommandCode::Unknown.to_u8(), 0xFF);
    assert_eq!(CommandCode::default(), CommandCode::Unknown);
    for v in 0..=0x14u8 {
        assert_eq!(CommandCode::from_u8(v).to_u8(), v);
    }
}

#[test]
fn every_enum_decodes_its_own_byte() {
    for v in 0..=255u8 {
        let c = CompletionCode::from_u8(v);
        assert_eq!(CompletionCode::from_u8(c.to_u8()), c);
        let m = MessageType::from_u8(v);
        assert_eq!(MessageType::from_u8(m.to_u8()), m);
        let p = PhysicalMediumIdentifier::from_u8(v);
        assert_eq!(PhysicalMediumIdentifier::from_u8(p.to_u8()), p);
        let t = PhysicalTransportBinding::from_u8(v);
        assert_eq!(PhysicalTransportBinding::from_u8(t.to_u8()), t);
        let o = set_eid::Operation::from_u8(v);
        assert_eq!(set_eid::Operation::from_u8(o.to_u8()), o);
        let a = allocate_eids::AllocationStatus::from_u8(v);
        assert_eq!(allocate_eids::AllocationStatus::from_u8(a.to_u8()), a);
    }
}

#[test]
fn enum_fallback_variants() {
    assert_eq!(MessageType::from(0x7E), MessageType::VendorDefinedPCI);
    assert_eq!(MessageType::from(0x09), MessageType::Invalid);
    assert_eq!(MessageType::Invalid.to_u8(), 0xFF);
    assert_eq!(PhysicalMediumIdentifier::from(0x07), PhysicalMediumIdentifier::Unspecified);
    assert_eq!(PhysicalMediumIdentifier::from(0x30), PhysicalMediumIdentifier::I3CBasic);
    assert_eq!(PhysicalTransportBinding::from(0x03), PhysicalTransportBinding::VendorDefined);
    assert_eq!(PhysicalTransportBinding::from(0x04), PhysicalTransportBinding::MCTPoverKCS);
    assert_eq!(set_eid::Operation::from(9), set_eid::Operation::SetEid);
    assert_eq!(set_eid::EidAssignmentStatus::from(2), set_eid::EidAssignmentStatus::Rejected);
    assert_eq!(set_eid::EidAllocationStatus::from(3), set_eid::EidAllocationStatus::NoPoolSupport);
    assert_eq!(get_eid::EidType::from(4), get_eid::EidType::Dynamic);
    assert_eq!(get_eid::EidType::from(3), get_eid::EidType::StaticMismatch);
    assert_eq!(get_eid::EndpointType::from(1), get_eid::EndpointType::BusOwnerOrBridge);
    assert_eq!(get_eid::EndpointType::from(2), get_eid::EndpointType::Simple);
    assert_eq!(allocate_eids::Operation::from(2), allocate_eids::Operation::GetAllocationInfo);
    assert_eq!(allocate_eids::Operation::from(3), allocate_eids::Operation::AllocateEids);
    assert_eq!(
        allocate_eids::AllocationStatus::from(7),
        allocate_eids::AllocationStatus::AllocationRejected
    );
}

#[test]
fn decode_u8_enum_refuses_an_empty_buffer() {
    assert_eq!(
        decode_u8_enum::<CommandCode>(&[]),
        Err(MctpBaseLibError::InvalidPayloadSize { expected: 1, found: 0 })
    );
    assert_eq!(decode_u8_enum::<CommandCode>(&[0x0D, 0x01]), Ok(CommandCode::DiscoveryNotify));
    assert_eq!(encode_u8_enum(&CommandCode::DiscoveryNotify), vec![0x0D]);
}

#[test]
fn set_eid_messages_layout() {
    let hdr = ControlMsgHeader::new(CommandCode::SetEndpointID, 2, false, true, false);
    let req = set_eid::Request::new(hdr, set_eid::Operation::ForceEid, 0x80);
    assert_eq!(req.to_bytes(), vec![0x00, 0x82, 0x01, 0x01, 0x80]);
    assert_eq!(req.operation(), 1);
    assert_eq!(set_eid::Request::try_from_bytes(&req.to_bytes()).unwrap(), req);

    let rsp = set_eid::Response::from(
        req,
        CompletionCode::Success,
        set_eid::EidAllocationStatus::RequiresPoolAllocation,
        set_eid::EidAssignmentStatus::Rejected,
        0x80,
        4,
    );
    assert_eq!(rsp.to_bytes(), vec![0x00, 0x02, 0x01, 0x00, 0x11, 0x80, 0x04]);
    assert_eq!(rsp.eid_allocation_status(), set_eid::EidAllocationStatus::RequiresPoolAllocation);
    assert_eq!(rsp.raw_eid_allocation_status(), 1);
    assert_eq!(rsp.eid_assignment_status(), 1);
    assert_eq!(rsp.reserved1(), 0);
    assert_eq!(rsp.reserved2(), 0);
    assert_eq!(set_eid::Response::try_from_bytes(&rsp.to_bytes()).unwrap(), rsp);
    assert_eq!(rsp.completion_code(), CompletionCode::Success);
    assert_eq!(rsp.is_success(), Ok(()));
}

#[test]
fn set_eid_setters() {
    let mut req = set_eid::Request::default();
    req.set_operation(7);
    assert_eq!(req.operation_reserved, 3);
    req.set_reserved(0xff);
    assert_eq!(req.operation_reserved, 0xff);
    req.set_operation(0);
    assert_eq!(req.operation_reserved, 0xfc);
    assert_eq!(req.reserved(), 0x3f);

    let mut rsp = set_eid::Response::default();
    rsp.set_eid_assignment_status(1);
    rsp.set_raw_eid_allocation_status(2);
    rsp.set_reserved1(3);
    rsp.set_reserved2(1);
    assert_eq!(rsp.eid_allocation_status_reserved1_eid_assignment_status_reserved2, 0x5E);
}

#[test]
fn get_eid_messages_layout() {
    let hdr = ControlMsgHeader::new(CommandCode::GetEndpointID, 0, false, true, false);
    let req = get_eid::Request { hdr };
    assert_eq!(req.to_bytes(), vec![0x00, 0x80, 0x02]);

    let rsp = get_eid::Response::from(
        req,
        CompletionCode::Success,
        0x42,
        get_eid::EidType::StaticMatch,
        get_eid::EndpointType::BusOwnerOrBridge,
        0x07,
    );
    assert_eq!(rsp.to_bytes(), vec![0x00, 0x00, 0x02, 0x00, 0x42, 0x12, 0x07]);
    assert_eq!(rsp.eid_type(), 2);
    assert_eq!(rsp.endpoint_type(), 1);
    assert_eq!(get_eid::Response::try_from_bytes(&rsp.to_bytes()).unwrap(), rsp);

    let mut rsp = rsp;
    rsp.set_endpoint_type(0);
    rsp.set_eid_type(0);
    rsp.set_reserved1(1);
    rsp.set_reserved2(2);
    assert_eq!(rsp.eid_endpoint_type, 0x84);
}

#[test]
fn allocate_eids_messages_layout() {
    let hdr = ControlMsgHeader::new(CommandCode::AllocateEndpointIDs, 3, false, true, false);
    let req = allocate_eids::Request::new(hdr, allocate_eids::Operation::AllocateEids, 4, 0x81);
    assert_eq!(req.to_bytes(), vec![0x00, 0x83, 0x08, 0x00, 0x04, 0x81]);
    assert_eq!(allocate_eids::Request::try_from_bytes(&req.to_bytes()).unwrap(), req);

    let rsp = allocate_eids::Response::from(
        req,
        0,
        allocate_eids::AllocationStatus::AllocationRejected,
        4,
        0x81,
    );
    assert_eq!(rsp.to_bytes(), vec![0x00, 0x03, 0x08, 0x00, 0x01, 0x04, 0x81]);
    assert_eq!(rsp.allocation_status(), allocate_eids::AllocationStatus::AllocationRejected);
    assert_eq!(allocate_eids::Response::try_from_bytes(&rsp.to_bytes()).unwrap(), rsp);

    let mut req = req;
    req.set_operation(2);
    req.set_reserved(1);
    assert_eq!(req.operation_reserved, 0x06);
    let mut rsp = rsp;
    rsp.set_raw_allocation_status(0);
    rsp.set_reserved(0x3f);
    assert_eq!(rsp.allocation_status_reserved, 0xfc);
    assert_eq!(rsp.allocation_status(), allocate_eids::AllocationStatus::AllocationAccepted);
}

#[test]
fn get_routing_table_messages_layout() {
    let hdr = ControlMsgHeader::new(CommandCode::GetRoutingTableEntries, 4, false, true, false);
    let req = get_routing_table::Request::new(hdr, 0x00);
    assert_eq!(req.to_bytes(), vec![0x00, 0x84, 0x0A, 0x00]);
    let rsp = get_routing_table::Response::from(req, CompletionCode::Success, 0xff, 0);
    assert_eq!(rsp.to_bytes(), vec![0x00, 0x04, 0x0A, 0x00, 0xFF, 0x00]);
    assert_eq!(get_routing_table::Response::try_from_bytes(&rsp.to_bytes()).unwrap(), rsp);
    assert_eq!(get_routing_table::Request::try_from_bytes(&req.to_bytes()).unwrap(), req);
}

#[test]
fn messages_too_short_are_refused_with_their_size() {
    assert_eq!(
        ControlMsgHeader::try_from_bytes(&[0, 0]),
        Err(MctpBaseLibError::InvalidPayloadSize { expected: 3, found: 2 })
    );
    assert_eq!(
        EmptyRequest::try_from_bytes(&[0, 0]),
        Err(MctpBaseLibError::InvalidPayloadSize { expected: 3, found: 2 })
    );
    assert_eq!(
        EmptyResponse::try_from_bytes(&[0, 0, 0]),
        Err(MctpBaseLibError::InvalidPayloadSize { expected: 4, found: 3 })
    );
    assert_eq!(
        set_eid::Request::try_from_bytes(&[0, 0, 1, 0]),
        Err(MctpBaseLibError::InvalidPayloadSize { expected: 5, found: 4 })
    );
    assert_eq!(
        set_eid::Response::try_from_bytes(&[0; 6]),
        Err(MctpBaseLibError::InvalidPayloadSize { expected: 7, found: 6 })
    );
    assert_eq!(
        get_eid::Response::try_from_bytes(&[0; 6]),
        Err(MctpBaseLibError::InvalidPayloadSize { expected: 7, found: 6 })
    );
    assert_eq!(
        allocate_eids::Request::try_from_bytes(&[0; 5]),
        Err(MctpBaseLibError::InvalidPayloadSize { expected: 6, found: 5 })
    );
    assert_eq!(
        allocate_eids::Response::try_from_bytes(&[0; 6]),
        Err(MctpBaseLibError::InvalidPayloadSize { expected: 7, found: 6 })
    );
    assert_eq!(
        get_routing_table::Request::try_from_bytes(&[0; 3]),
        Err(MctpBaseLibError::InvalidPayloadSize { expected: 4, found: 3 })
    );
    assert_eq!(
        get_routing_table::Response::try_from_bytes(&[0; 5]),
        Err(MctpBaseLibError::InvalidPayloadSize { expected: 6, found: 5 })
    );
}

#[test]
fn sizes_of_the_packed_layouts() {
    assert_eq!(TransportHeader::size(), 4);
    assert_eq!(ControlMsgHeader::size(), 3);
    assert_eq!(EmptyRequest::size(), 3);
    assert_eq!(EmptyResponse::size(), 4);
    assert_eq!(set_eid::Request::size(), 5);
    assert_eq!(set_eid::Response::size(), 7);
    assert_eq!(get_eid::Request::size(), 3);
    assert_eq!(get_eid::Response::size(), 7);
    assert_eq!(allocate_eids::Request::size(), 6);
    assert_eq!(allocate_eids::Response::size(), 7);
    assert_eq!(get_routing_table::Request::size(), 4);
    assert_eq!(get_routing_table::Response::size(), 6);
}

#[test]
fn is_success_reports_the_completion_code() {
    let rsp = get_eid::Response::new(
        ControlMsgHeader::default(),
        0x04,
        0,
        get_eid::EidType::Dynamic,
        get_eid::EndpointType::Simple,
        0,
    );
    assert_eq!(rsp.is_success(), Err(0x04));
    assert_eq!(rsp.completion_code(), CompletionCode::ErrorNotReady);
    let rsp = get_routing_table::Response::new(ControlMsgHeader::default(), 0x77, 0, 0);
    assert_eq!(rsp.is_success(), Err(0x77));
    assert_eq!(rsp.completion_code(), CompletionCode::ErrorUnsupportedCmd);
    let rsp = allocate_eids::Response::new(
        ControlMsgHeader::default(),
        0,
        allocate_eids::AllocationStatus::AllocationAccepted,
        0,
        0,
    );
    assert_eq!(rsp.is_success(), Ok(()));
}

#[test]
fn control_payload_parts() {
    let bytes: Vec<u8> = vec![0x01, 0x00, 0x02, 0xC8, 0x00, 0x80, 0x02, 0xAA];
    let p = ControlPayload::try_from_bytes(&bytes).unwrap();
    assert_eq!(p.hdr.to_bytes(), vec![0x01, 0x00, 0x02, 0xC8]);
    assert_eq!(p.control_hdr.to_bytes(), vec![0x00, 0x80, 0x02]);
    assert_eq!(p.payload, vec![0x00, 0x80, 0x02, 0xAA]);
    assert_eq!(p.command_code(), Ok(CommandCode::GetEndpointID));
    let req: get_eid::Request = p.parse_msg().unwrap();
    assert_eq!(req.hdr, p.control_hdr);
    assert_eq!(
        p.parse_msg::<set_eid::Request>(),
        Err(MctpBaseLibError::InvalidPayloadSize { expected: 5, found: 4 })
    );
}

#[test]
fn control_payload_too_short_is_refused() {
    assert_eq!(
        ControlPayload::try_from_bytes(&[0x01, 0x00, 0x02, 0x00, 0x02]),
        Err(MctpBaseLibError::InvalidPayloadSize { expected: 7, found: 5 })
    );
}

#[test]
fn control_payload_unknown_command_is_an_unknown_value() {
    let p = ControlPayload::try_from_bytes(&[0x01, 0x00, 0x02, 0xC8, 0x00, 0x80, 0x50]).unwrap();
    assert_eq!(
        p.command_code(),
        Err(MctpBaseLibError::UnknownValue { value: String::from("Unknown") })
    );
}

#[test]
fn control_payload_response_payload() {
    let p = ControlPayload::try_from_bytes(&[0x01, 0x00, 0x02, 0xC8, 0x00, 0x80, 0x02]).unwrap();
    let hdr = p.control_hdr.to_response();
    let r = p.create_response_payload(hdr, vec![0x00, 0x00, 0x02, 0x00]);
    assert_eq!(r.to_bytes(), vec![0x01, 0x02, 0x00, 0xC0, 0x00, 0x00, 0x02, 0x00]);
    assert_eq!(r.control_hdr, hdr);
}

#[test]
fn try_to_response_decodes_packet_and_message() {
    let bytes: Vec<u8> = vec![
        0x01, 0x02, 0x0a, 0xc0, 0x00, 0x00, 0x02, 0x00, 0x0a, 0x10, 0x00, 0x9c,
    ];
    let (p, rsp) = ControlPayload::try_to_response::<get_eid::Response>(&bytes).unwrap();
    assert_eq!(p.hdr.destination_eid, 0x02);
    assert_eq!(p.hdr.source_eid, 0x0a);
    assert_eq!(rsp.eid, 0x0a);
    assert_eq!(rsp.endpoint_type(), 1);
    assert_eq!(rsp.eid_type(), 0);
    assert_eq!(rsp.is_success(), Ok(()));

    assert_eq!(
        ControlPayload::try_to_response::<get_eid::Response>(&bytes[..6]),
        Err(MctpBaseLibError::InvalidPayloadSize { expected: 7, found: 6 })
    );
    assert_eq!(
        ControlPayload::try_to_response::<get_eid::Response>(&bytes[..10]),
        Err(MctpBaseLibError::InvalidPayloadSize { expected: 7, found: 6 })
    );
    assert_eq!(
        ControlPayload::try_to_response::<set_eid::Request>(&bytes[..8]),
        Err(MctpBaseLibError::InvalidPayloadSize { expected: 5, found: 4 })
    );
}
