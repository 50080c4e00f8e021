use mctp_emu::endpoint::{FlowTable, MsgFlowTag};
use mctp_emu::network::simple_network::{
    complete_sendto, create_tag, ReceiveAction, SimpleNetwork, Transmit,
};
use mctp_emu::network::virtual_network::VirtualNetwork;
use mctp_emu::network::{
    Client, ClientCallbackMsg, Error, NetworkBindingCallbackMsg, Route, SocketAddress,
};
use mctp_emu::phys::smbus_netdev::SmbusNetDevBinding;
use mctp_emu::MctpEmuError;

fn tag(dest_eid: u8, src_eid: u8, msg_tag: u8, tag_owner: bool) -> MsgFlowTag {
    MsgFlowTag { dest_eid, src_eid, msg_tag, tag_owner }
}

fn ext(address: u8, binding_id: u64, phy_addr: u64) -> SocketAddress {
    SocketAddress::Extended { address, network: 1, binding_id, phy_addr }
}

/// The frame in which the peer at `phy` answers the request packet `request`, echoing
/// `body` behind the transport header.
fn reply_frame(request: &[u8], phy: u8, body: &[u8]) -> Vec<u8> {
    let mut packet = vec![request[0], request[2], request[1], request[3] & !0x08];
    packet.extend_from_slice(body);
    SmbusNetDevBinding::new(phy).transmit_frame(&packet, 0x10).unwrap()
}

#[test]
fn flow_tag_match_rule() {
    let stored = tag(0x20, 0x0a, 3, true);
    assert!(stored.matches(tag(0x0a, 0x20, 3, false)));
    assert!(stored.matches(tag(0x99, 0x20, 3, false)));
    assert!(!stored.matches(tag(0x0a, 0x20, 4, false)));
    assert!(!stored.matches(tag(0x0a, 0x20, 3, true)));
    assert!(!stored.matches(tag(0x0a, 0x21, 3, false)));
    assert_eq!(MsgFlowTag::default(), tag(0, 0, 0, false));
}

#[test]
fn flow_table_takes_the_first_match_in_insertion_order() {
    let mut t: FlowTable<&str> = FlowTable::new();
    assert!(t.is_empty());
    t.insert(tag(0x20, 0x0a, 1, true), "first");
    t.insert(tag(0x21, 0x0a, 1, true), "other peer");
    t.insert(tag(0x20, 0x0a, 1, true), "second");
    assert_eq!(t.len(), 3);
    assert_eq!(t.take_match(tag(0x0a, 0x20, 1, false)), Some("first"));
    assert_eq!(t.len(), 2);
    assert_eq!(t.take_match(tag(0x0a, 0x20, 1, false)), Some("second"));
    assert_eq!(t.take_match(tag(0x0a, 0x20, 1, false)), None);
    assert_eq!(t.len(), 1);
    assert_eq!(t.take_match(tag(0x0a, 0x21, 1, false)), Some("other peer"));
    assert!(t.is_empty());
}

#[test]
fn flow_table_knows_its_tags() {
    let mut t: FlowTable<u8> = FlowTable::new();
    assert!(!t.contains_tag(tag(0x20, 0x0a, 1, true)));
    t.insert(tag(0x20, 0x0a, 1, true), 1);
    t.insert(tag(0x20, 0x0a, 2, true), 2);
    assert!(t.contains_tag(tag(0x20, 0x0a, 1, true)));
    assert!(t.contains_tag(tag(0x20, 0x0a, 2, true)));
    assert!(!t.contains_tag(tag(0x20, 0x0a, 3, true)));
    assert!(!t.contains_tag(tag(0x20, 0x0a, 1, false)));
    assert!(!t.contains_tag(tag(0x20, 0x0b, 1, true)));
    assert!(!t.contains_tag(tag(0x21, 0x0a, 1, true)));
    assert_eq!(t.take_match(tag(0x0a, 0x20, 1, false)), Some(1));
    assert!(!t.contains_tag(tag(0x20, 0x0a, 1, true)));
}

#[test]
fn flow_table_without_a_match_stays_as_it_is() {
    let mut t: FlowTable<u8> = FlowTable::new();
    assert_eq!(t.take_match(tag(1, 2, 3, false)), None);
    t.insert(tag(0x20, 0x0a, 1, true), 1);
    assert_eq!(t.take_match(tag(0x0a, 0x20, 2, false)), None);
    assert_eq!(t.take_match(tag(0x0a, 0x20, 1, true)), None);
    assert_eq!(t.len(), 1);
}

#[test]
fn flow_table_size_returns_after_requests_complete() {
    let mut t: FlowTable<u32> = FlowTable::new();
    t.insert(tag(0x30, 0x0a, 0, true), 1000);
    let start = t.len();
    for round in 0..40u32 {
        let request = tag(0x20, 0x0a, (round % 8) as u8, true);
        t.insert(request, round);
        let response = tag(request.src_eid, request.dest_eid, request.msg_tag, !request.tag_owner);
        assert_eq!(t.take_match(response), Some(round));
        assert_eq!(t.len(), start);
    }
}

#[test]
fn flows_with_distinct_tags_resolve_in_any_order() {
    let orders: [[u8; 4]; 4] = [[0, 1, 2, 3], [3, 2, 1, 0], [2, 0, 3, 1], [1, 3, 0, 2]];
    for order in orders {
        let mut t: FlowTable<u8> = FlowTable::new();
        for i in 0..4u8 {
            t.insert(tag(0x20, 0x0a, i + 1, true), i);
        }
        for i in order {
            assert_eq!(t.take_match(tag(0x0a, 0x20, i + 1, false)), Some(i));
        }
        assert!(t.is_empty());
    }
}

#[test]
fn create_tag_reads_the_transport_header() {
    assert_eq!(create_tag(&[0x01, 0x20, 0x0a, 0xC9]), Some(tag(0x20, 0x0a, 1, true)));
    assert_eq!(create_tag(&[0x01, 0x0a, 0x20, 0xC7, 0xff]), Some(tag(0x0a, 0x20, 7, false)));
}

#[test]
fn create_tag_finds_no_tag_without_a_whole_header() {
    assert_eq!(create_tag(&[0x01, 0x20, 0x0a]), None);
    assert_eq!(create_tag(&[0x01]), None);
    assert_eq!(create_tag(&[]), None);
    assert_eq!(create_tag(&[0, 0, 0, 0]), Some(MsgFlowTag::default()));
}

#[test]
fn sockets_count_up_from_zero() {
    let mut net: SimpleNetwork<u8> = SimpleNetwork::new_mctp_network();
    assert_eq!(net.socket(), 0);
    assert_eq!(net.socket(), 1);
    assert_eq!(net.socket(), 2);
    assert_eq!(net.num_clients, 3);
}

#[test]
fn bind_records_the_triple() {
    let mut net: SimpleNetwork<u8> = SimpleNetwork::new_mctp_network();
    let sd = net.socket();
    assert_eq!(net.get_client(sd), Err(MctpEmuError::Network(Error::InvalidSocketError { sd })));
    assert_eq!(net.bind(sd, 0x0a, 0, 1), Ok(()));
    assert_eq!(net.get_client(sd), Ok(Client { address: 0x0a, msg_type: 0, tag: 1 }));
    assert_eq!(net.bind(sd, 0x0b, 1, 2), Ok(()));
    assert_eq!(net.get_client(sd), Ok(Client::new(0x0b, 1, 2)));
}

#[test]
fn bind_takes_every_descriptor_that_was_given_out() {
    let mut net: SimpleNetwork<u8> = SimpleNetwork::new_mctp_network();
    let first = net.socket();
    let second = net.socket();
    assert_eq!(net.bind(first, 1, 0, 0), Ok(()));
    assert_eq!(net.bind(second, 2, 0, 1), Ok(()));
    assert_eq!(net.get_client(first), Ok(Client::new(1, 0, 0)));
    assert_eq!(net.get_client(second), Ok(Client::new(2, 0, 1)));
}

#[test]
fn bind_refuses_a_descriptor_that_was_never_given_out() {
    let mut net: SimpleNetwork<u8> = SimpleNetwork::new_mctp_network();
    assert_eq!(
        net.bind(0, 1, 0, 0),
        Err(MctpEmuError::Network(Error::InvalidSocketError { sd: 0 }))
    );
    let sd = net.socket();
    let _ = net.socket();
    for unknown in [-1, 2, 5, i32::MAX, i32::MIN] {
        assert_eq!(
            net.bind(unknown, 1, 0, 0),
            Err(MctpEmuError::Network(Error::InvalidSocketError { sd: unknown }))
        );
        assert_eq!(
            net.get_client(unknown),
            Err(MctpEmuError::Network(Error::InvalidSocketError { sd: unknown }))
        );
    }
    assert_eq!(net.get_client(sd), Err(MctpEmuError::Network(Error::InvalidSocketError { sd })));
    assert!(net.clients.is_empty());
}

#[test]
fn bindings_count_up_from_one() {
    let mut net: SimpleNetwork<u8> = SimpleNetwork::new_mctp_network();
    assert_eq!(net.get_binding(1), Err(Error::InvalidBindingError { binding_id: 1 }));
    assert_eq!(net.add_physical_binding(), 1);
    assert_eq!(net.add_physical_binding(), 2);
    assert_eq!(net.get_binding(1), Ok(()));
    assert_eq!(net.get_binding(2), Ok(()));
    assert_eq!(net.get_binding(0), Err(Error::InvalidBindingError { binding_id: 0 }));
    assert_eq!(net.get_binding(3), Err(Error::InvalidBindingError { binding_id: 3 }));
}

#[test]
fn sendto_builds_the_packet_and_records_the_flow() {
    let mut net: SimpleNetwork<u32> = SimpleNetwork::new_mctp_network();
    let sd = net.socket();
    net.bind(sd, 0x0a, 0, 1).unwrap();
    let id = net.add_physical_binding();
    let t = net.sendto(sd, &[0x00, 0x80, 0x02], ext(0x20, id, 0x25), 77).unwrap();
    assert_eq!(
        t,
        Transmit {
            binding_id: 1,
            phy_addr: 0x25,
            buf: vec![0x01, 0x20, 0x0a, 0xC9, 0x00, 0x80, 0x02]
        }
    );
    assert_eq!(net.flows.len(), 1);
    assert_eq!(net.flows.flows[0], (tag(0x20, 0x0a, 1, true), 77));
}

#[test]
fn sendto_errors_leave_the_flows_alone() {
    let mut net: SimpleNetwork<u32> = SimpleNetwork::new_mctp_network();
    let sd = net.socket();
    net.bind(sd, 0x0a, 0, 1).unwrap();
    let id = net.add_physical_binding();
    assert_eq!(
        net.sendto(sd, &[1], ext(0x20, 5, 0x25), 1),
        Err(MctpEmuError::Network(Error::InvalidBindingError { binding_id: 5 }))
    );
    assert_eq!(
        net.sendto(9, &[1], ext(0x20, id, 0x25), 1),
        Err(MctpEmuError::Network(Error::InvalidSocketError { sd: 9 }))
    );
    assert_eq!(
        net.sendto(9, &[1], ext(0x20, 5, 0x25), 1),
        Err(MctpEmuError::Network(Error::InvalidBindingError { binding_id: 5 }))
    );
    assert_eq!(
        net.sendto(sd, &[1], SocketAddress::Basic { address: 0x20, msg_type: 0, tag: 0 }, 1),
        Err(MctpEmuError::Network(Error::Other {
            msg: String::from("looking up routes is not yet supported")
        }))
    );
    assert!(net.flows.is_empty());
}

#[test]
fn complete_sendto_hands_out_the_response_or_the_cancellation() {
    assert_eq!(complete_sendto(Ok(()), None), Err(MctpEmuError::Network(Error::FlowCancelled)));
    let addr = ext(0, 1, 0);
    assert_eq!(
        complete_sendto(Ok(()), Some(ClientCallbackMsg::Receive { addr, buf: vec![1, 2, 3] })),
        Ok((addr, vec![1, 2, 3]))
    );
}

#[test]
fn complete_sendto_hands_out_the_error_of_the_binding() {
    let refused = MctpEmuError::Phys(mctp_emu::phys::Error::InvalidAddress { addr: 0x86 });
    assert_eq!(
        complete_sendto(
            Err(MctpEmuError::Phys(mctp_emu::phys::Error::InvalidAddress { addr: 0x86 })),
            None
        ),
        Err(refused)
    );
    let addr = ext(0, 1, 0);
    assert_eq!(
        complete_sendto(
            Err(MctpEmuError::Phys(mctp_emu::phys::Error::SocketError)),
            Some(ClientCallbackMsg::Receive { addr, buf: vec![1] })
        ),
        Err(MctpEmuError::Phys(mctp_emu::phys::Error::SocketError))
    );
}

#[test]
fn a_send_to_an_address_that_the_binding_refuses_ends_with_its_error() {
    let mut net: SimpleNetwork<u32> = SimpleNetwork::new_mctp_network();
    let sd = net.socket();
    net.bind(sd, 0x0a, 0, 1).unwrap();
    let id = net.add_physical_binding();
    let t = net.sendto(sd, &[0x00, 0x80, 0x02], ext(0x20, id, 0x86), 7).unwrap();
    let transmitted = SmbusNetDevBinding::new(0x10).transmit_frame(&t.buf, t.phy_addr).map(|_| ());
    assert_eq!(
        complete_sendto(transmitted, None),
        Err(MctpEmuError::Phys(mctp_emu::phys::Error::InvalidAddress { addr: 0x86 }))
    );
}

#[test]
fn received_frames_that_are_not_mctp_are_dropped() {
    let mut net: SimpleNetwork<u32> = SimpleNetwork::new_mctp_network();
    let frames: Vec<Vec<u8>> = vec![
        vec![],
        vec![0x20, 0x0F, 0x01],
        vec![0x20, 0x0F, 0x01, 0x4B],
        vec![0x20, 0x0F, 0x04, 0x4B, 0x01, 0x0a, 0x20],
        vec![0x20, 0x0E, 0x05, 0x4B, 0x01, 0x0a, 0x20, 0xC1, 0x00],
    ];
    for buf in frames {
        let action = net.callback_handler(NetworkBindingCallbackMsg::Receive { id: 1, buf });
        assert_eq!(action, ReceiveAction::Drop);
    }
}

#[test]
fn flow_correlation_of_two_sends_answered_in_reverse() {
    let mut net: SimpleNetwork<&str> = SimpleNetwork::new_mctp_network();
    let id = net.add_physical_binding();
    let a = net.socket();
    net.bind(a, 0x0a, 0, 1).unwrap();
    let b = net.socket();
    net.bind(b, 0x0a, 0, 2).unwrap();
    let first = net.sendto(a, b"one", ext(0x20, id, 0x25), "waiter one").unwrap();
    let second = net.sendto(b, b"two", ext(0x20, id, 0x25), "waiter two").unwrap();
    assert_eq!(net.flows.len(), 2);

    let reply = reply_frame(&second.buf, 0x25, &second.buf[4..]);
    let action = net.callback_handler(NetworkBindingCallbackMsg::Receive { id, buf: reply });
    match action {
        ReceiveAction::Deliver { waiter, msg: ClientCallbackMsg::Receive { addr, buf } } => {
            assert_eq!(waiter, "waiter two");
            assert_eq!(addr, ext(0, id, 0));
            assert_eq!(&buf[..3], b"two");
            assert_eq!(buf.len(), 4);
        }
        other => panic!("unexpected action {:?}", other),
    }
    assert_eq!(net.flows.len(), 1);

    let reply = reply_frame(&first.buf, 0x25, &first.buf[4..]);
    let action = net.callback_handler(NetworkBindingCallbackMsg::Receive { id, buf: reply });
    match action {
        ReceiveAction::Deliver { waiter, msg: ClientCallbackMsg::Receive { buf, .. } } => {
            assert_eq!(waiter, "waiter one");
            assert_eq!(&buf[..3], b"one");
        }
        other => panic!("unexpected action {:?}", other),
    }
    assert!(net.flows.is_empty());
}

#[test]
fn concurrent_sends_with_distinct_tags_resolve_with_their_own_reply() {
    let orders: [[usize; 5]; 3] = [[4, 3, 2, 1, 0], [0, 1, 2, 3, 4], [2, 4, 0, 3, 1]];
    for order in orders {
        let mut net: SimpleNetwork<usize> = SimpleNetwork::new_mctp_network();
        let id = net.add_physical_binding();
        let mut sent: Vec<Transmit> = Vec::new();
        for i in 0..5usize {
            let sd = net.socket();
            net.bind(sd, 0x0a, 0, i as u8).unwrap();
            sent.push(net.sendto(sd, &[i as u8, 0xEE], ext(0x20, id, 0x25), i).unwrap());
        }
        for i in order {
            let reply = reply_frame(&sent[i].buf, 0x25, &sent[i].buf[4..]);
            match net.callback_handler(NetworkBindingCallbackMsg::Receive { id, buf: reply }) {
                ReceiveAction::Deliver { waiter, msg: ClientCallbackMsg::Receive { buf, .. } } => {
                    assert_eq!(waiter, i);
                    assert_eq!(&buf[..2], &[i as u8, 0xEE]);
                }
                other => panic!("unexpected action {:?}", other),
            }
        }
        assert!(net.flows.is_empty());
    }
}

#[test]
fn a_frame_that_answers_nothing_is_dispatched_as_a_request() {
    let mut net: SimpleNetwork<u32> = SimpleNetwork::new_mctp_network();
    let id = net.add_physical_binding();
    let buf = vec![0x20, 0x0F, 0x08, 0x4B, 0x01, 0x00, 0x02, 0xC8, 0x00, 0x80, 0x02, 0x55];
    assert_eq!(
        net.callback_handler(NetworkBindingCallbackMsg::Receive { id, buf }),
        ReceiveAction::Dispatch {
            binding_id: id,
            phy_addr: 0x25,
            request: vec![0x01, 0x00, 0x02, 0xC8, 0x00, 0x80, 0x02, 0x55],
        }
    );
}

#[test]
fn route_matches_network_and_range() {
    let r = Route { min_eid: 0x10, max_eid: 0x1f, net: 1, mtu: 64, route_type: 0 };
    assert!(r.matches(1, 0x10));
    assert!(r.matches(1, 0x1f));
    assert!(r.matches(1, 0x18));
    assert!(!r.matches(1, 0x0f));
    assert!(!r.matches(1, 0x20));
    assert!(!r.matches(2, 0x18));
}

#[test]
fn virtual_network_finds_the_first_route() {
    let mut net = VirtualNetwork::new_mctp_network();
    let wide = Route { min_eid: 0x08, max_eid: 0xfe, net: 1, mtu: 64, route_type: 0 };
    let narrow = Route { min_eid: 0x10, max_eid: 0x1f, net: 1, mtu: 128, route_type: 1 };
    let other = Route { min_eid: 0x08, max_eid: 0xfe, net: 2, mtu: 64, route_type: 0 };
    assert_eq!(net.route_lookup(1, 0x18), None);
    net.add_route(narrow);
    net.add_route(wide);
    net.add_route(other);
    assert_eq!(net.route_lookup(1, 0x18), Some(narrow));
    assert_eq!(net.route_lookup(1, 0x28), Some(wide));
    assert_eq!(net.route_lookup(2, 0x18), Some(other));
    assert_eq!(net.route_lookup(3, 0x18), None);
    assert_eq!(net.route_lookup(1, 0x07), None);
    assert_eq!(net.resolve_route(ext(0x28, 0, 0)), Ok(wide));
    assert_eq!(
        net.resolve_route(SocketAddress::Extended {
            address: 0x28,
            network: 7,
            binding_id: 0,
            phy_addr: 0
        }),
        Err(MctpEmuError::Other { msg: String::from("route not found") })
    );
    assert_eq!(
        net.resolve_route(SocketAddress::Basic { address: 0x28, msg_type: 0, tag: 0 }),
        Err(MctpEmuError::Network(Error::Other {
            msg: String::from("looking up routes is not yet supported")
        }))
    );
}

#[test]
fn virtual_network_sockets_and_bindings() {
    let mut net = VirtualNetwork::new_mctp_network();
    assert_eq!(net.get_binding(0), Err(Error::InvalidBindingError { binding_id: 0 }));
    assert_eq!(net.add_physical_binding(), 0);
    assert_eq!(net.add_physical_binding(), 1);
    assert_eq!(net.get_binding(0), Ok(()));
    assert_eq!(net.get_binding(1), Ok(()));
    assert_eq!(net.get_binding(2), Err(Error::InvalidBindingError { binding_id: 2 }));
    let sd = net.socket();
    assert_eq!(sd, 0);
    assert_eq!(net.get_client(sd), Err(MctpEmuError::Network(Error::InvalidSocketError { sd })));
    assert_eq!(net.bind(sd, 8, 0, 0), Ok(()));
    assert_eq!(net.get_client(sd), Ok(Client::new(8, 0, 0)));
    let next = net.socket();
    assert_eq!(next, 1);
    assert_eq!(net.bind(sd, 9, 1, 1), Ok(()));
    assert_eq!(net.get_client(sd), Ok(Client::new(9, 1, 1)));
    assert_eq!(net.bind(next, 8, 0, 0), Ok(()));
    for unknown in [-1, 2, 7] {
        assert_eq!(
            net.bind(unknown, 8, 0, 0),
            Err(MctpEmuError::Network(Error::InvalidSocketError { sd: unknown }))
        );
    }
}
