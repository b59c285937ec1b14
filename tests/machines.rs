use bluetooth_serial_port::error::create_error_from_errno;
use bluetooth_serial_port::sdp::{
    DiscoveryState, QueryRFCOMMChannel, QueryRFCOMMChannelStatus, SdpAttrReqType, SdpCall,
    SdpOutcome, SdpReply,
};
use bluetooth_serial_port::socket::{
    BtAsync, BtSocketConnect, ConnectCall, ConnectOutcome, ConnectionState, Direction,
};
use bluetooth_serial_port::{BtAddr, BtError};

fn payload_with_channel(channel: u8) -> Vec<u8> {
    let desc = vec![0x35, 0x05, 0x19, 0x00, 0x03, 0x08, channel];
    let mut list = vec![0x35, desc.len() as u8];
    list.extend_from_slice(&desc);
    let mut attrs = vec![0x09, 0x00, 0x04];
    attrs.extend_from_slice(&list);
    let mut rec = vec![0x35, attrs.len() as u8];
    rec.extend_from_slice(&attrs);
    let mut buf = vec![0x35, rec.len() as u8];
    buf.extend_from_slice(&rec);
    buf
}

fn finished(status: u16, payload: Vec<u8>, session_error: i32) -> SdpOutcome {
    SdpOutcome::Finished(SdpReply { status, payload, session_error })
}

#[test]
fn discovery_runs_through_its_stages() {
    let addr = BtAddr([1, 2, 3, 4, 5, 6]);
    let mut q = QueryRFCOMMChannel::new(addr);
    assert_eq!(q.state(), DiscoveryState::New);
    assert!(!q.holds_session());
    assert_eq!(
        q.pending(),
        SdpCall::Connect { local: BtAddr::any(), remote: addr, flags: 0x04 }
    );

    assert_eq!(q.advance(SdpOutcome::Opened(9)), Ok(QueryRFCOMMChannelStatus::WaitWritable(9)));
    assert_eq!(q.state(), DiscoveryState::Connecting);
    assert!(q.holds_session());
    assert_eq!(
        q.pending(),
        SdpCall::Search { service: 0x1101, req_type: SdpAttrReqType::Range, attr_range: 0xFFFF }
    );

    assert_eq!(q.advance(SdpOutcome::Submitted), Ok(QueryRFCOMMChannelStatus::WaitReadable(9)));
    assert_eq!(q.state(), DiscoveryState::AwaitingResponse);
    assert_eq!(q.pending(), SdpCall::Process);

    let p = payload_with_channel(7);
    let expected = QueryRFCOMMChannel::parse_response(&p).map(QueryRFCOMMChannelStatus::Done);
    assert_eq!(q.advance(finished(0, p, 0)), expected);
    assert_eq!(expected, Ok(QueryRFCOMMChannelStatus::Done(7)));
    assert_eq!(q.state(), DiscoveryState::Done);
    assert!(!q.holds_session());
}

#[test]
fn discovery_waits_while_transaction_runs() {
    let mut q = QueryRFCOMMChannel::new(BtAddr::any());
    q.advance(SdpOutcome::Opened(4)).unwrap();
    q.advance(SdpOutcome::Submitted).unwrap();
    for _ in 0..3 {
        assert_eq!(q.advance(SdpOutcome::InProgress), Ok(QueryRFCOMMChannelStatus::WaitReadable(4)));
        assert_eq!(q.state(), DiscoveryState::AwaitingResponse);
    }
}

#[test]
fn done_discovery_rejects_every_outcome() {
    let mut q = QueryRFCOMMChannel::new(BtAddr::any());
    q.advance(SdpOutcome::Opened(4)).unwrap();
    q.advance(SdpOutcome::Submitted).unwrap();
    q.advance(finished(0, payload_with_channel(1), 0)).unwrap();
    assert_eq!(q.state(), DiscoveryState::Done);
    for o in [
        SdpOutcome::Opened(4),
        SdpOutcome::Submitted,
        SdpOutcome::InProgress,
        finished(0, vec![], 0),
        SdpOutcome::Failed(5),
    ] {
        assert!(!q.accepts(&o));
    }
}

#[test]
fn discovery_refuses_outcomes_of_other_calls() {
    let q = QueryRFCOMMChannel::new(BtAddr::any());
    assert!(q.accepts(&SdpOutcome::Opened(3)));
    assert!(q.accepts(&SdpOutcome::Failed(3)));
    assert!(!q.accepts(&SdpOutcome::Submitted));
    assert!(!q.accepts(&SdpOutcome::InProgress));
}

#[test]
fn discovery_open_failure_is_native_error() {
    let mut q = QueryRFCOMMChannel::new(BtAddr::any());
    match q.advance(SdpOutcome::Failed(112)) {
        Err(BtError::Errno(112, m)) => {
            assert_eq!(m, "sdp_connect(): Bluetooth device not accessible: Host is down")
        }
        other => panic!("unexpected {:?}", other),
    }
    assert_eq!(q.state(), DiscoveryState::Done);
    assert!(!q.holds_session());
}

#[test]
fn discovery_send_failure_releases_session() {
    let mut q = QueryRFCOMMChannel::new(BtAddr::any());
    q.advance(SdpOutcome::Opened(4)).unwrap();
    assert!(matches!(q.advance(SdpOutcome::Failed(104)), Err(BtError::Errno(104, _))));
    assert_eq!(q.state(), DiscoveryState::Done);
    assert!(!q.holds_session());
}

#[test]
fn discovery_protocol_errors() {
    let texts = [
        "Invalid version",
        "Invalid record handle",
        "Invalid syntax",
        "Invalid PDU size",
        "Invalid CState",
    ];
    for (i, t) in texts.iter().enumerate() {
        let reply = SdpReply { status: i as u16 + 1, payload: vec![], session_error: 0 };
        match QueryRFCOMMChannel::reply_result(&reply) {
            Err(BtError::Protocol(m)) => {
                assert_eq!(m, format!("sdp_service_search_attr_async(): Protocol error: {}", t))
            }
            other => panic!("unexpected {:?}", other),
        }
    }
}

#[test]
fn discovery_session_failure_carries_session_error() {
    let mut q = QueryRFCOMMChannel::new(BtAddr::any());
    q.advance(SdpOutcome::Opened(4)).unwrap();
    q.advance(SdpOutcome::Submitted).unwrap();
    match q.advance(finished(0xFFFF, vec![], 110)) {
        Err(BtError::Errno(110, m)) => assert!(m.starts_with(
            "sdp_service_search_attr_async(): Service record search failed: "
        )),
        other => panic!("unexpected {:?}", other),
    }
}

#[test]
fn discovery_without_rfcomm_is_not_found() {
    let mut q = QueryRFCOMMChannel::new(BtAddr::any());
    q.advance(SdpOutcome::Opened(4)).unwrap();
    q.advance(SdpOutcome::Submitted).unwrap();
    assert!(matches!(q.advance(finished(0, vec![], 0)), Err(BtError::NotFound(_))));
}

#[test]
fn errno_error_describes_the_number() {
    match create_error_from_errno("connect", 111) {
        BtError::Errno(111, m) => assert_eq!(m, "connect: Connection refused"),
        other => panic!("unexpected {:?}", other),
    }
    let e = create_error_from_errno("x", 107);
    assert_eq!(e.description(), "x: Transport endpoint is not connected");
    assert_eq!(BtError::Unknown.description(), "Unknown Bluetooth Error");
    assert_eq!(BtError::Desc("d".to_string()).description(), "d");
}

/// Runs a connection to the point where the channel is known.
fn discovered(socket: i32, channel: u8) -> BtSocketConnect {
    let mut c = BtSocketConnect::new(socket, BtAddr([1, 2, 3, 4, 5, 6]));
    assert_eq!(
        c.advance(ConnectOutcome::Sdp(SdpOutcome::Opened(8))),
        Ok(BtAsync::WaitFor(8, Direction::Writable))
    );
    assert_eq!(
        c.advance(ConnectOutcome::Sdp(SdpOutcome::Submitted)),
        Ok(BtAsync::WaitFor(8, Direction::Readable))
    );
    assert_eq!(
        c.advance(ConnectOutcome::Sdp(finished(0, payload_with_channel(channel), 0))),
        Ok(BtAsync::Proceed)
    );
    assert!(!c.holds_session());
    c
}

#[test]
fn connection_discovers_then_connects() {
    let mut c = BtSocketConnect::new(5, BtAddr([1, 2, 3, 4, 5, 6]));
    assert_eq!(c.state(), ConnectionState::DiscoveringChannel);
    match c.pending() {
        ConnectCall::Sdp(SdpCall::Connect { remote, .. }) => {
            assert_eq!(remote, BtAddr([6, 5, 4, 3, 2, 1]))
        }
        other => panic!("unexpected {:?}", other),
    }
    let mut c = discovered(5, 7);
    match c.pending() {
        ConnectCall::Connect { socket, address } => {
            assert_eq!(socket, 5);
            assert_eq!(address.family, 31);
            assert_eq!(address.bdaddr, BtAddr([6, 5, 4, 3, 2, 1]));
            assert_eq!(address.channel, 7);
        }
        other => panic!("unexpected {:?}", other),
    }
    assert_eq!(
        c.advance(ConnectOutcome::Failed(115)),
        Ok(BtAsync::WaitFor(5, Direction::Writable))
    );
    assert_eq!(c.state(), ConnectionState::Connecting);
    assert_eq!(c.pending(), ConnectCall::PeerName(5));
    assert_eq!(c.advance(ConnectOutcome::Succeeded), Ok(BtAsync::Done));
    assert_eq!(c.state(), ConnectionState::Done);
}

#[test]
fn refused_connection_reports_read_error() {
    let mut c = discovered(5, 7);
    assert_eq!(
        c.advance(ConnectOutcome::Failed(115)),
        Ok(BtAsync::WaitFor(5, Direction::Writable))
    );
    assert_eq!(c.advance(ConnectOutcome::Failed(107)), Ok(BtAsync::Proceed));
    assert_eq!(c.pending(), ConnectCall::ReadPending(5));
    match c.advance(ConnectOutcome::Failed(111)) {
        Err(BtError::Errno(111, m)) => {
            assert_eq!(m, "Failed to connect() to target device: Connection refused")
        }
        other => panic!("unexpected {:?}", other),
    }
    assert_eq!(c.state(), ConnectionState::Done);
    assert!(!c.accepts(&ConnectOutcome::Failed(111)));
    assert!(!c.accepts(&ConnectOutcome::Succeeded));
}

#[test]
fn immediate_connect_failure_is_terminal() {
    let mut c = discovered(5, 7);
    assert!(matches!(c.advance(ConnectOutcome::Failed(112)), Err(BtError::Errno(112, _))));
    assert_eq!(c.state(), ConnectionState::Done);
}

#[test]
fn other_peer_query_failure_is_reported() {
    let mut c = discovered(5, 7);
    c.advance(ConnectOutcome::Succeeded).unwrap();
    match c.advance(ConnectOutcome::Failed(9)) {
        Err(BtError::Errno(9, m)) => assert!(m.starts_with("getpeername() failed: ")),
        other => panic!("unexpected {:?}", other),
    }
}

#[test]
fn discovery_error_ends_connection() {
    let mut c = BtSocketConnect::new(5, BtAddr::any());
    assert!(matches!(
        c.advance(ConnectOutcome::Sdp(SdpOutcome::Failed(112))),
        Err(BtError::Errno(112, _))
    ));
    assert_eq!(c.state(), ConnectionState::Done);
    assert!(!c.accepts(&ConnectOutcome::Sdp(SdpOutcome::Opened(1))));
}
