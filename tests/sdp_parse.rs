use bluetooth_serial_port::sdp::QueryRFCOMMChannel;
use bluetooth_serial_port::BtError;

/// A container element of `tag` around `body`, with a one-byte length.
fn container(tag: u8, body: &[u8]) -> Vec<u8> {
    let mut v = vec![tag, body.len() as u8];
    v.extend_from_slice(body);
    v
}

fn seq8(body: &[u8]) -> Vec<u8> {
    container(0x35, body)
}

/// A record whose protocol descriptor list is `list`.
fn record(list: &[u8]) -> Vec<u8> {
    let mut attrs = vec![0x09, 0x00, 0x00, 0x0A, 0x00, 0x01, 0x00, 0x00];
    attrs.extend_from_slice(&[0x09, 0x00, 0x04]);
    attrs.extend_from_slice(list);
    seq8(&attrs)
}

fn l2cap() -> Vec<u8> {
    seq8(&[0x19, 0x01, 0x00])
}

fn rfcomm(channel: u8) -> Vec<u8> {
    seq8(&[0x19, 0x00, 0x03, 0x08, channel])
}

fn response(records: &[Vec<u8>]) -> Vec<u8> {
    seq8(&records.concat())
}

#[test]
fn finds_rfcomm_channel_seven() {
    let list = seq8(&[l2cap(), rfcomm(7)].concat());
    let buf = response(&[record(&list)]);
    assert_eq!(QueryRFCOMMChannel::parse_response(&buf), Ok(7));
}

#[test]
fn only_l2cap_is_not_found() {
    let list = seq8(&l2cap());
    let buf = response(&[record(&list), record(&list)]);
    match QueryRFCOMMChannel::parse_response(&buf) {
        Err(BtError::NotFound(m)) => assert_eq!(m, "No RFCOMM service on remote device"),
        other => panic!("unexpected {:?}", other),
    }
}

#[test]
fn empty_buffer_is_not_found() {
    assert!(matches!(QueryRFCOMMChannel::parse_response(&[]), Err(BtError::NotFound(_))));
}

#[test]
fn empty_outer_sequence_is_not_found() {
    assert!(matches!(
        QueryRFCOMMChannel::parse_response(&[0x35, 0x00]),
        Err(BtError::NotFound(_))
    ));
}

#[test]
fn non_container_start_is_malformed() {
    assert!(matches!(
        QueryRFCOMMChannel::parse_response(&[0x09, 0x00, 0x04]),
        Err(BtError::Malformed(_))
    ));
    assert!(matches!(QueryRFCOMMChannel::parse_response(&[0x35]), Err(BtError::Malformed(_))));
}

#[test]
fn truncated_first_record_is_malformed() {
    // The record says 16 bytes, and 2 follow.
    let buf = vec![0x35, 0x04, 0x35, 0x10, 0x09, 0x00];
    assert!(matches!(QueryRFCOMMChannel::parse_response(&buf), Err(BtError::Malformed(_))));
}

#[test]
fn truncated_trailing_record_is_tolerated() {
    let list = seq8(&[l2cap(), rfcomm(3)].concat());
    let mut buf = response(&[record(&list)]);
    buf.extend_from_slice(&[0x35, 0x20, 0x09]);
    assert_eq!(QueryRFCOMMChannel::parse_response(&buf), Ok(3));
}

#[test]
fn first_channel_in_buffer_order_wins() {
    let a = seq8(&[l2cap(), rfcomm(5)].concat());
    let b = seq8(&[l2cap(), rfcomm(9)].concat());
    let buf = response(&[record(&seq8(&l2cap())), record(&a), record(&b)]);
    assert_eq!(QueryRFCOMMChannel::parse_response(&buf), Ok(5));
}

#[test]
fn integer_outside_rfcomm_descriptor_is_ignored() {
    // The 8-bit integer follows an L2CAP UUID, not an RFCOMM one.
    let list = seq8(&[seq8(&[0x19, 0x01, 0x00, 0x08, 0x04]), rfcomm(12)].concat());
    let buf = response(&[record(&list)]);
    assert_eq!(QueryRFCOMMChannel::parse_response(&buf), Ok(12));
}

#[test]
fn reads_32_and_128_bit_uuids() {
    let d32 = seq8(&[0x1A, 0x00, 0x00, 0x00, 0x03, 0x08, 0x11]);
    let buf = response(&[record(&seq8(&d32))]);
    assert_eq!(QueryRFCOMMChannel::parse_response(&buf), Ok(0x11));

    let mut body = vec![0x1C, 0, 0, 0, 3, 0, 0, 0x10, 0, 0x80, 0, 0, 0x80, 0x5F, 0x9B, 0x34, 0xFB];
    body.extend_from_slice(&[0x08, 0x16]);
    let buf = response(&[record(&seq8(&seq8(&body)))]);
    assert_eq!(QueryRFCOMMChannel::parse_response(&buf), Ok(0x16));

    // Off the base UUID, the 128-bit UUID names some other protocol.
    let mut other = vec![0x1C, 0, 0, 0, 3, 0, 0, 0x10, 0, 0x80, 0, 0, 0x80, 0x5F, 0x9B, 0x34, 0xFC];
    other.extend_from_slice(&[0x08, 0x16]);
    let buf = response(&[record(&seq8(&seq8(&other)))]);
    assert!(matches!(QueryRFCOMMChannel::parse_response(&buf), Err(BtError::NotFound(_))));
}

#[test]
fn reads_alternative_protocol_lists() {
    let first = seq8(&l2cap());
    let second = seq8(&[l2cap(), rfcomm(21)].concat());
    let list = container(0x3D, &[first, second].concat());
    let buf = response(&[record(&list)]);
    assert_eq!(QueryRFCOMMChannel::parse_response(&buf), Ok(21));
}

#[test]
fn reads_sixteen_and_thirty_two_bit_lengths() {
    let list = seq8(&[l2cap(), rfcomm(4)].concat());
    let rec = record(&list);
    let mut buf = vec![0x36, 0x00, rec.len() as u8];
    buf.extend_from_slice(&rec);
    assert_eq!(QueryRFCOMMChannel::parse_response(&buf), Ok(4));

    let mut buf = vec![0x37, 0x00, 0x00, 0x00, rec.len() as u8];
    buf.extend_from_slice(&rec);
    assert_eq!(QueryRFCOMMChannel::parse_response(&buf), Ok(4));
}
