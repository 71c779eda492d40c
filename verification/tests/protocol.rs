use orientdb_client::buffer::OBuffer;
use orientdb_client::decoder::{decode_header, decode_response};
use orientdb_client::encoder::{encode_close, encode_handshake, encode_query, WiredProtocol};
use orientdb_client::error::OrientError;
use orientdb_client::options::DatabaseType;
use orientdb_client::request::{Close, HandShake, Query, Request};
use orientdb_client::response::{ResponseType, Status};
use orientdb_client::value::OValue;
use orientdb_client::decoder::decode_live_query_result;
use orientdb_client::result::LiveResult;

#[test]
fn handshake_bytes_are_exact() {
    let mut buf = OBuffer::new();
    encode_handshake(&mut buf, HandShake::new(37, "ab", "1")).unwrap();
    let expected: Vec<u8> = vec![
        20, // opcode
        0, 37, // protocol version
        0, 0, 0, 2, b'a', b'b', // client name
        0, 0, 0, 1, b'1', // client version
        0, 1, // trailing flags
    ];
    assert_eq!(buf.as_slice(), expected.as_slice());
}

#[test]
fn close_bytes_with_and_without_token() {
    let mut buf = OBuffer::new();
    encode_close(&mut buf, Close::new(7, None)).unwrap();
    assert_eq!(buf.as_slice(), &[5, 0, 0, 0, 7]);

    let mut buf = OBuffer::new();
    encode_close(&mut buf, Close::new(7, Some(vec![9, 8]))).unwrap();
    assert_eq!(buf.as_slice(), &[5, 0, 0, 0, 7, 0, 0, 0, 2, 9, 8]);
}

#[test]
fn query_encoding_carries_parameters() {
    let q = Query::new(
        11,
        None,
        "select from OUser where name = :name",
        vec![(String::from("name"), OValue::String(String::from("admin")))],
        true,
        "sql",
        1,
        150,
    );
    let mut buf = OBuffer::new();
    encode_query(&mut buf, q).unwrap();
    let bytes = buf.as_slice();
    assert_eq!(bytes[0], 45); // opcode
    assert_eq!(&bytes[1..5], &[0, 0, 0, 11]); // session id
    // the frame ends with the named flag
    assert_eq!(bytes[bytes.len() - 1], 1);
}

#[test]
fn protocol_negotiation() {
    assert_eq!(WiredProtocol::from_version(37).unwrap().version, 37);
    assert_eq!(WiredProtocol::from_version(40).unwrap().version, 37);
    match WiredProtocol::from_version(36) {
        Err(OrientError::Protocol(_)) => {}
        other => panic!("expected a protocol error, got {:?}", other),
    }
}

#[test]
fn encode_dispatches_by_request() {
    let protocol = WiredProtocol::from_version(37).unwrap();
    let buf = protocol
        .encode(Request::Close(Close::new(3, None)))
        .unwrap();
    assert_eq!(buf.as_slice()[0], 5);
}

#[test]
fn decode_header_reads_push_and_ok() {
    // push frame: single status byte 3
    let (h, end) = decode_header(&[3, 1, 2, 3], 0).unwrap();
    assert_eq!(h.status, Status::PUSH);
    assert_eq!(h.op, 100);
    assert_eq!(end, 1);

    // ok frame: status, session id, absent token, op
    let bytes = [0, 0, 0, 0, 9, 0xff, 0xff, 0xff, 0xff, 6];
    let (h, end) = decode_header(&bytes, 0).unwrap();
    assert_eq!(h.status, Status::OK);
    assert_eq!(h.session_id, 9);
    assert!(h.token.is_none());
    assert_eq!(h.op, 6);
    assert_eq!(end, bytes.len());
}

#[test]
fn decode_exist_response() {
    // header (ok, session 9, no token, op 6) then the exist flag
    let bytes = [0, 0, 0, 0, 9, 0xff, 0xff, 0xff, 0xff, 6, 1];
    let (resp, end) = decode_response(&bytes, 0).unwrap();
    assert_eq!(end, bytes.len());
    match resp.payload {
        ResponseType::ExistDB(x) => assert!(x.exist),
        other => panic!("expected an exist payload, got {:?}", other),
    }
}

#[test]
fn decode_error_frame_surfaces_request_error() {
    let mut buf = OBuffer::new();
    buf.put_i8(1).unwrap(); // status: error
    buf.put_i32(9).unwrap(); // session id
    buf.put_i32(-1).unwrap(); // absent token
    buf.put_i8(45).unwrap(); // op
    buf.put_i32(3).unwrap(); // code: retry eligible
    buf.put_i32(17).unwrap(); // identifier
    buf.write_bool(true).unwrap();
    buf.write_str("OConcurrentModificationException").unwrap();
    buf.write_str("version mismatch").unwrap();
    buf.write_bool(false).unwrap();
    buf.write_slice(&[]).unwrap(); // serialized exception
    match decode_response(buf.as_slice(), 0) {
        Err(OrientError::Request(re)) => {
            assert_eq!(re.code, 3);
            assert_eq!(re.identifier, 17);
            assert_eq!(re.errors.len(), 1);
            assert_eq!(re.errors[0].err_type, "OConcurrentModificationException");
            assert_eq!(re.errors[0].err_msg, "version mismatch");
        }
        other => panic!("expected a request error, got {:?}", other),
    }
}

#[test]
fn decode_truncated_frame_is_decoder_error() {
    let bytes = [0, 0, 0];
    assert!(decode_response(&bytes, 0).is_err());
}

#[test]
fn database_type_names() {
    assert_eq!(DatabaseType::Memory.as_str(), "memory");
    assert_eq!(DatabaseType::PLocal.as_str(), "plocal");
}

#[test]
fn error_categories_render() {
    assert_eq!(OrientError::Pool(String::from("x")).category(), "Pool error");
    assert_eq!(
        OrientError::Conversion(String::from("x")).category(),
        "Conversion error"
    );
    assert_eq!(OrientError::Io(String::from("x")).category(), "IO error");
    assert_eq!(
        OrientError::Generic(String::from("x")).category(),
        "Generic error"
    );
    assert_eq!(OrientError::UTF8(String::from("x")).category(), "UTF8 error");
    assert_eq!(
        OrientError::Decoder(String::from("x")).category(),
        "Decoder error"
    );
    assert_eq!(
        OrientError::Field(String::from("x")).category(),
        "Field error"
    );
}

// an empty projection row: kind 4, a 2-byte body of zero fields and zero
// metadata entries
fn push_row(buf: &mut OBuffer) {
    buf.put_i8(4).unwrap();
    buf.write_slice(&[0, 0]).unwrap();
}

#[test]
fn live_push_frame_decodes_events_in_order() {
    let mut buf = OBuffer::new();
    buf.put_i8(1).unwrap(); // push kind
    buf.put_i32(77).unwrap(); // monitor id
    buf.put_i8(1).unwrap(); // subscription still live
    buf.put_i32(3).unwrap(); // three events
    buf.put_i8(1).unwrap(); // created
    push_row(&mut buf);
    buf.put_i8(2).unwrap(); // updated: after then before
    push_row(&mut buf);
    push_row(&mut buf);
    buf.put_i8(3).unwrap(); // deleted
    push_row(&mut buf);

    let (lv, end) = decode_live_query_result(buf.as_slice(), 0).unwrap();
    assert_eq!(end, buf.as_slice().len());
    assert_eq!(lv.monitor_id, 77);
    assert!(!lv.ended);
    assert_eq!(lv.events.len(), 3);
    assert!(matches!(lv.events[0], LiveResult::Created(_)));
    assert!(matches!(lv.events[1], LiveResult::Updated(_)));
    assert!(matches!(lv.events[2], LiveResult::Deleted(_)));
}

#[test]
fn push_status_two_ends_subscription() {
    let mut buf = OBuffer::new();
    buf.put_i8(1).unwrap();
    buf.put_i32(8).unwrap();
    buf.put_i8(2).unwrap(); // ended
    buf.put_i32(0).unwrap(); // no events
    let (lv, _) = decode_live_query_result(buf.as_slice(), 0).unwrap();
    assert!(lv.ended);
    assert_eq!(lv.monitor_id, 8);
}
