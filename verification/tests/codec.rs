use orientdb_client::buffer::OBuffer;
use orientdb_client::document::ODocument;
use orientdb_client::parser::{decode_document, decode_projection};
use orientdb_client::projection::Projection;
use orientdb_client::reader::{read_varint, read_varstr};
use orientdb_client::rid::ORecordID;
use orientdb_client::serializer::{encode_document, encode_projection};
use orientdb_client::value::{LinkList, OValue, RidBag};
use orientdb_client::parser::parse_value_at;

#[test]
fn test_parse_varint() {
    let mut buf = OBuffer::new();

    buf.write_varint(20).unwrap();

    let result = read_varint(buf.as_slice(), 0).unwrap();

    assert_eq!(result.0, 20);
    assert_eq!(result.1, buf.as_slice().len());
}

#[test]
fn test_parse_string_varint() {
    let mut buf = OBuffer::new();

    buf.write_string("text").unwrap();
    let result = read_varstr(buf.as_slice(), 0).unwrap();
    assert_eq!(result.0, String::from("text"));
    assert_eq!(result.1, buf.as_slice().len());
}

#[test]
fn test_read_write_varint() {
    fn write_read_varint(val: i64) -> i64 {
        let mut buf = OBuffer::new();
        buf.write_varint(val).unwrap();
        let (read, end) = read_varint(buf.as_slice(), 0).unwrap();
        assert_eq!(buf.as_slice().len() - end, 0);
        read
    }
    assert_eq!(write_read_varint(12), 12);
    assert_eq!(write_read_varint(234), 234);
    assert_eq!(write_read_varint(43234), 43234);
    assert_eq!(write_read_varint(46576443234), 46576443234);
    assert_eq!(write_read_varint(534), 534);
    assert_eq!(write_read_varint(-1), -1);
    assert_eq!(write_read_varint(-534), -534);
}

#[test]
fn varint_extremes_round_trip() {
    for val in [0i64, 1, -2, i64::MAX, i64::MIN, 127, 128, -128, 300] {
        let mut buf = OBuffer::new();
        buf.write_varint(val).unwrap();
        let (read, end) = read_varint(buf.as_slice(), 0).unwrap();
        assert_eq!(read, val);
        assert_eq!(end, buf.as_slice().len());
    }
}

#[test]
fn varint_rejects_unterminated() {
    let bytes = [0x80u8; 11];
    assert!(read_varint(&bytes, 0).is_err());
    let empty: [u8; 0] = [];
    assert!(read_varint(&empty, 0).is_err());
}

#[test]
fn doc_simple_test() {
    // Doc build
    let mut doc = ODocument::new("Test");
    doc.set("age", OValue::I32(20));
    doc.set("confirmed", OValue::Boolean(true));
    doc.set("name", OValue::String(String::from("John")));
    doc.set("surname", OValue::String(String::from("Cage")));

    // Doc test
    assert_eq!("Test", doc.class_name());
    assert_eq!(Some(20), doc.get_i32("age"));
    assert_eq!(Some("John"), doc.get_str("name"));
    assert_eq!(Some("Cage"), doc.get_str("surname"));
    assert_eq!(Some(true), doc.get_bool("confirmed"));

    // Checked
    assert_eq!(Some(&OValue::I32(20)), doc.get_checked("age").ok());
    assert_eq!(
        Some(&OValue::String(String::from("John"))),
        doc.get_checked("name").ok()
    );
    assert_eq!(Some(&OValue::Boolean(true)), doc.get_checked("confirmed").ok());

    let checked = doc.get_checked("confirmed1");

    assert!(checked.is_err());

    match checked {
        Err(orientdb_client::error::OrientError::Field(name)) => {
            assert_eq!(name, "confirmed1");
        }
        other => panic!("expected a field error, got {:?}", other),
    }
}

#[test]
fn doc_inner_test() {
    let mut doc = ODocument::new("Test");
    doc.set("age", OValue::I32(20));
    doc.set("confirmed", OValue::Boolean(true));
    doc.set("name", OValue::String(String::from("John")));
    doc.set("surname", OValue::String(String::from("Cage")));
    assert_eq!("Test", doc.class_name());
    assert_eq!(Some(&OValue::I32(20)), doc.get_raw("age"));
    assert_eq!(Some(&OValue::Boolean(true)), doc.get_raw("confirmed"));
    assert_eq!(
        Some(&OValue::String(String::from("John"))),
        doc.get_raw("name")
    );
    assert_eq!(
        Some(&OValue::String(String::from("Cage"))),
        doc.get_raw("surname")
    );
}

#[test]
fn doc_ser_test() {
    let mut doc = ODocument::new("Test");

    // Simple field
    doc.set("age", OValue::I16(20));
    doc.set("year", OValue::I32(1983));
    doc.set("balance", OValue::I64(10000));
    doc.set("confirmed", OValue::Boolean(true));
    doc.set("name", OValue::String(String::from("John")));

    // Complex Field
    doc.set("city", OValue::Link(ORecordID::new(10, 0)));

    let map: Vec<(String, OValue)> = vec![
        (String::from("Norway"), OValue::I32(100)),
        (String::from("Denmark"), OValue::I32(50)),
        (String::from("Iceland"), OValue::I32(10)),
    ];

    let test_map = map.clone();

    doc.set(
        "tags",
        OValue::EmbeddedList(vec![
            OValue::String(String::from("name")),
            OValue::String(String::from("happy")),
            OValue::String(String::from("friends")),
        ]),
    );
    doc.set("map", OValue::EmbeddedMap(map));

    let mut doc_embedded = ODocument::new("EmbeddedClass");
    doc_embedded.set("name", OValue::String(String::from("Foo")));

    let doc_embedded_cloned = doc_embedded.clone();

    doc.set("embedded", OValue::Document(doc_embedded));

    let links = LinkList::new(vec![ORecordID::new(10, 10)]);
    doc.set("links", OValue::LinkList(links));

    let encoded = encode_document(&doc).unwrap();
    let doc = decode_document(encoded.as_slice()).unwrap();

    assert_eq!("Test", doc.class_name());
    assert_eq!(Some(&OValue::I16(20)), doc.get_raw("age"));
    assert_eq!(Some(&OValue::I32(1983)), doc.get_raw("year"));
    assert_eq!(Some(&OValue::I64(10000)), doc.get_raw("balance"));
    assert_eq!(Some(&OValue::Boolean(true)), doc.get_raw("confirmed"));
    assert_eq!(
        Some(&OValue::String(String::from("John"))),
        doc.get_raw("name")
    );

    assert_eq!(
        Some(&OValue::Link(ORecordID::new(10, 0))),
        doc.get_raw("city")
    );

    let tags = OValue::EmbeddedList(vec![
        OValue::String(String::from("name")),
        OValue::String(String::from("happy")),
        OValue::String(String::from("friends")),
    ]);
    assert_eq!(Some(&tags), doc.get_raw("tags"));

    let embedded = OValue::EmbeddedMap(test_map);

    assert_eq!(Some(&embedded), doc.get_raw("map"));

    assert_eq!(
        Some(&OValue::Document(doc_embedded_cloned)),
        doc.get_raw("embedded")
    );

    assert_eq!(
        Some(&OValue::LinkList(LinkList::new(vec![ORecordID::new(10, 10)]))),
        doc.get_raw("links")
    );
}

#[test]
fn empty_document_round_trip() {
    let doc = ODocument::new("");
    let encoded = encode_document(&doc).unwrap();
    let decoded = decode_document(encoded.as_slice()).unwrap();
    assert_eq!("", decoded.class_name());
    assert_eq!(0, decoded.len());
    assert!(decoded.is_empty());
}

#[test]
fn projection_round_trip() {
    let mut p = Projection::new();
    p.insert("name", OValue::String(String::from("admin")));
    p.insert("count", OValue::I64(3));
    p.insert(
        "inner",
        OValue::EmbeddedMap(vec![(String::from("k"), OValue::I32(7))]),
    );
    let encoded = encode_projection(&p).unwrap();
    let decoded = decode_projection(encoded.as_slice()).unwrap();
    assert_eq!(Some("admin"), decoded.as_str("name"));
    assert_eq!(Some(&OValue::I64(3)), decoded.get("count"));
    assert_eq!(
        Some(&OValue::EmbeddedMap(vec![(String::from("k"), OValue::I32(7))])),
        decoded.get("inner")
    );
    assert_eq!(3, decoded.len());
}

#[test]
fn document_rejects_trailing_bytes() {
    let doc = ODocument::new("T");
    let mut encoded = encode_document(&doc).unwrap();
    encoded.put_u8(0).unwrap();
    assert!(decode_document(encoded.as_slice()).is_err());
}

#[test]
fn set_replaces_in_place() {
    let mut doc = ODocument::new("T");
    doc.set("a", OValue::I32(1));
    doc.set("b", OValue::I32(2));
    doc.set("a", OValue::I32(9));
    assert_eq!(Some(&OValue::I32(9)), doc.get_raw("a"));
    assert_eq!(Some(&OValue::I32(2)), doc.get_raw("b"));
    assert_eq!(2, doc.len());
}

#[test]
fn serializer_refuses_unsupported_value() {
    let mut doc = ODocument::new("T");
    doc.set("bits", OValue::F64Bits(0x4000_0000_0000_0000));
    assert!(!orientdb_client::serializer::document_serializable_check(&doc));
}

#[test]
fn builder_builds_document() {
    let doc = ODocument::builder()
        .set_class_name("Person")
        .set("name", OValue::String(String::from("Jane")))
        .build();
    assert_eq!("Person", doc.class_name());
    assert_eq!(Some("Jane"), doc.get_str("name"));
}

#[test]
fn decode_value_tags_for_dates_and_floats() {
    // date: tag 19 then days since the epoch as a varint
    let mut buf = OBuffer::new();
    buf.put_i8(19).unwrap();
    buf.write_varint(18000).unwrap();
    let (v, end) = parse_value_at(buf.as_slice(), false, 0).unwrap();
    assert_eq!(v, OValue::DateDays(18000));
    assert_eq!(end, buf.as_slice().len());

    // datetime: tag 6 then milliseconds since the epoch as a varint
    let mut buf = OBuffer::new();
    buf.put_i8(6).unwrap();
    buf.write_varint(1_555_000_000_000).unwrap();
    let (v, _) = parse_value_at(buf.as_slice(), false, 0).unwrap();
    assert_eq!(v, OValue::DateTimeMillis(1_555_000_000_000));

    // float and double carry their raw big-endian bits
    let bits = 1.5f32.to_bits();
    let mut bytes: Vec<u8> = vec![4];
    bytes.extend_from_slice(&bits.to_be_bytes());
    let (v, _) = parse_value_at(&bytes, false, 0).unwrap();
    match v {
        OValue::F32Bits(b) => assert_eq!(f32::from_bits(b), 1.5),
        other => panic!("expected float bits, got {:?}", other),
    }

    let bits = 2.25f64.to_bits();
    let mut bytes: Vec<u8> = vec![5];
    bytes.extend_from_slice(&bits.to_be_bytes());
    let (v, _) = parse_value_at(&bytes, false, 0).unwrap();
    match v {
        OValue::F64Bits(b) => assert_eq!(f64::from_bits(b), 2.25),
        other => panic!("expected double bits, got {:?}", other),
    }
}

#[test]
fn decode_ridbag_embedded_and_tree() {
    // embedded bag: two uuid halves, kind 1, size, then the links
    let mut buf = OBuffer::new();
    buf.put_i8(22).unwrap();
    for _ in 0..16 {
        buf.put_u8(0).unwrap();
    }
    buf.put_u8(1).unwrap();
    buf.write_varint(2).unwrap();
    buf.write_varint(10).unwrap();
    buf.write_varint(3).unwrap();
    buf.write_varint(11).unwrap();
    buf.write_varint(4).unwrap();
    let (v, end) = parse_value_at(buf.as_slice(), false, 0).unwrap();
    assert_eq!(
        v,
        OValue::RidBag(RidBag::Embedded(vec![
            ORecordID::new(10, 3),
            ORecordID::new(11, 4),
        ]))
    );
    assert_eq!(end, buf.as_slice().len());

    // tree bag: kind 2, five varints, of which only the size is kept
    let mut buf = OBuffer::new();
    buf.put_i8(22).unwrap();
    for _ in 0..16 {
        buf.put_u8(0).unwrap();
    }
    buf.put_u8(2).unwrap();
    buf.write_varint(1).unwrap(); // file id
    buf.write_varint(2).unwrap(); // page index
    buf.write_varint(3).unwrap(); // page offset
    buf.write_varint(42).unwrap(); // bag size
    buf.write_varint(0).unwrap(); // changes
    let (v, _) = parse_value_at(buf.as_slice(), false, 0).unwrap();
    assert_eq!(v, OValue::RidBag(RidBag::Tree(42)));
}

#[test]
fn embedded_value_differs_by_context() {
    // inside a document the EMBEDDED tag carries a nested document
    let mut inner = ODocument::new("Inner");
    inner.set("k", OValue::I32(5));
    let mut buf = OBuffer::new();
    buf.put_i8(9).unwrap();
    let encoded = encode_document(&inner).unwrap();
    buf.put_slice(encoded.as_slice()).unwrap();
    let (v, _) = parse_value_at(buf.as_slice(), false, 0).unwrap();
    match v {
        OValue::Document(d) => assert_eq!(Some(&OValue::I32(5)), d.get_raw("k")),
        other => panic!("expected a document, got {:?}", other),
    }
}

#[test]
fn multibyte_text_round_trips() {
    let mut doc = ODocument::new("Ünïcode");
    doc.set("grüße", OValue::String(String::from("héllo wörld ✓")));
    doc.set("empty", OValue::String(String::new()));
    let encoded = encode_document(&doc).unwrap();
    let decoded = decode_document(encoded.as_slice()).unwrap();
    assert_eq!("Ünïcode", decoded.class_name());
    assert_eq!(Some("héllo wörld ✓"), decoded.get_str("grüße"));
    assert_eq!(Some(""), decoded.get_str("empty"));
}
