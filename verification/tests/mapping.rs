use insight_protocol::avro::{
    Builder, NOTIFY_MESSAGE_SCHEMA, PING_REQUEST_RESPONSE_SCHEMA, UNIT_ELEMENT_MESSAGE_SCHEMA,
};
use insight_protocol::objects::ping::{PingRequestResponse, PingRequestResponseType};
use insight_protocol::avro::ProtocolMessage;
use insight_protocol::objects::notify_message::NotifyMessage;
use insight_protocol::objects::{FromProtocolMessage, ToProtocolMessage};
use insight_protocol::primitives::{
    get_empty_track_name, pack_track_name, AttrMap, NotifyType, NotifyTypeImpl, TrackType, Unit,
};
use insight_protocol::tree::TreeValue;
use insight_protocol::utils::{fill_byte_array, value_to_string};

/// The unit record tree for a hand-built payload, with an arbitrary track
/// literal.
fn unit_tree(literal: &str) -> TreeValue {
    TreeValue::Record(vec![
        (
            "stream_name".to_string(),
            TreeValue::Bytes(b"0123456789abcdef".to_vec()),
        ),
        (
            "track_name".to_string(),
            TreeValue::Bytes(b"test".to_vec()),
        ),
        (
            "track_type".to_string(),
            TreeValue::Enum(0, literal.to_string()),
        ),
        ("unit".to_string(), TreeValue::Long(3)),
    ])
}

#[test]
fn unit_saved_notification_truncates_long_identity() {
    // A 36-character stream identity, a 4-character track name, a meta
    // track, sequence 0, ready at element 10.
    let mb = Builder::new();
    let identity = "fa807469-fbb3-4f63-b1a9-f63fbbf90f41";
    assert_eq!(identity.len(), 36);
    let saved_ms: u64 = 1234567;
    let msg = NotifyMessage::new(
        Unit::new(
            identity.as_bytes().to_vec(),
            b"test".to_vec(),
            "META".to_string(),
            0,
        ),
        saved_ms,
        NotifyType::ready(10),
    );

    let envelope = msg.save(&mb).unwrap();
    let bytes = mb.save_from_avro(envelope).unwrap();
    let decoded_envelope = mb.load_to_avro(bytes).unwrap();
    let decoded = NotifyMessage::load(&decoded_envelope).unwrap();

    assert_eq!(msg, decoded);
    // The stored stream identity is exactly the first sixteen bytes of the
    // over-long input.
    assert_eq!(&decoded.stream_unit.stream_name[..], &identity.as_bytes()[..16]);
    // The stored track name is "test" plus twelve zero bytes.
    let mut expected_track = [0u8; 16];
    expected_track[..4].copy_from_slice(b"test");
    assert_eq!(decoded.stream_unit.track_name, expected_track);
    assert_eq!(decoded.stream_unit.track_type, TrackType::Meta);
    assert_eq!(decoded.saved_ms, saved_ms);
    assert_eq!(decoded.notify_type, NotifyType::ready(10));
}

#[test]
fn unknown_track_literal_maps_to_fallback() {
    // A record whose enum field carries a literal absent from the literal
    // table maps to the fallback variant, never to a failure.
    let pm = ProtocolMessage {
        schema: UNIT_ELEMENT_MESSAGE_SCHEMA.to_string(),
        object: TreeValue::Record(vec![
            ("stream_unit".to_string(), unit_tree("AUDIO")),
            ("element".to_string(), TreeValue::Long(1)),
            ("value".to_string(), TreeValue::Bytes(vec![1])),
            ("attributes".to_string(), TreeValue::Dict(vec![])),
            ("last".to_string(), TreeValue::Boolean(false)),
        ]),
    };
    let m = insight_protocol::objects::unit_element_message::UnitElementMessage::load(&pm)
        .unwrap();
    assert_eq!(m.stream_unit.track_type, TrackType::NotImplemented);
}

#[test]
fn unknown_notify_literal_maps_to_fallback() {
    let pm = ProtocolMessage {
        schema: NOTIFY_MESSAGE_SCHEMA.to_string(),
        object: TreeValue::Record(vec![
            ("stream_unit".to_string(), unit_tree("VIDEO")),
            ("last_element".to_string(), TreeValue::Int(5)),
            ("saved_ms".to_string(), TreeValue::Long(7)),
            (
                "notify_type".to_string(),
                TreeValue::Enum(0, "DISCARDED".to_string()),
            ),
        ]),
    };
    let m = NotifyMessage::load(&pm).unwrap();
    assert_eq!(m.notify_type, NotifyType { obj: NotifyTypeImpl::NotImplemented });
}

#[test]
fn fallback_variants_cannot_be_encoded() {
    // The wire format cannot represent the fallback variants: saving such a
    // message is a typed refusal, not a crash.
    let mb = Builder::new();
    let with_bad_notify = NotifyMessage::new(
        Unit::new(vec![1], vec![2], "VIDEO".to_string(), 0),
        0,
        NotifyType { obj: NotifyTypeImpl::NotImplemented },
    );
    assert!(with_bad_notify.save(&mb).is_none());

    let with_bad_track = NotifyMessage::new(
        Unit::new(vec![1], vec![2], "SUBTITLES".to_string(), 0),
        0,
        NotifyType::new(),
    );
    assert!(with_bad_track.save(&mb).is_none());
}

#[test]
fn pack_track_name_rejects_long_names() {
    assert!(pack_track_name("0123456789abcdef").is_ok());
    assert!(pack_track_name("0123456789abcdefg").is_err());
    let packed = pack_track_name("abc").unwrap();
    assert_eq!(&packed[..3], b"abc");
    assert_eq!(packed[3..], [0u8; 13]);
}

#[test]
fn fill_byte_array_truncates_and_keeps_tail() {
    let mut buf = get_empty_track_name();
    fill_byte_array(&mut buf, &vec![7u8; 20]);
    assert_eq!(buf, [7u8; 16]);
    let mut buf2 = [9u8; 16];
    fill_byte_array(&mut buf2, &vec![1, 2]);
    assert_eq!(&buf2[..2], &[1, 2]);
    assert_eq!(buf2[2..], [9u8; 14]);
}

#[test]
fn attr_map_equality_ignores_order() {
    let a = AttrMap::from_pairs(vec![("a".into(), "1".into()), ("b".into(), "2".into())]);
    let b = AttrMap::from_pairs(vec![("b".into(), "2".into()), ("a".into(), "1".into())]);
    assert_eq!(a, b);
    let c = AttrMap::from_pairs(vec![("a".into(), "1".into())]);
    assert_ne!(a, c);
    // A later pair with the same key replaces an earlier one.
    let d = AttrMap::from_pairs(vec![("a".into(), "0".into()), ("a".into(), "1".into())]);
    assert_eq!(c, d);
}

#[test]
fn non_string_attr_value_fails_closed() {
    let pm = ProtocolMessage {
        schema: UNIT_ELEMENT_MESSAGE_SCHEMA.to_string(),
        object: TreeValue::Record(vec![
            ("stream_unit".to_string(), unit_tree("VIDEO")),
            ("element".to_string(), TreeValue::Long(1)),
            ("value".to_string(), TreeValue::Bytes(vec![1])),
            (
                "attributes".to_string(),
                TreeValue::Dict(vec![("k".to_string(), TreeValue::Long(1))]),
            ),
            ("last".to_string(), TreeValue::Boolean(false)),
        ]),
    };
    assert!(
        insight_protocol::objects::unit_element_message::UnitElementMessage::load(&pm).is_none()
    );
}

#[test]
fn wrong_field_count_fails_closed() {
    let pm = ProtocolMessage {
        schema: UNIT_ELEMENT_MESSAGE_SCHEMA.to_string(),
        object: TreeValue::Record(vec![(
            "stream_unit".to_string(),
            unit_tree("VIDEO"),
        )]),
    };
    assert!(
        insight_protocol::objects::unit_element_message::UnitElementMessage::load(&pm).is_none()
    );
}

#[test]
fn value_to_string_extracts_only_strings() {
    assert_eq!(
        value_to_string(&TreeValue::Str("hello".to_string())),
        Some("hello".to_string())
    );
    assert_eq!(value_to_string(&TreeValue::Long(1)), None);
}

#[test]
fn unknown_ping_literal_maps_to_fallback() {
    let pm = ProtocolMessage {
        schema: PING_REQUEST_RESPONSE_SCHEMA.to_string(),
        object: TreeValue::Record(vec![
            ("request_id".to_string(), TreeValue::Long(1)),
            ("topic".to_string(), TreeValue::Str("t".to_string())),
            ("type".to_string(), TreeValue::Enum(0, "PROBE".to_string())),
        ]),
    };
    let m = PingRequestResponse::load(&pm).unwrap();
    assert_eq!(m.mtype, PingRequestResponseType::NotImplemented);

    // The fallback kind has no wire form.
    let mb = Builder::new();
    let bad = PingRequestResponse::new(1, "t".to_string(), PingRequestResponseType::NotImplemented);
    assert!(bad.save(&mb).is_none());
}
