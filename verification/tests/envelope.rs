use insight_protocol::avro::{
    str_eq, BuildError, Builder, BuilderImpl, DecodeError, EncodeError, ProtocolMessage,
    MESSAGE_ENVELOPE_SCHEMA, UNIT_SCHEMA,
};
use insight_protocol::objects::ping::{PingRequestResponse, PingRequestResponseType};
use insight_protocol::objects::ToProtocolMessage;
use insight_protocol::primitives::{pack_stream_name, pack_track_name, AttrMap, Unit};
use insight_protocol::protocol::Message;
use insight_protocol::tree::TreeValue;
use uuid::Uuid;

/// Build an envelope directly with the external codec, bypassing the
/// library's own pack, so that malformed and unknown-schema envelopes can be
/// fed to unpack.
fn raw_envelope(mb: &Builder, schema_name: &[u8], payload: &[u8]) -> Vec<u8> {
    let envelope_schema = mb.get_record(MESSAGE_ENVELOPE_SCHEMA).unwrap();
    let record = avro_rs::types::Value::Record(vec![
        (
            "schema".to_string(),
            avro_rs::types::Value::Bytes(schema_name.to_vec()),
        ),
        (
            "payload".to_string(),
            avro_rs::types::Value::Bytes(payload.to_vec()),
        ),
    ]);
    avro_rs::to_avro_datum(envelope_schema, record).unwrap()
}

#[test]
fn catalog_contains_every_manifest_schema() {
    let mb = Builder::new();
    for (_, file) in BuilderImpl::schema_files() {
        assert!(mb.get_record(file).is_some(), "missing schema {}", file);
    }
    assert!(mb.get_record(MESSAGE_ENVELOPE_SCHEMA).is_some());
    assert!(mb.get_record("insight.storage.Unknown.avsc").is_none());
}

#[test]
fn unpack_tiny_buffer_is_typed_error() {
    let mb = Builder::new();
    let r = mb.load_to_avro(vec![1, 2, 3]);
    assert!(r.is_none());
}

#[test]
fn unpack_garbage_is_typed_error() {
    let mb = Builder::new();
    let r = mb.load_to_avro(vec![0xff; 64]);
    assert!(r.is_none());
}

#[test]
fn unpack_unknown_schema_names_the_schema() {
    let mb = Builder::new();
    let bytes = raw_envelope(&mb, b"insight.storage.Unknown.avsc", &[]);
    // The typed unpack on the catalog reports the offending name.
    let builder_impl = BuilderImpl::new();
    match builder_impl.read_protocol_message(&bytes) {
        Err(DecodeError::UnknownSchema(name)) => {
            assert_eq!(name, "insight.storage.Unknown.avsc");
            let msg = DecodeError::UnknownSchema(name).message();
            assert!(msg.contains("insight.storage.Unknown.avsc"));
        }
        other => panic!("expected an unknown-schema error, got {:?}", other.err()),
    }
}

#[test]
fn unpack_invalid_utf8_schema_name_is_typed_error() {
    let mb = Builder::new();
    let builder_impl = BuilderImpl::new();
    let bytes = raw_envelope(&mb, &[0xff, 0xfe], &[]);
    match builder_impl.read_protocol_message(&bytes) {
        Err(DecodeError::SchemaNameUtf8) => {}
        other => panic!("expected a UTF-8 error, got {:?}", other.err()),
    }
}

#[test]
fn unpack_bad_payload_is_typed_error() {
    let mb = Builder::new();
    let builder_impl = BuilderImpl::new();
    // A unit record payload cannot be a bare 0xff: the varint length of its
    // first byte-string field is negative.
    let bytes = raw_envelope(&mb, UNIT_SCHEMA.as_bytes(), &[0xff]);
    match builder_impl.read_protocol_message(&bytes) {
        Err(DecodeError::InnerDecode) => {}
        other => panic!("expected an inner decode error, got {:?}", other.err()),
    }
}

#[test]
fn pack_unknown_schema_is_typed_error() {
    let mb = Builder::new();
    let pm = ProtocolMessage {
        schema: "insight.storage.Unknown.avsc".to_string(),
        object: TreeValue::Long(1),
    };
    assert_eq!(mb.save_from_avro(pm), Err(EncodeError::UnknownSchema));
}

#[test]
fn pack_invalid_value_is_typed_error() {
    let mb = Builder::new();
    let pm = ProtocolMessage {
        schema: UNIT_SCHEMA.to_string(),
        object: TreeValue::Long(1),
    };
    assert_eq!(mb.save_from_avro(pm), Err(EncodeError::InvalidValue));
}

#[test]
fn two_catalogs_encode_byte_identically() {
    let mb1 = Builder::new();
    let mb2 = Builder::new();
    let track_name = pack_track_name("test").unwrap();
    let stream_uuid = Uuid::parse_str("fa807469-fbb3-4f63-b1a9-f63fbbf90f41").unwrap();
    let stream_name = pack_stream_name(&stream_uuid);
    let msg = Message::UnitElementMessage(
        insight_protocol::objects::unit_element_message::UnitElementMessage::new(
            Unit::new(
                stream_name.to_vec(),
                track_name.to_vec(),
                "VIDEO".to_string(),
                3,
            ),
            2,
            vec![9, 8, 7],
            AttrMap::from_pairs(vec![("k".into(), "v".into())]),
            false,
        ),
    );
    let b1 = mb1.save(&msg).unwrap();
    let b2 = mb2.save(&msg).unwrap();
    assert_eq!(b1, b2);
}

#[test]
fn dispatcher_round_trip() {
    let mb = Builder::new();
    let ping = Message::PingRequestResponse(PingRequestResponse::new(
        7,
        "topic".to_string(),
        PingRequestResponseType::Request,
    ));
    let bytes = mb.save(&ping).unwrap();
    let back = mb.load(bytes).unwrap();
    assert_eq!(ping, back);

    let keep = Message::KeepAliveMessage(
        insight_protocol::objects::keep_alive::KeepAliveMessage::new("module".into()),
    );
    let bytes = mb.save(&keep).unwrap();
    let back = mb.load(bytes).unwrap();
    assert_eq!(keep, back);
}

#[test]
fn dispatcher_rejects_unregistered_but_cataloged_schema() {
    // The unit schema is in the catalog but is no registered message type:
    // decoding an envelope around it yields no match, not an error.
    let mb = Builder::new();
    let track_name = pack_track_name("test").unwrap();
    let unit = Unit::new(
        b"0123456789abcdef".to_vec(),
        track_name.to_vec(),
        "VIDEO".to_string(),
        1,
    );
    let pm = ProtocolMessage {
        schema: UNIT_SCHEMA.to_string(),
        object: unit.to_avro_record().unwrap(),
    };
    let bytes = mb.save_from_avro(pm).unwrap();
    assert!(mb.load_to_avro(bytes.clone()).is_some());
    assert!(mb.load(bytes).is_none());
}

#[test]
fn str_eq_compares_contents() {
    assert!(str_eq("abc", "abc"));
    assert!(!str_eq("abc", "abd"));
    assert!(!str_eq("abc", "abcd"));
    assert!(str_eq("", ""));
}

#[test]
fn catalog_from_foreign_texts_is_refused() {
    // A batch that is not this protocol's schema set is refused: the
    // library's statements about the codec are made for the fixed catalog.
    let texts = vec![r#"{"type":"enum","name":"Other","namespace":"x","symbols":["A"]}"#.to_string()];
    assert_eq!(
        BuilderImpl::from_texts(&texts).err(),
        Some(BuildError::SchemaTextMismatch)
    );
    assert!(Builder::from_texts(&texts).is_err());
}

#[test]
fn enum_index_at_symbol_count_is_typed_error() {
    // A unit payload whose track-kind field carries index 2 or 9: past the
    // two-symbol table.  Byte layout: empty stream_name, empty track_name,
    // the enum index as a zigzag varint, unit 0.
    let mb = Builder::new();
    let builder_impl = BuilderImpl::new();
    for raw_index in [4u8, 18u8] {
        let payload = [0u8, 0, raw_index, 0];
        let bytes = raw_envelope(&mb, UNIT_SCHEMA.as_bytes(), &payload);
        match builder_impl.read_protocol_message(&bytes) {
            Err(DecodeError::InnerDecode) => {}
            other => panic!("expected an inner decode error, got ok={:?}", other.is_ok()),
        }
    }
    // An in-range index still decodes.
    let payload = [0u8, 0, 2, 0];
    let bytes = raw_envelope(&mb, UNIT_SCHEMA.as_bytes(), &payload);
    assert!(builder_impl.read_protocol_message(&bytes).is_ok());
}

#[test]
fn catalog_from_matching_texts_is_accepted() {
    let texts: Vec<String> = insight_protocol::avro::schema_texts()
        .into_iter()
        .map(|t| t.to_string())
        .collect();
    let built = BuilderImpl::from_texts(&texts);
    assert!(built.is_ok());
    assert!(Builder::from_texts(&texts).is_ok());

    // One altered byte in one text is enough to refuse the batch.
    let mut altered = texts.clone();
    altered[0] = altered[0].replace("VIDEO", "VIDEQ");
    assert_eq!(
        BuilderImpl::from_texts(&altered).err(),
        Some(BuildError::SchemaTextMismatch)
    );
}
