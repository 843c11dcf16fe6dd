use insight_protocol::avro::{Builder, UNIT_ELEMENT_MESSAGE_SCHEMA};
use insight_protocol::objects::ffprobe::{
    ServicesFFProbeRequest, ServicesFFProbeResponse, ServicesFFProbeResponseType,
};
use insight_protocol::objects::keep_alive::KeepAliveMessage;
use insight_protocol::objects::notify_message::NotifyMessage;
use insight_protocol::objects::ping::{PingRequestResponse, PingRequestResponseType};
use insight_protocol::objects::stream_track_unit_elements::{
    StreamTrackUnitElementsRequest, StreamTrackUnitElementsResponse,
};
use insight_protocol::objects::stream_track_units::{
    StreamTrackUnitsRequest, StreamTrackUnitsResponse,
};
use insight_protocol::objects::stream_tracks::{StreamTracksRequest, StreamTracksResponse};
use insight_protocol::objects::unit_element_message::UnitElementMessage;
use insight_protocol::objects::{FromProtocolMessage, ToProtocolMessage};
use insight_protocol::primitives::{
    pack_stream_name, pack_track_name, AttrMap, NotifyType, Payload, TrackInfo, TrackType, Unit,
};
use uuid::Uuid;

#[test]
fn test_load_schemas() {
    let mb = Builder::new();
    let r = mb.get_record(UNIT_ELEMENT_MESSAGE_SCHEMA);
    assert!(r.is_some());
}

#[test]
fn test_load_save() {
    let mb = Builder::new();
    let req = KeepAliveMessage::new("module".into());

    let req_envelope_opt = req.save(&mb);
    assert!(req_envelope_opt.is_some());

    let req_envelope = req_envelope_opt.unwrap();
    let req_serialized = mb.save_from_avro(req_envelope).unwrap();

    let req_envelope_opt = mb.load_to_avro(req_serialized);
    assert!(req_envelope_opt.is_some());

    let req_envelope = req_envelope_opt.unwrap();

    let new_req_opt = KeepAliveMessage::load(&req_envelope);

    assert!(new_req_opt.is_some());

    let new_req = new_req_opt.unwrap();

    assert_eq!(req, new_req);
}

fn load_save_req_rep(mt: PingRequestResponseType) {
    let mb = Builder::new();
    let req = PingRequestResponse::new(0, String::from("test"), mt);

    let req_envelope_opt = req.save(&mb);
    assert!(req_envelope_opt.is_some());

    let req_envelope = req_envelope_opt.unwrap();
    let req_serialized = mb.save_from_avro(req_envelope).unwrap();

    let req_envelope_opt = mb.load_to_avro(req_serialized);
    assert!(req_envelope_opt.is_some());

    let req_envelope = req_envelope_opt.unwrap();

    let new_req_opt = PingRequestResponse::load(&req_envelope);

    assert!(new_req_opt.is_some());

    let new_req = new_req_opt.unwrap();

    assert_eq!(req, new_req);
}

#[test]
fn test_load_save_ping() {
    load_save_req_rep(PingRequestResponseType::Request);
    load_save_req_rep(PingRequestResponseType::Response);
}

#[test]
fn stream_track_unit_elements_test_load_save_req() {
    let mb = Builder::new();

    let track_name = pack_track_name(&String::from("test")).unwrap();
    let stream_uuid = Uuid::parse_str("fa807469-fbb3-4f63-b1a9-f63fbbf90f41").unwrap();
    let stream_name = pack_stream_name(&stream_uuid);

    let req = StreamTrackUnitElementsRequest::new(
        1,
        String::from("response"),
        Unit::new(
            stream_name.to_vec(),
            track_name.to_vec(),
            String::from("VIDEO"),
            3,
        ),
        100,
    );

    let req_envelope_opt = req.save(&mb);
    assert!(req_envelope_opt.is_some());

    let req_envelope = req_envelope_opt.unwrap();
    let req_serialized = mb.save_from_avro(req_envelope).unwrap();

    let req_envelope_opt = mb.load_to_avro(req_serialized);
    assert!(req_envelope_opt.is_some());

    let req_envelope = req_envelope_opt.unwrap();

    let new_req_opt = StreamTrackUnitElementsRequest::load(&req_envelope);

    assert!(new_req_opt.is_some());

    let new_req = new_req_opt.unwrap();

    assert_eq!(req, new_req);
}

#[test]
fn stream_track_unit_elements_test_load_save_rep() {
    let mb = Builder::new();

    let track_name = pack_track_name(&String::from("test")).unwrap();
    let stream_uuid = Uuid::parse_str("fa807469-fbb3-4f63-b1a9-f63fbbf90f41").unwrap();
    let stream_name = pack_stream_name(&stream_uuid);

    let req = StreamTrackUnitElementsResponse::new(
        1,
        Unit::new(
            stream_name.to_vec(),
            track_name.to_vec(),
            String::from("VIDEO"),
            3,
        ),
        vec![
            Payload::new(vec![0, 1, 2], AttrMap::new()),
            Payload::new(vec![1, 2, 3], AttrMap::new()),
        ],
    );

    let req_envelope_opt = req.save(&mb);
    assert!(req_envelope_opt.is_some());

    let req_envelope = req_envelope_opt.unwrap();
    let req_serialized = mb.save_from_avro(req_envelope).unwrap();

    let req_envelope_opt = mb.load_to_avro(req_serialized);
    assert!(req_envelope_opt.is_some());

    let req_envelope = req_envelope_opt.unwrap();

    let new_req_opt = StreamTrackUnitElementsResponse::load(&req_envelope);

    assert!(new_req_opt.is_some());

    let new_req = new_req_opt.unwrap();

    assert_eq!(req, new_req);
    assert_eq!(new_req.values[0].data, vec![0, 1, 2]);
    assert_eq!(new_req.values[1].data, vec![1, 2, 3]);
}

#[test]
fn ffprobe_test_load_save_req() {
    let mb = Builder::new();
    let req = ServicesFFProbeRequest::new(
        0,
        String::from("test"),
        String::from("/dev/video0"),
        AttrMap::from_pairs(vec![("attribute".into(), "value".into())]),
    );
    let req_envelope_opt = req.save(&mb);
    assert!(req_envelope_opt.is_some());

    let req_envelope = req_envelope_opt.unwrap();
    let req_serialized = mb.save_from_avro(req_envelope).unwrap();

    let req_envelope_opt = mb.load_to_avro(req_serialized);
    assert!(req_envelope_opt.is_some());

    let req_envelope = req_envelope_opt.unwrap();

    let new_req_opt = ServicesFFProbeRequest::load(&req_envelope);

    assert!(new_req_opt.is_some());

    let new_req = new_req_opt.unwrap();

    assert_eq!(req, new_req);
}

#[test]
fn test_load_save_resp() {
    let mb = Builder::new();
    let res = ServicesFFProbeResponse::new(
        1,
        ServicesFFProbeResponseType::Accepted,
        100,
        vec![
            AttrMap::from_pairs(vec![("a".to_string(), "b".to_string())]),
            AttrMap::from_pairs(vec![("x".to_string(), "y".to_string())]),
        ],
    );
    let res_envelope_opt = res.save(&mb);
    assert!(res_envelope_opt.is_some());

    let res_envelope = res_envelope_opt.unwrap();
    let res_serialized = mb.save_from_avro(res_envelope).unwrap();

    let res_envelope_opt = mb.load_to_avro(res_serialized);
    assert!(res_envelope_opt.is_some());

    let res_envelope = res_envelope_opt.unwrap();

    let new_res_opt = ServicesFFProbeResponse::load(&res_envelope);

    assert!(new_res_opt.is_some());

    let new_res = new_res_opt.unwrap();

    assert_eq!(res, new_res);
}

fn notify_load_save(notify_type: NotifyType) {
    let mb = Builder::new();

    let track_name = pack_track_name(&String::from("test")).unwrap();
    let stream_uuid = Uuid::parse_str("fa807469-fbb3-4f63-b1a9-f63fbbf90f41").unwrap();
    let stream_name = pack_stream_name(&stream_uuid);

    let req = NotifyMessage::new(
        Unit::new(
            stream_name.to_vec(),
            track_name.to_vec(),
            String::from("VIDEO"),
            3,
        ),
        0,
        notify_type,
    );

    let req_envelope_opt = req.save(&mb);
    assert!(req_envelope_opt.is_some());

    let req_envelope = req_envelope_opt.unwrap();
    let req_serialized = mb.save_from_avro(req_envelope).unwrap();

    let req_envelope_opt = mb.load_to_avro(req_serialized);
    assert!(req_envelope_opt.is_some());

    let req_envelope = req_envelope_opt.unwrap();

    let new_req_opt = NotifyMessage::load(&req_envelope);

    assert!(new_req_opt.is_some());

    let new_req = new_req_opt.unwrap();

    assert_eq!(req, new_req);
}

#[test]
fn notify_message_test_load_save_req() {
    notify_load_save(NotifyType::new());
    notify_load_save(NotifyType::ready(100));
}

#[test]
fn stream_track_units_test_load_save_req() {
    let mb = Builder::new();

    let track_name = pack_track_name(&String::from("test")).unwrap();
    let stream_uuid = Uuid::parse_str("fa807469-fbb3-4f63-b1a9-f63fbbf90f41").unwrap();
    let stream_name = pack_stream_name(&stream_uuid);

    let req = StreamTrackUnitsRequest::new(
        1,
        String::from("response"),
        Unit::new(
            stream_name.to_vec(),
            track_name.to_vec(),
            String::from("VIDEO"),
            3,
        ),
        100,
        500,
    );

    let req_envelope_opt = req.save(&mb);
    assert!(req_envelope_opt.is_some());

    let req_envelope = req_envelope_opt.unwrap();
    let req_serialized = mb.save_from_avro(req_envelope).unwrap();

    let req_envelope_opt = mb.load_to_avro(req_serialized);
    assert!(req_envelope_opt.is_some());

    let req_envelope = req_envelope_opt.unwrap();

    let new_req_opt = StreamTrackUnitsRequest::load(&req_envelope);

    assert!(new_req_opt.is_some());

    let new_req = new_req_opt.unwrap();

    assert_eq!(req, new_req);
}

#[test]
fn stream_track_units_test_load_save_rep() {
    let mb = Builder::new();

    let track_name = pack_track_name(&String::from("test")).unwrap();
    let stream_uuid = Uuid::parse_str("fa807469-fbb3-4f63-b1a9-f63fbbf90f41").unwrap();
    let stream_name = pack_stream_name(&stream_uuid);

    let req = StreamTrackUnitsResponse::new(
        1,
        Unit::new(
            stream_name.to_vec(),
            track_name.to_vec(),
            String::from("VIDEO"),
            3,
        ),
        100,
        500,
        vec![1, 2, 3],
    );

    let req_envelope_opt = req.save(&mb);
    assert!(req_envelope_opt.is_some());

    let req_envelope = req_envelope_opt.unwrap();
    let req_serialized = mb.save_from_avro(req_envelope).unwrap();

    let req_envelope_opt = mb.load_to_avro(req_serialized);
    assert!(req_envelope_opt.is_some());

    let req_envelope = req_envelope_opt.unwrap();

    let new_req_opt = StreamTrackUnitsResponse::load(&req_envelope);

    assert!(new_req_opt.is_some());

    let new_req = new_req_opt.unwrap();

    assert_eq!(req, new_req);
}

#[test]
fn stream_tracks_test_load_save_req() {
    let mb = Builder::new();

    let stream_uuid = Uuid::parse_str("fa807469-fbb3-4f63-b1a9-f63fbbf90f41").unwrap();
    let stream_name = pack_stream_name(&stream_uuid);

    let req = StreamTracksRequest::new(0, String::from("test"), stream_name);

    let req_envelope_opt = req.save(&mb);
    assert!(req_envelope_opt.is_some());

    let req_envelope = req_envelope_opt.unwrap();
    let req_serialized = mb.save_from_avro(req_envelope).unwrap();

    let req_envelope_opt = mb.load_to_avro(req_serialized);
    assert!(req_envelope_opt.is_some());

    let req_envelope = req_envelope_opt.unwrap();

    let new_req_opt = StreamTracksRequest::load(&req_envelope);

    assert!(new_req_opt.is_some());

    let new_req = new_req_opt.unwrap();

    assert_eq!(req, new_req);
}

#[test]
fn stream_tracks_test_load_save_rep() {
    let mb = Builder::new();

    let stream_uuid = Uuid::parse_str("fa807469-fbb3-4f63-b1a9-f63fbbf90f41").unwrap();
    let stream_name = pack_stream_name(&stream_uuid);
    let track_name = pack_track_name(&String::from("test")).unwrap();

    let rep = StreamTracksResponse::new(
        0,
        stream_name,
        vec![TrackInfo::new(TrackType::Video, track_name)],
    );

    let rep_envelope_opt = rep.save(&mb);
    assert!(rep_envelope_opt.is_some());

    let rep_envelope = rep_envelope_opt.unwrap();
    let rep_serialized = mb.save_from_avro(rep_envelope).unwrap();

    let rep_envelope_opt = mb.load_to_avro(rep_serialized);
    assert!(rep_envelope_opt.is_some());

    let rep_envelope = rep_envelope_opt.unwrap();

    let new_rep_opt = StreamTracksResponse::load(&rep_envelope);

    assert!(new_rep_opt.is_some());

    let new_rep = new_rep_opt.unwrap();

    assert_eq!(rep, new_rep);
}

#[test]
fn unit_element_message_test_load_save_req() {
    let mb = Builder::new();

    let track_name = pack_track_name(&String::from("test")).unwrap();
    let stream_uuid = Uuid::parse_str("fa807469-fbb3-4f63-b1a9-f63fbbf90f41").unwrap();
    let stream_name = pack_stream_name(&stream_uuid);

    let req = UnitElementMessage::new(
        Unit::new(
            stream_name.to_vec(),
            track_name.to_vec(),
            String::from("VIDEO"),
            3,
        ),
        2,
        vec![0, 1],
        AttrMap::from_pairs(vec![("a".into(), "b".into()), ("c".into(), "d".into())]),
        true,
    );

    let req_envelope_opt = req.save(&mb);
    assert!(req_envelope_opt.is_some());

    let req_envelope = req_envelope_opt.unwrap();
    let req_serialized = mb.save_from_avro(req_envelope).unwrap();

    let req_envelope_opt = mb.load_to_avro(req_serialized);
    assert!(req_envelope_opt.is_some());

    let req_envelope = req_envelope_opt.unwrap();

    let new_req_opt = UnitElementMessage::load(&req_envelope);

    assert!(new_req_opt.is_some());

    let new_req = new_req_opt.unwrap();

    assert_eq!(req, new_req);
}
