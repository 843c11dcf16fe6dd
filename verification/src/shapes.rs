use vstd::prelude::*;
use vstd::string::StringExecFns;
use crate::tree::{
    elem_views, lemma_elem_views, lemma_pair_views, lemma_refine_elems_pointwise,
    lemma_refine_pairs_pointwise, pair_views, refine_elems, refine_pairs, refine_tree, tree_view,
    Shape, TreeV, TreeValue,
};

verus! {

// Canonical catalog names.  Each is `<namespace>.<local name>.avsc`, the
// naming scheme that the catalog builder computes and checks.
pub open spec fn track_type_schema_name() -> Seq<char> {
    "insight.storage.TrackType.avsc"@
}

pub open spec fn track_info_schema_name() -> Seq<char> {
    "insight.storage.TrackInfo.avsc"@
}

pub open spec fn unit_schema_name() -> Seq<char> {
    "insight.storage.Unit.avsc"@
}

pub open spec fn unit_element_value_schema_name() -> Seq<char> {
    "insight.storage.UnitElementValue.avsc"@
}

pub open spec fn unit_element_message_schema_name() -> Seq<char> {
    "insight.storage.UnitElementMessage.avsc"@
}

pub open spec fn notify_message_schema_name() -> Seq<char> {
    "insight.transport.NotifyMessage.avsc"@
}

pub open spec fn stream_tracks_request_schema_name() -> Seq<char> {
    "insight.transport.StreamTracksRequest.avsc"@
}

pub open spec fn stream_tracks_response_schema_name() -> Seq<char> {
    "insight.transport.StreamTracksResponse.avsc"@
}

pub open spec fn stream_track_unit_elements_request_schema_name() -> Seq<char> {
    "insight.transport.StreamTrackUnitElementsRequest.avsc"@
}

pub open spec fn stream_track_unit_elements_response_schema_name() -> Seq<char> {
    "insight.transport.StreamTrackUnitElementsResponse.avsc"@
}

pub open spec fn stream_track_units_request_schema_name() -> Seq<char> {
    "insight.transport.StreamTrackUnitsRequest.avsc"@
}

pub open spec fn stream_track_units_response_schema_name() -> Seq<char> {
    "insight.transport.StreamTrackUnitsResponse.avsc"@
}

pub open spec fn ping_request_response_schema_name() -> Seq<char> {
    "insight.transport.PingRequestResponse.avsc"@
}

pub open spec fn keepalive_message_schema_name() -> Seq<char> {
    "insight.transport.KeepAliveMessage.avsc"@
}

pub open spec fn message_envelope_schema_name() -> Seq<char> {
    "insight.transport.MessageEnvelope.avsc"@
}

pub open spec fn services_ffprobe_request_schema_name() -> Seq<char> {
    "insight.ffprobe.Request.avsc"@
}

pub open spec fn services_ffprobe_response_schema_name() -> Seq<char> {
    "insight.ffprobe.Response.avsc"@
}

/// The canonical names of all schemas in the catalog, in manifest order.
pub open spec fn catalog_names() -> Seq<Seq<char>> {
    seq![
        track_type_schema_name(),
        track_info_schema_name(),
        unit_schema_name(),
        unit_element_value_schema_name(),
        unit_element_message_schema_name(),
        notify_message_schema_name(),
        stream_tracks_request_schema_name(),
        stream_tracks_response_schema_name(),
        stream_track_unit_elements_request_schema_name(),
        stream_track_unit_elements_response_schema_name(),
        stream_track_units_request_schema_name(),
        stream_track_units_response_schema_name(),
        ping_request_response_schema_name(),
        keepalive_message_schema_name(),
        message_envelope_schema_name(),
        services_ffprobe_request_schema_name(),
        services_ffprobe_response_schema_name(),
    ]
}

// The structure of each schema, mirrored from its description text.
pub open spec fn track_type_shape() -> Shape {
    Shape::SEnum(seq!["VIDEO"@, "META"@])
}

pub open spec fn track_info_shape() -> Shape {
    Shape::SRec(seq![("name"@, Shape::SBytes), ("type"@, track_type_shape())])
}

pub open spec fn unit_shape() -> Shape {
    Shape::SRec(
        seq![
            ("stream_name"@, Shape::SBytes),
            ("track_name"@, Shape::SBytes),
            ("track_type"@, track_type_shape()),
            ("unit"@, Shape::SLong),
        ],
    )
}

pub open spec fn unit_element_value_shape() -> Shape {
    Shape::SRec(seq![("data"@, Shape::SBytes), ("attributes"@, Shape::SMap)])
}

pub open spec fn unit_element_message_shape() -> Shape {
    Shape::SRec(
        seq![
            ("stream_unit"@, unit_shape()),
            ("element"@, Shape::SLong),
            ("value"@, Shape::SBytes),
            ("attributes"@, Shape::SMap),
            ("last"@, Shape::SBool),
        ],
    )
}

pub open spec fn notify_type_shape() -> Shape {
    Shape::SEnum(seq!["READY"@, "NEW"@])
}

pub open spec fn notify_message_shape() -> Shape {
    Shape::SRec(
        seq![
            ("stream_unit"@, unit_shape()),
            ("last_element"@, Shape::SInt),
            ("saved_ms"@, Shape::SLong),
            ("notify_type"@, notify_type_shape()),
        ],
    )
}

pub open spec fn stream_tracks_request_shape() -> Shape {
    Shape::SRec(
        seq![
            ("request_id"@, Shape::SLong),
            ("topic"@, Shape::SStr),
            ("stream_name"@, Shape::SBytes),
        ],
    )
}

pub open spec fn stream_tracks_response_shape() -> Shape {
    Shape::SRec(
        seq![
            ("request_id"@, Shape::SLong),
            ("stream_name"@, Shape::SBytes),
            ("tracks"@, Shape::SArr(Box::new(track_info_shape()))),
        ],
    )
}

pub open spec fn stream_track_unit_elements_request_shape() -> Shape {
    Shape::SRec(
        seq![
            ("request_id"@, Shape::SLong),
            ("topic"@, Shape::SStr),
            ("stream_unit"@, unit_shape()),
            ("max_element"@, Shape::SLong),
        ],
    )
}

pub open spec fn stream_track_unit_elements_response_shape() -> Shape {
    Shape::SRec(
        seq![
            ("request_id"@, Shape::SLong),
            ("stream_unit"@, unit_shape()),
            ("values"@, Shape::SArr(Box::new(unit_element_value_shape()))),
        ],
    )
}

pub open spec fn stream_track_units_request_shape() -> Shape {
    Shape::SRec(
        seq![
            ("request_id"@, Shape::SLong),
            ("topic"@, Shape::SStr),
            ("stream_unit"@, unit_shape()),
            ("from_ms"@, Shape::SLong),
            ("to_ms"@, Shape::SLong),
        ],
    )
}

pub open spec fn stream_track_units_response_shape() -> Shape {
    Shape::SRec(
        seq![
            ("request_id"@, Shape::SLong),
            ("stream_unit"@, unit_shape()),
            ("from_ms"@, Shape::SLong),
            ("to_ms"@, Shape::SLong),
            ("units"@, Shape::SArr(Box::new(Shape::SLong))),
        ],
    )
}

pub open spec fn ping_type_shape() -> Shape {
    Shape::SEnum(seq!["REQUEST"@, "RESPONSE"@])
}

pub open spec fn ping_request_response_shape() -> Shape {
    Shape::SRec(
        seq![
            ("request_id"@, Shape::SLong),
            ("topic"@, Shape::SStr),
            ("type"@, ping_type_shape()),
        ],
    )
}

pub open spec fn keepalive_message_shape() -> Shape {
    Shape::SRec(seq![("module_id"@, Shape::SStr)])
}

pub open spec fn message_envelope_shape() -> Shape {
    Shape::SRec(seq![("schema"@, Shape::SBytes), ("payload"@, Shape::SBytes)])
}

pub open spec fn ffprobe_response_type_shape() -> Shape {
    Shape::SEnum(seq!["ACCEPTED"@, "COMPLETE"@, "ERROR"@])
}

pub open spec fn services_ffprobe_request_shape() -> Shape {
    Shape::SRec(
        seq![
            ("request_id"@, Shape::SLong),
            ("topic"@, Shape::SStr),
            ("url"@, Shape::SStr),
            ("attributes"@, Shape::SMap),
        ],
    )
}

pub open spec fn services_ffprobe_response_shape() -> Shape {
    Shape::SRec(
        seq![
            ("request_id"@, Shape::SLong),
            ("response_type"@, ffprobe_response_type_shape()),
            ("time_spent"@, Shape::SLong),
            ("streams"@, Shape::SArr(Box::new(Shape::SMap))),
        ],
    )
}

/// The structure of the catalog schema that `name` denotes.  Only the names
/// in `catalog_names()` matter: the catalog never holds any other.
pub open spec fn shape_of(name: Seq<char>) -> Shape {
    if name == track_type_schema_name() {
        track_type_shape()
    } else if name == track_info_schema_name() {
        track_info_shape()
    } else if name == unit_schema_name() {
        unit_shape()
    } else if name == unit_element_value_schema_name() {
        unit_element_value_shape()
    } else if name == unit_element_message_schema_name() {
        unit_element_message_shape()
    } else if name == notify_message_schema_name() {
        notify_message_shape()
    } else if name == stream_tracks_request_schema_name() {
        stream_tracks_request_shape()
    } else if name == stream_tracks_response_schema_name() {
        stream_tracks_response_shape()
    } else if name == stream_track_unit_elements_request_schema_name() {
        stream_track_unit_elements_request_shape()
    } else if name == stream_track_unit_elements_response_schema_name() {
        stream_track_unit_elements_response_shape()
    } else if name == stream_track_units_request_schema_name() {
        stream_track_units_request_shape()
    } else if name == stream_track_units_response_schema_name() {
        stream_track_units_response_shape()
    } else if name == ping_request_response_schema_name() {
        ping_request_response_shape()
    } else if name == keepalive_message_schema_name() {
        keepalive_message_shape()
    } else if name == message_envelope_schema_name() {
        message_envelope_shape()
    } else if name == services_ffprobe_request_schema_name() {
        services_ffprobe_request_shape()
    } else if name == services_ffprobe_response_schema_name() {
        services_ffprobe_response_shape()
    } else {
        Shape::SBool
    }
}

pub proof fn reveal_catalog_names()
    ensures
        forall|i: int, j: int|
            0 <= i < catalog_names().len() && 0 <= j < catalog_names().len() && i != j
                ==> catalog_names()[i] != catalog_names()[j],
        track_type_schema_name() != track_info_schema_name(),
        track_type_schema_name() != unit_schema_name(),
        track_type_schema_name() != unit_element_value_schema_name(),
        track_type_schema_name() != unit_element_message_schema_name(),
        track_type_schema_name() != notify_message_schema_name(),
        track_type_schema_name() != stream_tracks_request_schema_name(),
        track_type_schema_name() != stream_tracks_response_schema_name(),
        track_type_schema_name() != stream_track_unit_elements_request_schema_name(),
        track_type_schema_name() != stream_track_unit_elements_response_schema_name(),
        track_type_schema_name() != stream_track_units_request_schema_name(),
        track_type_schema_name() != stream_track_units_response_schema_name(),
        track_type_schema_name() != ping_request_response_schema_name(),
        track_type_schema_name() != keepalive_message_schema_name(),
        track_type_schema_name() != message_envelope_schema_name(),
        track_type_schema_name() != services_ffprobe_request_schema_name(),
        track_type_schema_name() != services_ffprobe_response_schema_name(),
        track_info_schema_name() != unit_schema_name(),
        track_info_schema_name() != unit_element_value_schema_name(),
        track_info_schema_name() != unit_element_message_schema_name(),
        track_info_schema_name() != notify_message_schema_name(),
        track_info_schema_name() != stream_tracks_request_schema_name(),
        track_info_schema_name() != stream_tracks_response_schema_name(),
        track_info_schema_name() != stream_track_unit_elements_request_schema_name(),
        track_info_schema_name() != stream_track_unit_elements_response_schema_name(),
        track_info_schema_name() != stream_track_units_request_schema_name(),
        track_info_schema_name() != stream_track_units_response_schema_name(),
        track_info_schema_name() != ping_request_response_schema_name(),
        track_info_schema_name() != keepalive_message_schema_name(),
        track_info_schema_name() != message_envelope_schema_name(),
        track_info_schema_name() != services_ffprobe_request_schema_name(),
        track_info_schema_name() != services_ffprobe_response_schema_name(),
        unit_schema_name() != unit_element_value_schema_name(),
        unit_schema_name() != unit_element_message_schema_name(),
        unit_schema_name() != notify_message_schema_name(),
        unit_schema_name() != stream_tracks_request_schema_name(),
        unit_schema_name() != stream_tracks_response_schema_name(),
        unit_schema_name() != stream_track_unit_elements_request_schema_name(),
        unit_schema_name() != stream_track_unit_elements_response_schema_name(),
        unit_schema_name() != stream_track_units_request_schema_name(),
        unit_schema_name() != stream_track_units_response_schema_name(),
        unit_schema_name() != ping_request_response_schema_name(),
        unit_schema_name() != keepalive_message_schema_name(),
        unit_schema_name() != message_envelope_schema_name(),
        unit_schema_name() != services_ffprobe_request_schema_name(),
        unit_schema_name() != services_ffprobe_response_schema_name(),
        unit_element_value_schema_name() != unit_element_message_schema_name(),
        unit_element_value_schema_name() != notify_message_schema_name(),
        unit_element_value_schema_name() != stream_tracks_request_schema_name(),
        unit_element_value_schema_name() != stream_tracks_response_schema_name(),
        unit_element_value_schema_name() != stream_track_unit_elements_request_schema_name(),
        unit_element_value_schema_name() != stream_track_unit_elements_response_schema_name(),
        unit_element_value_schema_name() != stream_track_units_request_schema_name(),
        unit_element_value_schema_name() != stream_track_units_response_schema_name(),
        unit_element_value_schema_name() != ping_request_response_schema_name(),
        unit_element_value_schema_name() != keepalive_message_schema_name(),
        unit_element_value_schema_name() != message_envelope_schema_name(),
        unit_element_value_schema_name() != services_ffprobe_request_schema_name(),
        unit_element_value_schema_name() != services_ffprobe_response_schema_name(),
        unit_element_message_schema_name() != notify_message_schema_name(),
        unit_element_message_schema_name() != stream_tracks_request_schema_name(),
        unit_element_message_schema_name() != stream_tracks_response_schema_name(),
        unit_element_message_schema_name() != stream_track_unit_elements_request_schema_name(),
        unit_element_message_schema_name() != stream_track_unit_elements_response_schema_name(),
        unit_element_message_schema_name() != stream_track_units_request_schema_name(),
        unit_element_message_schema_name() != stream_track_units_response_schema_name(),
        unit_element_message_schema_name() != ping_request_response_schema_name(),
        unit_element_message_schema_name() != keepalive_message_schema_name(),
        unit_element_message_schema_name() != message_envelope_schema_name(),
        unit_element_message_schema_name() != services_ffprobe_request_schema_name(),
        unit_element_message_schema_name() != services_ffprobe_response_schema_name(),
        notify_message_schema_name() != stream_tracks_request_schema_name(),
        notify_message_schema_name() != stream_tracks_response_schema_name(),
        notify_message_schema_name() != stream_track_unit_elements_request_schema_name(),
        notify_message_schema_name() != stream_track_unit_elements_response_schema_name(),
        notify_message_schema_name() != stream_track_units_request_schema_name(),
        notify_message_schema_name() != stream_track_units_response_schema_name(),
        notify_message_schema_name() != ping_request_response_schema_name(),
        notify_message_schema_name() != keepalive_message_schema_name(),
        notify_message_schema_name() != message_envelope_schema_name(),
        notify_message_schema_name() != services_ffprobe_request_schema_name(),
        notify_message_schema_name() != services_ffprobe_response_schema_name(),
        stream_tracks_request_schema_name() != stream_tracks_response_schema_name(),
        stream_tracks_request_schema_name() != stream_track_unit_elements_request_schema_name(),
        stream_tracks_request_schema_name() != stream_track_unit_elements_response_schema_name(),
        stream_tracks_request_schema_name() != stream_track_units_request_schema_name(),
        stream_tracks_request_schema_name() != stream_track_units_response_schema_name(),
        stream_tracks_request_schema_name() != ping_request_response_schema_name(),
        stream_tracks_request_schema_name() != keepalive_message_schema_name(),
        stream_tracks_request_schema_name() != message_envelope_schema_name(),
        stream_tracks_request_schema_name() != services_ffprobe_request_schema_name(),
        stream_tracks_request_schema_name() != services_ffprobe_response_schema_name(),
        stream_tracks_response_schema_name() != stream_track_unit_elements_request_schema_name(),
        stream_tracks_response_schema_name() != stream_track_unit_elements_response_schema_name(),
        stream_tracks_response_schema_name() != stream_track_units_request_schema_name(),
        stream_tracks_response_schema_name() != stream_track_units_response_schema_name(),
        stream_tracks_response_schema_name() != ping_request_response_schema_name(),
        stream_tracks_response_schema_name() != keepalive_message_schema_name(),
        stream_tracks_response_schema_name() != message_envelope_schema_name(),
        stream_tracks_response_schema_name() != services_ffprobe_request_schema_name(),
        stream_tracks_response_schema_name() != services_ffprobe_response_schema_name(),
        stream_track_unit_elements_request_schema_name() != stream_track_unit_elements_response_schema_name(),
        stream_track_unit_elements_request_schema_name() != stream_track_units_request_schema_name(),
        stream_track_unit_elements_request_schema_name() != stream_track_units_response_schema_name(),
        stream_track_unit_elements_request_schema_name() != ping_request_response_schema_name(),
        stream_track_unit_elements_request_schema_name() != keepalive_message_schema_name(),
        stream_track_unit_elements_request_schema_name() != message_envelope_schema_name(),
        stream_track_unit_elements_request_schema_name() != services_ffprobe_request_schema_name(),
        stream_track_unit_elements_request_schema_name() != services_ffprobe_response_schema_name(),
        stream_track_unit_elements_response_schema_name() != stream_track_units_request_schema_name(),
        stream_track_unit_elements_response_schema_name() != stream_track_units_response_schema_name(),
        stream_track_unit_elements_response_schema_name() != ping_request_response_schema_name(),
        stream_track_unit_elements_response_schema_name() != keepalive_message_schema_name(),
        stream_track_unit_elements_response_schema_name() != message_envelope_schema_name(),
        stream_track_unit_elements_response_schema_name() != services_ffprobe_request_schema_name(),
        stream_track_unit_elements_response_schema_name() != services_ffprobe_response_schema_name(),
        stream_track_units_request_schema_name() != stream_track_units_response_schema_name(),
        stream_track_units_request_schema_name() != ping_request_response_schema_name(),
        stream_track_units_request_schema_name() != keepalive_message_schema_name(),
        stream_track_units_request_schema_name() != message_envelope_schema_name(),
        stream_track_units_request_schema_name() != services_ffprobe_request_schema_name(),
        stream_track_units_request_schema_name() != services_ffprobe_response_schema_name(),
        stream_track_units_response_schema_name() != ping_request_response_schema_name(),
        stream_track_units_response_schema_name() != keepalive_message_schema_name(),
        stream_track_units_response_schema_name() != message_envelope_schema_name(),
        stream_track_units_response_schema_name() != services_ffprobe_request_schema_name(),
        stream_track_units_response_schema_name() != services_ffprobe_response_schema_name(),
        ping_request_response_schema_name() != keepalive_message_schema_name(),
        ping_request_response_schema_name() != message_envelope_schema_name(),
        ping_request_response_schema_name() != services_ffprobe_request_schema_name(),
        ping_request_response_schema_name() != services_ffprobe_response_schema_name(),
        keepalive_message_schema_name() != message_envelope_schema_name(),
        keepalive_message_schema_name() != services_ffprobe_request_schema_name(),
        keepalive_message_schema_name() != services_ffprobe_response_schema_name(),
        message_envelope_schema_name() != services_ffprobe_request_schema_name(),
        message_envelope_schema_name() != services_ffprobe_response_schema_name(),
        services_ffprobe_request_schema_name() != services_ffprobe_response_schema_name(),
{
    reveal_strlit("insight.storage.TrackType.avsc");
    reveal_strlit("insight.storage.TrackInfo.avsc");
    reveal_strlit("insight.storage.Unit.avsc");
    reveal_strlit("insight.storage.UnitElementValue.avsc");
    reveal_strlit("insight.storage.UnitElementMessage.avsc");
    reveal_strlit("insight.transport.NotifyMessage.avsc");
    reveal_strlit("insight.transport.StreamTracksRequest.avsc");
    reveal_strlit("insight.transport.StreamTracksResponse.avsc");
    reveal_strlit("insight.transport.StreamTrackUnitElementsRequest.avsc");
    reveal_strlit("insight.transport.StreamTrackUnitElementsResponse.avsc");
    reveal_strlit("insight.transport.StreamTrackUnitsRequest.avsc");
    reveal_strlit("insight.transport.StreamTrackUnitsResponse.avsc");
    reveal_strlit("insight.transport.PingRequestResponse.avsc");
    reveal_strlit("insight.transport.KeepAliveMessage.avsc");
    reveal_strlit("insight.transport.MessageEnvelope.avsc");
    reveal_strlit("insight.ffprobe.Request.avsc");
    reveal_strlit("insight.ffprobe.Response.avsc");
    assert("insight.ffprobe.Request.avsc"@.len() == 28);
    assert("insight.ffprobe.Response.avsc"@.len() == 29);
    assert("insight.storage.TrackInfo.avsc"@.len() == 30);
    assert("insight.storage.TrackType.avsc"@.len() == 30);
    assert("insight.storage.Unit.avsc"@.len() == 25);
    assert("insight.storage.UnitElementMessage.avsc"@.len() == 39);
    assert("insight.storage.UnitElementValue.avsc"@.len() == 37);
    assert("insight.transport.KeepAliveMessage.avsc"@.len() == 39);
    assert("insight.transport.MessageEnvelope.avsc"@.len() == 38);
    assert("insight.transport.NotifyMessage.avsc"@.len() == 36);
    assert("insight.transport.PingRequestResponse.avsc"@.len() == 42);
    assert("insight.transport.StreamTrackUnitElementsRequest.avsc"@.len() == 53);
    assert("insight.transport.StreamTrackUnitElementsResponse.avsc"@.len() == 54);
    assert("insight.transport.StreamTrackUnitsRequest.avsc"@.len() == 46);
    assert("insight.transport.StreamTrackUnitsResponse.avsc"@.len() == 47);
    assert("insight.transport.StreamTracksRequest.avsc"@.len() == 42);
    assert("insight.transport.StreamTracksResponse.avsc"@.len() == 43);
    assert("insight.storage.TrackType.avsc"@[21] == 'T');
    assert("insight.storage.TrackInfo.avsc"@[21] == 'I');
    assert("insight.storage.UnitElementMessage.avsc"@[8] == 's');
    assert("insight.transport.KeepAliveMessage.avsc"@[8] == 't');
    assert("insight.transport.StreamTracksRequest.avsc"@[18] == 'S');
    assert("insight.transport.PingRequestResponse.avsc"@[18] == 'P');
    assert("insight.storage.TrackType.avsc"@ != "insight.storage.TrackInfo.avsc"@);
    assert("insight.storage.TrackType.avsc"@ != "insight.storage.Unit.avsc"@);
    assert("insight.storage.TrackType.avsc"@ != "insight.storage.UnitElementValue.avsc"@);
    assert("insight.storage.TrackType.avsc"@ != "insight.storage.UnitElementMessage.avsc"@);
    assert("insight.storage.TrackType.avsc"@ != "insight.transport.NotifyMessage.avsc"@);
    assert("insight.storage.TrackType.avsc"@ != "insight.transport.StreamTracksRequest.avsc"@);
    assert("insight.storage.TrackType.avsc"@ != "insight.transport.StreamTracksResponse.avsc"@);
    assert("insight.storage.TrackType.avsc"@ != "insight.transport.StreamTrackUnitElementsRequest.avsc"@);
    assert("insight.storage.TrackType.avsc"@ != "insight.transport.StreamTrackUnitElementsResponse.avsc"@);
    assert("insight.storage.TrackType.avsc"@ != "insight.transport.StreamTrackUnitsRequest.avsc"@);
    assert("insight.storage.TrackType.avsc"@ != "insight.transport.StreamTrackUnitsResponse.avsc"@);
    assert("insight.storage.TrackType.avsc"@ != "insight.transport.PingRequestResponse.avsc"@);
    assert("insight.storage.TrackType.avsc"@ != "insight.transport.KeepAliveMessage.avsc"@);
    assert("insight.storage.TrackType.avsc"@ != "insight.transport.MessageEnvelope.avsc"@);
    assert("insight.storage.TrackType.avsc"@ != "insight.ffprobe.Request.avsc"@);
    assert("insight.storage.TrackType.avsc"@ != "insight.ffprobe.Response.avsc"@);
    assert("insight.storage.TrackInfo.avsc"@ != "insight.storage.Unit.avsc"@);
    assert("insight.storage.TrackInfo.avsc"@ != "insight.storage.UnitElementValue.avsc"@);
    assert("insight.storage.TrackInfo.avsc"@ != "insight.storage.UnitElementMessage.avsc"@);
    assert("insight.storage.TrackInfo.avsc"@ != "insight.transport.NotifyMessage.avsc"@);
    assert("insight.storage.TrackInfo.avsc"@ != "insight.transport.StreamTracksRequest.avsc"@);
    assert("insight.storage.TrackInfo.avsc"@ != "insight.transport.StreamTracksResponse.avsc"@);
    assert("insight.storage.TrackInfo.avsc"@ != "insight.transport.StreamTrackUnitElementsRequest.avsc"@);
    assert("insight.storage.TrackInfo.avsc"@ != "insight.transport.StreamTrackUnitElementsResponse.avsc"@);
    assert("insight.storage.TrackInfo.avsc"@ != "insight.transport.StreamTrackUnitsRequest.avsc"@);
    assert("insight.storage.TrackInfo.avsc"@ != "insight.transport.StreamTrackUnitsResponse.avsc"@);
    assert("insight.storage.TrackInfo.avsc"@ != "insight.transport.PingRequestResponse.avsc"@);
    assert("insight.storage.TrackInfo.avsc"@ != "insight.transport.KeepAliveMessage.avsc"@);
    assert("insight.storage.TrackInfo.avsc"@ != "insight.transport.MessageEnvelope.avsc"@);
    assert("insight.storage.TrackInfo.avsc"@ != "insight.ffprobe.Request.avsc"@);
    assert("insight.storage.TrackInfo.avsc"@ != "insight.ffprobe.Response.avsc"@);
    assert("insight.storage.Unit.avsc"@ != "insight.storage.UnitElementValue.avsc"@);
    assert("insight.storage.Unit.avsc"@ != "insight.storage.UnitElementMessage.avsc"@);
    assert("insight.storage.Unit.avsc"@ != "insight.transport.NotifyMessage.avsc"@);
    assert("insight.storage.Unit.avsc"@ != "insight.transport.StreamTracksRequest.avsc"@);
    assert("insight.storage.Unit.avsc"@ != "insight.transport.StreamTracksResponse.avsc"@);
    assert("insight.storage.Unit.avsc"@ != "insight.transport.StreamTrackUnitElementsRequest.avsc"@);
    assert("insight.storage.Unit.avsc"@ != "insight.transport.StreamTrackUnitElementsResponse.avsc"@);
    assert("insight.storage.Unit.avsc"@ != "insight.transport.StreamTrackUnitsRequest.avsc"@);
    assert("insight.storage.Unit.avsc"@ != "insight.transport.StreamTrackUnitsResponse.avsc"@);
    assert("insight.storage.Unit.avsc"@ != "insight.transport.PingRequestResponse.avsc"@);
    assert("insight.storage.Unit.avsc"@ != "insight.transport.KeepAliveMessage.avsc"@);
    assert("insight.storage.Unit.avsc"@ != "insight.transport.MessageEnvelope.avsc"@);
    assert("insight.storage.Unit.avsc"@ != "insight.ffprobe.Request.avsc"@);
    assert("insight.storage.Unit.avsc"@ != "insight.ffprobe.Response.avsc"@);
    assert("insight.storage.UnitElementValue.avsc"@ != "insight.storage.UnitElementMessage.avsc"@);
    assert("insight.storage.UnitElementValue.avsc"@ != "insight.transport.NotifyMessage.avsc"@);
    assert("insight.storage.UnitElementValue.avsc"@ != "insight.transport.StreamTracksRequest.avsc"@);
    assert("insight.storage.UnitElementValue.avsc"@ != "insight.transport.StreamTracksResponse.avsc"@);
    assert("insight.storage.UnitElementValue.avsc"@ != "insight.transport.StreamTrackUnitElementsRequest.avsc"@);
    assert("insight.storage.UnitElementValue.avsc"@ != "insight.transport.StreamTrackUnitElementsResponse.avsc"@);
    assert("insight.storage.UnitElementValue.avsc"@ != "insight.transport.StreamTrackUnitsRequest.avsc"@);
    assert("insight.storage.UnitElementValue.avsc"@ != "insight.transport.StreamTrackUnitsResponse.avsc"@);
    assert("insight.storage.UnitElementValue.avsc"@ != "insight.transport.PingRequestResponse.avsc"@);
    assert("insight.storage.UnitElementValue.avsc"@ != "insight.transport.KeepAliveMessage.avsc"@);
    assert("insight.storage.UnitElementValue.avsc"@ != "insight.transport.MessageEnvelope.avsc"@);
    assert("insight.storage.UnitElementValue.avsc"@ != "insight.ffprobe.Request.avsc"@);
    assert("insight.storage.UnitElementValue.avsc"@ != "insight.ffprobe.Response.avsc"@);
    assert("insight.storage.UnitElementMessage.avsc"@ != "insight.transport.NotifyMessage.avsc"@);
    assert("insight.storage.UnitElementMessage.avsc"@ != "insight.transport.StreamTracksRequest.avsc"@);
    assert("insight.storage.UnitElementMessage.avsc"@ != "insight.transport.StreamTracksResponse.avsc"@);
    assert("insight.storage.UnitElementMessage.avsc"@ != "insight.transport.StreamTrackUnitElementsRequest.avsc"@);
    assert("insight.storage.UnitElementMessage.avsc"@ != "insight.transport.StreamTrackUnitElementsResponse.avsc"@);
    assert("insight.storage.UnitElementMessage.avsc"@ != "insight.transport.StreamTrackUnitsRequest.avsc"@);
    assert("insight.storage.UnitElementMessage.avsc"@ != "insight.transport.StreamTrackUnitsResponse.avsc"@);
    assert("insight.storage.UnitElementMessage.avsc"@ != "insight.transport.PingRequestResponse.avsc"@);
    assert("insight.storage.UnitElementMessage.avsc"@ != "insight.transport.KeepAliveMessage.avsc"@);
    assert("insight.storage.UnitElementMessage.avsc"@ != "insight.transport.MessageEnvelope.avsc"@);
    assert("insight.storage.UnitElementMessage.avsc"@ != "insight.ffprobe.Request.avsc"@);
    assert("insight.storage.UnitElementMessage.avsc"@ != "insight.ffprobe.Response.avsc"@);
    assert("insight.transport.NotifyMessage.avsc"@ != "insight.transport.StreamTracksRequest.avsc"@);
    assert("insight.transport.NotifyMessage.avsc"@ != "insight.transport.StreamTracksResponse.avsc"@);
    assert("insight.transport.NotifyMessage.avsc"@ != "insight.transport.StreamTrackUnitElementsRequest.avsc"@);
    assert("insight.transport.NotifyMessage.avsc"@ != "insight.transport.StreamTrackUnitElementsResponse.avsc"@);
    assert("insight.transport.NotifyMessage.avsc"@ != "insight.transport.StreamTrackUnitsRequest.avsc"@);
    assert("insight.transport.NotifyMessage.avsc"@ != "insight.transport.StreamTrackUnitsResponse.avsc"@);
    assert("insight.transport.NotifyMessage.avsc"@ != "insight.transport.PingRequestResponse.avsc"@);
    assert("insight.transport.NotifyMessage.avsc"@ != "insight.transport.KeepAliveMessage.avsc"@);
    assert("insight.transport.NotifyMessage.avsc"@ != "insight.transport.MessageEnvelope.avsc"@);
    assert("insight.transport.NotifyMessage.avsc"@ != "insight.ffprobe.Request.avsc"@);
    assert("insight.transport.NotifyMessage.avsc"@ != "insight.ffprobe.Response.avsc"@);
    assert("insight.transport.StreamTracksRequest.avsc"@ != "insight.transport.StreamTracksResponse.avsc"@);
    assert("insight.transport.StreamTracksRequest.avsc"@ != "insight.transport.StreamTrackUnitElementsRequest.avsc"@);
    assert("insight.transport.StreamTracksRequest.avsc"@ != "insight.transport.StreamTrackUnitElementsResponse.avsc"@);
    assert("insight.transport.StreamTracksRequest.avsc"@ != "insight.transport.StreamTrackUnitsRequest.avsc"@);
    assert("insight.transport.StreamTracksRequest.avsc"@ != "insight.transport.StreamTrackUnitsResponse.avsc"@);
    assert("insight.transport.StreamTracksRequest.avsc"@ != "insight.transport.PingRequestResponse.avsc"@);
    assert("insight.transport.StreamTracksRequest.avsc"@ != "insight.transport.KeepAliveMessage.avsc"@);
    assert("insight.transport.StreamTracksRequest.avsc"@ != "insight.transport.MessageEnvelope.avsc"@);
    assert("insight.transport.StreamTracksRequest.avsc"@ != "insight.ffprobe.Request.avsc"@);
    assert("insight.transport.StreamTracksRequest.avsc"@ != "insight.ffprobe.Response.avsc"@);
    assert("insight.transport.StreamTracksResponse.avsc"@ != "insight.transport.StreamTrackUnitElementsRequest.avsc"@);
    assert("insight.transport.StreamTracksResponse.avsc"@ != "insight.transport.StreamTrackUnitElementsResponse.avsc"@);
    assert("insight.transport.StreamTracksResponse.avsc"@ != "insight.transport.StreamTrackUnitsRequest.avsc"@);
    assert("insight.transport.StreamTracksResponse.avsc"@ != "insight.transport.StreamTrackUnitsResponse.avsc"@);
    assert("insight.transport.StreamTracksResponse.avsc"@ != "insight.transport.PingRequestResponse.avsc"@);
    assert("insight.transport.StreamTracksResponse.avsc"@ != "insight.transport.KeepAliveMessage.avsc"@);
    assert("insight.transport.StreamTracksResponse.avsc"@ != "insight.transport.MessageEnvelope.avsc"@);
    assert("insight.transport.StreamTracksResponse.avsc"@ != "insight.ffprobe.Request.avsc"@);
    assert("insight.transport.StreamTracksResponse.avsc"@ != "insight.ffprobe.Response.avsc"@);
    assert("insight.transport.StreamTrackUnitElementsRequest.avsc"@ != "insight.transport.StreamTrackUnitElementsResponse.avsc"@);
    assert("insight.transport.StreamTrackUnitElementsRequest.avsc"@ != "insight.transport.StreamTrackUnitsRequest.avsc"@);
    assert("insight.transport.StreamTrackUnitElementsRequest.avsc"@ != "insight.transport.StreamTrackUnitsResponse.avsc"@);
    assert("insight.transport.StreamTrackUnitElementsRequest.avsc"@ != "insight.transport.PingRequestResponse.avsc"@);
    assert("insight.transport.StreamTrackUnitElementsRequest.avsc"@ != "insight.transport.KeepAliveMessage.avsc"@);
    assert("insight.transport.StreamTrackUnitElementsRequest.avsc"@ != "insight.transport.MessageEnvelope.avsc"@);
    assert("insight.transport.StreamTrackUnitElementsRequest.avsc"@ != "insight.ffprobe.Request.avsc"@);
    assert("insight.transport.StreamTrackUnitElementsRequest.avsc"@ != "insight.ffprobe.Response.avsc"@);
    assert("insight.transport.StreamTrackUnitElementsResponse.avsc"@ != "insight.transport.StreamTrackUnitsRequest.avsc"@);
    assert("insight.transport.StreamTrackUnitElementsResponse.avsc"@ != "insight.transport.StreamTrackUnitsResponse.avsc"@);
    assert("insight.transport.StreamTrackUnitElementsResponse.avsc"@ != "insight.transport.PingRequestResponse.avsc"@);
    assert("insight.transport.StreamTrackUnitElementsResponse.avsc"@ != "insight.transport.KeepAliveMessage.avsc"@);
    assert("insight.transport.StreamTrackUnitElementsResponse.avsc"@ != "insight.transport.MessageEnvelope.avsc"@);
    assert("insight.transport.StreamTrackUnitElementsResponse.avsc"@ != "insight.ffprobe.Request.avsc"@);
    assert("insight.transport.StreamTrackUnitElementsResponse.avsc"@ != "insight.ffprobe.Response.avsc"@);
    assert("insight.transport.StreamTrackUnitsRequest.avsc"@ != "insight.transport.StreamTrackUnitsResponse.avsc"@);
    assert("insight.transport.StreamTrackUnitsRequest.avsc"@ != "insight.transport.PingRequestResponse.avsc"@);
    assert("insight.transport.StreamTrackUnitsRequest.avsc"@ != "insight.transport.KeepAliveMessage.avsc"@);
    assert("insight.transport.StreamTrackUnitsRequest.avsc"@ != "insight.transport.MessageEnvelope.avsc"@);
    assert("insight.transport.StreamTrackUnitsRequest.avsc"@ != "insight.ffprobe.Request.avsc"@);
    assert("insight.transport.StreamTrackUnitsRequest.avsc"@ != "insight.ffprobe.Response.avsc"@);
    assert("insight.transport.StreamTrackUnitsResponse.avsc"@ != "insight.transport.PingRequestResponse.avsc"@);
    assert("insight.transport.StreamTrackUnitsResponse.avsc"@ != "insight.transport.KeepAliveMessage.avsc"@);
    assert("insight.transport.StreamTrackUnitsResponse.avsc"@ != "insight.transport.MessageEnvelope.avsc"@);
    assert("insight.transport.StreamTrackUnitsResponse.avsc"@ != "insight.ffprobe.Request.avsc"@);
    assert("insight.transport.StreamTrackUnitsResponse.avsc"@ != "insight.ffprobe.Response.avsc"@);
    assert("insight.transport.PingRequestResponse.avsc"@ != "insight.transport.KeepAliveMessage.avsc"@);
    assert("insight.transport.PingRequestResponse.avsc"@ != "insight.transport.MessageEnvelope.avsc"@);
    assert("insight.transport.PingRequestResponse.avsc"@ != "insight.ffprobe.Request.avsc"@);
    assert("insight.transport.PingRequestResponse.avsc"@ != "insight.ffprobe.Response.avsc"@);
    assert("insight.transport.KeepAliveMessage.avsc"@ != "insight.transport.MessageEnvelope.avsc"@);
    assert("insight.transport.KeepAliveMessage.avsc"@ != "insight.ffprobe.Request.avsc"@);
    assert("insight.transport.KeepAliveMessage.avsc"@ != "insight.ffprobe.Response.avsc"@);
    assert("insight.transport.MessageEnvelope.avsc"@ != "insight.ffprobe.Request.avsc"@);
    assert("insight.transport.MessageEnvelope.avsc"@ != "insight.ffprobe.Response.avsc"@);
    assert("insight.ffprobe.Request.avsc"@ != "insight.ffprobe.Response.avsc"@);
    assert forall|i: int, j: int|
        0 <= i < catalog_names().len() && 0 <= j < catalog_names().len() && i != j
            implies catalog_names()[i] != catalog_names()[j] by {
        assert(catalog_names().len() == 17);
    }
}


/// `shape_of` at each catalog name: the name chain in `shape_of` resolves by
/// string contents, which this lemma exposes.
pub proof fn lemma_shape_of()
    ensures
        shape_of(track_type_schema_name()) == track_type_shape(),
        shape_of(track_info_schema_name()) == track_info_shape(),
        shape_of(unit_schema_name()) == unit_shape(),
        shape_of(unit_element_value_schema_name()) == unit_element_value_shape(),
        shape_of(unit_element_message_schema_name()) == unit_element_message_shape(),
        shape_of(notify_message_schema_name()) == notify_message_shape(),
        shape_of(stream_tracks_request_schema_name()) == stream_tracks_request_shape(),
        shape_of(stream_tracks_response_schema_name()) == stream_tracks_response_shape(),
        shape_of(stream_track_unit_elements_request_schema_name())
            == stream_track_unit_elements_request_shape(),
        shape_of(stream_track_unit_elements_response_schema_name())
            == stream_track_unit_elements_response_shape(),
        shape_of(stream_track_units_request_schema_name()) == stream_track_units_request_shape(),
        shape_of(stream_track_units_response_schema_name())
            == stream_track_units_response_shape(),
        shape_of(ping_request_response_schema_name()) == ping_request_response_shape(),
        shape_of(keepalive_message_schema_name()) == keepalive_message_shape(),
        shape_of(message_envelope_schema_name()) == message_envelope_shape(),
        shape_of(services_ffprobe_request_schema_name()) == services_ffprobe_request_shape(),
        shape_of(services_ffprobe_response_schema_name()) == services_ffprobe_response_shape(),
{
    reveal_catalog_names();
}


/// The executable form of a `Shape`, carried by each catalog entry so the
/// decode path can refine enum-erased values at run time.
pub enum ShapeE {
    EBool,
    EInt,
    ELong,
    EBytes,
    EStr,
    EEnum(Vec<String>),
    EArr(Box<ShapeE>),
    EMap,
    ERec(Vec<(String, ShapeE)>),
}

pub open spec fn shape_e_view(s: ShapeE) -> Shape
    decreases s, 1int,
{
    match s {
        ShapeE::EBool => Shape::SBool,
        ShapeE::EInt => Shape::SInt,
        ShapeE::ELong => Shape::SLong,
        ShapeE::EBytes => Shape::SBytes,
        ShapeE::EStr => Shape::SStr,
        ShapeE::EEnum(syms) => Shape::SEnum(syms@.map_values(|x: String| x@)),
        ShapeE::EArr(inner) => Shape::SArr(Box::new(shape_e_view(*inner))),
        ShapeE::EMap => Shape::SMap,
        ShapeE::ERec(fs) => Shape::SRec(shape_pair_views(fs@)),
    }
}

pub open spec fn shape_pair_views(ps: Seq<(String, ShapeE)>) -> Seq<(Seq<char>, Shape)>
    decreases ps, 0int,
{
    if ps.len() == 0 {
        Seq::empty()
    } else {
        seq![(ps[0].0@, shape_e_view(ps[0].1))] + shape_pair_views(ps.drop_first())
    }
}

impl View for ShapeE {
    type V = Shape;

    open spec fn view(&self) -> Shape {
        shape_e_view(*self)
    }
}

pub broadcast proof fn lemma_shape_pair_views(ps: Seq<(String, ShapeE)>)
    ensures
        (#[trigger] shape_pair_views(ps)).len() == ps.len(),
        forall|i: int|
            0 <= i < ps.len() ==> shape_pair_views(ps)[i] == (ps[i].0@, shape_e_view(ps[i].1)),
    decreases ps.len(),
{
    if ps.len() > 0 {
        lemma_shape_pair_views(ps.drop_first());
    }
}

fn enum_shape_e(first: &str, second: &str) -> (r: ShapeE)
    ensures
        r@ == Shape::SEnum(seq![first@, second@]),
{
    let mut syms: Vec<String> = Vec::new();
    syms.push(String::from_str(first));
    syms.push(String::from_str(second));
    let r = ShapeE::EEnum(syms);
    proof {
        assert(r@->SEnum_0 =~= seq![first@, second@]);
    }
    r
}

fn track_type_shape_e() -> (r: ShapeE)
    ensures
        r@ == track_type_shape(),
{
    enum_shape_e("VIDEO", "META")
}

fn rec_shape_e(fields: Vec<(String, ShapeE)>) -> (r: ShapeE)
    ensures
        r@ == Shape::SRec(shape_pair_views(fields@)),
{
    ShapeE::ERec(fields)
}

fn track_info_shape_e() -> (r: ShapeE)
    ensures
        r@ == track_info_shape(),
{
    let mut fs: Vec<(String, ShapeE)> = Vec::new();
    fs.push((String::from_str("name"), ShapeE::EBytes));
    fs.push((String::from_str("type"), track_type_shape_e()));
    let r = ShapeE::ERec(fs);
    proof {
        lemma_shape_pair_views(r->ERec_0@);
        assert(shape_pair_views(r->ERec_0@) =~= track_info_shape()->SRec_0);
    }
    r
}

fn unit_shape_e() -> (r: ShapeE)
    ensures
        r@ == unit_shape(),
{
    let mut fs: Vec<(String, ShapeE)> = Vec::new();
    fs.push((String::from_str("stream_name"), ShapeE::EBytes));
    fs.push((String::from_str("track_name"), ShapeE::EBytes));
    fs.push((String::from_str("track_type"), track_type_shape_e()));
    fs.push((String::from_str("unit"), ShapeE::ELong));
    let r = ShapeE::ERec(fs);
    proof {
        lemma_shape_pair_views(r->ERec_0@);
        assert(shape_pair_views(r->ERec_0@) =~= unit_shape()->SRec_0);
    }
    r
}

fn unit_element_value_shape_e() -> (r: ShapeE)
    ensures
        r@ == unit_element_value_shape(),
{
    let mut fs: Vec<(String, ShapeE)> = Vec::new();
    fs.push((String::from_str("data"), ShapeE::EBytes));
    fs.push((String::from_str("attributes"), ShapeE::EMap));
    let r = ShapeE::ERec(fs);
    proof {
        lemma_shape_pair_views(r->ERec_0@);
        assert(shape_pair_views(r->ERec_0@) =~= unit_element_value_shape()->SRec_0);
    }
    r
}

/// The executable structure of the catalog schema at manifest position `i`.
pub(crate) fn shape_e_at(i: usize) -> (r: ShapeE)
    requires
        i < catalog_names().len(),
    ensures
        r@ == shape_of(catalog_names()[i as int]),
{
    proof {
        lemma_shape_of();
    }
    let mut fs: Vec<(String, ShapeE)> = Vec::new();
    if i == 0 {
        return track_type_shape_e();
    } else if i == 1 {
        return track_info_shape_e();
    } else if i == 2 {
        return unit_shape_e();
    } else if i == 3 {
        return unit_element_value_shape_e();
    } else if i == 4 {
        fs.push((String::from_str("stream_unit"), unit_shape_e()));
        fs.push((String::from_str("element"), ShapeE::ELong));
        fs.push((String::from_str("value"), ShapeE::EBytes));
        fs.push((String::from_str("attributes"), ShapeE::EMap));
        fs.push((String::from_str("last"), ShapeE::EBool));
        let r = ShapeE::ERec(fs);
        proof {
            lemma_shape_pair_views(r->ERec_0@);
            assert(shape_pair_views(r->ERec_0@) =~= unit_element_message_shape()->SRec_0);
        }
        return r;
    } else if i == 5 {
        fs.push((String::from_str("stream_unit"), unit_shape_e()));
        fs.push((String::from_str("last_element"), ShapeE::EInt));
        fs.push((String::from_str("saved_ms"), ShapeE::ELong));
        fs.push((String::from_str("notify_type"), enum_shape_e("READY", "NEW")));
        let r = ShapeE::ERec(fs);
        proof {
            lemma_shape_pair_views(r->ERec_0@);
            assert(shape_pair_views(r->ERec_0@) =~= notify_message_shape()->SRec_0);
        }
        return r;
    } else if i == 6 {
        fs.push((String::from_str("request_id"), ShapeE::ELong));
        fs.push((String::from_str("topic"), ShapeE::EStr));
        fs.push((String::from_str("stream_name"), ShapeE::EBytes));
        let r = ShapeE::ERec(fs);
        proof {
            lemma_shape_pair_views(r->ERec_0@);
            assert(shape_pair_views(r->ERec_0@) =~= stream_tracks_request_shape()->SRec_0);
        }
        return r;
    } else if i == 7 {
        fs.push((String::from_str("request_id"), ShapeE::ELong));
        fs.push((String::from_str("stream_name"), ShapeE::EBytes));
        fs.push((String::from_str("tracks"), ShapeE::EArr(Box::new(track_info_shape_e()))));
        let r = ShapeE::ERec(fs);
        proof {
            lemma_shape_pair_views(r->ERec_0@);
            assert(shape_pair_views(r->ERec_0@) =~= stream_tracks_response_shape()->SRec_0);
        }
        return r;
    } else if i == 8 {
        fs.push((String::from_str("request_id"), ShapeE::ELong));
        fs.push((String::from_str("topic"), ShapeE::EStr));
        fs.push((String::from_str("stream_unit"), unit_shape_e()));
        fs.push((String::from_str("max_element"), ShapeE::ELong));
        let r = ShapeE::ERec(fs);
        proof {
            lemma_shape_pair_views(r->ERec_0@);
            assert(shape_pair_views(r->ERec_0@)
                =~= stream_track_unit_elements_request_shape()->SRec_0);
        }
        return r;
    } else if i == 9 {
        fs.push((String::from_str("request_id"), ShapeE::ELong));
        fs.push((String::from_str("stream_unit"), unit_shape_e()));
        fs.push(
            (String::from_str("values"), ShapeE::EArr(Box::new(unit_element_value_shape_e()))),
        );
        let r = ShapeE::ERec(fs);
        proof {
            lemma_shape_pair_views(r->ERec_0@);
            assert(shape_pair_views(r->ERec_0@)
                =~= stream_track_unit_elements_response_shape()->SRec_0);
        }
        return r;
    } else if i == 10 {
        fs.push((String::from_str("request_id"), ShapeE::ELong));
        fs.push((String::from_str("topic"), ShapeE::EStr));
        fs.push((String::from_str("stream_unit"), unit_shape_e()));
        fs.push((String::from_str("from_ms"), ShapeE::ELong));
        fs.push((String::from_str("to_ms"), ShapeE::ELong));
        let r = ShapeE::ERec(fs);
        proof {
            lemma_shape_pair_views(r->ERec_0@);
            assert(shape_pair_views(r->ERec_0@) =~= stream_track_units_request_shape()->SRec_0);
        }
        return r;
    } else if i == 11 {
        fs.push((String::from_str("request_id"), ShapeE::ELong));
        fs.push((String::from_str("stream_unit"), unit_shape_e()));
        fs.push((String::from_str("from_ms"), ShapeE::ELong));
        fs.push((String::from_str("to_ms"), ShapeE::ELong));
        fs.push((String::from_str("units"), ShapeE::EArr(Box::new(ShapeE::ELong))));
        let r = ShapeE::ERec(fs);
        proof {
            lemma_shape_pair_views(r->ERec_0@);
            let want = stream_track_units_response_shape()->SRec_0;
            assert(shape_e_view(ShapeE::ELong) == Shape::SLong);
            assert(shape_pair_views(r->ERec_0@)[4].1 == want[4].1);
            assert(shape_pair_views(r->ERec_0@) =~= want);
        }
        return r;
    } else if i == 12 {
        fs.push((String::from_str("request_id"), ShapeE::ELong));
        fs.push((String::from_str("topic"), ShapeE::EStr));
        fs.push((String::from_str("type"), enum_shape_e("REQUEST", "RESPONSE")));
        let r = ShapeE::ERec(fs);
        proof {
            lemma_shape_pair_views(r->ERec_0@);
            assert(shape_pair_views(r->ERec_0@) =~= ping_request_response_shape()->SRec_0);
        }
        return r;
    } else if i == 13 {
        fs.push((String::from_str("module_id"), ShapeE::EStr));
        let r = ShapeE::ERec(fs);
        proof {
            lemma_shape_pair_views(r->ERec_0@);
            assert(shape_pair_views(r->ERec_0@) =~= keepalive_message_shape()->SRec_0);
        }
        return r;
    } else if i == 14 {
        fs.push((String::from_str("schema"), ShapeE::EBytes));
        fs.push((String::from_str("payload"), ShapeE::EBytes));
        let r = ShapeE::ERec(fs);
        proof {
            lemma_shape_pair_views(r->ERec_0@);
            assert(shape_pair_views(r->ERec_0@) =~= message_envelope_shape()->SRec_0);
        }
        return r;
    } else if i == 15 {
        fs.push((String::from_str("request_id"), ShapeE::ELong));
        fs.push((String::from_str("topic"), ShapeE::EStr));
        fs.push((String::from_str("url"), ShapeE::EStr));
        fs.push((String::from_str("attributes"), ShapeE::EMap));
        let r = ShapeE::ERec(fs);
        proof {
            lemma_shape_pair_views(r->ERec_0@);
            assert(shape_pair_views(r->ERec_0@) =~= services_ffprobe_request_shape()->SRec_0);
        }
        return r;
    } else {
        let mut syms: Vec<String> = Vec::new();
        syms.push(String::from_str("ACCEPTED"));
        syms.push(String::from_str("COMPLETE"));
        syms.push(String::from_str("ERROR"));
        let rt = ShapeE::EEnum(syms);
        proof {
            assert(rt@->SEnum_0 =~= ffprobe_response_type_shape()->SEnum_0);
        }
        fs.push((String::from_str("request_id"), ShapeE::ELong));
        fs.push((String::from_str("response_type"), rt));
        fs.push((String::from_str("time_spent"), ShapeE::ELong));
        fs.push((String::from_str("streams"), ShapeE::EArr(Box::new(ShapeE::EMap))));
        let r = ShapeE::ERec(fs);
        proof {
            lemma_shape_pair_views(r->ERec_0@);
            let want = services_ffprobe_response_shape()->SRec_0;
            assert(shape_e_view(ShapeE::EMap) == Shape::SMap);
            assert(shape_pair_views(r->ERec_0@)[3].1 == want[3].1);
            assert(shape_pair_views(r->ERec_0@) =~= want);
        }
        return r;
    }
}


/// Refine one enum-erased decoded value against the schema structure it was
/// decoded under: turn each in-range index at an enum position back into the
/// indexed symbol, and reject out-of-range indexes, shape mismatches and
/// non-string map entries, exactly as `refine_tree` lays down.
pub(crate) fn refine(t: TreeValue, sh: &ShapeE) -> (r: Option<TreeValue>)
    ensures
        r is Some <==> refine_tree(t@, sh@) is Some,
        r matches Some(t2) ==> Some(t2@) == refine_tree(t@, sh@),
    decreases t,
{
    match t {
        TreeValue::Boolean(b) => match sh {
            ShapeE::EBool => Some(TreeValue::Boolean(b)),
            _ => None,
        },
        TreeValue::Int(i) => match sh {
            ShapeE::EInt => Some(TreeValue::Int(i)),
            ShapeE::EEnum(syms) => {
                if i >= 0 && (i as usize) < syms.len() {
                    let symbol = syms[i as usize].clone();
                    proof {
                        assert(sh@->SEnum_0[i as int] == syms@[i as int]@);
                    }
                    Some(TreeValue::Enum(i, symbol))
                } else {
                    None
                }
            },
            _ => None,
        },
        TreeValue::Long(l) => match sh {
            ShapeE::ELong => Some(TreeValue::Long(l)),
            _ => None,
        },
        TreeValue::Bytes(b) => match sh {
            ShapeE::EBytes => Some(TreeValue::Bytes(b)),
            _ => None,
        },
        TreeValue::Str(st) => match sh {
            ShapeE::EStr => Some(TreeValue::Str(st)),
            _ => None,
        },
        TreeValue::Enum(i, lit) => match sh {
            ShapeE::EEnum(syms) => {
                if i >= 0 && (i as usize) < syms.len() && crate::avro::str_eq(
                    syms[i as usize].as_str(),
                    lit.as_str(),
                ) {
                    proof {
                        assert(sh@->SEnum_0[i as int] == syms@[i as int]@);
                    }
                    Some(TreeValue::Enum(i, lit))
                } else {
                    proof {
                        if 0 <= i < syms@.len() {
                            assert(sh@->SEnum_0[i as int] == syms@[i as int]@);
                        }
                    }
                    None
                }
            },
            _ => None,
        },
        TreeValue::Array(xs) => match sh {
            ShapeE::EArr(inner) => {
                let ghost gxs = xs@;
                let n = xs.len();
                proof {
                    assert(gxs.len() == n);
                    assert(decreases_to!(t => xs@));
                    assert(t@ == TreeV::Array(elem_views(gxs)));
                    assert(sh@ == Shape::SArr(Box::new((**inner)@)));
                }
                match refine_array(xs, Ghost(gxs), &**inner) {
                    Some(ys) => {
                        proof {
                            assert(refine_tree(t@, sh@) == Some(TreeV::Array(elem_views(ys@))));
                        }
                        Some(TreeValue::Array(ys))
                    },
                    None => {
                        proof {
                            assert(refine_tree(t@, sh@) is None);
                        }
                        None
                    },
                }
            },
            _ => None,
        },
        TreeValue::Dict(ps) => match sh {
            ShapeE::EMap => {
                if crate::primitives::dict_values_are_strings(&ps) {
                    Some(TreeValue::Dict(ps))
                } else {
                    None
                }
            },
            _ => None,
        },
        TreeValue::Record(fs) => match sh {
            ShapeE::ERec(shf) => {
                let ghost gfs = fs@;
                let n = fs.len();
                proof {
                    assert(gfs.len() == n);
                    lemma_shape_pair_views(shf@);
                    assert(decreases_to!(t => fs@));
                    assert(t@ == TreeV::Record(pair_views(gfs)));
                    assert(sh@ == Shape::SRec(shape_pair_views(shf@)));
                }
                match refine_record(fs, Ghost(gfs), shf) {
                    Some(gs) => {
                        proof {
                            assert(refine_tree(t@, sh@) == Some(TreeV::Record(pair_views(gs@))));
                        }
                        Some(TreeValue::Record(gs))
                    },
                    None => {
                        proof {
                            assert(refine_tree(t@, sh@) is None);
                        }
                        None
                    },
                }
            },
            _ => None,
        },
        TreeValue::Other => None,
    }
}

fn refine_array(xs: Vec<TreeValue>, origin: Ghost<Seq<TreeValue>>, inner: &ShapeE) -> (r: Option<
    Vec<TreeValue>,
>)
    requires
        xs@ == origin@,
        origin@.len() <= usize::MAX,
    ensures
        r is Some <==> refine_elems(elem_views(origin@), inner@) is Some,
        r matches Some(ys) ==> Some(elem_views(ys@)) == refine_elems(elem_views(origin@), inner@),
    decreases origin@,
{
    let ghost orig = origin@;
    let ghost evs = elem_views(orig);
    proof {
        lemma_elem_views(orig);
        lemma_refine_elems_pointwise(evs, inner@);
    }
    let mut rest = xs;
    let mut out: Vec<TreeValue> = Vec::new();
    let mut i: usize = 0;
    while rest.len() > 0
        invariant
            origin@ == orig,
            orig.len() <= usize::MAX,
            i + rest@.len() == orig.len(),
            forall|j: int| 0 <= j < rest@.len() ==> rest@[j] == orig[i + j],
            evs == elem_views(orig),
            evs.len() == orig.len(),
            forall|j: int| 0 <= j < orig.len() ==> evs[j] == tree_view(#[trigger] orig[j]),
            out@.len() == i,
            forall|j: int|
                0 <= j < i ==> refine_tree(#[trigger] evs[j], inner@) is Some && tree_view(
                    out@[j],
                ) == refine_tree(evs[j], inner@)->Some_0,
        decreases rest@.len(),
    {
        let x = rest.remove(0);
        proof {
            assert(x == orig[i as int]);
            assert(decreases_to!(origin@ => x));
        }
        match refine(x, inner) {
            Some(y) => {
                out.push(y);
            },
            None => {
                proof {
                    lemma_refine_elems_pointwise(evs, inner@);
                    assert(!(refine_tree(evs[i as int], inner@) is Some));
                }
                return None;
            },
        }
        i += 1;
    }
    proof {
        lemma_refine_elems_pointwise(evs, inner@);
        assert(refine_elems(evs, inner@) is Some);
        lemma_elem_views(out@);
        assert(elem_views(out@) =~= refine_elems(evs, inner@)->Some_0);
    }
    Some(out)
}

fn refine_record(
    fs: Vec<(String, TreeValue)>,
    origin: Ghost<Seq<(String, TreeValue)>>,
    shf: &Vec<(String, ShapeE)>,
) -> (r: Option<Vec<(String, TreeValue)>>)
    requires
        fs@ == origin@,
        origin@.len() <= usize::MAX,
    ensures
        r is Some <==> refine_pairs(pair_views(origin@), shape_pair_views(shf@)) is Some,
        r matches Some(gs) ==> Some(pair_views(gs@)) == refine_pairs(
            pair_views(origin@),
            shape_pair_views(shf@),
        ),
    decreases origin@,
{
    let ghost orig = origin@;
    let ghost pvs = pair_views(orig);
    let ghost spv = shape_pair_views(shf@);
    proof {
        lemma_pair_views(orig);
        lemma_shape_pair_views(shf@);
        lemma_refine_pairs_pointwise(pvs, spv);
    }
    if fs.len() != shf.len() {
        return None;
    }
    let mut rest = fs;
    let mut out: Vec<(String, TreeValue)> = Vec::new();
    let mut i: usize = 0;
    while rest.len() > 0
        invariant
            origin@ == orig,
            orig.len() <= usize::MAX,
            i + rest@.len() == orig.len(),
            orig.len() == shf@.len(),
            forall|j: int| 0 <= j < rest@.len() ==> rest@[j] == orig[i + j],
            pvs == pair_views(orig),
            pvs.len() == orig.len(),
            forall|j: int|
                0 <= j < orig.len() ==> pvs[j] == ((#[trigger] orig[j]).0@, tree_view(orig[j].1)),
            spv == shape_pair_views(shf@),
            spv.len() == shf@.len(),
            forall|j: int|
                0 <= j < shf@.len() ==> spv[j] == ((#[trigger] shf@[j]).0@, shape_e_view(
                    shf@[j].1,
                )),
            out@.len() == i,
            forall|j: int|
                0 <= j < i ==> (#[trigger] pvs[j]).0 == spv[j].0 && refine_tree(
                    pvs[j].1,
                    spv[j].1,
                ) is Some && pair_views(out@)[j] == (pvs[j].0, refine_tree(
                    pvs[j].1,
                    spv[j].1,
                )->Some_0),
        decreases rest@.len(),
    {
        proof {
            lemma_pair_views(out@);
        }
        let (name, val) = rest.remove(0);
        proof {
            assert((name, val) == orig[i as int]);
            assert(decreases_to!(origin@ => val)) by {
                assert(decreases_to!(origin@ => orig[i as int]));
                assert(decreases_to!(orig[i as int] => val));
            }
        }
        if !crate::avro::str_eq(name.as_str(), shf[i].0.as_str()) {
            proof {
                lemma_refine_pairs_pointwise(pvs, spv);
                assert(pvs[i as int].0 != spv[i as int].0);
            }
            return None;
        }
        match refine(val, &shf[i].1) {
            Some(y) => {
                let ghost prev = out@;
                out.push((name, y));
                proof {
                    lemma_pair_views(out@);
                    lemma_pair_views(prev);
                    assert(forall|j: int|
                        0 <= j < prev.len() ==> pair_views(out@)[j] == pair_views(prev)[j]);
                }
            },
            None => {
                proof {
                    lemma_refine_pairs_pointwise(pvs, spv);
                    assert(!(refine_tree(pvs[i as int].1, spv[i as int].1) is Some));
                }
                return None;
            },
        }
        i += 1;
    }
    proof {
        lemma_refine_pairs_pointwise(pvs, spv);
        assert(refine_pairs(pvs, spv) is Some);
        lemma_pair_views(out@);
        assert(pair_views(out@) =~= refine_pairs(pvs, spv)->Some_0);
    }
    Some(out)
}

} // verus!
