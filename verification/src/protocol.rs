use vstd::prelude::*;
use crate::avro::{env_tree, pack_post, pack_post_inner, unpack_spec, Builder, DecodeErrV};
use crate::codec::dec_of;
use crate::objects::ffprobe::{ServicesFFProbeRequest, ServicesFFProbeResponse};
use crate::objects::keep_alive::KeepAliveMessage;
use crate::objects::notify_message::NotifyMessage;
use crate::objects::ping::PingRequestResponse;
use crate::objects::stream_track_unit_elements::{
    StreamTrackUnitElementsRequest, StreamTrackUnitElementsResponse,
};
use crate::objects::stream_track_units::{StreamTrackUnitsRequest, StreamTrackUnitsResponse};
use crate::objects::stream_tracks::{StreamTracksRequest, StreamTracksResponse};
use crate::objects::unit_element_message::UnitElementMessage;
use crate::objects::{FromProtocolMessage, ToProtocolMessage};
use crate::shapes;
use crate::tree::{maps_le1, rt_exact, TreeV};

verus! {

/// The closed set of message types this protocol carries: the dispatcher
/// tries them in this order.
#[derive(Debug, Clone, PartialEq)]
pub enum Message {
    UnitElementMessage(UnitElementMessage),
    NotifyMessage(NotifyMessage),
    PingRequestResponse(PingRequestResponse),
    ServicesFFProbeRequest(ServicesFFProbeRequest),
    ServicesFFProbeResponse(ServicesFFProbeResponse),
    StreamTrackUnitElementsRequest(StreamTrackUnitElementsRequest),
    StreamTrackUnitElementsResponse(StreamTrackUnitElementsResponse),
    StreamTracksRequest(StreamTracksRequest),
    StreamTracksResponse(StreamTracksResponse),
    StreamTrackUnitsRequest(StreamTrackUnitsRequest),
    StreamTrackUnitsResponse(StreamTrackUnitsResponse),
    KeepAliveMessage(KeepAliveMessage),
}

pub enum MessageV {
    UnitElementMessage(<UnitElementMessage as View>::V),
    NotifyMessage(<NotifyMessage as View>::V),
    PingRequestResponse(<PingRequestResponse as View>::V),
    ServicesFFProbeRequest(<ServicesFFProbeRequest as View>::V),
    ServicesFFProbeResponse(<ServicesFFProbeResponse as View>::V),
    StreamTrackUnitElementsRequest(<StreamTrackUnitElementsRequest as View>::V),
    StreamTrackUnitElementsResponse(<StreamTrackUnitElementsResponse as View>::V),
    StreamTracksRequest(<StreamTracksRequest as View>::V),
    StreamTracksResponse(<StreamTracksResponse as View>::V),
    StreamTrackUnitsRequest(<StreamTrackUnitsRequest as View>::V),
    StreamTrackUnitsResponse(<StreamTrackUnitsResponse as View>::V),
    KeepAliveMessage(<KeepAliveMessage as View>::V),
}

impl View for Message {
    type V = MessageV;

    open spec fn view(&self) -> MessageV {
        match self {
            Message::UnitElementMessage(m) => MessageV::UnitElementMessage(m@),
            Message::NotifyMessage(m) => MessageV::NotifyMessage(m@),
            Message::PingRequestResponse(m) => MessageV::PingRequestResponse(m@),
            Message::ServicesFFProbeRequest(m) => MessageV::ServicesFFProbeRequest(m@),
            Message::ServicesFFProbeResponse(m) => MessageV::ServicesFFProbeResponse(m@),
            Message::StreamTrackUnitElementsRequest(m) => MessageV::StreamTrackUnitElementsRequest(
                m@,
            ),
            Message::StreamTrackUnitElementsResponse(m) => MessageV::StreamTrackUnitElementsResponse(
                m@,
            ),
            Message::StreamTracksRequest(m) => MessageV::StreamTracksRequest(m@),
            Message::StreamTracksResponse(m) => MessageV::StreamTracksResponse(m@),
            Message::StreamTrackUnitsRequest(m) => MessageV::StreamTrackUnitsRequest(m@),
            Message::StreamTrackUnitsResponse(m) => MessageV::StreamTrackUnitsResponse(m@),
            Message::KeepAliveMessage(m) => MessageV::KeepAliveMessage(m@),
        }
    }
}

impl Message {
    /// The canonical schema name of this message's type.
    pub open spec fn spec_schema_name(&self) -> Seq<char> {
        match self {
            Message::UnitElementMessage(_) => UnitElementMessage::schema_name(),
            Message::NotifyMessage(_) => NotifyMessage::schema_name(),
            Message::PingRequestResponse(_) => PingRequestResponse::schema_name(),
            Message::ServicesFFProbeRequest(_) => ServicesFFProbeRequest::schema_name(),
            Message::ServicesFFProbeResponse(_) => ServicesFFProbeResponse::schema_name(),
            Message::StreamTrackUnitElementsRequest(_) => StreamTrackUnitElementsRequest::schema_name(),
            Message::StreamTrackUnitElementsResponse(_) => StreamTrackUnitElementsResponse::schema_name(),
            Message::StreamTracksRequest(_) => StreamTracksRequest::schema_name(),
            Message::StreamTracksResponse(_) => StreamTracksResponse::schema_name(),
            Message::StreamTrackUnitsRequest(_) => StreamTrackUnitsRequest::schema_name(),
            Message::StreamTrackUnitsResponse(_) => StreamTrackUnitsResponse::schema_name(),
            Message::KeepAliveMessage(_) => KeepAliveMessage::schema_name(),
        }
    }

    /// Whether this message has a wire form at all: no fallback variant
    /// anywhere, and every numeric field within its wire range.
    pub open spec fn spec_encodable(&self) -> bool {
        match self {
            Message::UnitElementMessage(m) => m.encodable(),
            Message::NotifyMessage(m) => m.encodable(),
            Message::PingRequestResponse(m) => m.encodable(),
            Message::ServicesFFProbeRequest(m) => m.encodable(),
            Message::ServicesFFProbeResponse(m) => m.encodable(),
            Message::StreamTrackUnitElementsRequest(m) => m.encodable(),
            Message::StreamTrackUnitElementsResponse(m) => m.encodable(),
            Message::StreamTracksRequest(m) => m.encodable(),
            Message::StreamTracksResponse(m) => m.encodable(),
            Message::StreamTrackUnitsRequest(m) => m.encodable(),
            Message::StreamTrackUnitsResponse(m) => m.encodable(),
            Message::KeepAliveMessage(m) => m.encodable(),
        }
    }

    /// The generic value this message renders to.
    pub open spec fn spec_to_tree(&self) -> TreeV {
        match self {
            Message::UnitElementMessage(m) => m.to_tree(),
            Message::NotifyMessage(m) => m.to_tree(),
            Message::PingRequestResponse(m) => m.to_tree(),
            Message::ServicesFFProbeRequest(m) => m.to_tree(),
            Message::ServicesFFProbeResponse(m) => m.to_tree(),
            Message::StreamTrackUnitElementsRequest(m) => m.to_tree(),
            Message::StreamTrackUnitElementsResponse(m) => m.to_tree(),
            Message::StreamTracksRequest(m) => m.to_tree(),
            Message::StreamTracksResponse(m) => m.to_tree(),
            Message::StreamTrackUnitsRequest(m) => m.to_tree(),
            Message::StreamTrackUnitsResponse(m) => m.to_tree(),
            Message::KeepAliveMessage(m) => m.to_tree(),
        }
    }
}

/// The message, if any, that a decoded envelope maps to: each registered
/// type is tried in the dispatcher's fixed order, and the first structural
/// match wins.  Schema names are unique per type, so at most one can match.
pub open spec fn dispatch_spec(name: Seq<char>, v: TreeV) -> Option<MessageV> {
    if UnitElementMessage::from_spec(name, v) is Some {
        Some(MessageV::UnitElementMessage(UnitElementMessage::from_spec(name, v)->Some_0))
    } else if NotifyMessage::from_spec(name, v) is Some {
        Some(MessageV::NotifyMessage(NotifyMessage::from_spec(name, v)->Some_0))
    } else if PingRequestResponse::from_spec(name, v) is Some {
        Some(MessageV::PingRequestResponse(PingRequestResponse::from_spec(name, v)->Some_0))
    } else if ServicesFFProbeRequest::from_spec(name, v) is Some {
        Some(MessageV::ServicesFFProbeRequest(ServicesFFProbeRequest::from_spec(name, v)->Some_0))
    } else if ServicesFFProbeResponse::from_spec(name, v) is Some {
        Some(
            MessageV::ServicesFFProbeResponse(ServicesFFProbeResponse::from_spec(name, v)->Some_0),
        )
    } else if StreamTrackUnitElementsRequest::from_spec(name, v) is Some {
        Some(
            MessageV::StreamTrackUnitElementsRequest(
                StreamTrackUnitElementsRequest::from_spec(name, v)->Some_0,
            ),
        )
    } else if StreamTrackUnitElementsResponse::from_spec(name, v) is Some {
        Some(
            MessageV::StreamTrackUnitElementsResponse(
                StreamTrackUnitElementsResponse::from_spec(name, v)->Some_0,
            ),
        )
    } else if StreamTracksRequest::from_spec(name, v) is Some {
        Some(MessageV::StreamTracksRequest(StreamTracksRequest::from_spec(name, v)->Some_0))
    } else if StreamTracksResponse::from_spec(name, v) is Some {
        Some(MessageV::StreamTracksResponse(StreamTracksResponse::from_spec(name, v)->Some_0))
    } else if StreamTrackUnitsRequest::from_spec(name, v) is Some {
        Some(MessageV::StreamTrackUnitsRequest(StreamTrackUnitsRequest::from_spec(name, v)->Some_0))
    } else if StreamTrackUnitsResponse::from_spec(name, v) is Some {
        Some(
            MessageV::StreamTrackUnitsResponse(StreamTrackUnitsResponse::from_spec(name, v)->Some_0),
        )
    } else if KeepAliveMessage::from_spec(name, v) is Some {
        Some(MessageV::KeepAliveMessage(KeepAliveMessage::from_spec(name, v)->Some_0))
    } else {
        None
    }
}

impl Builder {
    /// Encode a message of any registered type: render it as a generic value
    /// under its type's schema name and pack it into the envelope.  Exactly
    /// the encodable messages are accepted.
    pub fn save(&self, obj: &Message) -> (r: Option<Vec<u8>>)
        ensures
            r is Some <==> obj.spec_encodable(),
            r matches Some(b) ==> pack_post(obj.spec_schema_name(), obj.spec_to_tree(), b@),
    {
        proof {
            lemma_message_name_in_catalog(*obj);
            if obj.spec_encodable() {
                lemma_message_fits(*obj);
            }
        }
        let pm = match obj {
            Message::UnitElementMessage(m) => m.save(self),
            Message::NotifyMessage(m) => m.save(self),
            Message::PingRequestResponse(m) => m.save(self),
            Message::ServicesFFProbeRequest(m) => m.save(self),
            Message::ServicesFFProbeResponse(m) => m.save(self),
            Message::StreamTrackUnitElementsRequest(m) => m.save(self),
            Message::StreamTrackUnitElementsResponse(m) => m.save(self),
            Message::StreamTracksRequest(m) => m.save(self),
            Message::StreamTracksResponse(m) => m.save(self),
            Message::StreamTrackUnitsRequest(m) => m.save(self),
            Message::StreamTrackUnitsResponse(m) => m.save(self),
            Message::KeepAliveMessage(m) => m.save(self),
        };
        match pm {
            Some(pm) => match self.save_from_avro(pm) {
                Ok(b) => Some(b),
                Err(_) => None,
            },
            None => None,
        }
    }

    /// Decode a message of any registered type: unpack the envelope, then
    /// try each registered type in the dispatcher's fixed order.
    pub fn load(&self, message: Vec<u8>) -> (r: Option<Message>)
        ensures
            r matches Some(m) ==> (unpack_spec(message@) matches Ok(p) && dispatch_spec(p.0, p.1)
                == Some(m@)),
            r is None ==> (unpack_spec(message@) is Err || (unpack_spec(
                message@,
            ) matches Ok(p) && dispatch_spec(p.0, p.1) is None)),
    {
        let pm = match self.load_to_avro(message) {
            Some(pm) => pm,
            None => {
                return None;
            },
        };
        if let Some(m) = UnitElementMessage::load(&pm) {
            return Some(Message::UnitElementMessage(m));
        }
        if let Some(m) = NotifyMessage::load(&pm) {
            return Some(Message::NotifyMessage(m));
        }
        if let Some(m) = PingRequestResponse::load(&pm) {
            return Some(Message::PingRequestResponse(m));
        }
        if let Some(m) = ServicesFFProbeRequest::load(&pm) {
            return Some(Message::ServicesFFProbeRequest(m));
        }
        if let Some(m) = ServicesFFProbeResponse::load(&pm) {
            return Some(Message::ServicesFFProbeResponse(m));
        }
        if let Some(m) = StreamTrackUnitElementsRequest::load(&pm) {
            return Some(Message::StreamTrackUnitElementsRequest(m));
        }
        if let Some(m) = StreamTrackUnitElementsResponse::load(&pm) {
            return Some(Message::StreamTrackUnitElementsResponse(m));
        }
        if let Some(m) = StreamTracksRequest::load(&pm) {
            return Some(Message::StreamTracksRequest(m));
        }
        if let Some(m) = StreamTracksResponse::load(&pm) {
            return Some(Message::StreamTracksResponse(m));
        }
        if let Some(m) = StreamTrackUnitsRequest::load(&pm) {
            return Some(Message::StreamTrackUnitsRequest(m));
        }
        if let Some(m) = StreamTrackUnitsResponse::load(&pm) {
            return Some(Message::StreamTrackUnitsResponse(m));
        }
        if let Some(m) = KeepAliveMessage::load(&pm) {
            return Some(Message::KeepAliveMessage(m));
        }
        None
    }
}

/// Every registered type's schema name is in the catalog.
pub proof fn lemma_message_name_in_catalog(m: Message)
    ensures
        shapes::catalog_names().contains(m.spec_schema_name()),
{
    match m {
        Message::UnitElementMessage(_) => {
            assert(shapes::catalog_names()[4] == m.spec_schema_name());
        },
        Message::NotifyMessage(_) => {
            assert(shapes::catalog_names()[5] == m.spec_schema_name());
        },
        Message::PingRequestResponse(_) => {
            assert(shapes::catalog_names()[12] == m.spec_schema_name());
        },
        Message::ServicesFFProbeRequest(_) => {
            assert(shapes::catalog_names()[15] == m.spec_schema_name());
        },
        Message::ServicesFFProbeResponse(_) => {
            assert(shapes::catalog_names()[16] == m.spec_schema_name());
        },
        Message::StreamTrackUnitElementsRequest(_) => {
            assert(shapes::catalog_names()[8] == m.spec_schema_name());
        },
        Message::StreamTrackUnitElementsResponse(_) => {
            assert(shapes::catalog_names()[9] == m.spec_schema_name());
        },
        Message::StreamTracksRequest(_) => {
            assert(shapes::catalog_names()[6] == m.spec_schema_name());
        },
        Message::StreamTracksResponse(_) => {
            assert(shapes::catalog_names()[7] == m.spec_schema_name());
        },
        Message::StreamTrackUnitsRequest(_) => {
            assert(shapes::catalog_names()[10] == m.spec_schema_name());
        },
        Message::StreamTrackUnitsResponse(_) => {
            assert(shapes::catalog_names()[11] == m.spec_schema_name());
        },
        Message::KeepAliveMessage(_) => {
            assert(shapes::catalog_names()[13] == m.spec_schema_name());
        },
    }
}

/// An encodable message's rendering is exactly of its own schema's
/// structure.
pub proof fn lemma_message_fits(m: Message)
    requires
        m.spec_encodable(),
    ensures
        rt_exact(m.spec_to_tree(), shapes::shape_of(m.spec_schema_name())),
        crate::tree::fits(m.spec_to_tree(), shapes::shape_of(m.spec_schema_name())),
{
    match m {
        Message::UnitElementMessage(t) => crate::objects::unit_element_message::lemma_unit_element_fits(
            t,
        ),
        Message::NotifyMessage(t) => crate::objects::notify_message::lemma_notify_fits(t),
        Message::PingRequestResponse(t) => crate::objects::ping::lemma_ping_fits(t),
        Message::ServicesFFProbeRequest(t) => crate::objects::ffprobe::lemma_ffprobe_request_fits(
            t,
        ),
        Message::ServicesFFProbeResponse(t) => crate::objects::ffprobe::lemma_ffprobe_response_fits(
            t,
        ),
        Message::StreamTrackUnitElementsRequest(t) => crate::objects::stream_track_unit_elements::lemma_stream_track_unit_elements_request_fits(
            t,
        ),
        Message::StreamTrackUnitElementsResponse(t) => crate::objects::stream_track_unit_elements::lemma_stream_track_unit_elements_response_fits(
            t,
        ),
        Message::StreamTracksRequest(t) => crate::objects::stream_tracks::lemma_stream_tracks_request_fits(
            t,
        ),
        Message::StreamTracksResponse(t) => crate::objects::stream_tracks::lemma_stream_tracks_response_fits(
            t,
        ),
        Message::StreamTrackUnitsRequest(t) => crate::objects::stream_track_units::lemma_stream_track_units_request_fits(
            t,
        ),
        Message::StreamTrackUnitsResponse(t) => crate::objects::stream_track_units::lemma_stream_track_units_response_fits(
            t,
        ),
        Message::KeepAliveMessage(t) => crate::objects::keep_alive::lemma_keep_alive_fits(t),
    }
}

/// An encodable message maps back to exactly itself from its own rendering
/// under its own schema name, and no other registered type claims it.
pub proof fn lemma_message_dispatch(m: Message)
    requires
        m.spec_encodable(),
    ensures
        dispatch_spec(m.spec_schema_name(), m.spec_to_tree()) == Some(m@),
{
    shapes::reveal_catalog_names();
    match m {
        Message::UnitElementMessage(t) => {
            crate::objects::unit_element_message::lemma_unit_element_round_trip(t);
        },
        Message::NotifyMessage(t) => {
            crate::objects::notify_message::lemma_notify_round_trip(t);
        },
        Message::PingRequestResponse(t) => {
            crate::objects::ping::lemma_ping_round_trip(t);
        },
        Message::ServicesFFProbeRequest(t) => {
            crate::objects::ffprobe::lemma_ffprobe_request_round_trip(t);
        },
        Message::ServicesFFProbeResponse(t) => {
            crate::objects::ffprobe::lemma_ffprobe_response_round_trip(t);
        },
        Message::StreamTrackUnitElementsRequest(t) => {
            crate::objects::stream_track_unit_elements::lemma_stream_track_unit_elements_request_round_trip(
                t,
            );
        },
        Message::StreamTrackUnitElementsResponse(t) => {
            crate::objects::stream_track_unit_elements::lemma_stream_track_unit_elements_response_round_trip(
                t,
            );
        },
        Message::StreamTracksRequest(t) => {
            crate::objects::stream_tracks::lemma_stream_tracks_request_round_trip(t);
        },
        Message::StreamTracksResponse(t) => {
            crate::objects::stream_tracks::lemma_stream_tracks_response_round_trip(t);
        },
        Message::StreamTrackUnitsRequest(t) => {
            crate::objects::stream_track_units::lemma_stream_track_units_request_round_trip(t);
        },
        Message::StreamTrackUnitsResponse(t) => {
            crate::objects::stream_track_units::lemma_stream_track_units_response_round_trip(t);
        },
        Message::KeepAliveMessage(t) => {
            crate::objects::keep_alive::lemma_keep_alive_round_trip(t);
        },
    }
}

/// Round-trip law: whatever bytes encoding an encodable message produced,
/// decoding them yields that same message back.
pub proof fn lemma_round_trip(m: Message, b: Seq<u8>)
    requires
        m.spec_encodable(),
        pack_post(m.spec_schema_name(), m.spec_to_tree(), b),
    ensures
        unpack_spec(b) == Ok::<(Seq<char>, TreeV), DecodeErrV>(
            (m.spec_schema_name(), m.spec_to_tree()),
        ),
        dispatch_spec(m.spec_schema_name(), m.spec_to_tree()) == Some(m@),
{
    broadcast use vstd::utf8::encode_utf8_decode_utf8, vstd::utf8::encode_utf8_valid_utf8;

    let name = m.spec_schema_name();
    let v = m.spec_to_tree();
    lemma_message_name_in_catalog(m);
    lemma_message_fits(m);
    let inner = choose|inner: Seq<u8>| pack_post_inner(name, v, b, inner);
    assert(dec_of(name, inner) == Some(v));
    assert(dec_of(shapes::message_envelope_schema_name(), b) == Some(env_tree(name, inner)));
    let fs = env_tree(name, inner)->Record_0;
    assert(fs.len() == 2 && fs[0].0 == "schema"@ && fs[0].1 is Bytes && fs[1].0 == "payload"@
        && fs[1].1 is Bytes);
    assert(vstd::utf8::valid_utf8(fs[0].1->Bytes_0));
    assert(vstd::utf8::decode_utf8(fs[0].1->Bytes_0) == name);
    assert(unpack_spec(b) == Ok::<(Seq<char>, TreeV), DecodeErrV>((name, v)));
    lemma_message_dispatch(m);
}

/// Whatever bytes packing a valid payload produced, unpacking them
/// succeeds and reports the schema name the payload was packed under, for
/// every payload that packs at all.
pub proof fn lemma_pack_unpacks(name: Seq<char>, v: TreeV, b: Seq<u8>)
    requires
        shapes::catalog_names().contains(name),
        pack_post(name, v, b),
    ensures
        unpack_spec(b) is Ok,
        unpack_spec(b)->Ok_0.0 == name,
{
    broadcast use vstd::utf8::encode_utf8_decode_utf8, vstd::utf8::encode_utf8_valid_utf8;

    let inner = choose|inner: Seq<u8>| pack_post_inner(name, v, b, inner);
    assert(dec_of(name, inner) is Some);
    assert(dec_of(shapes::message_envelope_schema_name(), b) == Some(env_tree(name, inner)));
    let fs = env_tree(name, inner)->Record_0;
    assert(fs.len() == 2 && fs[0].0 == "schema"@ && fs[0].1 is Bytes && fs[1].0 == "payload"@
        && fs[1].1 is Bytes);
    assert(vstd::utf8::valid_utf8(fs[0].1->Bytes_0));
    assert(vstd::utf8::decode_utf8(fs[0].1->Bytes_0) == name);
}

/// Packing is deterministic for values whose maps have at most one entry:
/// two packings of the same value under the same name are byte-identical.
pub proof fn lemma_pack_deterministic(name: Seq<char>, v: TreeV, b1: Seq<u8>, b2: Seq<u8>)
    requires
        maps_le1(v),
        pack_post(name, v, b1),
        pack_post(name, v, b2),
    ensures
        b1 == b2,
{
    let i1 = choose|inner: Seq<u8>| pack_post_inner(name, v, b1, inner);
    let i2 = choose|inner: Seq<u8>| pack_post_inner(name, v, b2, inner);
    assert(i1 == i2);
}

/// Idempotent re-encode: for a round-trip-exact value with at most one
/// entry per map, unpacking a packed envelope and packing the result again
/// gives back the very same bytes.
pub proof fn lemma_repack(name: Seq<char>, v: TreeV, b: Seq<u8>, b2: Seq<u8>)
    requires
        rt_exact(v, shapes::shape_of(name)),
        maps_le1(v),
        pack_post(name, v, b),
        pack_post(name, unpack_spec(b)->Ok_0.1, b2),
        shapes::catalog_names().contains(name),
    ensures
        unpack_spec(b) == Ok::<(Seq<char>, TreeV), DecodeErrV>((name, v)),
        b2 == b,
{
    broadcast use vstd::utf8::encode_utf8_decode_utf8, vstd::utf8::encode_utf8_valid_utf8;

    let inner = choose|inner: Seq<u8>| pack_post_inner(name, v, b, inner);
    assert(dec_of(name, inner) == Some(v));
    assert(dec_of(shapes::message_envelope_schema_name(), b) == Some(env_tree(name, inner)));
    let fs = env_tree(name, inner)->Record_0;
    assert(fs.len() == 2 && fs[0].0 == "schema"@ && fs[0].1 is Bytes && fs[1].0 == "payload"@
        && fs[1].1 is Bytes);
    assert(vstd::utf8::valid_utf8(fs[0].1->Bytes_0));
    assert(vstd::utf8::decode_utf8(fs[0].1->Bytes_0) == name);
    assert(unpack_spec(b) == Ok::<(Seq<char>, TreeV), DecodeErrV>((name, v)));
    lemma_pack_deterministic(name, v, b, b2);
}

} // verus!
