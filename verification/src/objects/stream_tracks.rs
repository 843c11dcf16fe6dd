use vstd::prelude::*;
use crate::avro::{
    str_eq, Builder, ProtocolMessage, STREAM_TRACKS_REQUEST_SCHEMA, STREAM_TRACKS_RESPONSE_SCHEMA,
};
use crate::objects::{FromProtocolMessage, ToProtocolMessage};
use crate::primitives::{
    get_empty_track_name, get_track_type_enum, packed_identity, spec_track_type_of_literal,
    spec_track_type_wire, track_type_literal_to_track_type, StreamName, TrackInfo, TrackInfoV,
    TrackType,
};
use crate::shapes;
use crate::tree::{fits, rt_exact, TreeV, TreeValue};
use crate::utils::fill_byte_array;

verus! {

/// A request to list the tracks of a stream.
#[derive(Debug, Clone, PartialEq)]
pub struct StreamTracksRequest {
    pub request_id: i64,
    pub topic: String,
    pub stream_name: StreamName,
}

pub struct StreamTracksRequestV {
    pub request_id: int,
    pub topic: Seq<char>,
    pub stream_name: Seq<u8>,
}

impl View for StreamTracksRequest {
    type V = StreamTracksRequestV;

    open spec fn view(&self) -> StreamTracksRequestV {
        StreamTracksRequestV {
            request_id: self.request_id as int,
            topic: self.topic@,
            stream_name: self.stream_name@,
        }
    }
}

impl StreamTracksRequest {
    pub fn new(request_id: i64, topic: String, stream_name: StreamName) -> (r: Self)
        ensures
            r@ == (StreamTracksRequestV {
                request_id: request_id as int,
                topic: topic@,
                stream_name: stream_name@,
            }),
    {
        StreamTracksRequest { request_id, topic, stream_name }
    }
}

impl FromProtocolMessage for StreamTracksRequest {
    open spec fn from_spec(name: Seq<char>, v: TreeV) -> Option<StreamTracksRequestV> {
        if name != shapes::stream_tracks_request_schema_name() {
            None
        } else {
            match v {
                TreeV::Record(fs) => {
                    if fs.len() == 3 && fs[0].1 is Long && fs[1].1 is Str && fs[2].1 is Bytes {
                        Some(
                            StreamTracksRequestV {
                                request_id: fs[0].1->Long_0,
                                topic: fs[1].1->Str_0,
                                stream_name: packed_identity(fs[2].1->Bytes_0),
                            },
                        )
                    } else {
                        None
                    }
                },
                _ => None,
            }
        }
    }

    fn load(message: &ProtocolMessage) -> (r: Option<Self>) {
        if !str_eq(message.schema.as_str(), STREAM_TRACKS_REQUEST_SCHEMA) {
            return None;
        }
        match &message.object {
            TreeValue::Record(fields) => {
                proof {
                    crate::tree::lemma_pair_views(fields@);
                }
                if fields.len() != 3 {
                    return None;
                }
                match (&fields[0].1, &fields[1].1, &fields[2].1) {
                    (
                        TreeValue::Long(request_id),
                        TreeValue::Str(topic),
                        TreeValue::Bytes(stream_name),
                    ) => {
                        let mut sn: StreamName = get_empty_track_name();
                        fill_byte_array(&mut sn, stream_name);
                        proof {
                            assert(sn@ =~= packed_identity(stream_name@));
                        }
                        Some(
                            StreamTracksRequest {
                                request_id: *request_id,
                                topic: topic.clone(),
                                stream_name: sn,
                            },
                        )
                    },
                    _ => None,
                }
            },
            _ => None,
        }
    }
}

impl ToProtocolMessage for StreamTracksRequest {
    open spec fn schema_name() -> Seq<char> {
        shapes::stream_tracks_request_schema_name()
    }

    open spec fn encodable(&self) -> bool {
        true
    }

    open spec fn to_tree(&self) -> TreeV {
        TreeV::Record(
            seq![
                ("request_id"@, TreeV::Long(self.request_id as int)),
                ("topic"@, TreeV::Str(self.topic@)),
                ("stream_name"@, TreeV::Bytes(self.stream_name@)),
            ],
        )
    }

    fn save(&self, _mb: &Builder) -> (r: Option<ProtocolMessage>) {
        let mut fields: Vec<(String, TreeValue)> = Vec::new();
        fields.push((String::from_str("request_id"), TreeValue::Long(self.request_id)));
        fields.push((String::from_str("topic"), TreeValue::Str(self.topic.clone())));
        fields.push(
            (
                String::from_str("stream_name"),
                TreeValue::Bytes(vstd::slice::slice_to_vec(self.stream_name.as_slice())),
            ),
        );
        let object = TreeValue::Record(fields);
        proof {
            crate::tree::lemma_pair_views(object->Record_0@);
            assert(crate::tree::pair_views(object->Record_0@) =~= self.to_tree()->Record_0);
        }
        Some(ProtocolMessage { schema: String::from_str(STREAM_TRACKS_REQUEST_SCHEMA), object })
    }
}

/// The generic record value of one track listing entry.
pub open spec fn spec_track_info_tree(t: TrackInfoV) -> TreeV {
    TreeV::Record(
        seq![
            ("name"@, TreeV::Bytes(t.track_name)),
            (
                "type"@,
                TreeV::Enum(
                    spec_track_type_wire(t.track_type).0,
                    spec_track_type_wire(t.track_type).1,
                ),
            ),
        ],
    )
}

/// The track listing entry a generic value maps to.
pub open spec fn spec_track_info_of_tree(v: TreeV) -> Option<TrackInfoV> {
    match v {
        TreeV::Record(fs) => {
            if fs.len() == 2 && fs[0].1 is Bytes && fs[1].1 is Enum {
                Some(
                    TrackInfoV {
                        track_type: spec_track_type_of_literal(fs[1].1->Enum_1),
                        track_name: packed_identity(fs[0].1->Bytes_0),
                    },
                )
            } else {
                None
            }
        },
        _ => None,
    }
}

/// The track listing an array of generic values carries, if every element
/// maps.
pub open spec fn spec_tracks_of(xs: Seq<TreeV>) -> Option<Seq<TrackInfoV>> {
    if forall|i: int| 0 <= i < xs.len() ==> spec_track_info_of_tree(#[trigger] xs[i]) is Some {
        Some(Seq::new(xs.len(), |i: int| spec_track_info_of_tree(xs[i])->Some_0))
    } else {
        None
    }
}

/// The track listing of one stream.
#[derive(Debug, Clone, PartialEq)]
pub struct StreamTracksResponse {
    pub request_id: i64,
    pub stream_name: StreamName,
    pub tracks: Vec<TrackInfo>,
}

pub struct StreamTracksResponseV {
    pub request_id: int,
    pub stream_name: Seq<u8>,
    pub tracks: Seq<TrackInfoV>,
}

impl View for StreamTracksResponse {
    type V = StreamTracksResponseV;

    open spec fn view(&self) -> StreamTracksResponseV {
        StreamTracksResponseV {
            request_id: self.request_id as int,
            stream_name: self.stream_name@,
            tracks: self.tracks@.map_values(|t: TrackInfo| t@),
        }
    }
}

impl StreamTracksResponse {
    pub fn new(request_id: i64, stream_name: StreamName, tracks: Vec<TrackInfo>) -> (r: Self)
        ensures
            r@ == (StreamTracksResponseV {
                request_id: request_id as int,
                stream_name: stream_name@,
                tracks: tracks@.map_values(|t: TrackInfo| t@),
            }),
    {
        StreamTracksResponse { request_id, stream_name, tracks }
    }
}

impl FromProtocolMessage for StreamTracksResponse {
    open spec fn from_spec(name: Seq<char>, v: TreeV) -> Option<StreamTracksResponseV> {
        if name != shapes::stream_tracks_response_schema_name() {
            None
        } else {
            match v {
                TreeV::Record(fs) => {
                    if fs.len() == 3 && fs[0].1 is Long && fs[1].1 is Bytes && fs[2].1 is Array
                        && spec_tracks_of(fs[2].1->Array_0) is Some {
                        Some(
                            StreamTracksResponseV {
                                request_id: fs[0].1->Long_0,
                                stream_name: packed_identity(fs[1].1->Bytes_0),
                                tracks: spec_tracks_of(fs[2].1->Array_0)->Some_0,
                            },
                        )
                    } else {
                        None
                    }
                },
                _ => None,
            }
        }
    }

    #[verifier::loop_isolation(false)]
    fn load(message: &ProtocolMessage) -> (r: Option<Self>) {
        if !str_eq(message.schema.as_str(), STREAM_TRACKS_RESPONSE_SCHEMA) {
            return None;
        }
        match &message.object {
            TreeValue::Record(fields) => {
                proof {
                    crate::tree::lemma_pair_views(fields@);
                }
                if fields.len() != 3 {
                    return None;
                }
                match (&fields[0].1, &fields[1].1, &fields[2].1) {
                    (
                        TreeValue::Long(request_id),
                        TreeValue::Bytes(stream_name),
                        TreeValue::Array(tracks),
                    ) => {
                        proof {
                            crate::tree::lemma_elem_views(tracks@);
                        }
                        let ghost elems = crate::tree::elem_views(tracks@);
                        let mut valid_track_records: Vec<TrackInfo> = Vec::new();
                        let mut i: usize = 0;
                        while i < tracks.len()
                            invariant
                                0 <= i <= tracks@.len(),
                                valid_track_records@.len() == i,
                                forall|j: int|
                                    0 <= j < i ==> spec_track_info_of_tree(
                                        #[trigger] elems[j],
                                    ) is Some && valid_track_records@[j]@
                                        == spec_track_info_of_tree(elems[j])->Some_0,
                            decreases tracks@.len() - i,
                        {
                            match &tracks[i] {
                                TreeValue::Record(track_fields) => {
                                    proof {
                                        crate::tree::lemma_pair_views(track_fields@);
                                    }
                                    if track_fields.len() != 2 {
                                        proof {
                                            assert(spec_track_info_of_tree(
                                                elems[i as int],
                                            ) is None);
                                            assert(spec_tracks_of(elems) is None);
                                        }
                                        return None;
                                    }
                                    match (&track_fields[0].1, &track_fields[1].1) {
                                        (
                                            TreeValue::Bytes(track_name),
                                            TreeValue::Enum(_index, track_type),
                                        ) => {
                                            let mut tn = get_empty_track_name();
                                            fill_byte_array(&mut tn, track_name);
                                            proof {
                                                assert(tn@ =~= packed_identity(track_name@));
                                            }
                                            valid_track_records.push(
                                                TrackInfo {
                                                    track_name: tn,
                                                    track_type: track_type_literal_to_track_type(
                                                        track_type.as_str(),
                                                    ),
                                                },
                                            );
                                        },
                                        _ => {
                                            proof {
                                                assert(spec_track_info_of_tree(
                                                    elems[i as int],
                                                ) is None);
                                                assert(spec_tracks_of(elems) is None);
                                            }
                                            return None;
                                        },
                                    }
                                },
                                _ => {
                                    proof {
                                        assert(spec_track_info_of_tree(elems[i as int]) is None);
                                        assert(spec_tracks_of(elems) is None);
                                    }
                                    return None;
                                },
                            }
                            i += 1;
                        }
                        proof {
                            assert(valid_track_records@.map_values(|t: TrackInfo| t@)
                                =~= spec_tracks_of(elems)->Some_0);
                        }
                        let mut sn: StreamName = get_empty_track_name();
                        fill_byte_array(&mut sn, stream_name);
                        proof {
                            assert(sn@ =~= packed_identity(stream_name@));
                        }
                        Some(
                            StreamTracksResponse {
                                request_id: *request_id,
                                stream_name: sn,
                                tracks: valid_track_records,
                            },
                        )
                    },
                    _ => None,
                }
            },
            _ => None,
        }
    }
}

impl ToProtocolMessage for StreamTracksResponse {
    open spec fn schema_name() -> Seq<char> {
        shapes::stream_tracks_response_schema_name()
    }

    open spec fn encodable(&self) -> bool {
        forall|i: int|
            0 <= i < self.tracks@.len() ==> (#[trigger] self.tracks@[i]).track_type
                != TrackType::NotImplemented
    }

    open spec fn to_tree(&self) -> TreeV {
        TreeV::Record(
            seq![
                ("request_id"@, TreeV::Long(self.request_id as int)),
                ("stream_name"@, TreeV::Bytes(self.stream_name@)),
                (
                    "tracks"@,
                    TreeV::Array(
                        self.tracks@.map_values(|t: TrackInfo| spec_track_info_tree(t@)),
                    ),
                ),
            ],
        )
    }

    #[verifier::loop_isolation(false)]
    fn save(&self, _mb: &Builder) -> (r: Option<ProtocolMessage>) {
        let mut tracks: Vec<TreeValue> = Vec::new();
        let mut i: usize = 0;
        while i < self.tracks.len()
            invariant
                0 <= i <= self.tracks@.len(),
                tracks@.len() == i,
                forall|j: int|
                    0 <= j < i ==> (#[trigger] self.tracks@[j]).track_type
                        != TrackType::NotImplemented && crate::tree::tree_view(tracks@[j])
                        == spec_track_info_tree(self.tracks@[j]@),
            decreases self.tracks@.len() - i,
        {
            let track_info = &self.tracks[i];
            let type_value = match get_track_type_enum(&track_info.track_type) {
                Some(v) => v,
                None => {
                    return None;
                },
            };
            let mut track_fields: Vec<(String, TreeValue)> = Vec::new();
            track_fields.push(
                (
                    String::from_str("name"),
                    TreeValue::Bytes(vstd::slice::slice_to_vec(track_info.track_name.as_slice())),
                ),
            );
            track_fields.push((String::from_str("type"), type_value));
            let track_value = TreeValue::Record(track_fields);
            proof {
                crate::tree::lemma_pair_views(track_value->Record_0@);
                assert(crate::tree::pair_views(track_value->Record_0@) =~= spec_track_info_tree(
                    self.tracks@[i as int]@,
                )->Record_0);
            }
            tracks.push(track_value);
            i += 1;
        }
        let mut fields: Vec<(String, TreeValue)> = Vec::new();
        fields.push((String::from_str("request_id"), TreeValue::Long(self.request_id)));
        fields.push(
            (
                String::from_str("stream_name"),
                TreeValue::Bytes(vstd::slice::slice_to_vec(self.stream_name.as_slice())),
            ),
        );
        fields.push((String::from_str("tracks"), TreeValue::Array(tracks)));
        let object = TreeValue::Record(fields);
        proof {
            crate::tree::lemma_pair_views(object->Record_0@);
            crate::tree::lemma_elem_views(object->Record_0@[2].1->Array_0@);
            assert(crate::tree::elem_views(object->Record_0@[2].1->Array_0@)
                =~= self.to_tree()->Record_0[2].1->Array_0);
            assert(crate::tree::pair_views(object->Record_0@) =~= self.to_tree()->Record_0);
        }
        Some(ProtocolMessage { schema: String::from_str(STREAM_TRACKS_RESPONSE_SCHEMA), object })
    }
}

/// Round trip: a track listing request maps back to itself, its identity
/// already being sixteen bytes.
pub proof fn lemma_stream_tracks_request_round_trip(m: StreamTracksRequest)
    ensures
        StreamTracksRequest::from_spec(StreamTracksRequest::schema_name(), m.to_tree()) == Some(
            m@,
        ),
{
    assert(packed_identity(m.stream_name@) =~= m.stream_name@);
}

/// Round trip: an encodable track listing response maps back to itself.
pub proof fn lemma_stream_tracks_response_round_trip(m: StreamTracksResponse)
    requires
        m.encodable(),
    ensures
        StreamTracksResponse::from_spec(StreamTracksResponse::schema_name(), m.to_tree())
            == Some(m@),
{
    reveal_strlit("VIDEO");
    reveal_strlit("META");
    assert("VIDEO"@.len() == 5);
    assert("META"@.len() == 4);
    assert(packed_identity(m.stream_name@) =~= m.stream_name@);
    let xs = m.to_tree()->Record_0[2].1->Array_0;
    assert forall|i: int|
        0 <= i < xs.len() implies spec_track_info_of_tree(#[trigger] xs[i]) is Some
        && spec_track_info_of_tree(xs[i])->Some_0 == m@.tracks[i] by {
        assert(xs[i] == spec_track_info_tree(m.tracks@[i]@));
        assert(packed_identity(m.tracks@[i].track_name@) =~= m.tracks@[i].track_name@);
        match m.tracks@[i].track_type {
            TrackType::Video => {},
            TrackType::Meta => {
                assert("META"@ != "VIDEO"@);
            },
            TrackType::NotImplemented => {},
        }
    }
    assert(spec_tracks_of(xs)->Some_0 =~= m@.tracks);
}

/// A track listing request rendering is exactly of its schema's structure.
pub proof fn lemma_stream_tracks_request_fits(m: StreamTracksRequest)
    ensures
        rt_exact(m.to_tree(), shapes::shape_of(StreamTracksRequest::schema_name())),
        fits(m.to_tree(), shapes::shape_of(StreamTracksRequest::schema_name())),
{
    shapes::lemma_shape_of();
    let sh = shapes::stream_tracks_request_shape();
    assert(rt_exact(m.to_tree(), sh)) by {
        let fs = m.to_tree()->Record_0;
        let shf = sh->SRec_0;
        assert forall|j: int|
            0 <= j < fs.len() implies (#[trigger] fs[j]).0 == shf[j].0 && rt_exact(
            fs[j].1,
            shf[j].1,
        ) by {
            assert(fs[0].0 == shf[0].0);
            assert(fs[1].0 == shf[1].0);
            assert(fs[2].0 == shf[2].0);
        }
    }
    crate::tree::lemma_rt_exact_fits(m.to_tree(), sh);
}

/// An encodable track listing response rendering is exactly of its schema's
/// structure.
pub proof fn lemma_stream_tracks_response_fits(m: StreamTracksResponse)
    requires
        m.encodable(),
    ensures
        rt_exact(m.to_tree(), shapes::shape_of(StreamTracksResponse::schema_name())),
        fits(m.to_tree(), shapes::shape_of(StreamTracksResponse::schema_name())),
{
    shapes::lemma_shape_of();
    let sh = shapes::stream_tracks_response_shape();
    assert(rt_exact(m.to_tree(), sh)) by {
        let fs = m.to_tree()->Record_0;
        let shf = sh->SRec_0;
        assert forall|j: int|
            0 <= j < fs.len() implies (#[trigger] fs[j]).0 == shf[j].0 && rt_exact(
            fs[j].1,
            shf[j].1,
        ) by {
            assert(fs[0].0 == shf[0].0);
            assert(fs[1].0 == shf[1].0);
            assert(fs[2].0 == shf[2].0);
            let xs = fs[2].1->Array_0;
            assert forall|i: int|
                0 <= i < xs.len() implies rt_exact(
                #[trigger] xs[i],
                shapes::track_info_shape(),
            ) by {
                assert(xs[i] == spec_track_info_tree(m.tracks@[i]@));
                let tfs = xs[i]->Record_0;
                let tshf = shapes::track_info_shape()->SRec_0;
                assert forall|k: int|
                    0 <= k < tfs.len() implies (#[trigger] tfs[k]).0 == tshf[k].0 && rt_exact(
                    tfs[k].1,
                    tshf[k].1,
                ) by {
                    assert(tfs[0].0 == tshf[0].0);
                    assert(tfs[1].0 == tshf[1].0);
                }
            }
        }
    }
    crate::tree::lemma_rt_exact_fits(m.to_tree(), sh);
}

} // verus!
