use vstd::prelude::*;
use crate::avro::{
    str_eq, Builder, ProtocolMessage, STREAM_TRACK_UNIT_ELEMENTS_REQUEST_SCHEMA,
    STREAM_TRACK_UNIT_ELEMENTS_RESPONSE_SCHEMA,
};
use crate::objects::{FromProtocolMessage, ToProtocolMessage};
use crate::primitives::{
    attrs_from_tree, lemma_unit_fits, lemma_unit_round_trip, spec_attrs_of, spec_attrs_ok,
    spec_unit_of_tree, spec_unit_tree, ElementType, Payload, PayloadV, TrackType, Unit, UnitV,
};
use crate::shapes;
use crate::tree::{fits, rt_exact, TreeV, TreeValue};
use crate::utils::gen_hash_map;

verus! {

/// A request for the elements of one unit, up to a maximum element index.
#[derive(Debug, Clone, PartialEq)]
pub struct StreamTrackUnitElementsRequest {
    pub request_id: i64,
    pub topic: String,
    pub stream_unit: Unit,
    pub max_element: ElementType,
}

pub struct StreamTrackUnitElementsRequestV {
    pub request_id: int,
    pub topic: Seq<char>,
    pub stream_unit: UnitV,
    pub max_element: int,
}

impl View for StreamTrackUnitElementsRequest {
    type V = StreamTrackUnitElementsRequestV;

    open spec fn view(&self) -> StreamTrackUnitElementsRequestV {
        StreamTrackUnitElementsRequestV {
            request_id: self.request_id as int,
            topic: self.topic@,
            stream_unit: self.stream_unit@,
            max_element: self.max_element as int,
        }
    }
}

impl StreamTrackUnitElementsRequest {
    pub fn new(request_id: i64, topic: String, stream_unit: Unit, max_element: ElementType) -> (r:
        Self)
        ensures
            r@ == (StreamTrackUnitElementsRequestV {
                request_id: request_id as int,
                topic: topic@,
                stream_unit: stream_unit@,
                max_element: max_element as int,
            }),
    {
        StreamTrackUnitElementsRequest { request_id, topic, stream_unit, max_element }
    }
}

impl FromProtocolMessage for StreamTrackUnitElementsRequest {
    open spec fn from_spec(name: Seq<char>, v: TreeV) -> Option<StreamTrackUnitElementsRequestV> {
        if name != shapes::stream_track_unit_elements_request_schema_name() {
            None
        } else {
            match v {
                TreeV::Record(fs) => {
                    if fs.len() == 4 && fs[0].1 is Long && fs[1].1 is Str && spec_unit_of_tree(
                        fs[2].1,
                    ) is Some && fs[3].1 is Long && i16::MIN <= fs[3].1->Long_0 <= i16::MAX {
                        Some(
                            StreamTrackUnitElementsRequestV {
                                request_id: fs[0].1->Long_0,
                                topic: fs[1].1->Str_0,
                                stream_unit: spec_unit_of_tree(fs[2].1)->Some_0,
                                max_element: fs[3].1->Long_0,
                            },
                        )
                    } else {
                        None
                    }
                },
                _ => None,
            }
        }
    }

    fn load(message: &ProtocolMessage) -> (r: Option<Self>) {
        if !str_eq(message.schema.as_str(), STREAM_TRACK_UNIT_ELEMENTS_REQUEST_SCHEMA) {
            return None;
        }
        match &message.object {
            TreeValue::Record(fields) => {
                proof {
                    crate::tree::lemma_pair_views(fields@);
                }
                if fields.len() != 4 {
                    return None;
                }
                match (&fields[0].1, &fields[1].1, &fields[2].1, &fields[3].1) {
                    (
                        TreeValue::Long(request_id),
                        TreeValue::Str(topic),
                        unit_value,
                        TreeValue::Long(max_element),
                    ) => {
                        let stream_unit = match Unit::from_avro_record(unit_value) {
                            Some(u) => u,
                            None => {
                                return None;
                            },
                        };
                        if *max_element < -32768 || *max_element > 32767 {
                            return None;
                        }
                        Some(
                            StreamTrackUnitElementsRequest {
                                request_id: *request_id,
                                topic: topic.clone(),
                                stream_unit,
                                max_element: *max_element as i16,
                            },
                        )
                    },
                    _ => None,
                }
            },
            _ => None,
        }
    }
}

impl ToProtocolMessage for StreamTrackUnitElementsRequest {
    open spec fn schema_name() -> Seq<char> {
        shapes::stream_track_unit_elements_request_schema_name()
    }

    open spec fn encodable(&self) -> bool {
        self.stream_unit.track_type != TrackType::NotImplemented
    }

    open spec fn to_tree(&self) -> TreeV {
        TreeV::Record(
            seq![
                ("request_id"@, TreeV::Long(self.request_id as int)),
                ("topic"@, TreeV::Str(self.topic@)),
                ("stream_unit"@, spec_unit_tree(self.stream_unit@)),
                ("max_element"@, TreeV::Long(self.max_element as int)),
            ],
        )
    }

    fn save(&self, _mb: &Builder) -> (r: Option<ProtocolMessage>) {
        let unit_value = match self.stream_unit.to_avro_record() {
            Some(v) => v,
            None => {
                return None;
            },
        };
        let mut fields: Vec<(String, TreeValue)> = Vec::new();
        fields.push((String::from_str("request_id"), TreeValue::Long(self.request_id)));
        fields.push((String::from_str("topic"), TreeValue::Str(self.topic.clone())));
        fields.push((String::from_str("stream_unit"), unit_value));
        fields.push((String::from_str("max_element"), TreeValue::Long(self.max_element as i64)));
        let object = TreeValue::Record(fields);
        proof {
            crate::tree::lemma_pair_views(object->Record_0@);
            assert(crate::tree::pair_views(object->Record_0@) =~= self.to_tree()->Record_0);
        }
        Some(
            ProtocolMessage {
                schema: String::from_str(STREAM_TRACK_UNIT_ELEMENTS_REQUEST_SCHEMA),
                object,
            },
        )
    }
}

/// The generic record value of one element payload.
pub open spec fn spec_payload_tree(p: PayloadV) -> TreeV {
    TreeV::Record(
        seq![
            ("data"@, TreeV::Bytes(p.data)),
            (
                "attributes"@,
                TreeV::Dict(p.attributes.map_values(|v: Seq<char>| TreeV::Str(v))),
            ),
        ],
    )
}

/// The element payload a generic value maps to.
pub open spec fn spec_payload_of_tree(v: TreeV) -> Option<PayloadV> {
    match v {
        TreeV::Record(fs) => {
            if fs.len() == 2 && fs[0].1 is Bytes && fs[1].1 is Dict && spec_attrs_ok(
                fs[1].1->Dict_0,
            ) {
                Some(
                    PayloadV { data: fs[0].1->Bytes_0, attributes: spec_attrs_of(fs[1].1->Dict_0) },
                )
            } else {
                None
            }
        },
        _ => None,
    }
}

/// The payloads an array of generic values carries, if every element maps.
pub open spec fn spec_payloads_of(xs: Seq<TreeV>) -> Option<Seq<PayloadV>> {
    if forall|i: int| 0 <= i < xs.len() ==> spec_payload_of_tree(#[trigger] xs[i]) is Some {
        Some(Seq::new(xs.len(), |i: int| spec_payload_of_tree(xs[i])->Some_0))
    } else {
        None
    }
}

/// The element payloads of one unit, in order.
#[derive(Debug, Clone, PartialEq)]
pub struct StreamTrackUnitElementsResponse {
    pub request_id: i64,
    pub stream_unit: Unit,
    pub values: Vec<Payload>,
}

pub struct StreamTrackUnitElementsResponseV {
    pub request_id: int,
    pub stream_unit: UnitV,
    pub values: Seq<PayloadV>,
}

impl View for StreamTrackUnitElementsResponse {
    type V = StreamTrackUnitElementsResponseV;

    open spec fn view(&self) -> StreamTrackUnitElementsResponseV {
        StreamTrackUnitElementsResponseV {
            request_id: self.request_id as int,
            stream_unit: self.stream_unit@,
            values: self.values@.map_values(|p: Payload| p@),
        }
    }
}

impl StreamTrackUnitElementsResponse {
    pub fn new(request_id: i64, stream_unit: Unit, values: Vec<Payload>) -> (r: Self)
        ensures
            r@ == (StreamTrackUnitElementsResponseV {
                request_id: request_id as int,
                stream_unit: stream_unit@,
                values: values@.map_values(|p: Payload| p@),
            }),
    {
        StreamTrackUnitElementsResponse { request_id, stream_unit, values }
    }
}

impl FromProtocolMessage for StreamTrackUnitElementsResponse {
    open spec fn from_spec(name: Seq<char>, v: TreeV) -> Option<
        StreamTrackUnitElementsResponseV,
    > {
        if name != shapes::stream_track_unit_elements_response_schema_name() {
            None
        } else {
            match v {
                TreeV::Record(fs) => {
                    if fs.len() == 3 && fs[0].1 is Long && spec_unit_of_tree(fs[1].1) is Some
                        && fs[2].1 is Array && spec_payloads_of(fs[2].1->Array_0) is Some {
                        Some(
                            StreamTrackUnitElementsResponseV {
                                request_id: fs[0].1->Long_0,
                                stream_unit: spec_unit_of_tree(fs[1].1)->Some_0,
                                values: spec_payloads_of(fs[2].1->Array_0)->Some_0,
                            },
                        )
                    } else {
                        None
                    }
                },
                _ => None,
            }
        }
    }

    #[verifier::loop_isolation(false)]
    fn load(message: &ProtocolMessage) -> (r: Option<Self>) {
        if !str_eq(message.schema.as_str(), STREAM_TRACK_UNIT_ELEMENTS_RESPONSE_SCHEMA) {
            return None;
        }
        match &message.object {
            TreeValue::Record(fields) => {
                proof {
                    crate::tree::lemma_pair_views(fields@);
                }
                if fields.len() != 3 {
                    return None;
                }
                match (&fields[0].1, &fields[1].1, &fields[2].1) {
                    (TreeValue::Long(request_id), unit_value, TreeValue::Array(values)) => {
                        let stream_unit = match Unit::from_avro_record(unit_value) {
                            Some(u) => u,
                            None => {
                                return None;
                            },
                        };
                        proof {
                            crate::tree::lemma_elem_views(values@);
                        }
                        let ghost elems = crate::tree::elem_views(values@);
                        let mut values_parsed: Vec<Payload> = Vec::new();
                        let mut i: usize = 0;
                        while i < values.len()
                            invariant
                                0 <= i <= values@.len(),
                                values_parsed@.len() == i,
                                forall|j: int|
                                    0 <= j < i ==> spec_payload_of_tree(
                                        #[trigger] elems[j],
                                    ) is Some && values_parsed@[j]@ == spec_payload_of_tree(
                                        elems[j],
                                    )->Some_0,
                            decreases values@.len() - i,
                        {
                            match &values[i] {
                                TreeValue::Record(payload_fields) => {
                                    proof {
                                        crate::tree::lemma_pair_views(payload_fields@);
                                    }
                                    if payload_fields.len() != 2 {
                                        proof {
                                            assert(spec_payload_of_tree(elems[i as int]) is None);
                                            assert(spec_payloads_of(elems) is None);
                                        }
                                        return None;
                                    }
                                    match (&payload_fields[0].1, &payload_fields[1].1) {
                                        (TreeValue::Bytes(data), TreeValue::Dict(attr_pairs)) => {
                                            match attrs_from_tree(attr_pairs) {
                                                Some(attributes) => {
                                                    values_parsed.push(
                                                        Payload { data: data.clone(), attributes },
                                                    );
                                                },
                                                None => {
                                                    proof {
                                                        assert(spec_payload_of_tree(
                                                            elems[i as int],
                                                        ) is None);
                                                        assert(spec_payloads_of(elems) is None);
                                                    }
                                                    return None;
                                                },
                                            }
                                        },
                                        _ => {
                                            proof {
                                                assert(spec_payload_of_tree(
                                                    elems[i as int],
                                                ) is None);
                                                assert(spec_payloads_of(elems) is None);
                                            }
                                            return None;
                                        },
                                    }
                                },
                                _ => {
                                    proof {
                                        assert(spec_payload_of_tree(elems[i as int]) is None);
                                        assert(spec_payloads_of(elems) is None);
                                    }
                                    return None;
                                },
                            }
                            i += 1;
                        }
                        proof {
                            assert(values_parsed@.map_values(|p: Payload| p@) =~= spec_payloads_of(
                                elems,
                            )->Some_0);
                        }
                        Some(
                            StreamTrackUnitElementsResponse {
                                request_id: *request_id,
                                stream_unit,
                                values: values_parsed,
                            },
                        )
                    },
                    _ => None,
                }
            },
            _ => None,
        }
    }
}

impl ToProtocolMessage for StreamTrackUnitElementsResponse {
    open spec fn schema_name() -> Seq<char> {
        shapes::stream_track_unit_elements_response_schema_name()
    }

    open spec fn encodable(&self) -> bool {
        self.stream_unit.track_type != TrackType::NotImplemented
    }

    open spec fn to_tree(&self) -> TreeV {
        TreeV::Record(
            seq![
                ("request_id"@, TreeV::Long(self.request_id as int)),
                ("stream_unit"@, spec_unit_tree(self.stream_unit@)),
                (
                    "values"@,
                    TreeV::Array(self.values@.map_values(|p: Payload| spec_payload_tree(p@))),
                ),
            ],
        )
    }

    #[verifier::loop_isolation(false)]
    fn save(&self, _mb: &Builder) -> (r: Option<ProtocolMessage>) {
        let unit_value = match self.stream_unit.to_avro_record() {
            Some(v) => v,
            None => {
                return None;
            },
        };
        let mut values: Vec<TreeValue> = Vec::new();
        let mut i: usize = 0;
        while i < self.values.len()
            invariant
                0 <= i <= self.values@.len(),
                values@.len() == i,
                forall|j: int|
                    0 <= j < i ==> crate::tree::tree_view(#[trigger] values@[j])
                        == spec_payload_tree(self.values@[j]@),
            decreases self.values@.len() - i,
        {
            let p = &self.values[i];
            let mut payload_fields: Vec<(String, TreeValue)> = Vec::new();
            payload_fields.push((String::from_str("data"), TreeValue::Bytes(p.data.clone())));
            payload_fields.push((String::from_str("attributes"), gen_hash_map(&p.attributes)));
            let payload_value = TreeValue::Record(payload_fields);
            proof {
                crate::tree::lemma_pair_views(payload_value->Record_0@);
                assert(crate::tree::pair_views(payload_value->Record_0@) =~= spec_payload_tree(
                    self.values@[i as int]@,
                )->Record_0);
            }
            values.push(payload_value);
            i += 1;
        }
        let mut fields: Vec<(String, TreeValue)> = Vec::new();
        fields.push((String::from_str("request_id"), TreeValue::Long(self.request_id)));
        fields.push((String::from_str("stream_unit"), unit_value));
        fields.push((String::from_str("values"), TreeValue::Array(values)));
        let object = TreeValue::Record(fields);
        proof {
            crate::tree::lemma_pair_views(object->Record_0@);
            crate::tree::lemma_elem_views(object->Record_0@[2].1->Array_0@);
            assert(crate::tree::elem_views(object->Record_0@[2].1->Array_0@)
                =~= self.to_tree()->Record_0[2].1->Array_0);
            assert(crate::tree::pair_views(object->Record_0@) =~= self.to_tree()->Record_0);
        }
        Some(
            ProtocolMessage {
                schema: String::from_str(STREAM_TRACK_UNIT_ELEMENTS_RESPONSE_SCHEMA),
                object,
            },
        )
    }
}

/// Round trip: an encodable element range request maps back to itself.
pub proof fn lemma_stream_track_unit_elements_request_round_trip(m: StreamTrackUnitElementsRequest)
    requires
        m.encodable(),
    ensures
        StreamTrackUnitElementsRequest::from_spec(
            StreamTrackUnitElementsRequest::schema_name(),
            m.to_tree(),
        ) == Some(m@),
{
    lemma_unit_round_trip(m.stream_unit);
}

/// Round trip: an encodable element range response maps back to itself, its
/// payloads preserved in order.
pub proof fn lemma_stream_track_unit_elements_response_round_trip(
    m: StreamTrackUnitElementsResponse,
)
    requires
        m.encodable(),
    ensures
        StreamTrackUnitElementsResponse::from_spec(
            StreamTrackUnitElementsResponse::schema_name(),
            m.to_tree(),
        ) == Some(m@),
{
    lemma_unit_round_trip(m.stream_unit);
    let xs = m.to_tree()->Record_0[2].1->Array_0;
    assert forall|i: int|
        0 <= i < xs.len() implies spec_payload_of_tree(#[trigger] xs[i]) is Some
        && spec_payload_of_tree(xs[i])->Some_0 == m@.values[i] by {
        assert(xs[i] == spec_payload_tree(m.values@[i]@));
        let am = m.values@[i]@.attributes.map_values(|v: Seq<char>| TreeV::Str(v));
        assert(spec_attrs_ok(am));
        assert(spec_attrs_of(am) =~= m.values@[i]@.attributes);
    }
    assert(spec_payloads_of(xs)->Some_0 =~= m@.values);
}

/// An encodable element range request rendering is exactly of its schema's
/// structure.
pub proof fn lemma_stream_track_unit_elements_request_fits(m: StreamTrackUnitElementsRequest)
    requires
        m.encodable(),
    ensures
        rt_exact(m.to_tree(), shapes::shape_of(StreamTrackUnitElementsRequest::schema_name())),
        fits(m.to_tree(), shapes::shape_of(StreamTrackUnitElementsRequest::schema_name())),
{
    shapes::lemma_shape_of();
    let sh = shapes::stream_track_unit_elements_request_shape();
    lemma_unit_fits(m.stream_unit);
    assert(rt_exact(m.to_tree(), sh)) by {
        let fs = m.to_tree()->Record_0;
        let shf = sh->SRec_0;
        assert forall|j: int|
            0 <= j < fs.len() implies (#[trigger] fs[j]).0 == shf[j].0 && rt_exact(
            fs[j].1,
            shf[j].1,
        ) by {
            assert(fs[0].0 == shf[0].0);
            assert(fs[1].0 == shf[1].0);
            assert(fs[2].0 == shf[2].0);
            assert(fs[3].0 == shf[3].0);
            assert(rt_exact(fs[2].1, shf[2].1));
        }
    }
    crate::tree::lemma_rt_exact_fits(m.to_tree(), sh);
}

/// An encodable element range response rendering is exactly of its schema's
/// structure.
pub proof fn lemma_stream_track_unit_elements_response_fits(m: StreamTrackUnitElementsResponse)
    requires
        m.encodable(),
    ensures
        rt_exact(m.to_tree(), shapes::shape_of(StreamTrackUnitElementsResponse::schema_name())),
        fits(m.to_tree(), shapes::shape_of(StreamTrackUnitElementsResponse::schema_name())),
{
    shapes::lemma_shape_of();
    let sh = shapes::stream_track_unit_elements_response_shape();
    lemma_unit_fits(m.stream_unit);
    assert(rt_exact(m.to_tree(), sh)) by {
        let fs = m.to_tree()->Record_0;
        let shf = sh->SRec_0;
        assert forall|j: int|
            0 <= j < fs.len() implies (#[trigger] fs[j]).0 == shf[j].0 && rt_exact(
            fs[j].1,
            shf[j].1,
        ) by {
            assert(fs[0].0 == shf[0].0);
            assert(fs[1].0 == shf[1].0);
            assert(fs[2].0 == shf[2].0);
            assert(rt_exact(fs[1].1, shf[1].1));
            let xs = fs[2].1->Array_0;
            assert forall|i: int|
                0 <= i < xs.len() implies rt_exact(
                #[trigger] xs[i],
                shapes::unit_element_value_shape(),
            ) by {
                assert(xs[i] == spec_payload_tree(m.values@[i]@));
                let pfs = xs[i]->Record_0;
                let pshf = shapes::unit_element_value_shape()->SRec_0;
                assert forall|k: int|
                    0 <= k < pfs.len() implies (#[trigger] pfs[k]).0 == pshf[k].0 && rt_exact(
                    pfs[k].1,
                    pshf[k].1,
                ) by {
                    assert(pfs[0].0 == pshf[0].0);
                    assert(pfs[1].0 == pshf[1].0);
                }
            }
        }
    }
    crate::tree::lemma_rt_exact_fits(m.to_tree(), sh);
}

} // verus!
