use vstd::prelude::*;
use crate::avro::{
    str_eq, Builder, ProtocolMessage, STREAM_TRACK_UNITS_REQUEST_SCHEMA,
    STREAM_TRACK_UNITS_RESPONSE_SCHEMA,
};
use crate::objects::{FromProtocolMessage, ToProtocolMessage};
use crate::primitives::{
    lemma_unit_fits, lemma_unit_round_trip, spec_unit_of_tree, spec_unit_tree, TrackType, Unit,
    UnitV,
};
use crate::shapes;
use crate::tree::{fits, rt_exact, Shape, TreeV, TreeValue};

verus! {

/// A request for the units of one track within a time range.
#[derive(Debug, Clone, PartialEq)]
pub struct StreamTrackUnitsRequest {
    pub request_id: i64,
    pub topic: String,
    pub stream_unit: Unit,
    pub from_ms: u128,
    pub to_ms: u128,
}

pub struct StreamTrackUnitsRequestV {
    pub request_id: int,
    pub topic: Seq<char>,
    pub stream_unit: UnitV,
    pub from_ms: int,
    pub to_ms: int,
}

impl View for StreamTrackUnitsRequest {
    type V = StreamTrackUnitsRequestV;

    open spec fn view(&self) -> StreamTrackUnitsRequestV {
        StreamTrackUnitsRequestV {
            request_id: self.request_id as int,
            topic: self.topic@,
            stream_unit: self.stream_unit@,
            from_ms: self.from_ms as int,
            to_ms: self.to_ms as int,
        }
    }
}

impl StreamTrackUnitsRequest {
    pub fn new(request_id: i64, topic: String, stream_unit: Unit, from_ms: u128, to_ms: u128) -> (r:
        Self)
        ensures
            r@ == (StreamTrackUnitsRequestV {
                request_id: request_id as int,
                topic: topic@,
                stream_unit: stream_unit@,
                from_ms: from_ms as int,
                to_ms: to_ms as int,
            }),
    {
        StreamTrackUnitsRequest { request_id, topic, stream_unit, from_ms, to_ms }
    }
}

impl FromProtocolMessage for StreamTrackUnitsRequest {
    open spec fn from_spec(name: Seq<char>, v: TreeV) -> Option<StreamTrackUnitsRequestV> {
        if name != shapes::stream_track_units_request_schema_name() {
            None
        } else {
            match v {
                TreeV::Record(fs) => {
                    if fs.len() == 5 && fs[0].1 is Long && fs[1].1 is Str && spec_unit_of_tree(
                        fs[2].1,
                    ) is Some && fs[3].1 is Long && 0 <= fs[3].1->Long_0 && fs[4].1 is Long && 0
                        <= fs[4].1->Long_0 {
                        Some(
                            StreamTrackUnitsRequestV {
                                request_id: fs[0].1->Long_0,
                                topic: fs[1].1->Str_0,
                                stream_unit: spec_unit_of_tree(fs[2].1)->Some_0,
                                from_ms: fs[3].1->Long_0,
                                to_ms: fs[4].1->Long_0,
                            },
                        )
                    } else {
                        None
                    }
                },
                _ => None,
            }
        }
    }

    fn load(message: &ProtocolMessage) -> (r: Option<Self>) {
        if !str_eq(message.schema.as_str(), STREAM_TRACK_UNITS_REQUEST_SCHEMA) {
            return None;
        }
        match &message.object {
            TreeValue::Record(fields) => {
                proof {
                    crate::tree::lemma_pair_views(fields@);
                }
                if fields.len() != 5 {
                    return None;
                }
                match (&fields[0].1, &fields[1].1, &fields[2].1, &fields[3].1, &fields[4].1) {
                    (
                        TreeValue::Long(request_id),
                        TreeValue::Str(topic),
                        unit_value,
                        TreeValue::Long(from_ms),
                        TreeValue::Long(to_ms),
                    ) => {
                        let stream_unit = match Unit::from_avro_record(unit_value) {
                            Some(u) => u,
                            None => {
                                return None;
                            },
                        };
                        if *from_ms < 0 || *to_ms < 0 {
                            return None;
                        }
                        Some(
                            StreamTrackUnitsRequest {
                                request_id: *request_id,
                                topic: topic.clone(),
                                stream_unit,
                                from_ms: *from_ms as u128,
                                to_ms: *to_ms as u128,
                            },
                        )
                    },
                    _ => None,
                }
            },
            _ => None,
        }
    }
}

impl ToProtocolMessage for StreamTrackUnitsRequest {
    open spec fn schema_name() -> Seq<char> {
        shapes::stream_track_units_request_schema_name()
    }

    open spec fn encodable(&self) -> bool {
        &&& self.stream_unit.track_type != TrackType::NotImplemented
        &&& self.from_ms <= i64::MAX
        &&& self.to_ms <= i64::MAX
    }

    open spec fn to_tree(&self) -> TreeV {
        TreeV::Record(
            seq![
                ("request_id"@, TreeV::Long(self.request_id as int)),
                ("topic"@, TreeV::Str(self.topic@)),
                ("stream_unit"@, spec_unit_tree(self.stream_unit@)),
                ("from_ms"@, TreeV::Long(self.from_ms as int)),
                ("to_ms"@, TreeV::Long(self.to_ms as int)),
            ],
        )
    }

    fn save(&self, _mb: &Builder) -> (r: Option<ProtocolMessage>) {
        let unit_value = match self.stream_unit.to_avro_record() {
            Some(v) => v,
            None => {
                return None;
            },
        };
        if self.from_ms > 0x7fff_ffff_ffff_ffff || self.to_ms > 0x7fff_ffff_ffff_ffff {
            return None;
        }
        let mut fields: Vec<(String, TreeValue)> = Vec::new();
        fields.push((String::from_str("request_id"), TreeValue::Long(self.request_id)));
        fields.push((String::from_str("topic"), TreeValue::Str(self.topic.clone())));
        fields.push((String::from_str("stream_unit"), unit_value));
        fields.push((String::from_str("from_ms"), TreeValue::Long(self.from_ms as i64)));
        fields.push((String::from_str("to_ms"), TreeValue::Long(self.to_ms as i64)));
        let object = TreeValue::Record(fields);
        proof {
            crate::tree::lemma_pair_views(object->Record_0@);
            assert(crate::tree::pair_views(object->Record_0@) =~= self.to_tree()->Record_0);
        }
        Some(
            ProtocolMessage { schema: String::from_str(STREAM_TRACK_UNITS_REQUEST_SCHEMA), object },
        )
    }
}

/// The sequence numbers an array of generic values carries, if every element
/// is a long.
pub open spec fn spec_units_of(xs: Seq<TreeV>) -> Option<Seq<int>> {
    if forall|i: int| 0 <= i < xs.len() ==> (#[trigger] xs[i]) is Long {
        Some(Seq::new(xs.len(), |i: int| xs[i]->Long_0))
    } else {
        None
    }
}

/// The units of one track within a time range.
#[derive(Debug, Clone, PartialEq)]
pub struct StreamTrackUnitsResponse {
    pub request_id: i64,
    pub stream_unit: Unit,
    pub from_ms: u128,
    pub to_ms: u128,
    pub units: Vec<i64>,
}

pub struct StreamTrackUnitsResponseV {
    pub request_id: int,
    pub stream_unit: UnitV,
    pub from_ms: int,
    pub to_ms: int,
    pub units: Seq<int>,
}

impl View for StreamTrackUnitsResponse {
    type V = StreamTrackUnitsResponseV;

    open spec fn view(&self) -> StreamTrackUnitsResponseV {
        StreamTrackUnitsResponseV {
            request_id: self.request_id as int,
            stream_unit: self.stream_unit@,
            from_ms: self.from_ms as int,
            to_ms: self.to_ms as int,
            units: self.units@.map_values(|u: i64| u as int),
        }
    }
}

impl StreamTrackUnitsResponse {
    pub fn new(
        request_id: i64,
        stream_unit: Unit,
        from_ms: u128,
        to_ms: u128,
        units: Vec<i64>,
    ) -> (r: Self)
        ensures
            r@ == (StreamTrackUnitsResponseV {
                request_id: request_id as int,
                stream_unit: stream_unit@,
                from_ms: from_ms as int,
                to_ms: to_ms as int,
                units: units@.map_values(|u: i64| u as int),
            }),
    {
        StreamTrackUnitsResponse { request_id, stream_unit, from_ms, to_ms, units }
    }
}

impl FromProtocolMessage for StreamTrackUnitsResponse {
    open spec fn from_spec(name: Seq<char>, v: TreeV) -> Option<StreamTrackUnitsResponseV> {
        if name != shapes::stream_track_units_response_schema_name() {
            None
        } else {
            match v {
                TreeV::Record(fs) => {
                    if fs.len() == 5 && fs[0].1 is Long && spec_unit_of_tree(fs[1].1) is Some
                        && fs[2].1 is Long && 0 <= fs[2].1->Long_0 && fs[3].1 is Long && 0
                        <= fs[3].1->Long_0 && fs[4].1 is Array && spec_units_of(
                        fs[4].1->Array_0,
                    ) is Some {
                        Some(
                            StreamTrackUnitsResponseV {
                                request_id: fs[0].1->Long_0,
                                stream_unit: spec_unit_of_tree(fs[1].1)->Some_0,
                                from_ms: fs[2].1->Long_0,
                                to_ms: fs[3].1->Long_0,
                                units: spec_units_of(fs[4].1->Array_0)->Some_0,
                            },
                        )
                    } else {
                        None
                    }
                },
                _ => None,
            }
        }
    }

    #[verifier::loop_isolation(false)]
    fn load(message: &ProtocolMessage) -> (r: Option<Self>) {
        if !str_eq(message.schema.as_str(), STREAM_TRACK_UNITS_RESPONSE_SCHEMA) {
            return None;
        }
        match &message.object {
            TreeValue::Record(fields) => {
                proof {
                    crate::tree::lemma_pair_views(fields@);
                }
                if fields.len() != 5 {
                    return None;
                }
                match (&fields[0].1, &fields[1].1, &fields[2].1, &fields[3].1, &fields[4].1) {
                    (
                        TreeValue::Long(request_id),
                        unit_value,
                        TreeValue::Long(from_ms),
                        TreeValue::Long(to_ms),
                        TreeValue::Array(units),
                    ) => {
                        let stream_unit = match Unit::from_avro_record(unit_value) {
                            Some(u) => u,
                            None => {
                                return None;
                            },
                        };
                        if *from_ms < 0 || *to_ms < 0 {
                            return None;
                        }
                        proof {
                            crate::tree::lemma_elem_views(units@);
                        }
                        let ghost elems = crate::tree::elem_views(units@);
                        let mut units_parsed: Vec<i64> = Vec::new();
                        let mut i: usize = 0;
                        while i < units.len()
                            invariant
                                0 <= i <= units@.len(),
                                units_parsed@.len() == i,
                                forall|j: int|
                                    0 <= j < i ==> (#[trigger] elems[j]) is Long
                                        && units_parsed@[j] as int == elems[j]->Long_0,
                            decreases units@.len() - i,
                        {
                            match &units[i] {
                                TreeValue::Long(value) => {
                                    units_parsed.push(*value);
                                },
                                _ => {
                                    proof {
                                        assert(!(elems[i as int] is Long));
                                        assert(spec_units_of(elems) is None);
                                    }
                                    return None;
                                },
                            }
                            i += 1;
                        }
                        proof {
                            assert(units_parsed@.map_values(|u: i64| u as int) =~= spec_units_of(
                                elems,
                            )->Some_0);
                        }
                        Some(
                            StreamTrackUnitsResponse {
                                request_id: *request_id,
                                stream_unit,
                                from_ms: *from_ms as u128,
                                to_ms: *to_ms as u128,
                                units: units_parsed,
                            },
                        )
                    },
                    _ => None,
                }
            },
            _ => None,
        }
    }
}

impl ToProtocolMessage for StreamTrackUnitsResponse {
    open spec fn schema_name() -> Seq<char> {
        shapes::stream_track_units_response_schema_name()
    }

    open spec fn encodable(&self) -> bool {
        &&& self.stream_unit.track_type != TrackType::NotImplemented
        &&& self.from_ms <= i64::MAX
        &&& self.to_ms <= i64::MAX
    }

    open spec fn to_tree(&self) -> TreeV {
        TreeV::Record(
            seq![
                ("request_id"@, TreeV::Long(self.request_id as int)),
                ("stream_unit"@, spec_unit_tree(self.stream_unit@)),
                ("from_ms"@, TreeV::Long(self.from_ms as int)),
                ("to_ms"@, TreeV::Long(self.to_ms as int)),
                (
                    "units"@,
                    TreeV::Array(self.units@.map_values(|u: i64| TreeV::Long(u as int))),
                ),
            ],
        )
    }

    #[verifier::loop_isolation(false)]
    fn save(&self, _mb: &Builder) -> (r: Option<ProtocolMessage>) {
        let unit_value = match self.stream_unit.to_avro_record() {
            Some(v) => v,
            None => {
                return None;
            },
        };
        if self.from_ms > 0x7fff_ffff_ffff_ffff || self.to_ms > 0x7fff_ffff_ffff_ffff {
            return None;
        }
        let mut values: Vec<TreeValue> = Vec::new();
        let mut i: usize = 0;
        while i < self.units.len()
            invariant
                0 <= i <= self.units@.len(),
                values@.len() == i,
                forall|j: int|
                    0 <= j < i ==> crate::tree::tree_view(#[trigger] values@[j]) == TreeV::Long(
                        self.units@[j] as int,
                    ),
            decreases self.units@.len() - i,
        {
            values.push(TreeValue::Long(self.units[i]));
            i += 1;
        }
        let mut fields: Vec<(String, TreeValue)> = Vec::new();
        fields.push((String::from_str("request_id"), TreeValue::Long(self.request_id)));
        fields.push((String::from_str("stream_unit"), unit_value));
        fields.push((String::from_str("from_ms"), TreeValue::Long(self.from_ms as i64)));
        fields.push((String::from_str("to_ms"), TreeValue::Long(self.to_ms as i64)));
        fields.push((String::from_str("units"), TreeValue::Array(values)));
        let object = TreeValue::Record(fields);
        proof {
            crate::tree::lemma_pair_views(object->Record_0@);
            crate::tree::lemma_elem_views(object->Record_0@[4].1->Array_0@);
            assert(crate::tree::elem_views(object->Record_0@[4].1->Array_0@)
                =~= self.to_tree()->Record_0[4].1->Array_0);
            assert(crate::tree::pair_views(object->Record_0@) =~= self.to_tree()->Record_0);
        }
        Some(
            ProtocolMessage {
                schema: String::from_str(STREAM_TRACK_UNITS_RESPONSE_SCHEMA),
                object,
            },
        )
    }
}

/// Round trip: an encodable unit range request maps back to itself.
pub proof fn lemma_stream_track_units_request_round_trip(m: StreamTrackUnitsRequest)
    requires
        m.encodable(),
    ensures
        StreamTrackUnitsRequest::from_spec(
            StreamTrackUnitsRequest::schema_name(),
            m.to_tree(),
        ) == Some(m@),
{
    lemma_unit_round_trip(m.stream_unit);
}

/// Round trip: an encodable unit range response maps back to itself.
pub proof fn lemma_stream_track_units_response_round_trip(m: StreamTrackUnitsResponse)
    requires
        m.encodable(),
    ensures
        StreamTrackUnitsResponse::from_spec(
            StreamTrackUnitsResponse::schema_name(),
            m.to_tree(),
        ) == Some(m@),
{
    lemma_unit_round_trip(m.stream_unit);
    let xs = m.to_tree()->Record_0[4].1->Array_0;
    assert(forall|i: int| 0 <= i < xs.len() ==> (#[trigger] xs[i]) is Long);
    assert(spec_units_of(xs)->Some_0 =~= m@.units);
}

/// An encodable unit range request rendering is exactly of its schema's
/// structure.
pub proof fn lemma_stream_track_units_request_fits(m: StreamTrackUnitsRequest)
    requires
        m.encodable(),
    ensures
        rt_exact(m.to_tree(), shapes::shape_of(StreamTrackUnitsRequest::schema_name())),
        fits(m.to_tree(), shapes::shape_of(StreamTrackUnitsRequest::schema_name())),
{
    shapes::lemma_shape_of();
    let sh = shapes::stream_track_units_request_shape();
    lemma_unit_fits(m.stream_unit);
    assert(rt_exact(m.to_tree(), sh)) by {
        let fs = m.to_tree()->Record_0;
        let shf = sh->SRec_0;
        assert forall|j: int|
            0 <= j < fs.len() implies (#[trigger] fs[j]).0 == shf[j].0 && rt_exact(
            fs[j].1,
            shf[j].1,
        ) by {
            assert(fs[0].0 == shf[0].0);
            assert(fs[1].0 == shf[1].0);
            assert(fs[2].0 == shf[2].0);
            assert(fs[3].0 == shf[3].0);
            assert(fs[4].0 == shf[4].0);
            assert(rt_exact(fs[2].1, shf[2].1));
        }
    }
    crate::tree::lemma_rt_exact_fits(m.to_tree(), sh);
}

/// An encodable unit range response rendering is exactly of its schema's
/// structure.
pub proof fn lemma_stream_track_units_response_fits(m: StreamTrackUnitsResponse)
    requires
        m.encodable(),
    ensures
        rt_exact(m.to_tree(), shapes::shape_of(StreamTrackUnitsResponse::schema_name())),
        fits(m.to_tree(), shapes::shape_of(StreamTrackUnitsResponse::schema_name())),
{
    shapes::lemma_shape_of();
    let sh = shapes::stream_track_units_response_shape();
    lemma_unit_fits(m.stream_unit);
    assert(rt_exact(m.to_tree(), sh)) by {
        let fs = m.to_tree()->Record_0;
        let shf = sh->SRec_0;
        assert forall|j: int|
            0 <= j < fs.len() implies (#[trigger] fs[j]).0 == shf[j].0 && rt_exact(
            fs[j].1,
            shf[j].1,
        ) by {
            assert(fs[0].0 == shf[0].0);
            assert(fs[1].0 == shf[1].0);
            assert(fs[2].0 == shf[2].0);
            assert(fs[3].0 == shf[3].0);
            assert(fs[4].0 == shf[4].0);
            assert(rt_exact(fs[1].1, shf[1].1));
            let xs = fs[4].1->Array_0;
            assert forall|i: int| 0 <= i < xs.len() implies rt_exact(
                #[trigger] xs[i],
                Shape::SLong,
            ) by {
                assert(xs[i] == TreeV::Long(m.units@[i] as int));
            }
        }
    }
    crate::tree::lemma_rt_exact_fits(m.to_tree(), sh);
}

} // verus!
