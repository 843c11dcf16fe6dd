use vstd::prelude::*;
use crate::avro::{
    str_eq, Builder, ProtocolMessage, SERVICES_FFPROBE_REQUEST_SCHEMA,
    SERVICES_FFPROBE_RESPONSE_SCHEMA,
};
use crate::objects::{FromProtocolMessage, ToProtocolMessage};
use crate::primitives::{attrs_from_tree, spec_attrs_of, spec_attrs_ok, AttrMap};
use crate::shapes;
use crate::tree::{fits, rt_exact, Shape, TreeV, TreeValue};
use crate::utils::gen_hash_map;

verus! {

/// The state of a probe invocation as its response reports it, with the
/// forward-compatibility fallback for literals this build does not know.
#[derive(Debug, Clone, PartialEq, Eq, Structural)]
pub enum ServicesFFProbeResponseType {
    Accepted,
    Complete,
    Error,
    NotImplemented,
}

/// The wire index and literal of a known probe-response kind.
pub open spec fn spec_ffprobe_type_wire(t: ServicesFFProbeResponseType) -> (int, Seq<char>) {
    match t {
        ServicesFFProbeResponseType::Accepted => (0, "ACCEPTED"@),
        ServicesFFProbeResponseType::Complete => (1, "COMPLETE"@),
        ServicesFFProbeResponseType::Error => (2, "ERROR"@),
        ServicesFFProbeResponseType::NotImplemented => (0, Seq::empty()),
    }
}

/// The probe-response kind a wire literal denotes; anything unknown maps to
/// the fallback, never to a failure.
pub open spec fn spec_ffprobe_type_of_literal(lit: Seq<char>) -> ServicesFFProbeResponseType {
    if lit == "ACCEPTED"@ {
        ServicesFFProbeResponseType::Accepted
    } else if lit == "COMPLETE"@ {
        ServicesFFProbeResponseType::Complete
    } else if lit == "ERROR"@ {
        ServicesFFProbeResponseType::Error
    } else {
        ServicesFFProbeResponseType::NotImplemented
    }
}

/// The generic enum value of a known probe-response kind; the fallback has
/// no wire form.
pub fn get_services_ffprobe_response_type_avro(response_type: &ServicesFFProbeResponseType) -> (r:
    Option<TreeValue>)
    ensures
        r is Some <==> *response_type != ServicesFFProbeResponseType::NotImplemented,
        r matches Some(v) ==> v@ == TreeV::Enum(
            spec_ffprobe_type_wire(*response_type).0,
            spec_ffprobe_type_wire(*response_type).1,
        ),
{
    match response_type {
        ServicesFFProbeResponseType::Accepted => Some(
            TreeValue::Enum(0, String::from_str("ACCEPTED")),
        ),
        ServicesFFProbeResponseType::Complete => Some(
            TreeValue::Enum(1, String::from_str("COMPLETE")),
        ),
        ServicesFFProbeResponseType::Error => Some(TreeValue::Enum(2, String::from_str("ERROR"))),
        ServicesFFProbeResponseType::NotImplemented => None,
    }
}

pub fn get_services_ffprobe_response_type_enum(response_type: &str) -> (r:
    ServicesFFProbeResponseType)
    ensures
        r == spec_ffprobe_type_of_literal(response_type@),
{
    if str_eq(response_type, "ACCEPTED") {
        ServicesFFProbeResponseType::Accepted
    } else if str_eq(response_type, "COMPLETE") {
        ServicesFFProbeResponseType::Complete
    } else if str_eq(response_type, "ERROR") {
        ServicesFFProbeResponseType::Error
    } else {
        ServicesFFProbeResponseType::NotImplemented
    }
}

/// A request to probe a media source at a URL.
#[derive(Debug, Clone, PartialEq)]
pub struct ServicesFFProbeRequest {
    pub request_id: i64,
    pub topic: String,
    pub url: String,
    pub attributes: AttrMap,
}

pub struct FFProbeRequestV {
    pub request_id: int,
    pub topic: Seq<char>,
    pub url: Seq<char>,
    pub attributes: Map<Seq<char>, Seq<char>>,
}

impl View for ServicesFFProbeRequest {
    type V = FFProbeRequestV;

    open spec fn view(&self) -> FFProbeRequestV {
        FFProbeRequestV {
            request_id: self.request_id as int,
            topic: self.topic@,
            url: self.url@,
            attributes: self.attributes@,
        }
    }
}

impl ServicesFFProbeRequest {
    pub fn new(request_id: i64, topic: String, url: String, attributes: AttrMap) -> (r: Self)
        ensures
            r@ == (FFProbeRequestV {
                request_id: request_id as int,
                topic: topic@,
                url: url@,
                attributes: attributes@,
            }),
    {
        ServicesFFProbeRequest { request_id, topic, url, attributes }
    }
}

impl FromProtocolMessage for ServicesFFProbeRequest {
    open spec fn from_spec(name: Seq<char>, v: TreeV) -> Option<FFProbeRequestV> {
        if name != shapes::services_ffprobe_request_schema_name() {
            None
        } else {
            match v {
                TreeV::Record(fs) => {
                    if fs.len() == 4 && fs[0].1 is Long && fs[1].1 is Str && fs[2].1 is Str
                        && fs[3].1 is Dict && spec_attrs_ok(fs[3].1->Dict_0) {
                        Some(
                            FFProbeRequestV {
                                request_id: fs[0].1->Long_0,
                                topic: fs[1].1->Str_0,
                                url: fs[2].1->Str_0,
                                attributes: spec_attrs_of(fs[3].1->Dict_0),
                            },
                        )
                    } else {
                        None
                    }
                },
                _ => None,
            }
        }
    }

    fn load(message: &ProtocolMessage) -> (r: Option<Self>) {
        if !str_eq(message.schema.as_str(), SERVICES_FFPROBE_REQUEST_SCHEMA) {
            return None;
        }
        match &message.object {
            TreeValue::Record(fields) => {
                proof {
                    crate::tree::lemma_pair_views(fields@);
                }
                if fields.len() != 4 {
                    return None;
                }
                match (&fields[0].1, &fields[1].1, &fields[2].1, &fields[3].1) {
                    (
                        TreeValue::Long(request_id),
                        TreeValue::Str(topic),
                        TreeValue::Str(url),
                        TreeValue::Dict(attr_pairs),
                    ) => {
                        let attributes = match attrs_from_tree(attr_pairs) {
                            Some(a) => a,
                            None => {
                                return None;
                            },
                        };
                        Some(
                            ServicesFFProbeRequest {
                                request_id: *request_id,
                                topic: topic.clone(),
                                url: url.clone(),
                                attributes,
                            },
                        )
                    },
                    _ => None,
                }
            },
            _ => None,
        }
    }
}

impl ToProtocolMessage for ServicesFFProbeRequest {
    open spec fn schema_name() -> Seq<char> {
        shapes::services_ffprobe_request_schema_name()
    }

    open spec fn encodable(&self) -> bool {
        true
    }

    open spec fn to_tree(&self) -> TreeV {
        TreeV::Record(
            seq![
                ("request_id"@, TreeV::Long(self.request_id as int)),
                ("topic"@, TreeV::Str(self.topic@)),
                ("url"@, TreeV::Str(self.url@)),
                (
                    "attributes"@,
                    TreeV::Dict(self.attributes@.map_values(|v: Seq<char>| TreeV::Str(v))),
                ),
            ],
        )
    }

    fn save(&self, _mb: &Builder) -> (r: Option<ProtocolMessage>) {
        let mut fields: Vec<(String, TreeValue)> = Vec::new();
        fields.push((String::from_str("request_id"), TreeValue::Long(self.request_id)));
        fields.push((String::from_str("topic"), TreeValue::Str(self.topic.clone())));
        fields.push((String::from_str("url"), TreeValue::Str(self.url.clone())));
        fields.push((String::from_str("attributes"), gen_hash_map(&self.attributes)));
        let object = TreeValue::Record(fields);
        proof {
            crate::tree::lemma_pair_views(object->Record_0@);
            assert(crate::tree::pair_views(object->Record_0@) =~= self.to_tree()->Record_0);
        }
        Some(ProtocolMessage { schema: String::from_str(SERVICES_FFPROBE_REQUEST_SCHEMA), object })
    }
}

/// The response to a probe: its state, the time it took, and one attribute
/// map per discovered stream.
#[derive(Debug, Clone, PartialEq)]
pub struct ServicesFFProbeResponse {
    pub request_id: i64,
    pub response_type: ServicesFFProbeResponseType,
    pub time_spent: i64,
    pub streams: Vec<AttrMap>,
}

pub struct FFProbeResponseV {
    pub request_id: int,
    pub response_type: ServicesFFProbeResponseType,
    pub time_spent: int,
    pub streams: Seq<Map<Seq<char>, Seq<char>>>,
}

impl View for ServicesFFProbeResponse {
    type V = FFProbeResponseV;

    open spec fn view(&self) -> FFProbeResponseV {
        FFProbeResponseV {
            request_id: self.request_id as int,
            response_type: self.response_type,
            time_spent: self.time_spent as int,
            streams: self.streams@.map_values(|a: AttrMap| a@),
        }
    }
}

impl ServicesFFProbeResponse {
    pub fn new(
        request_id: i64,
        response_type: ServicesFFProbeResponseType,
        time_spent: i64,
        streams: Vec<AttrMap>,
    ) -> (r: Self)
        ensures
            r@ == (FFProbeResponseV {
                request_id: request_id as int,
                response_type,
                time_spent: time_spent as int,
                streams: streams@.map_values(|a: AttrMap| a@),
            }),
    {
        ServicesFFProbeResponse { request_id, response_type, time_spent, streams }
    }
}

/// The stream attribute maps an array of generic values carries, if every
/// element is a string-valued map.
pub open spec fn spec_streams_of(xs: Seq<TreeV>) -> Option<Seq<Map<Seq<char>, Seq<char>>>> {
    if forall|i: int|
        0 <= i < xs.len() ==> (#[trigger] xs[i]) is Dict && spec_attrs_ok(xs[i]->Dict_0) {
        Some(Seq::new(xs.len(), |i: int| spec_attrs_of(xs[i]->Dict_0)))
    } else {
        None
    }
}

impl FromProtocolMessage for ServicesFFProbeResponse {
    open spec fn from_spec(name: Seq<char>, v: TreeV) -> Option<FFProbeResponseV> {
        if name != shapes::services_ffprobe_response_schema_name() {
            None
        } else {
            match v {
                TreeV::Record(fs) => {
                    if fs.len() == 4 && fs[0].1 is Long && fs[1].1 is Enum && fs[2].1 is Long
                        && fs[3].1 is Array && spec_streams_of(fs[3].1->Array_0) is Some {
                        Some(
                            FFProbeResponseV {
                                request_id: fs[0].1->Long_0,
                                response_type: spec_ffprobe_type_of_literal(fs[1].1->Enum_1),
                                time_spent: fs[2].1->Long_0,
                                streams: spec_streams_of(fs[3].1->Array_0)->Some_0,
                            },
                        )
                    } else {
                        None
                    }
                },
                _ => None,
            }
        }
    }

    #[verifier::loop_isolation(false)]
    fn load(message: &ProtocolMessage) -> (r: Option<Self>) {
        if !str_eq(message.schema.as_str(), SERVICES_FFPROBE_RESPONSE_SCHEMA) {
            return None;
        }
        match &message.object {
            TreeValue::Record(fields) => {
                proof {
                    crate::tree::lemma_pair_views(fields@);
                }
                if fields.len() != 4 {
                    return None;
                }
                match (&fields[0].1, &fields[1].1, &fields[2].1, &fields[3].1) {
                    (
                        TreeValue::Long(request_id),
                        TreeValue::Enum(_index, response_type),
                        TreeValue::Long(time_spent),
                        TreeValue::Array(streams),
                    ) => {
                        proof {
                            crate::tree::lemma_elem_views(streams@);
                        }
                        let ghost elems = crate::tree::elem_views(streams@);
                        let mut response_streams: Vec<AttrMap> = Vec::new();
                        let mut i: usize = 0;
                        while i < streams.len()
                            invariant
                                0 <= i <= streams@.len(),
                                elems == crate::tree::elem_views(streams@),
                                elems.len() == streams@.len(),
                                forall|j: int|
                                    0 <= j < streams@.len() ==> elems[j]
                                        == crate::tree::tree_view(#[trigger] streams@[j]),
                                response_streams@.len() == i,
                                forall|j: int|
                                    0 <= j < i ==> (#[trigger] elems[j]) is Dict
                                        && spec_attrs_ok(elems[j]->Dict_0)
                                        && response_streams@[j]@ == spec_attrs_of(
                                        elems[j]->Dict_0,
                                    ),
                            decreases streams@.len() - i,
                        {
                            proof {
                                crate::tree::lemma_elem_views(streams@);
                            }
                            match &streams[i] {
                                TreeValue::Dict(attr_pairs) => {
                                    match attrs_from_tree(attr_pairs) {
                                        Some(a) => {
                                            response_streams.push(a);
                                        },
                                        None => {
                                            proof {
                                                assert(!spec_attrs_ok(
                                                    elems[i as int]->Dict_0,
                                                ));
                                                assert(spec_streams_of(elems) is None);
                                            }
                                            return None;
                                        },
                                    }
                                },
                                _ => {
                                    proof {
                                        assert(!(elems[i as int] is Dict));
                                        assert(spec_streams_of(elems) is None);
                                    }
                                    return None;
                                },
                            }
                            i += 1;
                        }
                        proof {
                            assert(response_streams@.map_values(|a: AttrMap| a@)
                                =~= spec_streams_of(elems)->Some_0);
                        }
                        Some(
                            ServicesFFProbeResponse {
                                request_id: *request_id,
                                response_type: get_services_ffprobe_response_type_enum(
                                    response_type.as_str(),
                                ),
                                time_spent: *time_spent,
                                streams: response_streams,
                            },
                        )
                    },
                    _ => None,
                }
            },
            _ => None,
        }
    }
}

impl ToProtocolMessage for ServicesFFProbeResponse {
    open spec fn schema_name() -> Seq<char> {
        shapes::services_ffprobe_response_schema_name()
    }

    open spec fn encodable(&self) -> bool {
        self.response_type != ServicesFFProbeResponseType::NotImplemented
    }

    open spec fn to_tree(&self) -> TreeV {
        TreeV::Record(
            seq![
                ("request_id"@, TreeV::Long(self.request_id as int)),
                (
                    "response_type"@,
                    TreeV::Enum(
                        spec_ffprobe_type_wire(self.response_type).0,
                        spec_ffprobe_type_wire(self.response_type).1,
                    ),
                ),
                ("time_spent"@, TreeV::Long(self.time_spent as int)),
                (
                    "streams"@,
                    TreeV::Array(
                        self.streams@.map_values(
                            |a: AttrMap| TreeV::Dict(a@.map_values(|v: Seq<char>| TreeV::Str(v))),
                        ),
                    ),
                ),
            ],
        )
    }

    fn save(&self, _mb: &Builder) -> (r: Option<ProtocolMessage>) {
        let response_type_value = match get_services_ffprobe_response_type_avro(
            &self.response_type,
        ) {
            Some(v) => v,
            None => {
                return None;
            },
        };
        let mut streams_array: Vec<TreeValue> = Vec::new();
        let mut i: usize = 0;
        while i < self.streams.len()
            invariant
                0 <= i <= self.streams@.len(),
                streams_array@.len() == i,
                forall|j: int|
                    0 <= j < i ==> crate::tree::tree_view(#[trigger] streams_array@[j])
                        == TreeV::Dict(
                        self.streams@[j]@.map_values(|v: Seq<char>| TreeV::Str(v)),
                    ),
            decreases self.streams@.len() - i,
        {
            streams_array.push(gen_hash_map(&self.streams[i]));
            i += 1;
        }
        let mut fields: Vec<(String, TreeValue)> = Vec::new();
        fields.push((String::from_str("request_id"), TreeValue::Long(self.request_id)));
        fields.push((String::from_str("response_type"), response_type_value));
        fields.push((String::from_str("time_spent"), TreeValue::Long(self.time_spent)));
        fields.push((String::from_str("streams"), TreeValue::Array(streams_array)));
        let object = TreeValue::Record(fields);
        proof {
            crate::tree::lemma_pair_views(object->Record_0@);
            crate::tree::lemma_elem_views(object->Record_0@[3].1->Array_0@);
            assert(crate::tree::elem_views(object->Record_0@[3].1->Array_0@)
                =~= self.to_tree()->Record_0[3].1->Array_0);
            assert(crate::tree::pair_views(object->Record_0@) =~= self.to_tree()->Record_0);
        }
        Some(
            ProtocolMessage { schema: String::from_str(SERVICES_FFPROBE_RESPONSE_SCHEMA), object },
        )
    }
}

/// Round trip: a probe request maps back to itself from its own rendering.
pub proof fn lemma_ffprobe_request_round_trip(m: ServicesFFProbeRequest)
    ensures
        ServicesFFProbeRequest::from_spec(
            ServicesFFProbeRequest::schema_name(),
            m.to_tree(),
        ) == Some(m@),
{
    let fs = m.to_tree()->Record_0;
    let am = m.attributes@.map_values(|v: Seq<char>| TreeV::Str(v));
    assert(spec_attrs_ok(am));
    assert(spec_attrs_of(am) =~= m.attributes@);
}

/// Round trip: a probe response with a known state maps back to itself from
/// its own rendering.
pub proof fn lemma_ffprobe_response_round_trip(m: ServicesFFProbeResponse)
    requires
        m.encodable(),
    ensures
        ServicesFFProbeResponse::from_spec(
            ServicesFFProbeResponse::schema_name(),
            m.to_tree(),
        ) == Some(m@),
{
    reveal_strlit("ACCEPTED");
    reveal_strlit("COMPLETE");
    reveal_strlit("ERROR");
    assert("ACCEPTED"@.len() == 8);
    assert("COMPLETE"@.len() == 8);
    assert("ERROR"@.len() == 5);
    assert("ACCEPTED"@[0] == 'A');
    assert("COMPLETE"@[0] == 'C');
    let fs = m.to_tree()->Record_0;
    let xs = fs[3].1->Array_0;
    assert forall|i: int|
        0 <= i < xs.len() implies (#[trigger] xs[i]) is Dict && spec_attrs_ok(xs[i]->Dict_0) by {
        assert(xs[i] == TreeV::Dict(
            m.streams@[i]@.map_values(|v: Seq<char>| TreeV::Str(v)),
        ));
    }
    assert(spec_streams_of(xs)->Some_0 =~= m@.streams) by {
        assert forall|i: int|
            0 <= i < xs.len() implies spec_streams_of(xs)->Some_0[i] == m@.streams[i] by {
            assert(spec_attrs_of(m.streams@[i]@.map_values(|v: Seq<char>| TreeV::Str(v)))
                =~= m.streams@[i]@);
        }
    }
    match m.response_type {
        ServicesFFProbeResponseType::Accepted => {
            assert(spec_ffprobe_type_of_literal(fs[1].1->Enum_1) == m.response_type);
        },
        ServicesFFProbeResponseType::Complete => {
            assert(spec_ffprobe_type_of_literal(fs[1].1->Enum_1) == m.response_type);
        },
        ServicesFFProbeResponseType::Error => {
            assert(spec_ffprobe_type_of_literal(fs[1].1->Enum_1) == m.response_type);
        },
        ServicesFFProbeResponseType::NotImplemented => {},
    }
}

/// A probe request rendering is exactly of its schema's structure.
pub proof fn lemma_ffprobe_request_fits(m: ServicesFFProbeRequest)
    ensures
        rt_exact(m.to_tree(), shapes::shape_of(ServicesFFProbeRequest::schema_name())),
        fits(m.to_tree(), shapes::shape_of(ServicesFFProbeRequest::schema_name())),
{
    shapes::lemma_shape_of();
    let sh = shapes::services_ffprobe_request_shape();
    assert(rt_exact(m.to_tree(), sh)) by {
        let fs = m.to_tree()->Record_0;
        let shf = sh->SRec_0;
        assert forall|j: int|
            0 <= j < fs.len() implies (#[trigger] fs[j]).0 == shf[j].0 && rt_exact(
            fs[j].1,
            shf[j].1,
        ) by {
            assert(fs[0].0 == shf[0].0);
            assert(fs[1].0 == shf[1].0);
            assert(fs[2].0 == shf[2].0);
            assert(fs[3].0 == shf[3].0);
        }
    }
    crate::tree::lemma_rt_exact_fits(m.to_tree(), sh);
}

/// A probe response rendering with a known state is exactly of its schema's
/// structure.
pub proof fn lemma_ffprobe_response_fits(m: ServicesFFProbeResponse)
    requires
        m.encodable(),
    ensures
        rt_exact(m.to_tree(), shapes::shape_of(ServicesFFProbeResponse::schema_name())),
        fits(m.to_tree(), shapes::shape_of(ServicesFFProbeResponse::schema_name())),
{
    shapes::lemma_shape_of();
    let sh = shapes::services_ffprobe_response_shape();
    assert(rt_exact(m.to_tree(), sh)) by {
        let fs = m.to_tree()->Record_0;
        let shf = sh->SRec_0;
        assert forall|j: int|
            0 <= j < fs.len() implies (#[trigger] fs[j]).0 == shf[j].0 && rt_exact(
            fs[j].1,
            shf[j].1,
        ) by {
            assert(fs[0].0 == shf[0].0);
            assert(fs[1].0 == shf[1].0);
            assert(fs[2].0 == shf[2].0);
            assert(fs[3].0 == shf[3].0);
            let xs = fs[3].1->Array_0;
            assert forall|i: int|
                0 <= i < xs.len() implies rt_exact(#[trigger] xs[i], Shape::SMap) by {
                assert(xs[i] == TreeV::Dict(
                    m.streams@[i]@.map_values(|v: Seq<char>| TreeV::Str(v)),
                ));
            }
        }
    }
    crate::tree::lemma_rt_exact_fits(m.to_tree(), sh);
}

} // verus!
