use vstd::prelude::*;
use crate::avro::{str_eq, Builder, ProtocolMessage, PING_REQUEST_RESPONSE_SCHEMA};
use crate::objects::{FromProtocolMessage, ToProtocolMessage};
use crate::shapes;
use crate::tree::{fits, rt_exact, TreeV, TreeValue};

verus! {

/// Whether a ping is a request or the answer to one, with the
/// forward-compatibility fallback for wire literals this build does not
/// know.
#[derive(Debug, Clone, PartialEq, Eq, Structural)]
pub enum PingRequestResponseType {
    Request,
    Response,
    NotImplemented,
}

/// The wire index and literal of a ping kind.
pub open spec fn spec_ping_type_wire(t: PingRequestResponseType) -> (int, Seq<char>) {
    match t {
        PingRequestResponseType::Request => (0, "REQUEST"@),
        PingRequestResponseType::Response => (1, "RESPONSE"@),
        PingRequestResponseType::NotImplemented => (0, Seq::empty()),
    }
}

/// The ping kind a wire literal denotes; anything unknown maps to the
/// fallback, never to a failure.
pub open spec fn spec_ping_type_of_literal(lit: Seq<char>) -> PingRequestResponseType {
    if lit == "REQUEST"@ {
        PingRequestResponseType::Request
    } else if lit == "RESPONSE"@ {
        PingRequestResponseType::Response
    } else {
        PingRequestResponseType::NotImplemented
    }
}

/// A liveness request/response pair carried over the envelope.
#[derive(Debug, Clone, PartialEq)]
pub struct PingRequestResponse {
    pub request_id: i64,
    pub topic: String,
    pub mtype: PingRequestResponseType,
}

pub struct PingV {
    pub request_id: int,
    pub topic: Seq<char>,
    pub mtype: PingRequestResponseType,
}

impl View for PingRequestResponse {
    type V = PingV;

    open spec fn view(&self) -> PingV {
        PingV { request_id: self.request_id as int, topic: self.topic@, mtype: self.mtype }
    }
}

impl PingRequestResponse {
    pub fn new(request_id: i64, topic: String, mtype: PingRequestResponseType) -> (r:
        PingRequestResponse)
        ensures
            r@ == (PingV { request_id: request_id as int, topic: topic@, mtype }),
    {
        PingRequestResponse { request_id, topic, mtype }
    }
}

impl FromProtocolMessage for PingRequestResponse {
    open spec fn from_spec(name: Seq<char>, v: TreeV) -> Option<PingV> {
        if name != shapes::ping_request_response_schema_name() {
            None
        } else {
            match v {
                TreeV::Record(fs) => {
                    if fs.len() == 3 && fs[0].1 is Long && fs[1].1 is Str && fs[2].1 is Enum {
                        Some(
                            PingV {
                                request_id: fs[0].1->Long_0,
                                topic: fs[1].1->Str_0,
                                mtype: spec_ping_type_of_literal(fs[2].1->Enum_1),
                            },
                        )
                    } else {
                        None
                    }
                },
                _ => None,
            }
        }
    }

    fn load(message: &ProtocolMessage) -> (r: Option<Self>) {
        if !str_eq(message.schema.as_str(), PING_REQUEST_RESPONSE_SCHEMA) {
            return None;
        }
        match &message.object {
            TreeValue::Record(fields) => {
                proof {
                    crate::tree::lemma_pair_views(fields@);
                }
                if fields.len() != 3 {
                    return None;
                }
                match (&fields[0].1, &fields[1].1, &fields[2].1) {
                    (
                        TreeValue::Long(request_id),
                        TreeValue::Str(topic),
                        TreeValue::Enum(_index, ping_m_type),
                    ) => Some(
                        PingRequestResponse {
                            request_id: *request_id,
                            topic: topic.clone(),
                            mtype: if str_eq(ping_m_type.as_str(), "REQUEST") {
                                PingRequestResponseType::Request
                            } else if str_eq(ping_m_type.as_str(), "RESPONSE") {
                                PingRequestResponseType::Response
                            } else {
                                PingRequestResponseType::NotImplemented
                            },
                        },
                    ),
                    _ => None,
                }
            },
            _ => None,
        }
    }
}

impl ToProtocolMessage for PingRequestResponse {
    open spec fn schema_name() -> Seq<char> {
        shapes::ping_request_response_schema_name()
    }

    open spec fn encodable(&self) -> bool {
        self.mtype != PingRequestResponseType::NotImplemented
    }

    open spec fn to_tree(&self) -> TreeV {
        TreeV::Record(
            seq![
                ("request_id"@, TreeV::Long(self.request_id as int)),
                ("topic"@, TreeV::Str(self.topic@)),
                (
                    "type"@,
                    TreeV::Enum(
                        spec_ping_type_wire(self.mtype).0,
                        spec_ping_type_wire(self.mtype).1,
                    ),
                ),
            ],
        )
    }

    fn save(&self, _mb: &Builder) -> (r: Option<ProtocolMessage>) {
        let mut fields: Vec<(String, TreeValue)> = Vec::new();
        fields.push((String::from_str("request_id"), TreeValue::Long(self.request_id)));
        fields.push((String::from_str("topic"), TreeValue::Str(self.topic.clone())));
        let mtype_value = match self.mtype {
            PingRequestResponseType::Request => TreeValue::Enum(0, String::from_str("REQUEST")),
            PingRequestResponseType::Response => TreeValue::Enum(1, String::from_str("RESPONSE")),
            PingRequestResponseType::NotImplemented => {
                return None;
            },
        };
        fields.push((String::from_str("type"), mtype_value));
        let object = TreeValue::Record(fields);
        proof {
            crate::tree::lemma_pair_views(object->Record_0@);
            assert(crate::tree::pair_views(object->Record_0@) =~= self.to_tree()->Record_0);
        }
        Some(ProtocolMessage { schema: String::from_str(PING_REQUEST_RESPONSE_SCHEMA), object })
    }
}

/// Round trip: an encodable ping maps back to itself from its own rendering
/// under its own schema name.
pub proof fn lemma_ping_round_trip(m: PingRequestResponse)
    requires
        m.encodable(),
    ensures
        PingRequestResponse::from_spec(
            PingRequestResponse::schema_name(),
            m.to_tree(),
        ) == Some(m@),
{
    reveal_strlit("REQUEST");
    reveal_strlit("RESPONSE");
    let fs = m.to_tree()->Record_0;
    assert(fs.len() == 3 && fs[0].1 is Long && fs[1].1 is Str && fs[2].1 is Enum);
    match m.mtype {
        PingRequestResponseType::Request => {
            assert(spec_ping_type_of_literal(fs[2].1->Enum_1) == m.mtype);
        },
        PingRequestResponseType::Response => {
            assert("RESPONSE"@.len() == 8);
            assert("REQUEST"@.len() == 7);
            assert("RESPONSE"@ != "REQUEST"@);
            assert(spec_ping_type_of_literal(fs[2].1->Enum_1) == m.mtype);
        },
        PingRequestResponseType::NotImplemented => {},
    }
}

/// An encodable ping rendering is exactly of its schema's structure.
pub proof fn lemma_ping_fits(m: PingRequestResponse)
    requires
        m.encodable(),
    ensures
        rt_exact(m.to_tree(), shapes::shape_of(PingRequestResponse::schema_name())),
        fits(m.to_tree(), shapes::shape_of(PingRequestResponse::schema_name())),
{
    shapes::lemma_shape_of();
    let sh = shapes::ping_request_response_shape();
    assert(rt_exact(m.to_tree(), sh)) by {
        let fs = m.to_tree()->Record_0;
        let shf = sh->SRec_0;
        assert forall|j: int|
            0 <= j < fs.len() implies (#[trigger] fs[j]).0 == shf[j].0 && rt_exact(
            fs[j].1,
            shf[j].1,
        ) by {
            assert(fs[0].0 == shf[0].0);
            assert(fs[1].0 == shf[1].0);
            assert(fs[2].0 == shf[2].0);
        }
    }
    crate::tree::lemma_rt_exact_fits(m.to_tree(), sh);
}

} // verus!
