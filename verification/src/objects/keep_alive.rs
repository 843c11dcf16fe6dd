use vstd::prelude::*;
use crate::avro::{str_eq, Builder, ProtocolMessage, KEEPALIVE_MESSAGE_SCHEMA};
use crate::objects::{FromProtocolMessage, ToProtocolMessage};
use crate::shapes;
use crate::tree::{fits, rt_exact, TreeV, TreeValue};

verus! {

/// A liveness beacon: the sending module names itself.
#[derive(Debug, Clone, PartialEq)]
pub struct KeepAliveMessage {
    pub module_id: String,
}

pub struct KeepAliveV {
    pub module_id: Seq<char>,
}

impl View for KeepAliveMessage {
    type V = KeepAliveV;

    open spec fn view(&self) -> KeepAliveV {
        KeepAliveV { module_id: self.module_id@ }
    }
}

impl KeepAliveMessage {
    pub fn new(module_id: String) -> (r: KeepAliveMessage)
        ensures
            r@ == (KeepAliveV { module_id: module_id@ }),
    {
        KeepAliveMessage { module_id }
    }
}

impl FromProtocolMessage for KeepAliveMessage {
    open spec fn from_spec(name: Seq<char>, v: TreeV) -> Option<KeepAliveV> {
        if name != shapes::keepalive_message_schema_name() {
            None
        } else {
            match v {
                TreeV::Record(fs) => {
                    if fs.len() == 1 && fs[0].1 is Str {
                        Some(KeepAliveV { module_id: fs[0].1->Str_0 })
                    } else {
                        None
                    }
                },
                _ => None,
            }
        }
    }

    fn load(message: &ProtocolMessage) -> (r: Option<Self>) {
        if !str_eq(message.schema.as_str(), KEEPALIVE_MESSAGE_SCHEMA) {
            return None;
        }
        match &message.object {
            TreeValue::Record(fields) => {
                proof {
                    crate::tree::lemma_pair_views(fields@);
                }
                if fields.len() != 1 {
                    return None;
                }
                match &fields[0].1 {
                    TreeValue::Str(module_id) => Some(
                        KeepAliveMessage { module_id: module_id.clone() },
                    ),
                    _ => None,
                }
            },
            _ => None,
        }
    }
}

impl ToProtocolMessage for KeepAliveMessage {
    open spec fn schema_name() -> Seq<char> {
        shapes::keepalive_message_schema_name()
    }

    open spec fn encodable(&self) -> bool {
        true
    }

    open spec fn to_tree(&self) -> TreeV {
        TreeV::Record(seq![("module_id"@, TreeV::Str(self.module_id@))])
    }

    fn save(&self, _mb: &Builder) -> (r: Option<ProtocolMessage>) {
        let mut fields: Vec<(String, TreeValue)> = Vec::new();
        fields.push((String::from_str("module_id"), TreeValue::Str(self.module_id.clone())));
        let object = TreeValue::Record(fields);
        proof {
            crate::tree::lemma_pair_views(object->Record_0@);
            assert(crate::tree::pair_views(object->Record_0@) =~= self.to_tree()->Record_0);
        }
        Some(ProtocolMessage { schema: String::from_str(KEEPALIVE_MESSAGE_SCHEMA), object })
    }
}

/// Round trip: a keep-alive message maps back to itself from its own
/// rendering under its own schema name.
pub proof fn lemma_keep_alive_round_trip(m: KeepAliveMessage)
    ensures
        KeepAliveMessage::from_spec(
            KeepAliveMessage::schema_name(),
            m.to_tree(),
        ) == Some(m@),
{
}

/// A keep-alive rendering is exactly of its schema's structure, so packing
/// it succeeds and decoding its encoding gives it back.
pub proof fn lemma_keep_alive_fits(m: KeepAliveMessage)
    ensures
        rt_exact(m.to_tree(), shapes::shape_of(KeepAliveMessage::schema_name())),
        fits(m.to_tree(), shapes::shape_of(KeepAliveMessage::schema_name())),
{
    shapes::lemma_shape_of();
    let sh = shapes::keepalive_message_shape();
    assert(rt_exact(m.to_tree(), sh)) by {
        let fs = m.to_tree()->Record_0;
        let shf = sh->SRec_0;
        assert forall|j: int|
            0 <= j < fs.len() implies (#[trigger] fs[j]).0 == shf[j].0 && rt_exact(
            fs[j].1,
            shf[j].1,
        ) by {
            assert(fs[0].0 == shf[0].0);
        }
    }
    crate::tree::lemma_rt_exact_fits(m.to_tree(), sh);
}

} // verus!
