use vstd::prelude::*;
use crate::avro::{str_eq, Builder, ProtocolMessage, NOTIFY_MESSAGE_SCHEMA};
use crate::objects::{FromProtocolMessage, ToProtocolMessage};
use crate::primitives::{
    lemma_unit_fits, lemma_unit_round_trip, spec_unit_of_tree, spec_unit_tree, NotifyType,
    NotifyTypeImpl, TrackType, Unit, UnitV,
};
use crate::shapes;
use crate::tree::{fits, rt_exact, TreeV, TreeValue};

verus! {

/// A notification that a unit was saved: which unit, when, and whether it is
/// new or ready up to some element.
#[derive(Debug, Clone, PartialEq)]
pub struct NotifyMessage {
    pub stream_unit: Unit,
    pub saved_ms: u64,
    pub notify_type: NotifyType,
}

pub struct NotifyMessageV {
    pub stream_unit: UnitV,
    pub saved_ms: int,
    pub notify_type: NotifyType,
}

impl View for NotifyMessage {
    type V = NotifyMessageV;

    open spec fn view(&self) -> NotifyMessageV {
        NotifyMessageV {
            stream_unit: self.stream_unit@,
            saved_ms: self.saved_ms as int,
            notify_type: self.notify_type,
        }
    }
}

impl NotifyMessage {
    pub fn new(stream_unit: Unit, saved_ms: u64, notify_type: NotifyType) -> (r: Self)
        ensures
            r@ == (NotifyMessageV {
                stream_unit: stream_unit@,
                saved_ms: saved_ms as int,
                notify_type,
            }),
    {
        NotifyMessage { stream_unit, saved_ms, notify_type }
    }
}

/// The wire index and literal of a known notification kind.
pub open spec fn spec_notify_type_wire(t: NotifyTypeImpl) -> (int, Seq<char>) {
    match t {
        NotifyTypeImpl::Ready(_) => (0, "READY"@),
        NotifyTypeImpl::New => (1, "NEW"@),
        NotifyTypeImpl::NotImplemented => (0, Seq::empty()),
    }
}

/// The last-element field a notification kind writes: the ready element, or
/// a placeholder for a new unit.
pub open spec fn spec_notify_last_element(t: NotifyTypeImpl) -> int {
    match t {
        NotifyTypeImpl::Ready(elt) => elt as int,
        _ => -1,
    }
}

impl FromProtocolMessage for NotifyMessage {
    open spec fn from_spec(name: Seq<char>, v: TreeV) -> Option<NotifyMessageV> {
        if name != shapes::notify_message_schema_name() {
            None
        } else {
            match v {
                TreeV::Record(fs) => {
                    if fs.len() == 4 && spec_unit_of_tree(fs[0].1) is Some && fs[1].1 is Int
                        && fs[2].1 is Long && 0 <= fs[2].1->Long_0 && fs[3].1 is Enum && (
                        fs[3].1->Enum_1 == "READY"@ ==> i16::MIN <= fs[1].1->Int_0 <= i16::MAX) {
                        Some(
                            NotifyMessageV {
                                stream_unit: spec_unit_of_tree(fs[0].1)->Some_0,
                                saved_ms: fs[2].1->Long_0,
                                notify_type: if fs[3].1->Enum_1 == "READY"@ {
                                    NotifyType { obj: NotifyTypeImpl::Ready(fs[1].1->Int_0 as i16) }
                                } else if fs[3].1->Enum_1 == "NEW"@ {
                                    NotifyType { obj: NotifyTypeImpl::New }
                                } else {
                                    NotifyType { obj: NotifyTypeImpl::NotImplemented }
                                },
                            },
                        )
                    } else {
                        None
                    }
                },
                _ => None,
            }
        }
    }

    fn load(message: &ProtocolMessage) -> (r: Option<Self>) {
        if !str_eq(message.schema.as_str(), NOTIFY_MESSAGE_SCHEMA) {
            return None;
        }
        match &message.object {
            TreeValue::Record(fields) => {
                proof {
                    crate::tree::lemma_pair_views(fields@);
                }
                if fields.len() != 4 {
                    return None;
                }
                match (&fields[0].1, &fields[1].1, &fields[2].1, &fields[3].1) {
                    (
                        unit_value,
                        TreeValue::Int(last_element),
                        TreeValue::Long(saved_ms),
                        TreeValue::Enum(_index, notify_type),
                    ) => {
                        let stream_unit = match Unit::from_avro_record(unit_value) {
                            Some(u) => u,
                            None => {
                                return None;
                            },
                        };
                        if *saved_ms < 0 {
                            return None;
                        }
                        let nt = if str_eq(notify_type.as_str(), "READY") {
                            if *last_element < -32768 || *last_element > 32767 {
                                return None;
                            }
                            NotifyType::ready(*last_element as i16)
                        } else if str_eq(notify_type.as_str(), "NEW") {
                            NotifyType::new()
                        } else {
                            NotifyType { obj: NotifyTypeImpl::NotImplemented }
                        };
                        Some(
                            NotifyMessage {
                                stream_unit,
                                saved_ms: *saved_ms as u64,
                                notify_type: nt,
                            },
                        )
                    },
                    _ => None,
                }
            },
            _ => None,
        }
    }
}

impl ToProtocolMessage for NotifyMessage {
    open spec fn schema_name() -> Seq<char> {
        shapes::notify_message_schema_name()
    }

    open spec fn encodable(&self) -> bool {
        &&& self.notify_type.obj != NotifyTypeImpl::NotImplemented
        &&& self.stream_unit.track_type != TrackType::NotImplemented
        &&& self.saved_ms <= i64::MAX
    }

    open spec fn to_tree(&self) -> TreeV {
        TreeV::Record(
            seq![
                ("stream_unit"@, spec_unit_tree(self.stream_unit@)),
                ("last_element"@, TreeV::Int(spec_notify_last_element(self.notify_type.obj))),
                ("saved_ms"@, TreeV::Long(self.saved_ms as int)),
                (
                    "notify_type"@,
                    TreeV::Enum(
                        spec_notify_type_wire(self.notify_type.obj).0,
                        spec_notify_type_wire(self.notify_type.obj).1,
                    ),
                ),
            ],
        )
    }

    fn save(&self, _mb: &Builder) -> (r: Option<ProtocolMessage>) {
        let unit_value = match self.stream_unit.to_avro_record() {
            Some(v) => v,
            None => {
                return None;
            },
        };
        if self.saved_ms > 0x7fff_ffff_ffff_ffff {
            return None;
        }
        let (nt_value, last_element) = match &self.notify_type.obj {
            NotifyTypeImpl::Ready(elt) => {
                (TreeValue::Enum(0, String::from_str("READY")), *elt as i32)
            },
            NotifyTypeImpl::New => (TreeValue::Enum(1, String::from_str("NEW")), -1i32),
            NotifyTypeImpl::NotImplemented => {
                return None;
            },
        };
        let mut fields: Vec<(String, TreeValue)> = Vec::new();
        fields.push((String::from_str("stream_unit"), unit_value));
        fields.push((String::from_str("last_element"), TreeValue::Int(last_element)));
        fields.push((String::from_str("saved_ms"), TreeValue::Long(self.saved_ms as i64)));
        fields.push((String::from_str("notify_type"), nt_value));
        let object = TreeValue::Record(fields);
        proof {
            crate::tree::lemma_pair_views(object->Record_0@);
            assert(crate::tree::pair_views(object->Record_0@) =~= self.to_tree()->Record_0);
        }
        Some(ProtocolMessage { schema: String::from_str(NOTIFY_MESSAGE_SCHEMA), object })
    }
}

/// Round trip: an encodable notification maps back to itself from its own
/// rendering.
pub proof fn lemma_notify_round_trip(m: NotifyMessage)
    requires
        m.encodable(),
    ensures
        NotifyMessage::from_spec(NotifyMessage::schema_name(), m.to_tree()) == Some(m@),
{
    reveal_strlit("READY");
    reveal_strlit("NEW");
    assert("READY"@.len() == 5);
    assert("NEW"@.len() == 3);
    lemma_unit_round_trip(m.stream_unit);
    let fs = m.to_tree()->Record_0;
    assert(fs[0].1 == spec_unit_tree(m.stream_unit@));
    match m.notify_type.obj {
        NotifyTypeImpl::Ready(elt) => {
            assert(fs[3].1->Enum_1 == "READY"@);
        },
        NotifyTypeImpl::New => {
            assert("NEW"@ != "READY"@);
            assert(fs[3].1->Enum_1 == "NEW"@);
        },
        NotifyTypeImpl::NotImplemented => {},
    }
}

/// An encodable notification rendering is exactly of its schema's structure.
pub proof fn lemma_notify_fits(m: NotifyMessage)
    requires
        m.encodable(),
    ensures
        rt_exact(m.to_tree(), shapes::shape_of(NotifyMessage::schema_name())),
        fits(m.to_tree(), shapes::shape_of(NotifyMessage::schema_name())),
{
    shapes::lemma_shape_of();
    let sh = shapes::notify_message_shape();
    lemma_unit_fits(m.stream_unit);
    assert(rt_exact(m.to_tree(), sh)) by {
        let fs = m.to_tree()->Record_0;
        let shf = sh->SRec_0;
        assert forall|j: int|
            0 <= j < fs.len() implies (#[trigger] fs[j]).0 == shf[j].0 && rt_exact(
            fs[j].1,
            shf[j].1,
        ) by {
            assert(fs[0].0 == shf[0].0);
            assert(fs[1].0 == shf[1].0);
            assert(fs[2].0 == shf[2].0);
            assert(fs[3].0 == shf[3].0);
            assert(rt_exact(fs[0].1, shf[0].1));
        }
    }
    crate::tree::lemma_rt_exact_fits(m.to_tree(), sh);
}

} // verus!
