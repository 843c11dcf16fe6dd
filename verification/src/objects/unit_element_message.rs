use vstd::prelude::*;
use crate::avro::{str_eq, Builder, ProtocolMessage, UNIT_ELEMENT_MESSAGE_SCHEMA};
use crate::objects::{FromProtocolMessage, ToProtocolMessage};
use crate::primitives::{
    attrs_from_tree, lemma_unit_fits, lemma_unit_round_trip, spec_attrs_of, spec_attrs_ok,
    spec_unit_of_tree, spec_unit_tree, AttrMap, ElementType, TrackType, Unit, UnitV,
};
use crate::shapes;
use crate::tree::{fits, rt_exact, TreeV, TreeValue};
use crate::utils::gen_hash_map;

verus! {

/// One element of a unit: its position, raw bytes, attributes, and whether
/// it closes the unit.
#[derive(Debug, Clone, PartialEq)]
pub struct UnitElementMessage {
    pub stream_unit: Unit,
    pub element: ElementType,
    pub value: Vec<u8>,
    pub attributes: AttrMap,
    pub last: bool,
}

pub struct UnitElementMessageV {
    pub stream_unit: UnitV,
    pub element: int,
    pub value: Seq<u8>,
    pub attributes: Map<Seq<char>, Seq<char>>,
    pub last: bool,
}

impl View for UnitElementMessage {
    type V = UnitElementMessageV;

    open spec fn view(&self) -> UnitElementMessageV {
        UnitElementMessageV {
            stream_unit: self.stream_unit@,
            element: self.element as int,
            value: self.value@,
            attributes: self.attributes@,
            last: self.last,
        }
    }
}

impl UnitElementMessage {
    pub fn new(
        stream_unit: Unit,
        element: ElementType,
        value: Vec<u8>,
        attributes: AttrMap,
        last: bool,
    ) -> (r: Self)
        ensures
            r@ == (UnitElementMessageV {
                stream_unit: stream_unit@,
                element: element as int,
                value: value@,
                attributes: attributes@,
                last,
            }),
    {
        UnitElementMessage { stream_unit, element, value, attributes, last }
    }
}

impl FromProtocolMessage for UnitElementMessage {
    open spec fn from_spec(name: Seq<char>, v: TreeV) -> Option<UnitElementMessageV> {
        if name != shapes::unit_element_message_schema_name() {
            None
        } else {
            match v {
                TreeV::Record(fs) => {
                    if fs.len() == 5 && spec_unit_of_tree(fs[0].1) is Some && fs[1].1 is Long
                        && i16::MIN <= fs[1].1->Long_0 <= i16::MAX && fs[2].1 is Bytes
                        && fs[3].1 is Dict && spec_attrs_ok(fs[3].1->Dict_0)
                        && fs[4].1 is Boolean {
                        Some(
                            UnitElementMessageV {
                                stream_unit: spec_unit_of_tree(fs[0].1)->Some_0,
                                element: fs[1].1->Long_0,
                                value: fs[2].1->Bytes_0,
                                attributes: spec_attrs_of(fs[3].1->Dict_0),
                                last: fs[4].1->Boolean_0,
                            },
                        )
                    } else {
                        None
                    }
                },
                _ => None,
            }
        }
    }

    fn load(message: &ProtocolMessage) -> (r: Option<Self>) {
        if !str_eq(message.schema.as_str(), UNIT_ELEMENT_MESSAGE_SCHEMA) {
            return None;
        }
        match &message.object {
            TreeValue::Record(fields) => {
                proof {
                    crate::tree::lemma_pair_views(fields@);
                }
                if fields.len() != 5 {
                    return None;
                }
                match (&fields[0].1, &fields[1].1, &fields[2].1, &fields[3].1, &fields[4].1) {
                    (
                        unit_value,
                        TreeValue::Long(element),
                        TreeValue::Bytes(value),
                        TreeValue::Dict(attr_pairs),
                        TreeValue::Boolean(last),
                    ) => {
                        let stream_unit = match Unit::from_avro_record(unit_value) {
                            Some(u) => u,
                            None => {
                                return None;
                            },
                        };
                        if *element < -32768 || *element > 32767 {
                            return None;
                        }
                        let attributes = match attrs_from_tree(attr_pairs) {
                            Some(a) => a,
                            None => {
                                return None;
                            },
                        };
                        Some(
                            UnitElementMessage {
                                stream_unit,
                                element: *element as i16,
                                value: value.clone(),
                                attributes,
                                last: *last,
                            },
                        )
                    },
                    _ => None,
                }
            },
            _ => None,
        }
    }
}

impl ToProtocolMessage for UnitElementMessage {
    open spec fn schema_name() -> Seq<char> {
        shapes::unit_element_message_schema_name()
    }

    open spec fn encodable(&self) -> bool {
        self.stream_unit.track_type != TrackType::NotImplemented
    }

    open spec fn to_tree(&self) -> TreeV {
        TreeV::Record(
            seq![
                ("stream_unit"@, spec_unit_tree(self.stream_unit@)),
                ("element"@, TreeV::Long(self.element as int)),
                ("value"@, TreeV::Bytes(self.value@)),
                (
                    "attributes"@,
                    TreeV::Dict(self.attributes@.map_values(|v: Seq<char>| TreeV::Str(v))),
                ),
                ("last"@, TreeV::Boolean(self.last)),
            ],
        )
    }

    fn save(&self, _mb: &Builder) -> (r: Option<ProtocolMessage>) {
        let unit_value = match self.stream_unit.to_avro_record() {
            Some(v) => v,
            None => {
                return None;
            },
        };
        let mut fields: Vec<(String, TreeValue)> = Vec::new();
        fields.push((String::from_str("stream_unit"), unit_value));
        fields.push((String::from_str("element"), TreeValue::Long(self.element as i64)));
        fields.push((String::from_str("value"), TreeValue::Bytes(self.value.clone())));
        fields.push((String::from_str("attributes"), gen_hash_map(&self.attributes)));
        fields.push((String::from_str("last"), TreeValue::Boolean(self.last)));
        let object = TreeValue::Record(fields);
        proof {
            crate::tree::lemma_pair_views(object->Record_0@);
            assert(crate::tree::pair_views(object->Record_0@) =~= self.to_tree()->Record_0);
        }
        Some(ProtocolMessage { schema: String::from_str(UNIT_ELEMENT_MESSAGE_SCHEMA), object })
    }
}

/// Round trip: an encodable element message maps back to itself from its
/// own rendering.
pub proof fn lemma_unit_element_round_trip(m: UnitElementMessage)
    requires
        m.encodable(),
    ensures
        UnitElementMessage::from_spec(UnitElementMessage::schema_name(), m.to_tree()) == Some(
            m@,
        ),
{
    lemma_unit_round_trip(m.stream_unit);
    let am = m.attributes@.map_values(|v: Seq<char>| TreeV::Str(v));
    assert(spec_attrs_ok(am));
    assert(spec_attrs_of(am) =~= m.attributes@);
}

/// An encodable element message rendering is exactly of its schema's
/// structure.
pub proof fn lemma_unit_element_fits(m: UnitElementMessage)
    requires
        m.encodable(),
    ensures
        rt_exact(m.to_tree(), shapes::shape_of(UnitElementMessage::schema_name())),
        fits(m.to_tree(), shapes::shape_of(UnitElementMessage::schema_name())),
{
    shapes::lemma_shape_of();
    let sh = shapes::unit_element_message_shape();
    lemma_unit_fits(m.stream_unit);
    assert(rt_exact(m.to_tree(), sh)) by {
        let fs = m.to_tree()->Record_0;
        let shf = sh->SRec_0;
        assert forall|j: int|
            0 <= j < fs.len() implies (#[trigger] fs[j]).0 == shf[j].0 && rt_exact(
            fs[j].1,
            shf[j].1,
        ) by {
            assert(fs[0].0 == shf[0].0);
            assert(fs[1].0 == shf[1].0);
            assert(fs[2].0 == shf[2].0);
            assert(fs[3].0 == shf[3].0);
            assert(fs[4].0 == shf[4].0);
            assert(rt_exact(fs[0].1, shf[0].1));
        }
    }
    crate::tree::lemma_rt_exact_fits(m.to_tree(), sh);
}

} // verus!
