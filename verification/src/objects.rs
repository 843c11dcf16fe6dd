use vstd::prelude::*;
use crate::avro::{Builder, ProtocolMessage};
use crate::tree::TreeV;

pub mod ffprobe;
pub mod keep_alive;
pub mod notify_message;
pub mod ping;
pub mod stream_track_unit_elements;
pub mod stream_track_units;
pub mod stream_tracks;
pub mod unit_element_message;

verus! {

/// A message type that a decoded envelope can be mapped to.  `load` is a
/// strict structural match: it accepts exactly when the schema name is this
/// type's own and the generic value has this type's shape, as `from_spec`
/// lays down, and otherwise returns nothing.
pub trait FromProtocolMessage: Sized + View {
    /// The message, if any, that a generic value decoded under `name` maps
    /// to.
    spec fn from_spec(name: Seq<char>, v: TreeV) -> Option<Self::V>;

    fn load(message: &ProtocolMessage) -> (r: Option<Self>)
        ensures
            r matches Some(m) ==> Self::from_spec(message.schema@, message.object@) == Some(m@),
            r is None <==> Self::from_spec(message.schema@, message.object@) is None,
    ;
}

/// A message type that can render itself as a generic value under its own
/// schema name.  A value that holds a fallback variant has no wire form:
/// `save` returns nothing exactly then.
pub trait ToProtocolMessage: Sized + View {
    /// The canonical name of this type's schema.
    spec fn schema_name() -> Seq<char>;

    /// Whether this value can be put on the wire at all.
    spec fn encodable(&self) -> bool;

    /// The generic value this message renders to.
    spec fn to_tree(&self) -> TreeV;

    fn save(&self, mb: &Builder) -> (r: Option<ProtocolMessage>)
        ensures
            r is Some <==> self.encodable(),
            r matches Some(pm) ==> pm.schema@ == Self::schema_name() && pm.object@
                == self.to_tree(),
    ;
}

} // verus!
