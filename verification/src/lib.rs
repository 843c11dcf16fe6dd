//! A schema-driven message codec for a media-streaming control protocol.
//!
//! Every message crosses the wire as a two-field envelope `(schema, payload)`
//! whose `schema` field names, by catalog lookup, the schema its `payload`
//! bytes are encoded against.  This crate verifies the parts with real
//! design decisions: the catalog's naming and indexing scheme and the
//! envelope pack and unpack logic with its error taxonomy (`avro`), the
//! structural mapping between generic schema-tree values and each concrete
//! message type (`objects`), and the ordered try-each-type dispatch
//! (`protocol`).  The binary encoding itself is the external codec's job,
//! reached only through the trusted declarations in `codec`.

use vstd::prelude::*;

pub mod avro;
pub mod codec;
pub mod objects;
pub mod primitives;
pub mod protocol;
pub mod shapes;
pub mod tree;
pub mod utils;

verus! {

} // verus!
