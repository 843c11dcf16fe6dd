use vstd::prelude::*;
use avro_rs::types::Value;
use crate::shapes::{shape_of, ShapeE};
use crate::tree::{erase_enums, fits, maps_le1, raw_fits, refine_tree, rt_exact, TreeV, TreeValue};

verus! {

#[verifier::external_type_specification]
#[verifier::external_body]
pub struct ExSchema(avro_rs::schema::Schema);

#[verifier::external_type_specification]
#[verifier::external_body]
pub struct ExValue(avro_rs::types::Value);

#[verifier::external_type_specification]
#[verifier::external_body]
pub struct ExUuid(uuid::Uuid);

/// One catalog slot: a canonical schema name, the schema object the
/// external codec parsed from this crate's embedded description text of
/// that name, the enum-erased twin of that schema used for decoding, and
/// the schema's executable structure.  The fields are private and the only
/// constructor is `entry_make`, which the catalog builder alone calls, so
/// the name determines all of them; the contracts of `encode_datum` and
/// `decode_raw` lean on that.
pub struct CatalogEntry {
    name: String,
    schema: avro_rs::schema::Schema,
    decode_schema: avro_rs::schema::Schema,
    shape: ShapeE,
}

impl CatalogEntry {
    /// The canonical name this entry is filed under.
    pub closed spec fn key(&self) -> Seq<char> {
        self.name@
    }

    /// The structure carried beside the schema.
    pub closed spec fn shape_spec(&self) -> crate::tree::Shape {
        self.shape@
    }

    /// Whether the carried structure is the one the entry's name denotes;
    /// the catalog builder establishes this for every entry it makes.
    pub open spec fn shape_ok(&self) -> bool {
        self.shape_spec() == shape_of(self.key())
    }

    pub fn name(&self) -> (r: &String)
        ensures
            r@ == self.key(),
    {
        &self.name
    }

    pub fn schema(&self) -> &avro_rs::schema::Schema {
        &self.schema
    }

    pub(crate) fn shape_e(&self) -> (r: &ShapeE)
        ensures
            r@ == self.shape_spec(),
    {
        &self.shape
    }
}

pub(crate) fn entry_make(
    name: String,
    schema: avro_rs::schema::Schema,
    decode_schema: avro_rs::schema::Schema,
    shape: ShapeE,
) -> (r: CatalogEntry)
    ensures
        r.key() == name@,
        r.shape_spec() == shape@,
{
    CatalogEntry { name, schema, decode_schema, shape }
}

/// What the external codec's binary decoder yields for `bytes` against the
/// enum-erased twin of the catalog schema named `name`: `None` when it
/// reports an error.  The decoder is a function of the schema and the
/// bytes, and the model `TreeV` keeps maps unordered, so this is well
/// defined.  An avro enum is encoded as its bare index int, so the erased
/// twin reads the identical byte stream; erasure only steps around the
/// external decoder's abort on an index equal to the symbol count.
pub uninterp spec fn dec_raw_of(name: Seq<char>, bytes: Seq<u8>) -> Option<TreeV>;

/// What decoding `bytes` against the catalog schema named `name` yields:
/// the raw enum-erased decode, refined against the schema's structure.  An
/// out-of-range enum index surfaces here as `None` - a decode failure -
/// rather than as the external decoder's abort.
pub open spec fn dec_of(name: Seq<char>, bytes: Seq<u8>) -> Option<TreeV> {
    match dec_raw_of(name, bytes) {
        Option::None => None,
        Option::Some(t) => refine_tree(t, shape_of(name)),
    }
}

/// The bytes the external codec's binary encoder writes for a value `v`
/// against the catalog schema named `name`.  Only constrained for values
/// whose maps have at most one entry: the encoder walks larger maps in no
/// fixed order.
pub uninterp spec fn enc_of(name: Seq<char>, v: TreeV) -> Seq<u8>;

#[verifier::external_body]
fn pairs_to_avro(ps: &Vec<(String, TreeValue)>) -> Vec<(String, Value)> {
    ps.iter().map(|p| (p.0.clone(), tree_to_avro(&p.1))).collect()
}

#[verifier::external_body]
fn tree_to_avro(v: &TreeValue) -> Value {
    match v {
        TreeValue::Boolean(b) => Value::Boolean(*b),
        TreeValue::Int(i) => Value::Int(*i),
        TreeValue::Long(l) => Value::Long(*l),
        TreeValue::Bytes(b) => Value::Bytes(b.clone()),
        TreeValue::Str(s) => Value::String(s.clone()),
        TreeValue::Enum(i, s) => Value::Enum(*i, s.clone()),
        TreeValue::Array(xs) => Value::Array(xs.iter().map(tree_to_avro).collect()),
        TreeValue::Dict(ps) => Value::Map(pairs_to_avro(ps).into_iter().collect()),
        TreeValue::Record(fs) => Value::Record(pairs_to_avro(fs)),
        TreeValue::Other => Value::Null,
    }
}

#[verifier::external_body]
fn pairs_from_avro(ps: Vec<(String, Value)>) -> Vec<(String, TreeValue)> {
    ps.into_iter().map(|p| (p.0, avro_to_tree(p.1))).collect()
}

#[verifier::external_body]
fn avro_to_tree(v: Value) -> TreeValue {
    match v {
        Value::Boolean(b) => TreeValue::Boolean(b),
        Value::Int(i) => TreeValue::Int(i),
        Value::Long(l) => TreeValue::Long(l),
        Value::Bytes(b) => TreeValue::Bytes(b),
        Value::String(s) => TreeValue::Str(s),
        Value::Enum(i, s) => TreeValue::Enum(i, s),
        Value::Array(xs) => TreeValue::Array(xs.into_iter().map(avro_to_tree).collect()),
        Value::Map(m) => TreeValue::Dict(pairs_from_avro(m.into_iter().collect())),
        Value::Record(fs) => TreeValue::Record(pairs_from_avro(fs)),
        _ => TreeValue::Other,
    }
}

/// Relies on avro_rs::to_avro_datum: it validates the value against the
/// schema exactly as `fits` describes for this catalog's schemas (strict on
/// field count, order and names, on enum index-symbol agreement, and on
/// scalar kinds), errors when validation fails, and otherwise writes the
/// canonical binary encoding.  avro_rs::from_avro_datum always parses such
/// an encoding (under either schema form, the enum indexes being validated
/// in range), and under the enum-erased twin it recovers the enum-erased
/// value whenever the value is in round-trip exact form: records field by
/// field in schema order, enums as their bare index, maps by content.
#[verifier::external_body]
pub(crate) fn encode_datum(entry: &CatalogEntry, v: &TreeValue) -> (r: Option<Vec<u8>>)
    ensures
        r is Some <==> fits(v@, shape_of(entry.key())),
        r matches Some(b) ==> (maps_le1(v@) ==> b@ == enc_of(entry.key(), v@)),
        r matches Some(b) ==> dec_of(entry.key(), b@) is Some,
        r matches Some(b) ==> (rt_exact(v@, shape_of(entry.key())) ==> dec_raw_of(
            entry.key(),
            b@,
        ) == Some(erase_enums(v@))),
{
    avro_rs::to_avro_datum(&entry.schema, tree_to_avro(v)).ok()
}

/// Relies on avro_rs::from_avro_datum applied to the entry's enum-erased
/// decode schema: it decodes the bytes deterministically, errors exactly
/// when they do not parse, yields only values of the erased structure, and
/// always returns - the erased schema has no enum, so the external
/// decoder's abort on an enum index equal to the symbol count is out of
/// reach.
#[verifier::external_body]
fn decode_raw(entry: &CatalogEntry, bytes: &[u8]) -> (r: Option<TreeValue>)
    ensures
        r is Some <==> dec_raw_of(entry.key(), bytes@) is Some,
        r matches Some(t) ==> Some(t@) == dec_raw_of(entry.key(), bytes@),
        r matches Some(t) ==> raw_fits(t@, shape_of(entry.key())),
{
    let mut slice = bytes;
    avro_rs::from_avro_datum(&entry.decode_schema, &mut slice, None).ok().map(avro_to_tree)
}

/// Decode bytes against the schema this entry names: the raw enum-erased
/// decode, then the verified refinement that restores enum values and
/// rejects out-of-range indexes as a plain decode failure.
pub(crate) fn decode_datum(entry: &CatalogEntry, bytes: &[u8]) -> (r: Option<TreeValue>)
    requires
        entry.shape_ok(),
    ensures
        r is Some <==> dec_of(entry.key(), bytes@) is Some,
        r matches Some(t) ==> Some(t@) == dec_of(entry.key(), bytes@),
{
    match decode_raw(entry, bytes) {
        Some(t) => crate::shapes::refine(t, entry.shape_e()),
        None => None,
    }
}

/// Relies on the avro_rs::Schema enum: record and enum schemas carry a
/// declared local name and optional namespace; other schema kinds are
/// unnamed.
#[verifier::external_body]
pub(crate) fn schema_name_info(s: &avro_rs::schema::Schema) -> Option<(Option<String>, String)> {
    match s {
        avro_rs::schema::Schema::Record { name, .. } => Some(
            (name.namespace.clone(), name.name.clone()),
        ),
        avro_rs::schema::Schema::Enum { name, .. } => Some(
            (name.namespace.clone(), name.name.clone()),
        ),
        _ => None,
    }
}

/// Relies on std's String::from_utf8: it succeeds exactly on valid UTF-8 and
/// decodes those bytes to their character sequence.
#[verifier::external_body]
pub(crate) fn bytes_to_string(bytes: &Vec<u8>) -> (r: Option<String>)
    ensures
        r is Some <==> vstd::utf8::valid_utf8(bytes@),
        r matches Some(s) ==> s@ == vstd::utf8::decode_utf8(bytes@),
{
    String::from_utf8(bytes.clone()).ok()
}

} // verus!
