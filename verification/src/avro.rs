use vstd::prelude::*;
use vstd::string::StringExecFns;
use vstd::string::StringSliceAdditionalSpecFns;
use crate::codec::{
    bytes_to_string, decode_datum, encode_datum, entry_make, schema_name_info, CatalogEntry,
};
use crate::shapes;
use crate::tree::{TreeV, TreeValue};

verus! {

broadcast use vstd::utf8::encode_utf8_decode_utf8;

pub const STORAGE_SCHEMAS: &'static str = "storage";

pub const TRACK_TYPE_SCHEMA: &'static str = "insight.storage.TrackType.avsc";

pub const TRACK_INFO_SCHEMA: &'static str = "insight.storage.TrackInfo.avsc";

pub const UNIT_SCHEMA: &'static str = "insight.storage.Unit.avsc";

pub const UNIT_ELEMENT_MESSAGE_SCHEMA: &'static str = "insight.storage.UnitElementMessage.avsc";

pub const UNIT_ELEMENT_VALUE_SCHEMA: &'static str = "insight.storage.UnitElementValue.avsc";

pub const TRANSPORT_SCHEMAS: &'static str = "transport";

pub const NOTIFY_MESSAGE_SCHEMA: &'static str = "insight.transport.NotifyMessage.avsc";

pub const STREAM_TRACKS_REQUEST_SCHEMA: &'static str =
    "insight.transport.StreamTracksRequest.avsc";

pub const STREAM_TRACKS_RESPONSE_SCHEMA: &'static str =
    "insight.transport.StreamTracksResponse.avsc";

pub const STREAM_TRACK_UNIT_ELEMENTS_REQUEST_SCHEMA: &'static str =
    "insight.transport.StreamTrackUnitElementsRequest.avsc";

pub const STREAM_TRACK_UNIT_ELEMENTS_RESPONSE_SCHEMA: &'static str =
    "insight.transport.StreamTrackUnitElementsResponse.avsc";

pub const STREAM_TRACK_UNITS_REQUEST_SCHEMA: &'static str =
    "insight.transport.StreamTrackUnitsRequest.avsc";

pub const STREAM_TRACK_UNITS_RESPONSE_SCHEMA: &'static str =
    "insight.transport.StreamTrackUnitsResponse.avsc";

pub const MESSAGE_ENVELOPE_SCHEMA: &'static str = "insight.transport.MessageEnvelope.avsc";

pub const PING_REQUEST_RESPONSE_SCHEMA: &'static str =
    "insight.transport.PingRequestResponse.avsc";

pub const KEEPALIVE_MESSAGE_SCHEMA: &'static str = "insight.transport.KeepAliveMessage.avsc";

pub const SERVICE_FFPROBE_SCHEMAS: &'static str = "services/ffprobe";

pub const SERVICES_FFPROBE_REQUEST_SCHEMA: &'static str = "insight.ffprobe.Request.avsc";

pub const SERVICES_FFPROBE_RESPONSE_SCHEMA: &'static str = "insight.ffprobe.Response.avsc";

/// Compare two string slices by contents.
pub fn str_eq(a: &str, b: &str) -> (r: bool)
    ensures
        r == (a@ == b@),
{
    let ab = a.as_bytes();
    let bb = b.as_bytes();
    if ab.len() != bb.len() {
        return false;
    }
    let mut i: usize = 0;
    while i < ab.len()
        invariant
            0 <= i <= ab@.len(),
            ab@.len() == bb@.len(),
            ab@ == a.spec_bytes(),
            bb@ == b.spec_bytes(),
            forall|j: int| 0 <= j < i ==> ab@[j] == bb@[j],
        decreases ab@.len() - i,
    {
        if ab[i] != bb[i] {
            return false;
        }
        i += 1;
    }
    proof {
        assert(a.spec_bytes() =~= b.spec_bytes());
        assert(vstd::utf8::decode_utf8(vstd::utf8::encode_utf8(a@)) == a@);
        assert(vstd::utf8::decode_utf8(vstd::utf8::encode_utf8(b@)) == b@);
    }
    true
}

/// The canonical in-catalog name of a schema: `<namespace>.<local>.avsc`,
/// with the transport namespace as the default when the schema declares none.
pub open spec fn spec_canonical_name(namespace: Option<Seq<char>>, local: Seq<char>) -> Seq<
    char,
> {
    (match namespace {
        Some(ns) => ns,
        None => "insight.transport"@,
    }) + "."@ + local + ".avsc"@
}

pub fn canonical_name(namespace: Option<&String>, local: &str) -> (r: String)
    ensures
        r@ == spec_canonical_name(
            match namespace {
                Some(ns) => Some(ns@),
                None => None,
            },
            local@,
        ),
{
    let base: String = match namespace {
        Some(ns) => ns.clone(),
        None => String::from_str("insight.transport"),
    };
    base.concat(".").concat(local).concat(".avsc")
}

/// The fixed manifest of schema description files: (group, file name) pairs,
/// in catalog order.
fn manifest_files() -> (r: Vec<(&'static str, &'static str)>)
    ensures
        r@.len() == shapes::catalog_names().len(),
        forall|i: int| 0 <= i < r@.len() ==> (#[trigger] r@[i]).1@ == shapes::catalog_names()[i],
{
    let r: Vec<(&'static str, &'static str)> = vec![
        (STORAGE_SCHEMAS, TRACK_TYPE_SCHEMA),
        (STORAGE_SCHEMAS, TRACK_INFO_SCHEMA),
        (STORAGE_SCHEMAS, UNIT_SCHEMA),
        (STORAGE_SCHEMAS, UNIT_ELEMENT_VALUE_SCHEMA),
        (STORAGE_SCHEMAS, UNIT_ELEMENT_MESSAGE_SCHEMA),
        (TRANSPORT_SCHEMAS, NOTIFY_MESSAGE_SCHEMA),
        (TRANSPORT_SCHEMAS, STREAM_TRACKS_REQUEST_SCHEMA),
        (TRANSPORT_SCHEMAS, STREAM_TRACKS_RESPONSE_SCHEMA),
        (TRANSPORT_SCHEMAS, STREAM_TRACK_UNIT_ELEMENTS_REQUEST_SCHEMA),
        (TRANSPORT_SCHEMAS, STREAM_TRACK_UNIT_ELEMENTS_RESPONSE_SCHEMA),
        (TRANSPORT_SCHEMAS, STREAM_TRACK_UNITS_REQUEST_SCHEMA),
        (TRANSPORT_SCHEMAS, STREAM_TRACK_UNITS_RESPONSE_SCHEMA),
        (TRANSPORT_SCHEMAS, PING_REQUEST_RESPONSE_SCHEMA),
        (TRANSPORT_SCHEMAS, KEEPALIVE_MESSAGE_SCHEMA),
        (TRANSPORT_SCHEMAS, MESSAGE_ENVELOPE_SCHEMA),
        (SERVICE_FFPROBE_SCHEMAS, SERVICES_FFPROBE_REQUEST_SCHEMA),
        (SERVICE_FFPROBE_SCHEMAS, SERVICES_FFPROBE_RESPONSE_SCHEMA),
    ];
    proof {
        assert(r@.len() == shapes::catalog_names().len());
    }
    r
}

/// The embedded schema description texts, in catalog order.
pub open spec fn embedded_schema_texts() -> Seq<Seq<char>> {
    seq![
        r#"{"type":"enum","name":"TrackType","namespace":"insight.storage","symbols":["VIDEO","META"]}"#@,
        r#"{"type":"record","name":"TrackInfo","namespace":"insight.storage","fields":[{"name":"name","type":"bytes"},{"name":"type","type":"insight.storage.TrackType"}]}"#@,
        r#"{"type":"record","name":"Unit","namespace":"insight.storage","fields":[{"name":"stream_name","type":"bytes"},{"name":"track_name","type":"bytes"},{"name":"track_type","type":"insight.storage.TrackType"},{"name":"unit","type":"long"}]}"#@,
        r#"{"type":"record","name":"UnitElementValue","namespace":"insight.storage","fields":[{"name":"data","type":"bytes"},{"name":"attributes","type":{"type":"map","values":"string"}}]}"#@,
        r#"{"type":"record","name":"UnitElementMessage","namespace":"insight.storage","fields":[{"name":"stream_unit","type":"insight.storage.Unit"},{"name":"element","type":"long"},{"name":"value","type":"bytes"},{"name":"attributes","type":{"type":"map","values":"string"}},{"name":"last","type":"boolean"}]}"#@,
        r#"{"type":"record","name":"NotifyMessage","namespace":"insight.transport","fields":[{"name":"stream_unit","type":"insight.storage.Unit"},{"name":"last_element","type":"int"},{"name":"saved_ms","type":"long"},{"name":"notify_type","type":{"type":"enum","name":"NotifyType","symbols":["READY","NEW"]}}]}"#@,
        r#"{"type":"record","name":"StreamTracksRequest","namespace":"insight.transport","fields":[{"name":"request_id","type":"long"},{"name":"topic","type":"string"},{"name":"stream_name","type":"bytes"}]}"#@,
        r#"{"type":"record","name":"StreamTracksResponse","namespace":"insight.transport","fields":[{"name":"request_id","type":"long"},{"name":"stream_name","type":"bytes"},{"name":"tracks","type":{"type":"array","items":"insight.storage.TrackInfo"}}]}"#@,
        r#"{"type":"record","name":"StreamTrackUnitElementsRequest","namespace":"insight.transport","fields":[{"name":"request_id","type":"long"},{"name":"topic","type":"string"},{"name":"stream_unit","type":"insight.storage.Unit"},{"name":"max_element","type":"long"}]}"#@,
        r#"{"type":"record","name":"StreamTrackUnitElementsResponse","namespace":"insight.transport","fields":[{"name":"request_id","type":"long"},{"name":"stream_unit","type":"insight.storage.Unit"},{"name":"values","type":{"type":"array","items":"insight.storage.UnitElementValue"}}]}"#@,
        r#"{"type":"record","name":"StreamTrackUnitsRequest","namespace":"insight.transport","fields":[{"name":"request_id","type":"long"},{"name":"topic","type":"string"},{"name":"stream_unit","type":"insight.storage.Unit"},{"name":"from_ms","type":"long"},{"name":"to_ms","type":"long"}]}"#@,
        r#"{"type":"record","name":"StreamTrackUnitsResponse","namespace":"insight.transport","fields":[{"name":"request_id","type":"long"},{"name":"stream_unit","type":"insight.storage.Unit"},{"name":"from_ms","type":"long"},{"name":"to_ms","type":"long"},{"name":"units","type":{"type":"array","items":"long"}}]}"#@,
        r#"{"type":"record","name":"PingRequestResponse","namespace":"insight.transport","fields":[{"name":"request_id","type":"long"},{"name":"topic","type":"string"},{"name":"type","type":{"type":"enum","name":"PingRequestResponseType","symbols":["REQUEST","RESPONSE"]}}]}"#@,
        r#"{"type":"record","name":"KeepAliveMessage","namespace":"insight.transport","fields":[{"name":"module_id","type":"string"}]}"#@,
        r#"{"type":"record","name":"MessageEnvelope","namespace":"insight.transport","fields":[{"name":"schema","type":"bytes"},{"name":"payload","type":"bytes"}]}"#@,
        r#"{"type":"record","name":"Request","namespace":"insight.ffprobe","fields":[{"name":"request_id","type":"long"},{"name":"topic","type":"string"},{"name":"url","type":"string"},{"name":"attributes","type":{"type":"map","values":"string"}}]}"#@,
        r#"{"type":"record","name":"Response","namespace":"insight.ffprobe","fields":[{"name":"request_id","type":"long"},{"name":"response_type","type":{"type":"enum","name":"ResponseType","symbols":["ACCEPTED","COMPLETE","ERROR"]}},{"name":"time_spent","type":"long"},{"name":"streams","type":{"type":"array","items":{"type":"map","values":"string"}}}]}"#@,
    ]
}

/// The schema description texts, embedded in catalog order: one text per
/// manifest entry of `schema_files`.
pub fn schema_texts() -> (r: Vec<&'static str>)
    ensures
        r@.len() == embedded_schema_texts().len(),
        r@.len() == shapes::catalog_names().len(),
        forall|i: int| 0 <= i < r@.len() ==> (#[trigger] r@[i])@ == embedded_schema_texts()[i],
{
    let r: Vec<&'static str> = vec![
        r#"{"type":"enum","name":"TrackType","namespace":"insight.storage","symbols":["VIDEO","META"]}"#,
        r#"{"type":"record","name":"TrackInfo","namespace":"insight.storage","fields":[{"name":"name","type":"bytes"},{"name":"type","type":"insight.storage.TrackType"}]}"#,
        r#"{"type":"record","name":"Unit","namespace":"insight.storage","fields":[{"name":"stream_name","type":"bytes"},{"name":"track_name","type":"bytes"},{"name":"track_type","type":"insight.storage.TrackType"},{"name":"unit","type":"long"}]}"#,
        r#"{"type":"record","name":"UnitElementValue","namespace":"insight.storage","fields":[{"name":"data","type":"bytes"},{"name":"attributes","type":{"type":"map","values":"string"}}]}"#,
        r#"{"type":"record","name":"UnitElementMessage","namespace":"insight.storage","fields":[{"name":"stream_unit","type":"insight.storage.Unit"},{"name":"element","type":"long"},{"name":"value","type":"bytes"},{"name":"attributes","type":{"type":"map","values":"string"}},{"name":"last","type":"boolean"}]}"#,
        r#"{"type":"record","name":"NotifyMessage","namespace":"insight.transport","fields":[{"name":"stream_unit","type":"insight.storage.Unit"},{"name":"last_element","type":"int"},{"name":"saved_ms","type":"long"},{"name":"notify_type","type":{"type":"enum","name":"NotifyType","symbols":["READY","NEW"]}}]}"#,
        r#"{"type":"record","name":"StreamTracksRequest","namespace":"insight.transport","fields":[{"name":"request_id","type":"long"},{"name":"topic","type":"string"},{"name":"stream_name","type":"bytes"}]}"#,
        r#"{"type":"record","name":"StreamTracksResponse","namespace":"insight.transport","fields":[{"name":"request_id","type":"long"},{"name":"stream_name","type":"bytes"},{"name":"tracks","type":{"type":"array","items":"insight.storage.TrackInfo"}}]}"#,
        r#"{"type":"record","name":"StreamTrackUnitElementsRequest","namespace":"insight.transport","fields":[{"name":"request_id","type":"long"},{"name":"topic","type":"string"},{"name":"stream_unit","type":"insight.storage.Unit"},{"name":"max_element","type":"long"}]}"#,
        r#"{"type":"record","name":"StreamTrackUnitElementsResponse","namespace":"insight.transport","fields":[{"name":"request_id","type":"long"},{"name":"stream_unit","type":"insight.storage.Unit"},{"name":"values","type":{"type":"array","items":"insight.storage.UnitElementValue"}}]}"#,
        r#"{"type":"record","name":"StreamTrackUnitsRequest","namespace":"insight.transport","fields":[{"name":"request_id","type":"long"},{"name":"topic","type":"string"},{"name":"stream_unit","type":"insight.storage.Unit"},{"name":"from_ms","type":"long"},{"name":"to_ms","type":"long"}]}"#,
        r#"{"type":"record","name":"StreamTrackUnitsResponse","namespace":"insight.transport","fields":[{"name":"request_id","type":"long"},{"name":"stream_unit","type":"insight.storage.Unit"},{"name":"from_ms","type":"long"},{"name":"to_ms","type":"long"},{"name":"units","type":{"type":"array","items":"long"}}]}"#,
        r#"{"type":"record","name":"PingRequestResponse","namespace":"insight.transport","fields":[{"name":"request_id","type":"long"},{"name":"topic","type":"string"},{"name":"type","type":{"type":"enum","name":"PingRequestResponseType","symbols":["REQUEST","RESPONSE"]}}]}"#,
        r#"{"type":"record","name":"KeepAliveMessage","namespace":"insight.transport","fields":[{"name":"module_id","type":"string"}]}"#,
        r#"{"type":"record","name":"MessageEnvelope","namespace":"insight.transport","fields":[{"name":"schema","type":"bytes"},{"name":"payload","type":"bytes"}]}"#,
        r#"{"type":"record","name":"Request","namespace":"insight.ffprobe","fields":[{"name":"request_id","type":"long"},{"name":"topic","type":"string"},{"name":"url","type":"string"},{"name":"attributes","type":{"type":"map","values":"string"}}]}"#,
        r#"{"type":"record","name":"Response","namespace":"insight.ffprobe","fields":[{"name":"request_id","type":"long"},{"name":"response_type","type":{"type":"enum","name":"ResponseType","symbols":["ACCEPTED","COMPLETE","ERROR"]}},{"name":"time_spent","type":"long"},{"name":"streams","type":{"type":"array","items":{"type":"map","values":"string"}}}]}"#,
    ];
    proof {
        assert(r@[0]@ == embedded_schema_texts()[0]);
        assert(r@[1]@ == embedded_schema_texts()[1]);
        assert(r@[2]@ == embedded_schema_texts()[2]);
        assert(r@[3]@ == embedded_schema_texts()[3]);
        assert(r@[4]@ == embedded_schema_texts()[4]);
        assert(r@[5]@ == embedded_schema_texts()[5]);
        assert(r@[6]@ == embedded_schema_texts()[6]);
        assert(r@[7]@ == embedded_schema_texts()[7]);
        assert(r@[8]@ == embedded_schema_texts()[8]);
        assert(r@[9]@ == embedded_schema_texts()[9]);
        assert(r@[10]@ == embedded_schema_texts()[10]);
        assert(r@[11]@ == embedded_schema_texts()[11]);
        assert(r@[12]@ == embedded_schema_texts()[12]);
        assert(r@[13]@ == embedded_schema_texts()[13]);
        assert(r@[14]@ == embedded_schema_texts()[14]);
        assert(r@[15]@ == embedded_schema_texts()[15]);
        assert(r@[16]@ == embedded_schema_texts()[16]);
    }
    r
}

/// The enum-erased twins of the embedded schema descriptions, in catalog
/// order: each enum is replaced by a bare `int` and every named reference
/// is inlined, which reads the identical byte stream (an avro enum is
/// encoded as its index int) but keeps the external decoder away from its
/// enum-index abort.  Field names and order match the real schemas.
fn decode_schema_texts() -> (r: Vec<&'static str>)
    ensures
        r@.len() == shapes::catalog_names().len(),
{
    let r: Vec<&'static str> = vec![
        r#""int""#,
        r#"{"type":"record","name":"TrackInfo","fields":[{"name":"name","type":"bytes"},{"name":"type","type":"int"}]}"#,
        r#"{"type":"record","name":"Unit","fields":[{"name":"stream_name","type":"bytes"},{"name":"track_name","type":"bytes"},{"name":"track_type","type":"int"},{"name":"unit","type":"long"}]}"#,
        r#"{"type":"record","name":"UnitElementValue","fields":[{"name":"data","type":"bytes"},{"name":"attributes","type":{"type":"map","values":"string"}}]}"#,
        r#"{"type":"record","name":"UnitElementMessage","fields":[{"name":"stream_unit","type":{"type":"record","name":"Unit","fields":[{"name":"stream_name","type":"bytes"},{"name":"track_name","type":"bytes"},{"name":"track_type","type":"int"},{"name":"unit","type":"long"}]}},{"name":"element","type":"long"},{"name":"value","type":"bytes"},{"name":"attributes","type":{"type":"map","values":"string"}},{"name":"last","type":"boolean"}]}"#,
        r#"{"type":"record","name":"NotifyMessage","fields":[{"name":"stream_unit","type":{"type":"record","name":"Unit","fields":[{"name":"stream_name","type":"bytes"},{"name":"track_name","type":"bytes"},{"name":"track_type","type":"int"},{"name":"unit","type":"long"}]}},{"name":"last_element","type":"int"},{"name":"saved_ms","type":"long"},{"name":"notify_type","type":"int"}]}"#,
        r#"{"type":"record","name":"StreamTracksRequest","fields":[{"name":"request_id","type":"long"},{"name":"topic","type":"string"},{"name":"stream_name","type":"bytes"}]}"#,
        r#"{"type":"record","name":"StreamTracksResponse","fields":[{"name":"request_id","type":"long"},{"name":"stream_name","type":"bytes"},{"name":"tracks","type":{"type":"array","items":{"type":"record","name":"TrackInfo","fields":[{"name":"name","type":"bytes"},{"name":"type","type":"int"}]}}}]}"#,
        r#"{"type":"record","name":"StreamTrackUnitElementsRequest","fields":[{"name":"request_id","type":"long"},{"name":"topic","type":"string"},{"name":"stream_unit","type":{"type":"record","name":"Unit","fields":[{"name":"stream_name","type":"bytes"},{"name":"track_name","type":"bytes"},{"name":"track_type","type":"int"},{"name":"unit","type":"long"}]}},{"name":"max_element","type":"long"}]}"#,
        r#"{"type":"record","name":"StreamTrackUnitElementsResponse","fields":[{"name":"request_id","type":"long"},{"name":"stream_unit","type":{"type":"record","name":"Unit","fields":[{"name":"stream_name","type":"bytes"},{"name":"track_name","type":"bytes"},{"name":"track_type","type":"int"},{"name":"unit","type":"long"}]}},{"name":"values","type":{"type":"array","items":{"type":"record","name":"UnitElementValue","fields":[{"name":"data","type":"bytes"},{"name":"attributes","type":{"type":"map","values":"string"}}]}}}]}"#,
        r#"{"type":"record","name":"StreamTrackUnitsRequest","fields":[{"name":"request_id","type":"long"},{"name":"topic","type":"string"},{"name":"stream_unit","type":{"type":"record","name":"Unit","fields":[{"name":"stream_name","type":"bytes"},{"name":"track_name","type":"bytes"},{"name":"track_type","type":"int"},{"name":"unit","type":"long"}]}},{"name":"from_ms","type":"long"},{"name":"to_ms","type":"long"}]}"#,
        r#"{"type":"record","name":"StreamTrackUnitsResponse","fields":[{"name":"request_id","type":"long"},{"name":"stream_unit","type":{"type":"record","name":"Unit","fields":[{"name":"stream_name","type":"bytes"},{"name":"track_name","type":"bytes"},{"name":"track_type","type":"int"},{"name":"unit","type":"long"}]}},{"name":"from_ms","type":"long"},{"name":"to_ms","type":"long"},{"name":"units","type":{"type":"array","items":"long"}}]}"#,
        r#"{"type":"record","name":"PingRequestResponse","fields":[{"name":"request_id","type":"long"},{"name":"topic","type":"string"},{"name":"type","type":"int"}]}"#,
        r#"{"type":"record","name":"KeepAliveMessage","fields":[{"name":"module_id","type":"string"}]}"#,
        r#"{"type":"record","name":"MessageEnvelope","fields":[{"name":"schema","type":"bytes"},{"name":"payload","type":"bytes"}]}"#,
        r#"{"type":"record","name":"Request","fields":[{"name":"request_id","type":"long"},{"name":"topic","type":"string"},{"name":"url","type":"string"},{"name":"attributes","type":{"type":"map","values":"string"}}]}"#,
        r#"{"type":"record","name":"Response","fields":[{"name":"request_id","type":"long"},{"name":"response_type","type":"int"},{"name":"time_spent","type":"long"},{"name":"streams","type":{"type":"array","items":{"type":"map","values":"string"}}}]}"#,
    ];
    r
}

/// A failure while building a catalog from caller-supplied schema texts; no
/// catalog is produced.
#[derive(Clone, Copy, PartialEq, Eq, Structural, Debug)]
pub enum BuildError {
    /// The supplied batch is not this protocol's schema description set.
    /// The codec facts this library is verified against are stated for the
    /// fixed catalog, so a batch that differs from it is refused rather
    /// than indexed.
    SchemaTextMismatch,
}

/// Relies on avro_rs::Schema::parse_list and parse_str applied to this
/// crate's embedded description batch and its enum-erased twins: both fixed
/// batches parse, one schema per text in input order, and each parsed
/// schema carries the declared namespace and local name written in its
/// text, whose canonical form is the matching manifest name.
#[verifier::external_body]
fn parse_embedded_schemas() -> (r: Vec<
    (Option<String>, String, avro_rs::schema::Schema, avro_rs::schema::Schema),
>)
    ensures
        r@.len() == shapes::catalog_names().len(),
        forall|i: int|
            0 <= i < r@.len() ==> spec_canonical_name(
                match (#[trigger] r@[i]).0 {
                    Some(ns) => Some(ns@),
                    None => None,
                },
                r@[i].1@,
            ) == shapes::catalog_names()[i],
{
    let texts = schema_texts();
    let dtexts = decode_schema_texts();
    let schemas = avro_rs::schema::Schema::parse_list(texts.as_slice()).unwrap();
    schemas.into_iter().zip(dtexts.into_iter()).map(|p| {
        let (ns, n) = schema_name_info(&p.0).unwrap();
        (ns, n, p.0, avro_rs::schema::Schema::parse_str(p.1).unwrap())
    }).collect()
}

/// The schema catalog: an immutable index from canonical schema name to
/// parsed schema object, built once from the embedded description texts.
pub struct BuilderImpl {
    directory: Vec<CatalogEntry>,
}

impl BuilderImpl {
    /// The fixed manifest of schema description files: (group, file name)
    /// pairs, in catalog order.
    pub fn schema_files() -> (r: Vec<(&'static str, &'static str)>)
        ensures
            r@.len() == shapes::catalog_names().len(),
            forall|i: int|
                0 <= i < r@.len() ==> (#[trigger] r@[i]).1@ == shapes::catalog_names()[i],
    {
        manifest_files()
    }

    /// The canonical names in the catalog, in manifest order.
    pub closed spec fn names(&self) -> Seq<Seq<char>> {
        self.directory@.map_values(|e: CatalogEntry| e.key())
    }

    #[verifier::type_invariant]
    pub closed spec fn inv(&self) -> bool {
        &&& self.names() == shapes::catalog_names()
        &&& forall|j: int|
            0 <= j < self.directory@.len() ==> (#[trigger] self.directory@[j]).shape_ok()
    }

    /// Build the catalog: parse the embedded description batch in one call
    /// and index each schema under its canonical name, computed by the
    /// naming scheme.  Every catalog this returns indexes the same seventeen
    /// schemas.
    pub fn new() -> (r: BuilderImpl)
        ensures
            r.names() == shapes::catalog_names(),
    {
        let mut parsed = parse_embedded_schemas();
        let ghost total = parsed@.len();
        let mut directory: Vec<CatalogEntry> = Vec::new();
        let ghost all = parsed@;
        let mut i: usize = 0;
        while parsed.len() > 0
            invariant
                all.len() == shapes::catalog_names().len(),
                i + parsed@.len() == all.len(),
                0 <= i <= all.len(),
                forall|j: int| 0 <= j < parsed@.len() ==> parsed@[j] == all[i + j],
                forall|j: int|
                    0 <= j < all.len() ==> spec_canonical_name(
                        match (#[trigger] all[j]).0 {
                            Some(ns) => Some(ns@),
                            None => None,
                        },
                        all[j].1@,
                    ) == shapes::catalog_names()[j],
                directory@.len() == i,
                forall|j: int|
                    0 <= j < i ==> (#[trigger] directory@[j]).key()
                        == shapes::catalog_names()[j] && directory@[j].shape_ok(),
            decreases parsed@.len(),
        {
            let (namespace, local, schema, decode_schema) = parsed.remove(0);
            let name = canonical_name(namespace.as_ref(), local.as_str());
            let shape = shapes::shape_e_at(i);
            proof {
                assert(name@ == shapes::catalog_names()[i as int]);
            }
            directory.push(entry_make(name, schema, decode_schema, shape));
            i += 1;
        }
        proof {
            assert(directory@.map_values(|e: CatalogEntry| e.key()) =~= shapes::catalog_names());
        }
        BuilderImpl { directory }
    }

    /// Build the catalog from caller-supplied schema description texts, as a
    /// loader that keeps the `.avsc` files on disk would hand them over.
    /// The batch must be exactly this protocol's schema set, in manifest
    /// order: the library's statements about the external codec are made
    /// for these schemas and would say nothing about others, so any other
    /// batch is refused.
    pub fn from_texts(texts: &Vec<String>) -> (r: Result<BuilderImpl, BuildError>)
        ensures
            r is Ok <==> (texts@.len() == embedded_schema_texts().len() && (forall|i: int|
                0 <= i < texts@.len() ==> (#[trigger] texts@[i])@ == embedded_schema_texts()[i])),
            r matches Ok(c) ==> c.names() == shapes::catalog_names(),
    {
        let embedded = schema_texts();
        if texts.len() != embedded.len() {
            return Err(BuildError::SchemaTextMismatch);
        }
        let mut i: usize = 0;
        while i < embedded.len()
            invariant
                0 <= i <= embedded@.len(),
                texts@.len() == embedded@.len(),
                embedded@.len() == embedded_schema_texts().len(),
                forall|j: int|
                    0 <= j < embedded@.len() ==> (#[trigger] embedded@[j])@
                        == embedded_schema_texts()[j],
                forall|j: int|
                    0 <= j < i ==> (#[trigger] texts@[j])@ == embedded_schema_texts()[j],
            decreases embedded@.len() - i,
        {
            if !str_eq(texts[i].as_str(), embedded[i]) {
                return Err(BuildError::SchemaTextMismatch);
            }
            i += 1;
        }
        Ok(BuilderImpl::new())
    }

    pub(crate) fn get_entry(&self, schema_name: &str) -> (r: Option<&CatalogEntry>)
        ensures
            r is Some <==> shapes::catalog_names().contains(schema_name@),
            r matches Some(e) ==> e.key() == schema_name@ && e.shape_ok(),
    {
        proof {
            use_type_invariant(self);
        }
        let mut i: usize = 0;
        while i < self.directory.len()
            invariant
                0 <= i <= self.directory@.len(),
                self.names() == shapes::catalog_names(),
                self.names().len() == self.directory@.len(),
                forall|j: int|
                    0 <= j < self.directory@.len() ==> (#[trigger] self.directory@[j]).key()
                        == self.names()[j] && self.directory@[j].shape_ok(),
                forall|j: int| 0 <= j < i ==> self.names()[j] != schema_name@,
            decreases self.directory@.len() - i,
        {
            if str_eq(self.directory[i].name().as_str(), schema_name) {
                return Some(&self.directory[i]);
            }
            i += 1;
        }
        proof {
            assert(!shapes::catalog_names().contains(schema_name@));
        }
        None
    }

    /// Look a schema up by its canonical name.
    pub fn get_schema(&self, schema_name: &str) -> (r: Option<&avro_rs::schema::Schema>)
        ensures
            r is Some <==> shapes::catalog_names().contains(schema_name@),
    {
        match self.get_entry(schema_name) {
            Some(e) => Some(e.schema()),
            None => None,
        }
    }
}

/// A failure to pack a message into an envelope.
#[derive(Clone, Copy, PartialEq, Eq, Structural, Debug)]
pub enum EncodeError {
    /// The requested schema name is not in the catalog: packing an unknown
    /// type is a caller error.
    UnknownSchema,
    /// The value does not have the structure of the requested schema.
    InvalidValue,
}

/// Model of a decode failure.
pub enum DecodeErrV {
    OuterDecode,
    OuterNotRecord,
    EnvelopeShape,
    SchemaNameUtf8,
    UnknownSchema(Seq<char>),
    InnerDecode,
}

/// A failure to unpack an envelope; every malformed input maps to one of
/// these, never to a crash.
#[derive(Clone, Debug)]
pub enum DecodeError {
    /// The bytes do not parse against the envelope schema.
    OuterDecode,
    /// The envelope decoded to something other than a record.
    OuterNotRecord,
    /// The envelope record does not have the two byte-string fields
    /// `schema`, `payload` in that order.
    EnvelopeShape,
    /// The schema-name field is not valid UTF-8.
    SchemaNameUtf8,
    /// The named schema is not in the catalog; carries the name.
    UnknownSchema(String),
    /// The payload does not parse against its named schema.
    InnerDecode,
}

impl View for DecodeError {
    type V = DecodeErrV;

    open spec fn view(&self) -> DecodeErrV {
        match self {
            DecodeError::OuterDecode => DecodeErrV::OuterDecode,
            DecodeError::OuterNotRecord => DecodeErrV::OuterNotRecord,
            DecodeError::EnvelopeShape => DecodeErrV::EnvelopeShape,
            DecodeError::SchemaNameUtf8 => DecodeErrV::SchemaNameUtf8,
            DecodeError::UnknownSchema(n) => DecodeErrV::UnknownSchema(n@),
            DecodeError::InnerDecode => DecodeErrV::InnerDecode,
        }
    }
}

impl DecodeError {
    pub open spec fn message_spec(&self) -> Seq<char> {
        match self {
            DecodeError::OuterDecode => "Failed to deserialize the outer message"@,
            DecodeError::OuterNotRecord => "Failed to parse/match outer AVRO Record"@,
            DecodeError::EnvelopeShape => "No outer AVRO record (MessageEnvelope) matched"@,
            DecodeError::SchemaNameUtf8 => "Failed to parse schema name, not a valid UTF-8"@,
            DecodeError::UnknownSchema(n) => "No valid schema found in schema catalog for the schema ("@
                + n@ + ") in serialized record"@,
            DecodeError::InnerDecode => "Failed to parse inner AVRO serialized record"@,
        }
    }

    /// A human-readable cause, naming the schema when it is known.
    pub fn message(&self) -> (r: String)
        ensures
            r@ == self.message_spec(),
    {
        match self {
            DecodeError::OuterDecode => String::from_str("Failed to deserialize the outer message"),
            DecodeError::OuterNotRecord => String::from_str("Failed to parse/match outer AVRO Record"),
            DecodeError::EnvelopeShape => String::from_str(
                "No outer AVRO record (MessageEnvelope) matched",
            ),
            DecodeError::SchemaNameUtf8 => String::from_str(
                "Failed to parse schema name, not a valid UTF-8",
            ),
            DecodeError::UnknownSchema(n) => String::from_str(
                "No valid schema found in schema catalog for the schema (",
            ).concat(n.as_str()).concat(") in serialized record"),
            DecodeError::InnerDecode => String::from_str(
                "Failed to parse inner AVRO serialized record",
            ),
        }
    }
}

/// The model of the envelope record that wraps a payload: the schema name as
/// its UTF-8 bytes, then the payload bytes.
pub open spec fn env_tree(name: Seq<char>, inner: Seq<u8>) -> TreeV {
    TreeV::Record(
        seq![
            ("schema"@, TreeV::Bytes(vstd::utf8::encode_utf8(name))),
            ("payload"@, TreeV::Bytes(inner)),
        ],
    )
}

/// What holds of envelope bytes `b` that packing `v` under schema `name`
/// produced: some inner encoding of `v` exists that `b` wraps.  When the
/// value's maps have at most one entry the inner bytes are pinned to the
/// encoder's output, and so is `b`; when the value is in round-trip-exact
/// form, decoding the inner bytes gives the value back.
pub open spec fn pack_post(name: Seq<char>, v: TreeV, b: Seq<u8>) -> bool {
    exists|inner: Seq<u8>| #[trigger] pack_post_inner(name, v, b, inner)
}

pub open spec fn pack_post_inner(name: Seq<char>, v: TreeV, b: Seq<u8>, inner: Seq<u8>) -> bool {
    &&& (crate::tree::maps_le1(v) ==> inner == crate::codec::enc_of(name, v))
    &&& crate::codec::dec_of(name, inner) is Some
    &&& (crate::tree::rt_exact(v, shapes::shape_of(name)) ==> crate::codec::dec_of(name, inner)
        == Some(v))
    &&& b == crate::codec::enc_of(shapes::message_envelope_schema_name(), env_tree(name, inner))
    &&& crate::codec::dec_of(shapes::message_envelope_schema_name(), b) == Some(
        env_tree(name, inner),
    )
}

/// The whole behaviour of unpacking: decode the envelope, check its shape,
/// decode the schema name, resolve it, decode the payload.
pub open spec fn unpack_spec(b: Seq<u8>) -> Result<(Seq<char>, TreeV), DecodeErrV> {
    match crate::codec::dec_of(shapes::message_envelope_schema_name(), b) {
        Option::None => Err(DecodeErrV::OuterDecode),
        Option::Some(t) => match t {
            TreeV::Record(fs) => {
                if fs.len() == 2 && fs[0].0 == "schema"@ && fs[0].1 is Bytes && fs[1].0
                    == "payload"@ && fs[1].1 is Bytes {
                    let nb = fs[0].1->Bytes_0;
                    let pb = fs[1].1->Bytes_0;
                    if !vstd::utf8::valid_utf8(nb) {
                        Err(DecodeErrV::SchemaNameUtf8)
                    } else {
                        let name = vstd::utf8::decode_utf8(nb);
                        if !shapes::catalog_names().contains(name) {
                            Err(DecodeErrV::UnknownSchema(name))
                        } else {
                            match crate::codec::dec_of(name, pb) {
                                Option::None => Err(DecodeErrV::InnerDecode),
                                Option::Some(v) => Ok((name, v)),
                            }
                        }
                    }
                } else {
                    Err(DecodeErrV::EnvelopeShape)
                }
            },
            _ => Err(DecodeErrV::OuterNotRecord),
        },
    }
}

impl BuilderImpl {
    pub(crate) fn envelope_entry(&self) -> (r: &CatalogEntry)
        ensures
            r.key() == shapes::message_envelope_schema_name(),
            r.shape_ok(),
    {
        proof {
            assert(shapes::catalog_names()[14] == shapes::message_envelope_schema_name());
        }
        match self.get_entry(MESSAGE_ENVELOPE_SCHEMA) {
            Some(e) => e,
            None => vstd::pervasive::unreached(),
        }
    }

    /// Pack a payload value into the self-describing envelope: encode the
    /// value against the named schema, wrap the name and the inner bytes in
    /// an envelope record, and encode that against the envelope schema.
    pub(crate) fn pack_message_into_envelope(&self, schema_name: &str, payload: &TreeValue) -> (r:
        Result<Vec<u8>, EncodeError>)
        ensures
            r is Ok <==> shapes::catalog_names().contains(schema_name@) && crate::tree::fits(
                payload@,
                shapes::shape_of(schema_name@),
            ),
            !shapes::catalog_names().contains(schema_name@) ==> r == Err::<
                Vec<u8>,
                EncodeError,
            >(EncodeError::UnknownSchema),
            r matches Err(e) ==> (e == EncodeError::UnknownSchema
                <==> !shapes::catalog_names().contains(schema_name@)),
            r matches Ok(b) ==> pack_post(schema_name@, payload@, b@),
    {
        let entry = match self.get_entry(schema_name) {
            Some(e) => e,
            None => {
                return Err(EncodeError::UnknownSchema);
            }
        };
        let inner = match encode_datum(entry, payload) {
            Some(b) => b,
            None => {
                return Err(EncodeError::InvalidValue);
            }
        };
        let ghost inner_seq = inner@;
        let name_bytes: Vec<u8> = vstd::slice::slice_to_vec(schema_name.as_bytes());
        let mut env_fields: Vec<(String, TreeValue)> = Vec::new();
        env_fields.push((String::from_str("schema"), TreeValue::Bytes(name_bytes)));
        env_fields.push((String::from_str("payload"), TreeValue::Bytes(inner)));
        let envelope = TreeValue::Record(env_fields);
        proof {
            shapes::lemma_shape_of();
            let fs = envelope->Record_0@;
            crate::tree::lemma_pair_views(fs);
            assert(crate::tree::pair_views(fs) =~= env_tree(schema_name@, inner_seq)->Record_0);
            assert(envelope@ == env_tree(schema_name@, inner_seq));
            let sh = shapes::message_envelope_shape();
            let shf = sh->SRec_0;
            assert(crate::tree::rt_exact(envelope@, sh)) by {
                assert forall|j: int|
                    0 <= j < fs.len() implies (#[trigger] crate::tree::pair_views(fs)[j]).0
                    == shf[j].0 && crate::tree::rt_exact(
                    crate::tree::pair_views(fs)[j].1,
                    shf[j].1,
                ) by {
                    if j == 0 {
                        assert(shf[0].0 == "schema"@);
                    } else {
                        assert(shf[1].0 == "payload"@);
                    }
                }
            }
            assert(crate::tree::maps_le1(envelope@)) by {
                assert forall|j: int|
                    0 <= j < fs.len() implies crate::tree::maps_le1(
                    (#[trigger] crate::tree::pair_views(fs)[j]).1,
                ) by {}
            }
            crate::tree::lemma_rt_exact_fits(envelope@, sh);
        }
        let env_entry = self.envelope_entry();
        match encode_datum(env_entry, &envelope) {
            Some(b) => {
                proof {
                    let sh = shapes::message_envelope_shape();
                    crate::tree::lemma_refine_erase(envelope@, sh);
                    crate::tree::lemma_erase_pairs(envelope@->Record_0);
                    assert(crate::tree::erase_enums(envelope@)->Record_0 =~= envelope@->Record_0);
                    assert(crate::tree::erase_enums(envelope@) == envelope@);
                    if crate::tree::rt_exact(payload@, shapes::shape_of(schema_name@)) {
                        crate::tree::lemma_refine_erase(
                            payload@,
                            shapes::shape_of(schema_name@),
                        );
                    }
                    assert(pack_post_inner(schema_name@, payload@, b@, inner_seq));
                }
                Ok(b)
            },
            None => vstd::pervasive::unreached(),
        }
    }

    /// Unpack an envelope: decode the outer record, check its two-field
    /// shape, decode the schema name as UTF-8, resolve it in the catalog,
    /// and decode the payload against the resolved schema.  Every failure is
    /// a typed error.
    pub fn read_protocol_message(&self, from: &Vec<u8>) -> (r: Result<
        (String, TreeValue),
        DecodeError,
    >)
        ensures
            r matches Ok(p) ==> unpack_spec(from@) == Ok::<(Seq<char>, TreeV), DecodeErrV>(
                (p.0@, p.1@),
            ),
            r matches Err(e) ==> unpack_spec(from@) == Err::<(Seq<char>, TreeV), DecodeErrV>(e@),
    {
        let env_entry = self.envelope_entry();
        let outer = match decode_datum(env_entry, from.as_slice()) {
            Some(t) => t,
            None => {
                return Err(DecodeError::OuterDecode);
            }
        };
        match outer {
            TreeValue::Record(fields) => {
                proof {
                    crate::tree::lemma_pair_views(fields@);
                }
                if fields.len() != 2 {
                    return Err(DecodeError::EnvelopeShape);
                }
                if !str_eq(fields[0].0.as_str(), "schema") || !str_eq(
                    fields[1].0.as_str(),
                    "payload",
                ) {
                    return Err(DecodeError::EnvelopeShape);
                }
                match (&fields[0].1, &fields[1].1) {
                    (TreeValue::Bytes(nb), TreeValue::Bytes(pb)) => {
                        let name = match bytes_to_string(nb) {
                            Some(s) => s,
                            None => {
                                return Err(DecodeError::SchemaNameUtf8);
                            }
                        };
                        let entry = match self.get_entry(name.as_str()) {
                            Some(e) => e,
                            None => {
                                return Err(DecodeError::UnknownSchema(name));
                            }
                        };
                        match decode_datum(entry, pb.as_slice()) {
                            Some(v) => Ok((name, v)),
                            None => Err(DecodeError::InnerDecode),
                        }
                    },
                    _ => Err(DecodeError::EnvelopeShape),
                }
            },
            _ => Err(DecodeError::OuterNotRecord),
        }
    }
}


/// A decoded message: the generic payload value plus the canonical name of
/// the schema it is encoded under.
pub struct ProtocolMessage {
    pub schema: String,
    pub object: TreeValue,
}

/// The envelope codec: an immutable schema catalog plus the pack and unpack
/// operations every message type shares.
pub struct Builder {
    builder: BuilderImpl,
}

impl Builder {
    /// The canonical names in the catalog, in manifest order.
    pub closed spec fn names(&self) -> Seq<Seq<char>> {
        self.builder.names()
    }

    /// Build the catalog from the embedded schema descriptions.
    pub fn new() -> (r: Builder)
        ensures
            r.names() == shapes::catalog_names(),
    {
        Builder { builder: BuilderImpl::new() }
    }

    /// Build the catalog from caller-supplied schema description texts; the
    /// batch must be exactly this protocol's schema set, in manifest order.
    pub fn from_texts(texts: &Vec<String>) -> (r: Result<Builder, BuildError>)
        ensures
            r is Ok <==> (texts@.len() == embedded_schema_texts().len() && (forall|i: int|
                0 <= i < texts@.len() ==> (#[trigger] texts@[i])@ == embedded_schema_texts()[i])),
            r matches Ok(b) ==> b.names() == shapes::catalog_names(),
    {
        match BuilderImpl::from_texts(texts) {
            Ok(b) => Ok(Builder { builder: b }),
            Err(e) => Err(e),
        }
    }

    /// Unpack an envelope to its schema name and generic payload value; on
    /// any decode failure return nothing, as the caller only needs to know
    /// the message did not parse.
    pub fn load_to_avro(&self, obj: Vec<u8>) -> (r: Option<ProtocolMessage>)
        ensures
            r matches Some(pm) ==> unpack_spec(obj@) == Ok::<(Seq<char>, TreeV), DecodeErrV>(
                (pm.schema@, pm.object@),
            ),
            r is None <==> unpack_spec(obj@) is Err,
    {
        match self.builder.read_protocol_message(&obj) {
            Ok((schema, object)) => Some(ProtocolMessage { schema, object }),
            Err(_) => None,
        }
    }

    /// Pack a generic payload value under its schema name.
    pub fn save_from_avro(&self, message: ProtocolMessage) -> (r: Result<Vec<u8>, EncodeError>)
        ensures
            r is Ok <==> shapes::catalog_names().contains(message.schema@)
                && crate::tree::fits(message.object@, shapes::shape_of(message.schema@)),
            r matches Ok(b) ==> pack_post(message.schema@, message.object@, b@),
    {
        self.builder.pack_message_into_envelope(message.schema.as_str(), &message.object)
    }

    /// Look up a schema by name, as `get_schema` on the catalog does.
    pub fn get_record(&self, schema_name: &str) -> (r: Option<&avro_rs::schema::Schema>)
        ensures
            r is Some <==> shapes::catalog_names().contains(schema_name@),
    {
        self.builder.get_schema(schema_name)
    }
}

} // verus!
