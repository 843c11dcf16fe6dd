use vstd::prelude::*;
use vstd::string::StringSliceAdditionalSpecFns;
use crate::avro::str_eq;
use crate::tree::{pair_views, pairs_to_map, tree_view, TreeV, TreeValue};
use crate::utils::fill_byte_array;

verus! {

broadcast use vstd::array::group_array_axioms;

pub const TRACK_NAME_MAX_LENGTH: usize = 16;

pub const STREAM_NAME_MAX_LENGTH: usize = 16;

pub type StreamName = [u8; 16];

pub type TrackName = [u8; 16];

pub type ElementType = i16;

/// The fixed-width identity that `b` packs to: its first sixteen bytes,
/// zero-extended when it is shorter.  Identities longer than the buffer are
/// silently truncated.
pub open spec fn packed_identity(b: Seq<u8>) -> Seq<u8> {
    Seq::new(16, |i: int| if i < b.len() { b[i] } else { 0u8 })
}

/// Fold attribute pairs into a map; a later pair with the same key wins.
pub open spec fn attrs_of_pairs(ps: Seq<(Seq<char>, Seq<char>)>) -> Map<Seq<char>, Seq<char>>
    decreases ps.len(),
{
    if ps.len() == 0 {
        Map::empty()
    } else {
        attrs_of_pairs(ps.drop_last()).insert(ps.last().0, ps.last().1)
    }
}

pub open spec fn str_pair_views(ps: Seq<(String, String)>) -> Seq<(Seq<char>, Seq<char>)> {
    ps.map_values(|p: (String, String)| (p.0@, p.1@))
}

/// A string-keyed, string-valued attribute map with unique keys, stored as
/// ordered pairs.  Its model is the map of its entries.
#[derive(Debug, Clone)]
pub struct AttrMap {
    pairs: Vec<(String, String)>,
}

impl View for AttrMap {
    type V = Map<Seq<char>, Seq<char>>;

    closed spec fn view(&self) -> Map<Seq<char>, Seq<char>> {
        attrs_of_pairs(str_pair_views(self.pairs@))
    }
}

impl AttrMap {
    /// Well-formed: the stored keys are pairwise distinct.  Constructors
    /// establish this and `insert` preserves it.
    pub closed spec fn wf(&self) -> bool {
        forall|i: int, j: int|
            0 <= i < j < self.pairs@.len() ==> (#[trigger] self.pairs@[i]).0@ != (
            #[trigger] self.pairs@[j]).0@
    }

    /// Whether the two maps hold the same entry set, however ordered.
    pub closed spec fn same_entries(&self, other: &AttrMap) -> bool {
        spec_contains_all(self.pairs@, other.pairs@) && spec_contains_all(
            other.pairs@,
            self.pairs@,
        )
    }

    /// The empty attribute map.
    pub fn new() -> (r: AttrMap)
        ensures
            r@ == Map::<Seq<char>, Seq<char>>::empty(),
            r.wf(),
    {
        AttrMap { pairs: Vec::new() }
    }

    /// Add or replace one entry.
    pub fn insert(&mut self, key: String, value: String)
        requires
            old(self).wf(),
        ensures
            final(self)@ == old(self)@.insert(key@, value@),
            final(self).wf(),
    {
        let mut i: usize = 0;
        while i < self.pairs.len()
            invariant
                0 <= i <= self.pairs@.len(),
                self.wf(),
                self.pairs == old(self).pairs,
                forall|j: int| 0 <= j < i ==> (#[trigger] self.pairs@[j]).0@ != key@,
            decreases self.pairs@.len() - i,
        {
            if str_eq(self.pairs[i].0.as_str(), key.as_str()) {
                let ghost idx = i as int;
                let ghost oldpairs = self.pairs@;
                self.pairs.set(i, (key, value));
                proof {
                    lemma_attrs_update(str_pair_views(oldpairs), idx, key@, value@);
                    assert(str_pair_views(self.pairs@) =~= str_pair_views(oldpairs).update(
                        idx,
                        (key@, value@),
                    ));
                }
                return ;
            }
            i += 1;
        }
        let ghost oldpairs = self.pairs@;
        self.pairs.push((key, value));
        proof {
            assert(str_pair_views(self.pairs@).drop_last() =~= str_pair_views(oldpairs));
        }
    }

    /// Build an attribute map from pairs; a later pair with the same key
    /// replaces an earlier one.
    pub fn from_pairs(pairs: Vec<(String, String)>) -> (r: AttrMap)
        ensures
            r@ == attrs_of_pairs(str_pair_views(pairs@)),
            r.wf(),
    {
        let mut out = AttrMap::new();
        let mut i: usize = 0;
        while i < pairs.len()
            invariant
                0 <= i <= pairs@.len(),
                out.wf(),
                out@ == attrs_of_pairs(str_pair_views(pairs@).take(i as int)),
            decreases pairs@.len() - i,
        {
            let (k, v) = (pairs[i].0.clone(), pairs[i].1.clone());
            out.insert(k, v);
            proof {
                assert(str_pair_views(pairs@).take(i + 1int).drop_last() =~= str_pair_views(
                    pairs@,
                ).take(i as int));
            }
            i += 1;
        }
        proof {
            assert(str_pair_views(pairs@).take(pairs@.len() as int) =~= str_pair_views(pairs@));
        }
        out
    }

    /// The generic map value carrying these attributes.
    pub fn to_tree(&self) -> (r: TreeValue)
        ensures
            r@ == TreeV::Dict(self@.map_values(|v: Seq<char>| TreeV::Str(v))),
    {
        let mut out: Vec<(String, TreeValue)> = Vec::new();
        let mut i: usize = 0;
        while i < self.pairs.len()
            invariant
                0 <= i <= self.pairs@.len(),
                out@.len() == i,
                forall|j: int|
                    0 <= j < i ==> (#[trigger] out@[j]).0 == self.pairs@[j].0 && out@[j].1
                        == TreeValue::Str(self.pairs@[j].1),
            decreases self.pairs@.len() - i,
        {
            out.push((self.pairs[i].0.clone(), TreeValue::Str(self.pairs[i].1.clone())));
            i += 1;
        }
        let r = TreeValue::Dict(out);
        proof {
            lemma_str_tree_pairs(self.pairs@, r->Dict_0@);
        }
        r
    }
}

/// Replacing the pair that holds `k` puts `(k, v)` in the folded map, as
/// `insert` does, provided no later pair uses the same key.
proof fn lemma_attrs_update(ps: Seq<(Seq<char>, Seq<char>)>, i: int, k: Seq<char>, v: Seq<char>)
    requires
        0 <= i < ps.len(),
        ps[i].0 == k,
        forall|j: int| i < j < ps.len() ==> (#[trigger] ps[j]).0 != k,
    ensures
        attrs_of_pairs(ps.update(i, (k, v))) == attrs_of_pairs(ps).insert(k, v),
    decreases ps.len(),
{
    let ps2 = ps.update(i, (k, v));
    if i == ps.len() - 1 {
        assert(ps2.drop_last() =~= ps.drop_last());
        assert(attrs_of_pairs(ps2) =~= attrs_of_pairs(ps).insert(k, v));
    } else {
        assert(ps2.drop_last() =~= ps.drop_last().update(i, (k, v)));
        lemma_attrs_update(ps.drop_last(), i, k, v);
        assert(ps.last().0 != k);
        assert(attrs_of_pairs(ps2) =~= attrs_of_pairs(ps).insert(k, v));
    }
}

/// Tree pairs whose values wrap the string pairs fold to the mapped map.
proof fn lemma_str_tree_pairs(ps: Seq<(String, String)>, ts: Seq<(String, TreeValue)>)
    requires
        ts.len() == ps.len(),
        forall|i: int|
            0 <= i < ps.len() ==> (#[trigger] ts[i]).0 == ps[i].0 && ts[i].1 == TreeValue::Str(
                ps[i].1,
            ),
    ensures
        pairs_to_map(pair_views(ts)) == attrs_of_pairs(str_pair_views(ps)).map_values(
            |v: Seq<char>| TreeV::Str(v),
        ),
    decreases ps.len(),
{
    crate::tree::lemma_pair_views(ts);
    if ps.len() == 0 {
        assert(pairs_to_map(pair_views(ts)) =~= attrs_of_pairs(str_pair_views(ps)).map_values(
            |v: Seq<char>| TreeV::Str(v),
        ));
    } else {
        lemma_str_tree_pairs(ps.drop_last(), ts.drop_last());
        crate::tree::lemma_pair_views(ts.drop_last());
        assert(str_pair_views(ps).drop_last() =~= str_pair_views(ps.drop_last()));
        assert(pair_views(ts).drop_last() =~= pair_views(ts.drop_last()));
        assert(pair_views(ts).last() == (ts.last().0@, tree_view(ts.last().1)));
        assert(pairs_to_map(pair_views(ts)) == pairs_to_map(pair_views(ts).drop_last()).insert(
            ts.last().0@,
            tree_view(ts.last().1),
        ));
        assert(pairs_to_map(pair_views(ts)) =~= attrs_of_pairs(str_pair_views(ps)).map_values(
            |v: Seq<char>| TreeV::Str(v),
        ));
    }
}

impl PartialEq for AttrMap {
    /// Equality by entry set: the stored order of the pairs does not matter.
    fn eq(&self, other: &AttrMap) -> (r: bool) {
        contains_all(&self.pairs, &other.pairs) && contains_all(&other.pairs, &self.pairs)
    }
}

impl vstd::std_specs::cmp::PartialEqSpecImpl for AttrMap {
    open spec fn obeys_eq_spec() -> bool {
        true
    }

    open spec fn eq_spec(&self, other: &AttrMap) -> bool {
        self.same_entries(other)
    }
}

pub open spec fn spec_has_pair(b: Seq<(String, String)>, k: Seq<char>, v: Seq<char>) -> bool {
    exists|j: int| 0 <= j < b.len() && (#[trigger] b[j]).0@ == k && b[j].1@ == v
}

pub open spec fn spec_contains_all(a: Seq<(String, String)>, b: Seq<(String, String)>) -> bool {
    forall|i: int| 0 <= i < a.len() ==> spec_has_pair(b, (#[trigger] a[i]).0@, a[i].1@)
}

fn has_pair(b: &Vec<(String, String)>, k: &String, v: &String) -> (r: bool)
    ensures
        r == spec_has_pair(b@, k@, v@),
{
    let mut j: usize = 0;
    while j < b.len()
        invariant
            0 <= j <= b@.len(),
            forall|jj: int| 0 <= jj < j ==> !((#[trigger] b@[jj]).0@ == k@ && b@[jj].1@ == v@),
        decreases b@.len() - j,
    {
        if str_eq(b[j].0.as_str(), k.as_str()) && str_eq(b[j].1.as_str(), v.as_str()) {
            return true;
        }
        j += 1;
    }
    false
}

fn contains_all(a: &Vec<(String, String)>, b: &Vec<(String, String)>) -> (r: bool)
    ensures
        r == spec_contains_all(a@, b@),
{
    let mut i: usize = 0;
    while i < a.len()
        invariant
            0 <= i <= a@.len(),
            forall|k: int| 0 <= k < i ==> spec_has_pair(b@, (#[trigger] a@[k]).0@, a@[k].1@),
        decreases a@.len() - i,
    {
        if !has_pair(b, &a[i].0, &a[i].1) {
            return false;
        }
        i += 1;
    }
    true
}


/// The kind of a track, as a closed set of wire literals plus a fallback for
/// literals this build does not know.
#[derive(Debug, Clone, PartialEq, Copy, Eq, Hash, Structural)]
pub enum TrackType {
    Video,
    Meta,
    NotImplemented,
}

impl Default for TrackType {
    fn default() -> (r: Self)
        ensures
            r == TrackType::Video,
    {
        TrackType::Video
    }
}

/// The track kind a wire literal denotes; anything unknown maps to the
/// `NotImplemented` fallback, never to a failure.
pub open spec fn spec_track_type_of_literal(lit: Seq<char>) -> TrackType {
    if lit == "VIDEO"@ {
        TrackType::Video
    } else if lit == "META"@ {
        TrackType::Meta
    } else {
        TrackType::NotImplemented
    }
}

pub fn track_type_literal_to_track_type(literal: &str) -> (r: TrackType)
    ensures
        r == spec_track_type_of_literal(literal@),
{
    if str_eq(literal, "VIDEO") {
        TrackType::Video
    } else if str_eq(literal, "META") {
        TrackType::Meta
    } else {
        TrackType::NotImplemented
    }
}

/// The wire index and literal of a known track kind.
pub open spec fn spec_track_type_wire(t: TrackType) -> (int, Seq<char>) {
    match t {
        TrackType::Video => (0, "VIDEO"@),
        TrackType::Meta => (1, "META"@),
        TrackType::NotImplemented => (0, Seq::empty()),
    }
}

/// The generic enum value of a known track kind; the fallback kind has no
/// wire form, so it cannot be encoded.
pub(crate) fn get_track_type_enum(track_type: &TrackType) -> (r: Option<TreeValue>)
    ensures
        r is Some <==> *track_type != TrackType::NotImplemented,
        r matches Some(v) ==> v@ == TreeV::Enum(
            spec_track_type_wire(*track_type).0,
            spec_track_type_wire(*track_type).1,
        ),
{
    match track_type {
        TrackType::Video => Some(TreeValue::Enum(0, String::from_str("VIDEO"))),
        TrackType::Meta => Some(TreeValue::Enum(1, String::from_str("META"))),
        TrackType::NotImplemented => None,
    }
}

pub fn get_empty_track_name() -> (r: TrackName)
    ensures
        r@ =~= packed_identity(Seq::<u8>::empty()),
{
    let r: TrackName = [0; 16];
    proof {
        assert(r@ =~= packed_identity(Seq::<u8>::empty()));
    }
    r
}

/// Relies on uuid::Uuid::as_bytes: a UUID is exactly its sixteen bytes.
#[verifier::external_body]
pub fn pack_stream_name(stream_name: &uuid::Uuid) -> (r: StreamName) {
    *stream_name.as_bytes()
}

/// Pack a track name of at most sixteen bytes, zero-padded; longer names are
/// rejected with an error message.
pub fn pack_track_name(track_name: &str) -> (r: Result<TrackName, String>)
    ensures
        r is Ok <==> track_name.spec_bytes().len() <= 16,
        r matches Ok(buf) ==> buf@ == packed_identity(track_name.spec_bytes()),
{
    let bytes = track_name.as_bytes();
    if bytes.len() > 16 {
        Err(String::from_str("Invalid track name length. Must me less than 16 characters."))
    } else {
        let mut buf: TrackName = get_empty_track_name();
        let owned = vstd::slice::slice_to_vec(bytes);
        fill_byte_array(&mut buf, &owned);
        proof {
            assert(buf@ =~= packed_identity(track_name.spec_bytes()));
        }
        Ok(buf)
    }
}

/// Model of a stream/track unit: both identities as their stored sixteen
/// bytes, the track kind, and the sequence number.
pub struct UnitV {
    pub stream_name: Seq<u8>,
    pub track_name: Seq<u8>,
    pub track_type: TrackType,
    pub unit: int,
}

/// The identifier of one unit of one track of one stream.
#[derive(Debug, Clone, PartialEq)]
pub struct Unit {
    pub stream_name: StreamName,
    pub track_name: TrackName,
    pub track_type: TrackType,
    pub unit: i64,
}

impl View for Unit {
    type V = UnitV;

    open spec fn view(&self) -> UnitV {
        UnitV {
            stream_name: self.stream_name@,
            track_name: self.track_name@,
            track_type: self.track_type,
            unit: self.unit as int,
        }
    }
}

/// The generic record value of a unit, for a kind that has a wire form.
pub open spec fn spec_unit_tree(u: UnitV) -> TreeV {
    TreeV::Record(
        seq![
            ("stream_name"@, TreeV::Bytes(u.stream_name)),
            ("track_name"@, TreeV::Bytes(u.track_name)),
            (
                "track_type"@,
                TreeV::Enum(spec_track_type_wire(u.track_type).0, spec_track_type_wire(u.track_type).1),
            ),
            ("unit"@, TreeV::Long(u.unit)),
        ],
    )
}

/// The unit a generic value maps to: a four-field record of two byte
/// strings, an enum and a long, in that order; anything else is a structural
/// mismatch.  Identities are truncated and padded to sixteen bytes, and an
/// unknown track literal maps to the fallback kind.
pub open spec fn spec_unit_of_tree(v: TreeV) -> Option<UnitV> {
    match v {
        TreeV::Record(fs) => {
            if fs.len() == 4 && fs[0].1 is Bytes && fs[1].1 is Bytes && fs[2].1 is Enum
                && fs[3].1 is Long {
                Some(
                    UnitV {
                        stream_name: packed_identity(fs[0].1->Bytes_0),
                        track_name: packed_identity(fs[1].1->Bytes_0),
                        track_type: spec_track_type_of_literal(fs[2].1->Enum_1),
                        unit: fs[3].1->Long_0,
                    },
                )
            } else {
                None
            }
        },
        _ => None,
    }
}

impl Unit {
    /// Build a unit from raw identities and a wire literal: identities are
    /// truncated to sixteen bytes and zero-padded, silently.
    pub fn new(stream_name: Vec<u8>, track_name: Vec<u8>, track_type: String, unit: i64) -> (r:
        Unit)
        ensures
            r@ == (UnitV {
                stream_name: packed_identity(stream_name@),
                track_name: packed_identity(track_name@),
                track_type: spec_track_type_of_literal(track_type@),
                unit: unit as int,
            }),
    {
        let mut b_stream_name: StreamName = [0; 16];
        let mut b_track_name: TrackName = [0; 16];
        fill_byte_array(&mut b_stream_name, &stream_name);
        fill_byte_array(&mut b_track_name, &track_name);
        let track_type = track_type_literal_to_track_type(track_type.as_str());
        proof {
            assert(b_stream_name@ =~= packed_identity(stream_name@));
            assert(b_track_name@ =~= packed_identity(track_name@));
        }
        Unit { stream_name: b_stream_name, track_name: b_track_name, track_type, unit }
    }

    /// The generic record value of this unit; the fallback track kind has no
    /// wire form, so such a unit cannot be encoded.
    pub fn to_avro_record(&self) -> (r: Option<TreeValue>)
        ensures
            r is Some <==> self.track_type != TrackType::NotImplemented,
            r matches Some(v) ==> v@ == spec_unit_tree(self@),
    {
        let track_type_value = match get_track_type_enum(&self.track_type) {
            Some(v) => v,
            None => {
                return None;
            }
        };
        let mut fields: Vec<(String, TreeValue)> = Vec::new();
        fields.push(
            (
                String::from_str("stream_name"),
                TreeValue::Bytes(vstd::slice::slice_to_vec(self.stream_name.as_slice())),
            ),
        );
        fields.push(
            (
                String::from_str("track_name"),
                TreeValue::Bytes(vstd::slice::slice_to_vec(self.track_name.as_slice())),
            ),
        );
        fields.push((String::from_str("track_type"), track_type_value));
        fields.push((String::from_str("unit"), TreeValue::Long(self.unit)));
        let r = TreeValue::Record(fields);
        proof {
            let fs = r->Record_0@;
            crate::tree::lemma_pair_views(fs);
            let target = spec_unit_tree(self@)->Record_0;
            assert(crate::tree::pair_views(fs)[0] == target[0]);
            assert(crate::tree::pair_views(fs)[1] == target[1]);
            assert(crate::tree::pair_views(fs)[2] == target[2]);
            assert(crate::tree::pair_views(fs)[3] == target[3]);
            assert(crate::tree::pair_views(fs) =~= target);
            assert(r@ == spec_unit_tree(self@));
        }
        Some(r)
    }

    /// Map a generic value back to a unit, structurally.
    pub fn from_avro_record(v: &TreeValue) -> (r: Option<Unit>)
        ensures
            r matches Some(u) ==> spec_unit_of_tree(v@) == Some(u@),
            r is None <==> spec_unit_of_tree(v@) is None,
    {
        match v {
            TreeValue::Record(fields) => {
                proof {
                    crate::tree::lemma_pair_views(fields@);
                }
                if fields.len() != 4 {
                    return None;
                }
                match (&fields[0].1, &fields[1].1, &fields[2].1, &fields[3].1) {
                    (
                        TreeValue::Bytes(stream_name),
                        TreeValue::Bytes(track_name),
                        TreeValue::Enum(_index, track_type),
                        TreeValue::Long(unit),
                    ) => Some(
                        Unit::new(stream_name.clone(), track_name.clone(), track_type.clone(), *unit),
                    ),
                    _ => None,
                }
            },
            _ => None,
        }
    }
}

/// The name and kind of one track.
#[derive(Debug, Clone, PartialEq, Copy)]
pub struct TrackInfo {
    pub track_type: TrackType,
    pub track_name: TrackName,
}

pub struct TrackInfoV {
    pub track_type: TrackType,
    pub track_name: Seq<u8>,
}

impl View for TrackInfo {
    type V = TrackInfoV;

    open spec fn view(&self) -> TrackInfoV {
        TrackInfoV { track_type: self.track_type, track_name: self.track_name@ }
    }
}

impl Default for TrackInfo {
    fn default() -> (r: Self)
        ensures
            r@.track_type == TrackType::Video,
            r@.track_name =~= packed_identity(Seq::<u8>::empty()),
    {
        TrackInfo { track_type: TrackType::Video, track_name: get_empty_track_name() }
    }
}

impl TrackInfo {
    pub fn new(track_type: TrackType, track_name: TrackName) -> (r: Self)
        ensures
            r@ == (TrackInfoV { track_type, track_name: track_name@ }),
    {
        TrackInfo { track_type, track_name }
    }
}

/// One element payload: raw bytes plus free-form string attributes.
#[derive(Debug, Clone, PartialEq)]
pub struct Payload {
    pub data: Vec<u8>,
    pub attributes: AttrMap,
}

pub struct PayloadV {
    pub data: Seq<u8>,
    pub attributes: Map<Seq<char>, Seq<char>>,
}

impl View for Payload {
    type V = PayloadV;

    open spec fn view(&self) -> PayloadV {
        PayloadV { data: self.data@, attributes: self.attributes@ }
    }
}

impl Payload {
    pub fn new(data: Vec<u8>, attributes: AttrMap) -> (r: Self)
        ensures
            r@ == (PayloadV { data: data@, attributes: attributes@ }),
    {
        Payload { data, attributes }
    }
}

/// What a notification reports of a unit: ready up to some element, or new.
#[derive(Debug, Clone, PartialEq, Eq, Structural)]
pub enum NotifyTypeImpl {
    Ready(ElementType),
    New,
    NotImplemented,
}

/// A notification kind, with the forward-compatibility fallback for wire
/// literals this build does not know.
#[derive(Debug, Clone, PartialEq, Eq, Structural)]
pub struct NotifyType {
    pub obj: NotifyTypeImpl,
}

impl NotifyType {
    pub fn ready(element: ElementType) -> (r: Self)
        ensures
            r == (NotifyType { obj: NotifyTypeImpl::Ready(element) }),
    {
        NotifyType { obj: NotifyTypeImpl::Ready(element) }
    }

    pub fn new() -> (r: Self)
        ensures
            r == (NotifyType { obj: NotifyTypeImpl::New }),
    {
        NotifyType { obj: NotifyTypeImpl::New }
    }
}


/// Whether every entry of a decoded attribute map is a string.
pub open spec fn spec_attrs_ok(m: Map<Seq<char>, TreeV>) -> bool {
    forall|k: Seq<char>| m.dom().contains(k) ==> (#[trigger] m[k]) is Str
}

/// The attributes a string-valued map carries.
pub open spec fn spec_attrs_of(m: Map<Seq<char>, TreeV>) -> Map<Seq<char>, Seq<char>> {
    m.map_values(|t: TreeV| t->Str_0)
}

/// The string entries of a pair sequence, in order, everything else dropped.
pub open spec fn spec_str_entries(ps: Seq<(Seq<char>, TreeV)>) -> Seq<(Seq<char>, Seq<char>)>
    decreases ps.len(),
{
    if ps.len() == 0 {
        Seq::empty()
    } else if ps.last().1 is Str {
        spec_str_entries(ps.drop_last()).push((ps.last().0, ps.last().1->Str_0))
    } else {
        spec_str_entries(ps.drop_last())
    }
}

/// An entry of the folded map comes from its key's last pair; in particular
/// a pair no later pair shadows decides its key's entry.
#[verifier::rlimit(50)]
proof fn lemma_fold_survivors(ps: Seq<(Seq<char>, TreeV)>)
    ensures
        forall|i: int|
            0 <= i < ps.len() && (forall|j: int| i < j < ps.len() ==> (#[trigger] ps[j]).0 != ps[i].0)
                ==> pairs_to_map(ps).dom().contains((#[trigger] ps[i]).0) && pairs_to_map(ps)[ps[i].0]
                == ps[i].1,
        forall|k: Seq<char>| #[trigger] pairs_to_map(ps).dom().contains(k) ==> exists|i: int|
            0 <= i < ps.len() && (#[trigger] ps[i]).0 == k && (forall|j: int|
                i < j < ps.len() ==> (#[trigger] ps[j]).0 != k),
    decreases ps.len(),
{
    if ps.len() > 0 {
        let prefix = ps.drop_last();
        lemma_fold_survivors(prefix);
        assert forall|i: int|
            0 <= i < ps.len() && (forall|j: int| i < j < ps.len() ==> (#[trigger] ps[j]).0 != ps[i].0)
            implies pairs_to_map(ps).dom().contains((#[trigger] ps[i]).0) && pairs_to_map(ps)[ps[i].0]
            == ps[i].1 by {
            if i < ps.len() - 1 {
                assert(prefix[i] == ps[i]);
                assert(forall|j: int| i < j < prefix.len() ==> (#[trigger] prefix[j]).0 != prefix[i].0);
                assert(ps[ps.len() - 1].0 != ps[i].0);
            }
        }
        assert forall|k: Seq<char>| #[trigger]
            pairs_to_map(ps).dom().contains(k) implies exists|i: int|
            0 <= i < ps.len() && (#[trigger] ps[i]).0 == k && (forall|j: int|
                i < j < ps.len() ==> (#[trigger] ps[j]).0 != k) by {
            if k == ps.last().0 {
                let w = ps.len() - 1;
                assert(ps[w].0 == k && (forall|j: int| w < j < ps.len() ==> (#[trigger] ps[j]).0 != k));
            } else {
                assert(pairs_to_map(prefix).dom().contains(k));
                let w = choose|i: int|
                    0 <= i < prefix.len() && (#[trigger] prefix[i]).0 == k && (forall|j: int|
                        i < j < prefix.len() ==> (#[trigger] prefix[j]).0 != k);
                assert(ps[w] == prefix[w]);
                assert forall|j: int| w < j < ps.len() implies (#[trigger] ps[j]).0 != k by {
                    if j < ps.len() - 1 {
                        assert(ps[j] == prefix[j]);
                    }
                }
                assert(ps[w].0 == k);
            }
        }
    }
}

/// Folding just the string entries agrees with the full fold wherever the
/// full fold's entry is a string, and adds no other keys.
proof fn lemma_str_entries_fold(ps: Seq<(Seq<char>, TreeV)>)
    ensures
        forall|k: Seq<char>|
            #[trigger] attrs_of_pairs(spec_str_entries(ps)).dom().contains(k) ==> pairs_to_map(
                ps,
            ).dom().contains(k),
        forall|k: Seq<char>|
            pairs_to_map(ps).dom().contains(k) && (#[trigger] pairs_to_map(ps)[k]) is Str
                ==> attrs_of_pairs(spec_str_entries(ps)).dom().contains(k) && attrs_of_pairs(
                spec_str_entries(ps),
            )[k] == pairs_to_map(ps)[k]->Str_0,
    decreases ps.len(),
{
    if ps.len() > 0 {
        let prefix = ps.drop_last();
        lemma_str_entries_fold(prefix);
        if ps.last().1 is Str {
            assert(spec_str_entries(ps).drop_last() =~= spec_str_entries(prefix));
            assert(attrs_of_pairs(spec_str_entries(ps)) == attrs_of_pairs(
                spec_str_entries(prefix),
            ).insert(ps.last().0, ps.last().1->Str_0));
        } else {
            assert(spec_str_entries(ps) == spec_str_entries(prefix));
        }
        assert(pairs_to_map(ps) == pairs_to_map(prefix).insert(ps.last().0, ps.last().1));
    }
}

/// Whether the key of pair `i` occurs again in a later pair.
fn key_reappears(ps: &Vec<(String, TreeValue)>, i: usize) -> (r: bool)
    requires
        i < ps@.len(),
    ensures
        r == exists|j: int|
            i < j < pair_views(ps@).len() && (#[trigger] pair_views(ps@)[j]).0 == pair_views(
                ps@,
            )[i as int].0,
{
    proof {
        crate::tree::lemma_pair_views(ps@);
    }
    let n = ps.len();
    let mut j: usize = i + 1;
    while j < n
        invariant
            i < j <= ps@.len(),
            i < ps@.len(),
            n == ps@.len(),
            forall|jj: int|
                i < jj < j ==> (#[trigger] pair_views(ps@)[jj]).0 != pair_views(ps@)[i as int].0,
        decreases ps@.len() - j,
    {
        proof {
            crate::tree::lemma_pair_views(ps@);
        }
        if str_eq(ps[j].0.as_str(), ps[i].0.as_str()) {
            proof {
                assert(pair_views(ps@)[j as int].0 == pair_views(ps@)[i as int].0);
            }
            return true;
        }
        j += 1;
    }
    proof {
        crate::tree::lemma_pair_views(ps@);
    }
    false
}

/// Whether every entry that survives into the folded map is a string: the
/// fail-closed test behind attribute extraction and map refinement.
pub(crate) fn dict_values_are_strings(ps: &Vec<(String, TreeValue)>) -> (r: bool)
    ensures
        r == spec_attrs_ok(pairs_to_map(pair_views(ps@))),
{
    let ghost tps = pair_views(ps@);
    proof {
        crate::tree::lemma_pair_views(ps@);
    }
    let mut i: usize = 0;
    while i < ps.len()
        invariant
            0 <= i <= ps@.len(),
            tps == pair_views(ps@),
            tps.len() == ps@.len(),
            forall|ii: int|
                0 <= ii < i && !((#[trigger] tps[ii]).1 is Str) ==> exists|j: int|
                    ii < j < tps.len() && (#[trigger] tps[j]).0 == tps[ii].0,
        decreases ps@.len() - i,
    {
        proof {
            crate::tree::lemma_pair_views(ps@);
        }
        match &ps[i].1 {
            TreeValue::Str(_) => {},
            _ => {
                if !key_reappears(ps, i) {
                    proof {
                        lemma_fold_survivors(tps);
                        assert(forall|j: int|
                            (i as int) < j < tps.len() ==> (#[trigger] tps[j]).0 != tps[i as int].0);
                        assert(pairs_to_map(tps).dom().contains(tps[i as int].0)
                            && pairs_to_map(tps)[tps[i as int].0] == tps[i as int].1);
                        assert(!(pairs_to_map(tps)[tps[i as int].0] is Str));
                        assert(!spec_attrs_ok(pairs_to_map(tps)));
                    }
                    return false;
                }
            },
        }
        i += 1;
    }
    proof {
        lemma_fold_survivors(tps);
        assert(spec_attrs_ok(pairs_to_map(tps))) by {
            assert forall|k: Seq<char>|
                pairs_to_map(tps).dom().contains(k) implies (#[trigger] pairs_to_map(
                tps,
            )[k]) is Str by {
                let w = choose|ii: int|
                    0 <= ii < tps.len() && (#[trigger] tps[ii]).0 == k && (forall|j: int|
                        ii < j < tps.len() ==> (#[trigger] tps[j]).0 != k);
                assert(tps[w].1 is Str);
            }
        }
    }
    true
}

/// Extract the attributes from a decoded map value, failing exactly when an
/// entry that survives into the map is not a string.
pub(crate) fn attrs_from_tree(ps: &Vec<(String, TreeValue)>) -> (r: Option<AttrMap>)
    ensures
        r is Some <==> spec_attrs_ok(pairs_to_map(pair_views(ps@))),
        r matches Some(a) ==> a@ == spec_attrs_of(pairs_to_map(pair_views(ps@))) && a.wf(),
{
    let ghost tps = pair_views(ps@);
    proof {
        crate::tree::lemma_pair_views(ps@);
    }
    let mut strs: Vec<(String, String)> = Vec::new();
    let mut i: usize = 0;
    while i < ps.len()
        invariant
            0 <= i <= ps@.len(),
            tps == pair_views(ps@),
            tps.len() == ps@.len(),
            str_pair_views(strs@) =~= spec_str_entries(tps.take(i as int)),
            forall|ii: int|
                0 <= ii < i && !((#[trigger] tps[ii]).1 is Str) ==> exists|j: int|
                    ii < j < tps.len() && (#[trigger] tps[j]).0 == tps[ii].0,
        decreases ps@.len() - i,
    {
        proof {
            crate::tree::lemma_pair_views(ps@);
        }
        let ghost prev = strs@;
        match &ps[i].1 {
            TreeValue::Str(s) => {
                strs.push((ps[i].0.clone(), s.clone()));
                proof {
                    assert(tps.take(i + 1int).drop_last() =~= tps.take(i as int));
                    assert(str_pair_views(strs@) =~= str_pair_views(prev).push(
                        (ps@[i as int].0@, s@),
                    ));
                }
            },
            _ => {
                if !key_reappears(ps, i) {
                    proof {
                        lemma_fold_survivors(tps);
                        assert(forall|j: int|
                            (i as int) < j < tps.len() ==> (#[trigger] tps[j]).0 != tps[i as int].0);
                        assert(pairs_to_map(tps).dom().contains(tps[i as int].0)
                            && pairs_to_map(tps)[tps[i as int].0] == tps[i as int].1);
                        assert(!(pairs_to_map(tps)[tps[i as int].0] is Str));
                        assert(!spec_attrs_ok(pairs_to_map(tps)));
                    }
                    return None;
                }
                proof {
                    assert(tps.take(i + 1int).drop_last() =~= tps.take(i as int));
                }
            },
        }
        i += 1;
    }
    proof {
        lemma_fold_survivors(tps);
        lemma_str_entries_fold(tps);
        assert(tps.take(tps.len() as int) =~= tps);
        assert(spec_attrs_ok(pairs_to_map(tps))) by {
            assert forall|k: Seq<char>|
                pairs_to_map(tps).dom().contains(k) implies (#[trigger] pairs_to_map(
                tps,
            )[k]) is Str by {
                let w = choose|ii: int|
                    0 <= ii < tps.len() && (#[trigger] tps[ii]).0 == k && (forall|j: int|
                        ii < j < tps.len() ==> (#[trigger] tps[j]).0 != k);
                assert(tps[w].1 is Str);
            }
        }
        assert(attrs_of_pairs(str_pair_views(strs@)) =~= spec_attrs_of(pairs_to_map(tps)));
    }
    Some(AttrMap::from_pairs(strs))
}


/// Round trip at the unit level: a unit with a known track kind maps back
/// to itself from its own record rendering, its identities already being
/// sixteen bytes.
pub proof fn lemma_unit_round_trip(u: Unit)
    requires
        u.track_type != TrackType::NotImplemented,
    ensures
        spec_unit_of_tree(spec_unit_tree(u@)) == Some(u@),
{
    reveal_strlit("VIDEO");
    reveal_strlit("META");
    assert("VIDEO"@.len() == 5);
    assert("META"@.len() == 4);
    assert(packed_identity(u@.stream_name) =~= u@.stream_name);
    assert(packed_identity(u@.track_name) =~= u@.track_name);
    match u.track_type {
        TrackType::Video => {
            assert(spec_track_type_of_literal(spec_track_type_wire(u.track_type).1)
                == u.track_type);
        },
        TrackType::Meta => {
            assert("META"@ != "VIDEO"@);
            assert(spec_track_type_of_literal(spec_track_type_wire(u.track_type).1)
                == u.track_type);
        },
        TrackType::NotImplemented => {},
    }
}

/// A unit rendering with a known track kind has exactly the unit schema's
/// structure.
pub proof fn lemma_unit_fits(u: Unit)
    requires
        u.track_type != TrackType::NotImplemented,
    ensures
        crate::tree::rt_exact(spec_unit_tree(u@), crate::shapes::unit_shape()),
{
    let sh = crate::shapes::unit_shape();
    let fs = spec_unit_tree(u@)->Record_0;
    let shf = sh->SRec_0;
    assert forall|j: int|
        0 <= j < fs.len() implies (#[trigger] fs[j]).0 == shf[j].0 && crate::tree::rt_exact(
        fs[j].1,
        shf[j].1,
    ) by {
        assert(fs[0].0 == shf[0].0);
        assert(fs[1].0 == shf[1].0);
        assert(fs[2].0 == shf[2].0);
        assert(fs[3].0 == shf[3].0);
    }
}


/// Truncation law: a packed identity is always exactly sixteen bytes; a
/// longer source is silently cut to its first sixteen bytes and a shorter
/// one is zero-extended, never rejected.
pub proof fn lemma_identity_truncation(b: Seq<u8>)
    ensures
        packed_identity(b).len() == 16,
        b.len() >= 16 ==> packed_identity(b) == b.take(16),
        b.len() <= 16 ==> packed_identity(b).take(b.len() as int) == b && (forall|i: int|
            b.len() <= i < 16 ==> packed_identity(b)[i] == 0u8),
{
    if b.len() >= 16 {
        assert(packed_identity(b) =~= b.take(16));
    }
    if b.len() <= 16 {
        assert(packed_identity(b).take(b.len() as int) =~= b);
    }
}

/// Enum forward compatibility: a structurally well-formed unit whose track
/// literal is not in the literal table maps to the fallback kind, never to
/// a failure.
pub proof fn lemma_enum_forward_compat(v: TreeV)
    requires
        spec_unit_of_tree(v) is Some,
        v->Record_0[2].1->Enum_1 != "VIDEO"@,
        v->Record_0[2].1->Enum_1 != "META"@,
    ensures
        spec_unit_of_tree(v)->Some_0.track_type == TrackType::NotImplemented,
{
}

} // verus!
