use vstd::prelude::*;

verus! {

/// Generic schema-tree value: the untyped decoded form of a payload, as the
/// external codec produces and consumes it.  Only the kinds that this
/// protocol's schemas use are modelled; anything else is `Other`.
#[verifier::ext_equal]
pub enum TreeValue {
    Boolean(bool),
    Int(i32),
    Long(i64),
    Bytes(Vec<u8>),
    Str(String),
    Enum(i32, String),
    Array(Vec<TreeValue>),
    Dict(Vec<(String, TreeValue)>),
    Record(Vec<(String, TreeValue)>),
    Other,
}

/// Mathematical model of a schema-tree value.  Maps are unordered: the wire
/// codec hands map entries back in no particular order, so two values that
/// agree as maps are the same model.
#[verifier::ext_equal]
pub enum TreeV {
    Boolean(bool),
    Int(int),
    Long(int),
    Bytes(Seq<u8>),
    Str(Seq<char>),
    Enum(int, Seq<char>),
    Array(Seq<TreeV>),
    Dict(Map<Seq<char>, TreeV>),
    Record(Seq<(Seq<char>, TreeV)>),
    Other,
}

/// Fold a sequence of key-value pairs into a map; a later pair with the same
/// key wins, as when the pairs are inserted into a hash map in order.
pub open spec fn pairs_to_map(pairs: Seq<(Seq<char>, TreeV)>) -> Map<Seq<char>, TreeV>
    decreases pairs.len(),
{
    if pairs.len() == 0 {
        Map::empty()
    } else {
        pairs_to_map(pairs.drop_last()).insert(pairs.last().0, pairs.last().1)
    }
}

pub open spec fn tree_view(v: TreeValue) -> TreeV
    decreases v, 1int,
{
    match v {
        TreeValue::Boolean(b) => TreeV::Boolean(b),
        TreeValue::Int(i) => TreeV::Int(i as int),
        TreeValue::Long(l) => TreeV::Long(l as int),
        TreeValue::Bytes(b) => TreeV::Bytes(b@),
        TreeValue::Str(s) => TreeV::Str(s@),
        TreeValue::Enum(i, s) => TreeV::Enum(i as int, s@),
        TreeValue::Array(xs) => TreeV::Array(elem_views(xs@)),
        TreeValue::Dict(ps) => TreeV::Dict(pairs_to_map(pair_views(ps@))),
        TreeValue::Record(fs) => TreeV::Record(pair_views(fs@)),
        TreeValue::Other => TreeV::Other,
    }
}

pub open spec fn elem_views(xs: Seq<TreeValue>) -> Seq<TreeV>
    decreases xs, 0int,
{
    if xs.len() == 0 {
        Seq::empty()
    } else {
        seq![tree_view(xs[0])] + elem_views(xs.drop_first())
    }
}

pub open spec fn pair_views(ps: Seq<(String, TreeValue)>) -> Seq<(Seq<char>, TreeV)>
    decreases ps, 0int,
{
    if ps.len() == 0 {
        Seq::empty()
    } else {
        seq![(ps[0].0@, tree_view(ps[0].1))] + pair_views(ps.drop_first())
    }
}

impl View for TreeValue {
    type V = TreeV;

    open spec fn view(&self) -> TreeV {
        tree_view(*self)
    }
}

pub broadcast proof fn lemma_elem_views(xs: Seq<TreeValue>)
    ensures
        (#[trigger] elem_views(xs)).len() == xs.len(),
        forall|i: int| 0 <= i < xs.len() ==> elem_views(xs)[i] == tree_view(xs[i]),
    decreases xs.len(),
{
    if xs.len() > 0 {
        lemma_elem_views(xs.drop_first());
    }
}

pub broadcast proof fn lemma_pair_views(ps: Seq<(String, TreeValue)>)
    ensures
        (#[trigger] pair_views(ps)).len() == ps.len(),
        forall|i: int|
            0 <= i < ps.len() ==> pair_views(ps)[i] == (ps[i].0@, tree_view(ps[i].1)),
    decreases ps.len(),
{
    if ps.len() > 0 {
        lemma_pair_views(ps.drop_first());
    }
}

/// The structure of one of this protocol's schemas, as far as the codec's
/// validation is concerned: the field layout of records, the symbol table of
/// enums, the element structure of arrays.  Maps in this protocol always
/// carry string values, so `SMap` needs no element structure.
#[verifier::ext_equal]
pub enum Shape {
    SBool,
    SInt,
    SLong,
    SBytes,
    SStr,
    SEnum(Seq<Seq<char>>),
    SArr(Box<Shape>),
    SMap,
    SRec(Seq<(Seq<char>, Shape)>),
}

/// Whether the codec's validation accepts value `v` against a schema of
/// structure `s`: this is what decides that encoding succeeds.  A bare string
/// is accepted at an enum position when it is one of the symbols.
pub open spec fn fits(v: TreeV, s: Shape) -> bool
    decreases v,
{
    match v {
        TreeV::Boolean(_) => s is SBool,
        TreeV::Int(_) => s is SInt,
        TreeV::Long(_) => s is SLong,
        TreeV::Bytes(_) => s is SBytes,
        TreeV::Str(t) => s is SStr || (s matches Shape::SEnum(syms) && syms.contains(t)),
        TreeV::Enum(i, t) => s matches Shape::SEnum(syms) && 0 <= i < syms.len() && syms[i]
            == t,
        TreeV::Array(xs) => s matches Shape::SArr(inner) && forall|j: int|
            0 <= j < xs.len() ==> fits(#[trigger] xs[j], *inner),
        TreeV::Dict(m) => s is SMap && forall|k: Seq<char>|
            m.dom().contains(k) ==> #[trigger] m[k] is Str,
        TreeV::Record(fs) => s matches Shape::SRec(fsh) && fs.len() == fsh.len() && forall|
            j: int,
        |
            0 <= j < fs.len() ==> (#[trigger] fs[j]).0 == fsh[j].0 && fits(fs[j].1, fsh[j].1),
        TreeV::Other => false,
    }
}

/// Like `fits`, but restricted to the values that come back unchanged from an
/// encode-decode round trip: an enum position must hold an `Enum` value (a
/// bare string would come back as the `Enum` it encodes to).
pub open spec fn rt_exact(v: TreeV, s: Shape) -> bool
    decreases v,
{
    match v {
        TreeV::Boolean(_) => s is SBool,
        TreeV::Int(_) => s is SInt,
        TreeV::Long(_) => s is SLong,
        TreeV::Bytes(_) => s is SBytes,
        TreeV::Str(_) => s is SStr,
        TreeV::Enum(i, t) => s matches Shape::SEnum(syms) && 0 <= i < syms.len() && syms[i]
            == t,
        TreeV::Array(xs) => s matches Shape::SArr(inner) && forall|j: int|
            0 <= j < xs.len() ==> rt_exact(#[trigger] xs[j], *inner),
        TreeV::Dict(m) => s is SMap && forall|k: Seq<char>|
            m.dom().contains(k) ==> #[trigger] m[k] is Str,
        TreeV::Record(fs) => s matches Shape::SRec(fsh) && fs.len() == fsh.len() && forall|
            j: int,
        |
            0 <= j < fs.len() ==> (#[trigger] fs[j]).0 == fsh[j].0 && rt_exact(
                fs[j].1,
                fsh[j].1,
            ),
        TreeV::Other => false,
    }
}

/// Whether every map inside `v` has at most one entry.  The codec walks maps
/// in no fixed order when it writes them, so only values that satisfy this
/// have one well-defined encoding.
pub open spec fn maps_le1(v: TreeV) -> bool
    decreases v,
{
    match v {
        TreeV::Array(xs) => forall|j: int| 0 <= j < xs.len() ==> maps_le1(#[trigger] xs[j]),
        TreeV::Dict(m) => m.dom().finite() && m.dom().len() <= 1,
        TreeV::Record(fs) => forall|j: int|
            0 <= j < fs.len() ==> maps_le1((#[trigger] fs[j]).1),
        _ => true,
    }
}

pub proof fn lemma_rt_exact_fits(v: TreeV, s: Shape)
    requires
        rt_exact(v, s),
    ensures
        fits(v, s),
    decreases v,
{
    match v {
        TreeV::Array(xs) => {
            let inner = s->SArr_0;
            assert forall|j: int| 0 <= j < xs.len() implies fits(#[trigger] xs[j], *inner) by {
                lemma_rt_exact_fits(xs[j], *inner);
            }
        }
        TreeV::Record(fs) => {
            let fsh = s->SRec_0;
            assert forall|j: int|
                0 <= j < fs.len() implies (#[trigger] fs[j]).0 == fsh[j].0 && fits(
                fs[j].1,
                fsh[j].1,
            ) by {
                lemma_rt_exact_fits(fs[j].1, fsh[j].1);
            }
        }
        _ => {}
    }
}



/// The enum-erased form of a value: each enum becomes its bare index, as
/// the wire carries it.  Maps are untouched: they hold strings in this
/// protocol.
pub open spec fn erase_enums(v: TreeV) -> TreeV
    decreases v, 1int,
{
    match v {
        TreeV::Enum(i, _) => TreeV::Int(i),
        TreeV::Array(xs) => TreeV::Array(erase_elems(xs)),
        TreeV::Record(fs) => TreeV::Record(erase_pairs(fs)),
        _ => v,
    }
}

pub open spec fn erase_elems(xs: Seq<TreeV>) -> Seq<TreeV>
    decreases xs, 0int,
{
    if xs.len() == 0 {
        Seq::empty()
    } else {
        seq![erase_enums(xs[0])] + erase_elems(xs.drop_first())
    }
}

pub open spec fn erase_pairs(fs: Seq<(Seq<char>, TreeV)>) -> Seq<(Seq<char>, TreeV)>
    decreases fs, 0int,
{
    if fs.len() == 0 {
        Seq::empty()
    } else {
        seq![(fs[0].0, erase_enums(fs[0].1))] + erase_pairs(fs.drop_first())
    }
}

pub broadcast proof fn lemma_erase_pairs(fs: Seq<(Seq<char>, TreeV)>)
    ensures
        (#[trigger] erase_pairs(fs)).len() == fs.len(),
        forall|i: int|
            0 <= i < fs.len() ==> erase_pairs(fs)[i] == (fs[i].0, erase_enums(fs[i].1)),
    decreases fs.len(),
{
    if fs.len() > 0 {
        lemma_erase_pairs(fs.drop_first());
    }
}

/// Whether an enum-erased decoded value has the structure of a schema: like
/// `rt_exact`, but an enum position holds a bare index int, of whatever
/// value the wire carried.
pub open spec fn raw_fits(v: TreeV, s: Shape) -> bool
    decreases v,
{
    match v {
        TreeV::Boolean(_) => s is SBool,
        TreeV::Int(_) => s is SInt || s is SEnum,
        TreeV::Long(_) => s is SLong,
        TreeV::Bytes(_) => s is SBytes,
        TreeV::Str(_) => s is SStr,
        TreeV::Enum(_, _) => false,
        TreeV::Array(xs) => s matches Shape::SArr(inner) && forall|j: int|
            0 <= j < xs.len() ==> raw_fits(#[trigger] xs[j], *inner),
        TreeV::Dict(m) => s is SMap && forall|k: Seq<char>|
            m.dom().contains(k) ==> #[trigger] m[k] is Str,
        TreeV::Record(fs) => s matches Shape::SRec(fsh) && fs.len() == fsh.len() && forall|
            j: int,
        |
            0 <= j < fs.len() ==> (#[trigger] fs[j]).0 == fsh[j].0 && raw_fits(
                fs[j].1,
                fsh[j].1,
            ),
        TreeV::Other => false,
    }
}

/// Refine an enum-erased value against its schema's structure: turn each
/// in-range index at an enum position back into the indexed symbol, and
/// reject an out-of-range index, any shape mismatch, and any non-string map
/// entry.
pub open spec fn refine_tree(v: TreeV, s: Shape) -> Option<TreeV>
    decreases v, 1int,
{
    match v {
        TreeV::Boolean(_) => if s is SBool {
            Some(v)
        } else {
            None
        },
        TreeV::Int(i) => match s {
            Shape::SInt => Some(v),
            Shape::SEnum(syms) => if 0 <= i < syms.len() {
                Some(TreeV::Enum(i, syms[i]))
            } else {
                None
            },
            _ => None,
        },
        TreeV::Long(_) => if s is SLong {
            Some(v)
        } else {
            None
        },
        TreeV::Bytes(_) => if s is SBytes {
            Some(v)
        } else {
            None
        },
        TreeV::Str(_) => if s is SStr {
            Some(v)
        } else {
            None
        },
        TreeV::Enum(i, t) => if s matches Shape::SEnum(syms) && 0 <= i < syms.len() && syms[i]
            == t {
            Some(v)
        } else {
            None
        },
        TreeV::Array(xs) => match s {
            Shape::SArr(inner) => match refine_elems(xs, *inner) {
                Some(ys) => Some(TreeV::Array(ys)),
                None => None,
            },
            _ => None,
        },
        TreeV::Dict(m) => {
            if s is SMap && (forall|k: Seq<char>| m.dom().contains(k) ==> #[trigger] m[k] is Str) {
                Some(v)
            } else {
                None
            }
        },
        TreeV::Record(fs) => match s {
            Shape::SRec(fsh) => match refine_pairs(fs, fsh) {
                Some(gs) => Some(TreeV::Record(gs)),
                None => None,
            },
            _ => None,
        },
        TreeV::Other => None,
    }
}

pub open spec fn refine_elems(xs: Seq<TreeV>, inner: Shape) -> Option<Seq<TreeV>>
    decreases xs, 0int,
{
    if xs.len() == 0 {
        Some(Seq::empty())
    } else {
        match (refine_tree(xs[0], inner), refine_elems(xs.drop_first(), inner)) {
            (Some(y), Some(ys)) => Some(seq![y] + ys),
            _ => None,
        }
    }
}

pub open spec fn refine_pairs(fs: Seq<(Seq<char>, TreeV)>, fsh: Seq<(Seq<char>, Shape)>) -> Option<
    Seq<(Seq<char>, TreeV)>,
>
    decreases fs, 0int,
{
    if fs.len() != fsh.len() {
        None
    } else if fs.len() == 0 {
        Some(Seq::empty())
    } else if fs[0].0 != fsh[0].0 {
        None
    } else {
        match (refine_tree(fs[0].1, fsh[0].1), refine_pairs(fs.drop_first(), fsh.drop_first())) {
            (Some(y), Some(gs)) => Some(seq![(fs[0].0, y)] + gs),
            _ => None,
        }
    }
}

/// Refinement inverts erasure: a value in round-trip-exact form comes back
/// unchanged from erasing its enums and refining against the same shape.
pub proof fn lemma_refine_erase(v: TreeV, s: Shape)
    requires
        rt_exact(v, s),
    ensures
        refine_tree(erase_enums(v), s) == Some(v),
    decreases v, 2int,
{
    match v {
        TreeV::Array(xs) => {
            let inner = s->SArr_0;
            lemma_refine_erase_elems(xs, *inner);
        },
        TreeV::Record(fs) => {
            let fsh = s->SRec_0;
            lemma_refine_erase_pairs(fs, fsh);
        },
        _ => {},
    }
}

proof fn lemma_refine_erase_elems(xs: Seq<TreeV>, inner: Shape)
    requires
        forall|j: int| 0 <= j < xs.len() ==> rt_exact(#[trigger] xs[j], inner),
    ensures
        refine_elems(erase_elems(xs), inner) is Some,
        refine_elems(erase_elems(xs), inner)->Some_0 =~= xs,
    decreases xs, 1int,
{
    if xs.len() > 0 {
        lemma_refine_erase(xs[0], inner);
        lemma_refine_erase_elems(xs.drop_first(), inner);
        assert(erase_elems(xs).drop_first() =~= erase_elems(xs.drop_first()));
    }
}

proof fn lemma_refine_erase_pairs(fs: Seq<(Seq<char>, TreeV)>, fsh: Seq<(Seq<char>, Shape)>)
    requires
        fs.len() == fsh.len(),
        forall|j: int|
            0 <= j < fs.len() ==> (#[trigger] fs[j]).0 == fsh[j].0 && rt_exact(
                fs[j].1,
                fsh[j].1,
            ),
    ensures
        refine_pairs(erase_pairs(fs), fsh) is Some,
        refine_pairs(erase_pairs(fs), fsh)->Some_0 =~= fs,
    decreases fs, 1int,
{
    if fs.len() > 0 {
        lemma_refine_erase(fs[0].1, fsh[0].1);
        lemma_refine_erase_pairs(fs.drop_first(), fsh.drop_first());
        assert(erase_pairs(fs).drop_first() =~= erase_pairs(fs.drop_first()));
        assert(erase_pairs(fs)[0] == (fs[0].0, erase_enums(fs[0].1)));
    }
}


pub broadcast proof fn lemma_refine_elems_pointwise(xs: Seq<TreeV>, inner: Shape)
    ensures
        (#[trigger] refine_elems(xs, inner)) is Some <==> (forall|i: int|
            0 <= i < xs.len() ==> refine_tree(xs[i], inner) is Some),
        refine_elems(xs, inner) matches Some(ys) ==> ys.len() == xs.len() && (forall|i: int|
            0 <= i < xs.len() ==> ys[i] == refine_tree(xs[i], inner)->Some_0),
    decreases xs.len(),
{
    if xs.len() > 0 {
        lemma_refine_elems_pointwise(xs.drop_first(), inner);
        assert forall|i: int|
            0 <= i < xs.len() && (refine_elems(xs, inner) is Some) implies refine_tree(
            xs[i],
            inner,
        ) is Some by {
            if i > 0 {
                assert(xs.drop_first()[i - 1] == xs[i]);
            }
        }
        if forall|i: int| 0 <= i < xs.len() ==> refine_tree(xs[i], inner) is Some {
            assert(forall|i: int|
                0 <= i < xs.drop_first().len() ==> refine_tree(
                    #[trigger] xs.drop_first()[i],
                    inner,
                ) is Some);
            assert(refine_elems(xs, inner) is Some);
        }
        if refine_elems(xs, inner) is Some {
            let ys = refine_elems(xs, inner)->Some_0;
            assert forall|i: int|
                0 <= i < xs.len() implies ys[i] == refine_tree(xs[i], inner)->Some_0 by {
                if i > 0 {
                    assert(xs.drop_first()[i - 1] == xs[i]);
                    assert(ys[i] == refine_elems(xs.drop_first(), inner)->Some_0[i - 1]);
                }
            }
        }
    }
}

pub broadcast proof fn lemma_refine_pairs_pointwise(
    fs: Seq<(Seq<char>, TreeV)>,
    fsh: Seq<(Seq<char>, Shape)>,
)
    ensures
        (#[trigger] refine_pairs(fs, fsh)) is Some <==> (fs.len() == fsh.len() && (forall|i: int|
            0 <= i < fs.len() ==> (fs[i]).0 == fsh[i].0 && refine_tree(
                fs[i].1,
                fsh[i].1,
            ) is Some)),
        refine_pairs(fs, fsh) matches Some(gs) ==> gs.len() == fs.len() && (forall|i: int|
            0 <= i < fs.len() ==> gs[i] == ((fs[i]).0, refine_tree(fs[i].1, fsh[i].1)->Some_0)),
    decreases fs.len(),
{
    if fs.len() > 0 && fs.len() == fsh.len() {
        lemma_refine_pairs_pointwise(fs.drop_first(), fsh.drop_first());
        assert forall|i: int|
            0 <= i < fs.len() && (refine_pairs(fs, fsh) is Some) implies (fs[i]).0 == fsh[i].0
            && refine_tree(fs[i].1, fsh[i].1) is Some by {
            if i > 0 {
                assert(fs.drop_first()[i - 1] == fs[i]);
                assert(fsh.drop_first()[i - 1] == fsh[i]);
            }
        }
        if forall|i: int|
            0 <= i < fs.len() ==> (fs[i]).0 == fsh[i].0 && refine_tree(fs[i].1, fsh[i].1) is Some {
            assert(forall|i: int|
                0 <= i < fs.drop_first().len() ==> (#[trigger] fs.drop_first()[i]).0
                    == fsh.drop_first()[i].0 && refine_tree(
                    fs.drop_first()[i].1,
                    fsh.drop_first()[i].1,
                ) is Some);
            assert(refine_pairs(fs, fsh) is Some);
        }
        if refine_pairs(fs, fsh) is Some {
            let gs = refine_pairs(fs, fsh)->Some_0;
            assert forall|i: int|
                0 <= i < fs.len() implies gs[i] == ((fs[i]).0, refine_tree(
                fs[i].1,
                fsh[i].1,
            )->Some_0) by {
                if i > 0 {
                    assert(fs.drop_first()[i - 1] == fs[i]);
                    assert(fsh.drop_first()[i - 1] == fsh[i]);
                    assert(gs[i] == refine_pairs(fs.drop_first(), fsh.drop_first())->Some_0[i - 1]);
                }
            }
        }
    }
}

} // verus!
