use vstd::prelude::*;
use crate::primitives::AttrMap;
use crate::tree::{TreeValue, TreeV};

verus! {

/// Copy `from` into the front of `buf`, byte for byte, up to the buffer's
/// length; bytes past the end of `from` keep their old value.  This is the
/// silent-truncation primitive behind the fixed-width identities.
pub fn fill_byte_array(buf: &mut [u8; 16], from: &Vec<u8>)
    ensures
        final(buf)@ == Seq::new(
            16,
            |i: int| if i < from@.len() { from@[i] } else { old(buf)@[i] },
        ),
{
    let n = if from.len() < 16 {
        from.len()
    } else {
        16
    };
    let mut i: usize = 0;
    while i < n
        invariant
            0 <= i <= n,
            n <= 16,
            n <= from@.len(),
            n == if from@.len() < 16 { from@.len() as int } else { 16int },
            buf@.len() == 16,
            forall|j: int| 0 <= j < i ==> buf@[j] == from@[j],
            forall|j: int| i <= j < 16 ==> buf@[j] == old(buf)@[j],
        decreases n - i,
    {
        buf[i] = from[i];
        i += 1;
    }
    proof {
        assert(buf@ =~= Seq::new(
            16,
            |i: int| if i < from@.len() { from@[i] } else { old(buf)@[i] },
        ));
    }
}

/// The string inside a generic string value, if that is what it is.
pub fn value_to_string(v: &TreeValue) -> (r: Option<String>)
    ensures
        r is Some <==> v@ is Str,
        r matches Some(s) ==> v@ == TreeV::Str(s@),
{
    match v {
        TreeValue::Str(s) => Some(s.clone()),
        _ => None,
    }
}

/// Build the generic map value that carries a set of string attributes.
pub fn gen_hash_map(s: &AttrMap) -> (r: TreeValue)
    ensures
        r@ == TreeV::Dict(s@.map_values(|v: Seq<char>| TreeV::Str(v))),
{
    s.to_tree()
}

} // verus!
