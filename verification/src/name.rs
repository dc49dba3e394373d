//! The vault's name as it is stored: filled up with spaces to twenty bytes.

use vstd::prelude::*;
use crate::strip::{
    is_whitespace, lemma_bounds_are_unique, strip_end, strip_start, stripped,
};

verus! {

/// `name` followed by as many spaces as bring it to twenty bytes.
pub open spec fn pad_name(name: Seq<u8>) -> Seq<u8>
    recommends
        name.len() <= 20,
{
    Seq::new(
        20,
        |i: int|
            if i < name.len() {
                name[i]
            } else {
                0x20u8
            },
    )
}

/// The name as the vault's record holds it.
pub fn padded_name(name: &[u8]) -> (r: [u8; 20])
    requires
        name@.len() <= 20,
    ensures
        r@ == pad_name(name@),
{
    let mut data: [u8; 20] = [0x20u8; 20];
    let n: usize = name.len();
    let mut i: usize = 0;
    while i < n
        invariant
            i <= n,
            n == name@.len(),
            n <= 20,
            forall|k: int| 0 <= k < i ==> data@[k] == name@[k],
            forall|k: int| i <= k < 20 ==> data@[k] == 0x20u8,
        decreases n - i,
    {
        data[i] = name[i];
        i = i + 1;
    }
    proof {
        assert(data@ =~= pad_name(name@));
    }
    data
}

/// A name that neither begins nor ends with whitespace is what trimming
/// gives back from the stored name: the accounts derived from the name when
/// the vault is made are those derived from its record later.
pub proof fn lemma_strip_of_padded_name(name: Seq<u8>)
    requires
        name.len() <= 20,
        name.len() > 0 ==> !is_whitespace(name[0]) && !is_whitespace(name[name.len() - 1]),
    ensures
        stripped(pad_name(name)) == name,
        strip_start(pad_name(name)) == 0,
        strip_end(pad_name(name)) == name.len(),
{
    let s = pad_name(name);
    assert(is_whitespace(0x20u8));
    lemma_bounds_are_unique(s, 0, name.len() as int);
    assert(s.subrange(0, name.len() as int) =~= name);
}

} // verus!
