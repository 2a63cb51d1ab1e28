//! The producer tag: eight bytes that name this producer in every record it raises.
use vstd::prelude::*;

verus! {

/// Length of a producer tag, in bytes.
pub const TAG_LEN: usize = 8;

/// The tag of this producer: the bytes of `"MOZ\0RUST"`.
pub open spec fn producer_tag() -> Seq<u8> {
    seq![77u8, 79u8, 90u8, 0u8, 82u8, 85u8, 83u8, 84u8]
}

/// The tag that this producer writes into every record it raises.
pub fn own_tag() -> (r: [u8; 8])
    ensures
        r@ == producer_tag(),
{
    let mut t: [u8; 8] = [0u8; 8];
    t[0] = 77;
    t[1] = 79;
    t[2] = 90;
    t[4] = 82;
    t[5] = 85;
    t[6] = 83;
    t[7] = 84;
    assert(t@ =~= producer_tag());
    t
}

/// Compares two tags byte for byte.
pub fn tags_equal(a: &[u8; 8], b: &[u8; 8]) -> (r: bool)
    ensures
        r == (a@ == b@),
{
    let mut i: usize = 0;
    while i < TAG_LEN
        invariant
            i <= TAG_LEN,
            a@.len() == TAG_LEN,
            b@.len() == TAG_LEN,
            forall|j: int| 0 <= j < i ==> a@[j] == b@[j],
        decreases TAG_LEN - i,
    {
        if a[i] != b[i] {
            assert(a@[i as int] != b@[i as int]);
            return false;
        }
        i = i + 1;
    }
    assert(a@ =~= b@);
    true
}

} // verus!
