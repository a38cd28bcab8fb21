use vstd::prelude::*;

verus! {

/// Descriptor status flags with the bits of `extra` added.
///
/// Every bit already set stays set and every bit of `extra` becomes set; no bit
/// outside those two is touched.
pub fn add_flags(current: i32, extra: i32) -> (r: i32)
    ensures
        r == current | extra,
        r & current == current,
        r & extra == extra,
        r & !(current | extra) == 0,
{
    let r = current | extra;
    proof {
        assert(r == current | extra ==> r & current == current) by (bit_vector);
        assert(r == current | extra ==> r & extra == extra) by (bit_vector);
        assert(r == current | extra ==> r & !(current | extra) == 0) by (bit_vector);
    }
    r
}

} // verus!
