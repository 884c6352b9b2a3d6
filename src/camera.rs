use vstd::prelude::*;

verus! {

/// Offset, in half pixels, of the centre of pixel `index` from the centre of
/// an image `size` pixels across: twice `index - size / 2 - 1 / 2`.
pub fn half_pixel_offset(index: u32, size: u32) -> (r: i64)
    ensures
        r == 2 * index - size - 1,
{
    2 * (index as i64) - (size as i64) - 1
}

} // verus!
