use vstd::prelude::*;

verus! {

/// The place of pixel (column `x`, row `y`) as one 64-bit number: the row in
/// the high half, the column in the low half.
pub open spec fn pixel_key(x: u32, y: u32) -> int {
    y * 0x1_0000_0000 + x
}

/// The seed of the random generator that draws the samples of pixel
/// (column `x`, row `y`) in a render seeded by `seed`: the render's seed with
/// the bits of the pixel's key flipped. Each pixel owns its own generator, so
/// a render is reproduced by its seed whatever order the pixels are shaded in.
pub fn pixel_seed(seed: u64, x: u32, y: u32) -> (r: u64)
    ensures
        r == seed ^ (pixel_key(x, y) as u64),
{
    let key = ((y as u64) << 32u64) | (x as u64);
    proof {
        let (yy, xx) = (y as u64, x as u64);
        assert(xx < 0x1_0000_0000 && yy < 0x1_0000_0000 ==> (yy << 32u64) | xx == yy
            * 0x1_0000_0000 + xx) by (bit_vector);
    }
    seed ^ key
}

/// Within one render, distinct pixels draw from generators of distinct seeds.
pub proof fn lemma_pixel_seeds_distinct(seed: u64, x1: u32, y1: u32, x2: u32, y2: u32)
    requires
        x1 != x2 || y1 != y2,
    ensures
        seed ^ (pixel_key(x1, y1) as u64) != seed ^ (pixel_key(x2, y2) as u64),
{
    let a = pixel_key(x1, y1) as u64;
    let b = pixel_key(x2, y2) as u64;
    assert(pixel_key(x1, y1) != pixel_key(x2, y2)) by (nonlinear_arith)
        requires
            x1 != x2 || y1 != y2,
            x1 < 0x1_0000_0000,
            x2 < 0x1_0000_0000,
    ;
    assert(seed ^ a == seed ^ b ==> a == b) by (bit_vector);
}

} // verus!
