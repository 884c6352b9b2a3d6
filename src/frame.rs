use vstd::prelude::*;

verus! {

/// An RGB image of 8-bit channels, as the `image` crate holds it. Its pixels
/// are known to proofs through `pixels_of` alone.
#[verifier::external_body]
pub struct Frame {
    pub image: image::RgbImage,
}

/// An 8-bit colour: red, green, blue.
pub type Color = (u8, u8, u8);

/// The colour of each pixel of an RGB image, keyed by (column, row).
pub uninterp spec fn pixels_of(img: Frame) -> Map<(int, int), Color>;

/// The pixel coordinates of a `width` x `height` image.
pub open spec fn grid(width: nat, height: nat) -> Set<(int, int)> {
    Set::new(|p: (int, int)| 0 <= p.0 < width && 0 <= p.1 < height)
}

/// Whether a `width` x `height` RGB image fits in memory as one byte vector:
/// three bytes per pixel of a row, then of every row, each within `usize`.
pub open spec fn frame_fits(width: u32, height: u32) -> bool {
    &&& 3 * (width as int) <= usize::MAX
    &&& 3 * (width as int) * (height as int) <= usize::MAX
}

/// Relies on `image::ImageBuffer::new`: a `width` x `height` buffer whose
/// pixels are all zero. It panics when three bytes per pixel of a row, or of
/// the whole image, overflow `usize`.
#[verifier::external_body]
fn blank_image(width: u32, height: u32) -> (img: Frame)
    requires
        frame_fits(width, height),
    ensures
        pixels_of(img) == Map::new(
            |p: (int, int)| grid(width as nat, height as nat).contains(p),
            |p: (int, int)| (0u8, 0u8, 0u8),
        ),
{
    Frame { image: image::RgbImage::new(width, height) }
}

/// Relies on `image::ImageBuffer::put_pixel`: it overwrites the pixel at
/// `(x, y)` and no other; it panics when `(x, y)` lies outside the image.
#[verifier::external_body]
fn put_color(img: &mut Frame, x: u32, y: u32, c: Color)
    requires
        pixels_of(*old(img)).dom().contains((x as int, y as int)),
    ensures
        pixels_of(*final(img)) == pixels_of(*old(img)).insert((x as int, y as int), c),
{
    img.image.put_pixel(x, y, image::Rgb([c.0, c.1, c.2]))
}

/// Builds a `width` x `height` image whose pixel at column `x`, row `y` is the
/// colour `shade(x, y)`. Every pixel is shaded once, row after row, each row
/// from left to right.
pub fn render_frame<F: Fn(u32, u32) -> Color>(width: u32, height: u32, shade: F) -> (img: Frame)
    requires
        frame_fits(width, height),
        forall|x: u32, y: u32| x < width && y < height ==> shade.requires((x, y)),
    ensures
        rendered_by(img, width, height, shade),
{
    let mut img = blank_image(width, height);
    let mut y: u32 = 0;
    while y < height
        invariant
            y <= height,
            forall|x: u32, y: u32| x < width && y < height ==> shade.requires((x, y)),
            pixels_of(img).dom() == grid(width as nat, height as nat),
            forall|px: u32, py: u32|
                px < width && py < y ==> shade.ensures((px, py), #[trigger] pixels_of(img)[(
                    px as int,
                    py as int,
                )]),
        decreases height - y,
    {
        let mut x: u32 = 0;
        while x < width
            invariant
                y < height,
                x <= width,
                forall|x: u32, y: u32| x < width && y < height ==> shade.requires((x, y)),
                pixels_of(img).dom() == grid(width as nat, height as nat),
                forall|px: u32, py: u32|
                    px < width && (py < y || (py == y && px < x)) ==> shade.ensures(
                        (px, py),
                        #[trigger] pixels_of(img)[(px as int, py as int)],
                    ),
            decreases width - x,
        {
            let c = shade(x, y);
            put_color(&mut img, x, y, c);
            proof {
                assert(pixels_of(img).dom() =~= grid(width as nat, height as nat));
            }
            x = x + 1;
        }
        y = y + 1;
    }
    img
}

/// `img` is a `width` x `height` image whose pixel at `(x, y)` is a colour
/// that `shade(x, y)` may return, as `render_frame` promises.
pub open spec fn rendered_by<F: Fn(u32, u32) -> Color>(img: Frame, width: u32, height: u32, shade: F) -> bool {
    &&& pixels_of(img).dom() == grid(width as nat, height as nat)
    &&& forall|x: u32, y: u32|
        x < width && y < height ==> shade.ensures((x, y), #[trigger] pixels_of(img)[(x as int, y as int)])
}

/// Rendering is reproducible: two frames rendered by one shader that gives
/// each pixel a single possible colour hold the same pixels.
pub proof fn lemma_frame_reproducible<F: Fn(u32, u32) -> Color>(
    a: Frame,
    b: Frame,
    width: u32,
    height: u32,
    shade: F,
)
    requires
        rendered_by(a, width, height, shade),
        rendered_by(b, width, height, shade),
        forall|x: u32, y: u32, c: Color, d: Color|
            shade.ensures((x, y), c) && shade.ensures((x, y), d) ==> c == d,
    ensures
        pixels_of(a) == pixels_of(b),
{
    assert forall|p: (int, int)| #[trigger] pixels_of(a).contains_key(p) implies pixels_of(a)[p]
        == pixels_of(b)[p] by {
        let x = p.0 as u32;
        let y = p.1 as u32;
        assert(pixels_of(a)[(x as int, y as int)] == pixels_of(a)[p]);
    }
    assert(pixels_of(a) =~= pixels_of(b));
}

} // verus!
