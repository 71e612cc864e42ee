//! RGBA8 pixel buffers, and their exchange with the `image` crate's
//! `DynamicImage`.
use image::DynamicImage;
use image::GenericImageView;
use vstd::prelude::*;

verus! {

#[verifier::external_type_specification]
#[verifier::external_body]
pub struct ExDynamicImage(DynamicImage);

/// The whole buffer of the RGBA8 conversion of `img` (what
/// `DynamicImage::to_rgba8` holds): its pixels row by row, four bytes per
/// pixel. An RGBA8 image is cloned as it is, so its buffer may run on past
/// the pixel grid; only the first four bytes per pixel are the image.
pub uninterp spec fn rgba_bytes_of(img: DynamicImage) -> Seq<u8>;

/// The width and height of `img`, in pixels.
pub uninterp spec fn size_of_image(img: DynamicImage) -> (u32, u32);

/// Whether `img` holds an RGBA8 buffer (the `DynamicImage::ImageRgba8` variant).
pub uninterp spec fn holds_rgba8(img: DynamicImage) -> bool;

/// The number of bytes of an RGBA8 image of `width` by `height` pixels.
pub open spec fn rgba_len(width: nat, height: nat) -> nat {
    4 * width * height
}

/// Calls `GenericImageView::dimensions` on `img`: its width and height.
#[verifier::external_body]
fn image_dimensions(img: &DynamicImage) -> (d: (u32, u32))
    ensures
        d == size_of_image(*img),
{
    img.dimensions()
}

/// Calls `DynamicImage::to_rgba8` on `img` and takes the buffer's bytes.
/// As the crate's source shows, the converted buffer has the image's width
/// and height and at least four bytes per pixel: a conversion from another
/// colour type makes exactly that many, and an RGBA8 image is cloned whole,
/// its buffer being at least that long. The count is computed in `usize`,
/// and the conversion panics where it overflows, hence the bound.
#[verifier::external_body]
fn image_rgba_bytes(img: &DynamicImage) -> (v: Vec<u8>)
    requires
        rgba_len(size_of_image(*img).0 as nat, size_of_image(*img).1 as nat) <= usize::MAX,
    ensures
        v@ == rgba_bytes_of(*img),
        v@.len() >= rgba_len(size_of_image(*img).0 as nat, size_of_image(*img).1 as nat),
{
    img.to_rgba8().into_vec()
}

/// Calls `ImageBuffer::from_raw` with `pixels` (which is long enough, so the
/// call gives `Some`) and wraps the buffer as `DynamicImage::ImageRgba8`.
/// As the crate's source shows, the image holds that RGBA8 buffer, has the
/// given size, and `to_rgba8` gives a copy of its bytes.
#[verifier::external_body]
fn rgba_image_from_bytes(width: u32, height: u32, pixels: Vec<u8>) -> (img: DynamicImage)
    requires
        pixels@.len() == rgba_len(width as nat, height as nat),
    ensures
        holds_rgba8(img),
        size_of_image(img) == (width, height),
        rgba_bytes_of(img) == pixels@,
{
    DynamicImage::ImageRgba8(image::RgbaImage::from_raw(width, height, pixels).unwrap())
}

/// The byte count of an RGBA8 image of `width` by `height` pixels, counted
/// without overflow.
fn rgba_len_wide(width: u32, height: u32) -> (n: u128)
    ensures
        n == rgba_len(width as nat, height as nat),
{
    let w: u128 = width as u128;
    let h: u128 = height as u128;
    assert(w * h <= 0x1_0000_0000_0000_0000u128) by (nonlinear_arith)
        requires
            w <= 0xffff_ffffu128,
            h <= 0xffff_ffffu128,
    ;
    let wh: u128 = w * h;
    assert(4 * wh == rgba_len(width as nat, height as nat)) by (nonlinear_arith)
        requires
            wh == w * h,
            w == width,
            h == height,
    ;
    4 * wh
}

/// Whether the bytes of an RGBA8 image of `width` by `height` pixels can be
/// counted in a `usize`.
pub fn rgba_len_fits(width: u32, height: u32) -> (b: bool)
    ensures
        b == (rgba_len(width as nat, height as nat) <= usize::MAX),
{
    rgba_len_wide(width, height) <= usize::MAX as u128
}

/// The byte count of an RGBA8 image of `width` by `height` pixels.
fn rgba_len_exec(width: u32, height: u32) -> (n: usize)
    requires
        rgba_len(width as nat, height as nat) <= usize::MAX,
    ensures
        n == rgba_len(width as nat, height as nat),
{
    rgba_len_wide(width, height) as usize
}

/// An image of `width` by `height` pixels, stored as RGBA with eight bits per
/// channel, row by row.
pub struct Rgba8Image {
    width: u32,
    height: u32,
    pixels: Vec<u8>,
}

impl Rgba8Image {
    /// The width, height and pixel bytes.
    pub closed spec fn view(self) -> (u32, u32, Seq<u8>) {
        (self.width, self.height, self.pixels@)
    }

    /// The bytes cover the pixel grid exactly, four per pixel.
    #[verifier::type_invariant]
    pub open spec fn pixels_fill_the_grid(self) -> bool {
        self@.2.len() == rgba_len(self@.0 as nat, self@.1 as nat)
    }

    /// The image of `width` by `height` pixels whose bytes are `pixels`, or
    /// `None` where `pixels` is not exactly four bytes per pixel.
    pub fn from_raw(width: u32, height: u32, pixels: Vec<u8>) -> (r: Option<Rgba8Image>)
        ensures
            r is Some <==> pixels@.len() == rgba_len(width as nat, height as nat),
            r matches Some(img) ==> img@.0 == width && img@.1 == height
                && img@.2 == pixels@,
    {
        let len = pixels.len();
        if !rgba_len_fits(width, height) {
            return None;
        }
        if len == rgba_len_exec(width, height) {
            Some(Rgba8Image { width, height, pixels })
        } else {
            None
        }
    }

    /// A fully transparent black image of `width` by `height` pixels (all
    /// bytes zero), as `ImageBuffer::new` makes; `None` where its byte count
    /// does not fit in a `usize`.
    pub fn blank(width: u32, height: u32) -> (r: Option<Rgba8Image>)
        ensures
            r is Some <==> rgba_len(width as nat, height as nat) <= usize::MAX,
            r matches Some(img) ==> img@.0 == width && img@.1 == height
                && img@.2 == Seq::new(rgba_len(width as nat, height as nat), |i: int| 0u8),
    {
        if !rgba_len_fits(width, height) {
            return None;
        }
        let n = rgba_len_exec(width, height);
        let mut pixels: Vec<u8> = Vec::new();
        while pixels.len() < n
            invariant
                pixels.len() <= n,
                forall|i: int| 0 <= i < pixels.len() ==> pixels@[i] == 0u8,
            decreases n - pixels.len(),
        {
            pixels.push(0u8);
        }
        assert(pixels@ =~= Seq::new(rgba_len(width as nat, height as nat), |i: int| 0u8));
        Some(Rgba8Image { width, height, pixels })
    }

    /// The RGBA8 conversion of `img`, as `DynamicImage::to_rgba8` gives it,
    /// cut to its pixel grid; `None` where the grid's byte count does not fit
    /// in a `usize`.
    pub fn from_dynamic(img: &DynamicImage) -> (r: Option<Rgba8Image>)
        ensures
            r is Some <==> rgba_view_of(*img) is Some,
            r matches Some(out) ==> rgba_view_of(*img) == Some(out@),
    {
        let (width, height) = image_dimensions(img);
        if !rgba_len_fits(width, height) {
            return None;
        }
        let mut pixels = image_rgba_bytes(img);
        pixels.truncate(rgba_len_exec(width, height));
        Some(Rgba8Image { width, height, pixels })
    }

    /// This image as a `DynamicImage` holding an RGBA8 buffer.
    pub fn into_dynamic(self) -> (img: DynamicImage)
        ensures
            holds_rgba8(img),
            size_of_image(img) == (self@.0, self@.1),
            rgba_bytes_of(img) == self@.2,
    {
        proof {
            use_type_invariant(&self);
        }
        rgba_image_from_bytes(self.width, self.height, self.pixels)
    }

    /// The width in pixels.
    pub fn width(&self) -> (w: u32)
        ensures
            w == self@.0,
    {
        self.width
    }

    /// The height in pixels.
    pub fn height(&self) -> (h: u32)
        ensures
            h == self@.1,
    {
        self.height
    }

    /// The width and height in pixels.
    pub fn dimensions(&self) -> (d: (u32, u32))
        ensures
            d == (self@.0, self@.1),
    {
        (self.width, self.height)
    }

    /// The pixel bytes, four per pixel, row by row.
    pub fn pixels(&self) -> (p: &[u8])
        ensures
            p@ == self@.2,
            p@.len() == rgba_len(self@.0 as nat, self@.1 as nat),
    {
        proof {
            use_type_invariant(self);
        }
        self.pixels.as_slice()
    }

    /// The pixel bytes, given up.
    pub fn into_pixels(self) -> (p: Vec<u8>)
        ensures
            p@ == self@.2,
    {
        self.pixels
    }
}

/// The RGBA8 view that `Rgba8Image::from_dynamic` gives of `img`: its size
/// and the converted bytes of its pixel grid, or `None` where the grid's
/// byte count does not fit in a `usize`.
pub open spec fn rgba_view_of(img: DynamicImage) -> Option<(u32, u32, Seq<u8>)> {
    let (w, h) = size_of_image(img);
    if rgba_len(w as nat, h as nat) <= usize::MAX {
        Some((w, h, rgba_bytes_of(img).take(rgba_len(w as nat, h as nat) as int)))
    } else {
        None
    }
}

/// Turning an RGBA8 image into a `DynamicImage` (what `into_dynamic` gives)
/// and back (with `from_dynamic`) gives the same image: same size, same
/// bytes.
pub proof fn law_dynamic_round_trip(v: (u32, u32, Seq<u8>), back: DynamicImage)
    requires
        v.2.len() == rgba_len(v.0 as nat, v.1 as nat),
        v.2.len() <= usize::MAX,
        size_of_image(back) == (v.0, v.1),
        rgba_bytes_of(back) == v.2,
    ensures
        rgba_view_of(back) == Some(v),
{
    assert(v.2.take(v.2.len() as int) =~= v.2);
}

} // verus!
