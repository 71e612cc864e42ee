//! The host side of a resize on an OpenCL device: what is uploaded, over
//! which grid the kernel runs, and what image comes back.
use image::DynamicImage;
use vstd::prelude::*;

use crate::raster::{holds_rgba8, rgba_bytes_of, rgba_len, rgba_view_of, size_of_image, Rgba8Image};

verus! {

/// The name of the kernel, in the OpenCL program, that resamples the source
/// image into the destination image.
pub const KERNEL_NAME: &'static str = "resizeImage";

/// `n` zero bytes.
pub open spec fn zeros(n: nat) -> Seq<u8> {
    Seq::new(n, |i: int| 0u8)
}

/// One resize, ready for the device: the source image as RGBA8 (uploaded
/// read-only), the destination buffer of the requested size (zeroed, then
/// written by the kernel), and the global work size of the kernel, which is
/// the source image's size.
pub struct ResizeJob {
    source: Rgba8Image,
    target: Rgba8Image,
}

impl ResizeJob {
    /// The source image: width, height and RGBA8 bytes.
    pub closed spec fn spec_source(self) -> (u32, u32, Seq<u8>) {
        self.source@
    }

    /// The destination buffer as it is before the kernel runs.
    pub closed spec fn spec_target(self) -> (u32, u32, Seq<u8>) {
        self.target@
    }

    /// Prepares the resize of `img` to `width` by `height` pixels. `None`
    /// where the byte count of the source or of the destination does not fit
    /// in a `usize`.
    pub fn new(img: &DynamicImage, width: u32, height: u32) -> (r: Option<ResizeJob>)
        ensures
            r is Some <==> rgba_view_of(*img) is Some && rgba_len(width as nat, height as nat)
                <= usize::MAX,
            r matches Some(job) ==> {
                &&& Some(job.spec_source()) == rgba_view_of(*img)
                &&& job.spec_target() == (width, height, zeros(rgba_len(width as nat, height as nat)))
            },
    {
        let source = match Rgba8Image::from_dynamic(img) {
            Some(s) => s,
            None => return None,
        };
        let target = match Rgba8Image::blank(width, height) {
            Some(t) => t,
            None => return None,
        };
        Some(ResizeJob { source, target })
    }

    /// The source image, to upload to the device.
    pub fn source(&self) -> (s: &Rgba8Image)
        ensures
            s@ == self.spec_source(),
    {
        &self.source
    }

    /// The destination buffer, to upload to the device before the kernel
    /// runs; the device's result is read back into a buffer of its length.
    pub fn target(&self) -> (t: &Rgba8Image)
        ensures
            t@ == self.spec_target(),
    {
        &self.target
    }

    /// The global work size of the kernel: one work item per source pixel.
    pub fn work_size(&self) -> (d: (u32, u32))
        ensures
            d == (self.spec_source().0, self.spec_source().1),
    {
        self.source.dimensions()
    }

    /// The resized image: an RGBA8 buffer of the destination's size, holding
    /// the bytes that were read back from the device.
    pub fn finish(self, device_output: Vec<u8>) -> (img: DynamicImage)
        requires
            device_output@.len() == self.spec_target().2.len(),
        ensures
            holds_rgba8(img),
            size_of_image(img) == (self.spec_target().0, self.spec_target().1),
            rgba_bytes_of(img) == device_output@,
    {
        let (width, height) = self.target.dimensions();
        proof {
            use_type_invariant(&self.target);
        }
        Rgba8Image::from_raw(width, height, device_output).unwrap().into_dynamic()
    }
}

} // verus!
