use image::{DynamicImage, GenericImageView, Rgb, Rgba};
use ocl_image_resizer::raster::{rgba_len_fits, Rgba8Image};

#[test]
fn from_raw_needs_four_bytes_per_pixel() {
    assert!(Rgba8Image::from_raw(2, 3, vec![0; 24]).is_some());
    assert!(Rgba8Image::from_raw(2, 3, vec![0; 23]).is_none());
    assert!(Rgba8Image::from_raw(2, 3, vec![0; 25]).is_none());
    assert!(Rgba8Image::from_raw(0, 5, vec![]).is_some());
    let img = Rgba8Image::from_raw(1, 2, vec![1, 2, 3, 4, 5, 6, 7, 8]).unwrap();
    assert_eq!(img.dimensions(), (1, 2));
    assert_eq!((img.width(), img.height()), (1, 2));
    assert_eq!(img.pixels(), &[1, 2, 3, 4, 5, 6, 7, 8]);
    assert_eq!(img.into_pixels(), vec![1, 2, 3, 4, 5, 6, 7, 8]);
}

#[test]
fn blank_is_all_zero() {
    let img = Rgba8Image::blank(3, 2).unwrap();
    assert_eq!(img.dimensions(), (3, 2));
    assert_eq!(img.pixels(), &[0u8; 24][..]);
}

#[test]
fn blank_refuses_sizes_beyond_usize() {
    assert!(rgba_len_fits(1000, 1000));
    if usize::MAX as u128 >= 4 * (u32::MAX as u128) * (u32::MAX as u128) {
        assert!(rgba_len_fits(u32::MAX, u32::MAX));
    } else {
        assert!(!rgba_len_fits(u32::MAX, u32::MAX));
        assert!(Rgba8Image::blank(u32::MAX, u32::MAX).is_none());
    }
}

#[test]
fn from_dynamic_converts_rgb_to_rgba() {
    let mut rgb = DynamicImage::new_rgb8(2, 1);
    rgb.as_mut_rgb8().unwrap().put_pixel(0, 0, Rgb([10, 20, 30]));
    rgb.as_mut_rgb8().unwrap().put_pixel(1, 0, Rgb([40, 50, 60]));
    let img = Rgba8Image::from_dynamic(&rgb).unwrap();
    assert_eq!(img.dimensions(), (2, 1));
    assert_eq!(img.pixels(), &[10, 20, 30, 255, 40, 50, 60, 255]);
}

#[test]
fn into_dynamic_keeps_size_and_pixels() {
    let img = Rgba8Image::from_raw(2, 1, vec![1, 2, 3, 4, 5, 6, 7, 8]).unwrap();
    let dynamic = img.into_dynamic();
    assert!(dynamic.as_rgba8().is_some());
    assert_eq!(dynamic.dimensions(), (2, 1));
    assert_eq!(dynamic.get_pixel(1, 0), Rgba([5, 6, 7, 8]));
    let back = Rgba8Image::from_dynamic(&dynamic).unwrap();
    assert_eq!(back.dimensions(), (2, 1));
    assert_eq!(back.pixels(), &[1, 2, 3, 4, 5, 6, 7, 8]);
}

#[test]
fn from_dynamic_cuts_a_long_buffer_to_the_grid() {
    let long = image::RgbaImage::from_raw(1, 1, vec![1, 2, 3, 4, 5, 6, 7, 8]).unwrap();
    let img = Rgba8Image::from_dynamic(&DynamicImage::ImageRgba8(long)).unwrap();
    assert_eq!(img.dimensions(), (1, 1));
    assert_eq!(img.pixels(), &[1, 2, 3, 4]);
}
