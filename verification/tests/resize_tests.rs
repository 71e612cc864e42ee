use image::{DynamicImage, GenericImage, GenericImageView, Rgba};
use ocl_image_resizer::resize::{ResizeJob, KERNEL_NAME};

#[test]
fn job_uploads_source_and_blank_target() {
    let mut src = DynamicImage::new_rgba8(4, 2);
    src.put_pixel(3, 1, Rgba([9, 8, 7, 6]));
    let job = ResizeJob::new(&src, 2, 3).unwrap();
    assert_eq!(job.source().dimensions(), (4, 2));
    assert_eq!(&job.source().pixels()[28..32], &[9, 8, 7, 6]);
    assert_eq!(job.target().dimensions(), (2, 3));
    assert_eq!(job.target().pixels(), &[0u8; 24][..]);
    assert_eq!(job.work_size(), (4, 2));
}

#[test]
fn job_result_has_requested_size() {
    let src = DynamicImage::new_rgb8(5, 5);
    let job = ResizeJob::new(&src, 2, 3).unwrap();
    let out = job.finish(vec![7u8; 24]);
    assert_eq!(out.dimensions(), (2, 3));
    assert_eq!(out.as_rgba8().unwrap().as_raw(), &vec![7u8; 24]);
    assert_eq!(out.to_rgba8().into_vec(), vec![7u8; 24]);
}

#[test]
fn kernel_name_is_resize_image() {
    assert_eq!(KERNEL_NAME, "resizeImage");
}

#[test]
fn job_uploads_only_the_source_grid() {
    let long = image::RgbaImage::from_raw(2, 1, vec![9; 12]).unwrap();
    let job = ResizeJob::new(&DynamicImage::ImageRgba8(long), 1, 1).unwrap();
    assert_eq!(job.source().pixels(), &[9u8; 8][..]);
    assert_eq!(job.work_size(), (2, 1));
}
