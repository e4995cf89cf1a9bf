use image::{Rgb, RgbImage, Rgba, RgbaImage};
use verandah_plugin_utils::image_ops::{
    bytes_to_rgb, bytes_to_rgba, rgb_to_rgba, rgba_to_rgb, scale_image, RgbBuffer, RgbaBuffer,
};

fn rgb_buffer(img: RgbImage) -> RgbBuffer {
    let (w, h) = img.dimensions();
    RgbBuffer::from_samples(w, h, img.into_raw()).unwrap()
}

fn rgba_buffer(img: RgbaImage) -> RgbaBuffer {
    let (w, h) = img.dimensions();
    RgbaBuffer::from_samples(w, h, img.into_raw()).unwrap()
}

#[test]
fn test_rgb_to_rgba_preserves_colors() {
    let rgb = rgb_buffer(RgbImage::from_pixel(2, 2, Rgb([100, 150, 200])));
    let rgba = rgb_to_rgba(&rgb);

    assert_eq!(rgba.dimensions().0, 2);
    assert_eq!(rgba.dimensions().1, 2);
    assert_eq!(rgba.pixel(0, 0), Rgba([100, 150, 200, 255]));
}

#[test]
fn test_rgba_to_rgb_discards_alpha() {
    let rgba = rgba_buffer(RgbaImage::from_pixel(2, 2, Rgba([100, 150, 200, 128])));
    let rgb = rgba_to_rgb(&rgba);

    assert_eq!(rgb.dimensions().0, 2);
    assert_eq!(rgb.dimensions().1, 2);
    assert_eq!(rgb.pixel(0, 0), Rgb([100, 150, 200]));
}

#[test]
fn test_bytes_to_rgb() {
    let data = vec![255, 0, 0, 0, 255, 0, 0, 0, 255, 128, 128, 128];
    let img = bytes_to_rgb(2, 2, &data);

    assert_eq!(img.pixel(0, 0), Rgb([255, 0, 0]));
    assert_eq!(img.pixel(1, 0), Rgb([0, 255, 0]));
    assert_eq!(img.pixel(0, 1), Rgb([0, 0, 255]));
    assert_eq!(img.pixel(1, 1), Rgb([128, 128, 128]));
}

#[test]
fn test_scale_image_same_size_returns_clone() {
    let img = rgb_buffer(RgbImage::from_pixel(10, 10, Rgb([100, 100, 100])));
    let scaled = scale_image(&img, 10, 10);
    assert_eq!(scaled.dimensions(), (10, 10));
}

#[test]
fn test_scale_image_resizes() {
    let img = rgb_buffer(RgbImage::from_pixel(10, 10, Rgb([100, 100, 100])));
    let scaled = scale_image(&img, 20, 20);
    assert_eq!(scaled.dimensions(), (20, 20));
}

#[test]
fn bytes_to_rgb_pads_short_data_with_black() {
    let data = vec![1, 2, 3, 4, 5, 6, 7, 8];
    let img = bytes_to_rgb(3, 1, &data);
    assert_eq!(img.dimensions(), (3, 1));
    assert_eq!(img.into_samples(), vec![1, 2, 3, 4, 5, 6, 0, 0, 0]);
}

#[test]
fn bytes_to_rgba_is_opaque() {
    let data = vec![10, 20, 30, 40, 50, 60, 70];
    let img = bytes_to_rgba(1, 3, &data);
    assert_eq!(img.dimensions(), (1, 3));
    assert_eq!(img.pixel(0, 1), Rgba([40, 50, 60, 255]));
    assert_eq!(
        img.into_samples(),
        vec![10, 20, 30, 255, 40, 50, 60, 255, 0, 0, 0, 255]
    );
}

#[test]
fn empty_images_convert_to_empty_images() {
    let img = bytes_to_rgb(0, 5, &[]);
    assert_eq!(img.dimensions(), (0, 5));
    let rgba = rgb_to_rgba(&img);
    assert_eq!(rgba.dimensions(), (0, 5));
    assert!(rgba.into_samples().is_empty());
}

#[test]
fn conversions_round_trip_opaque_pixels() {
    let data: Vec<u8> = (0..18).collect();
    let rgb = bytes_to_rgb(3, 2, &data);
    let rgba = rgb_to_rgba(&rgb);
    assert_eq!(rgba.pixel(2, 1), Rgba([15, 16, 17, 255]));
    let back = rgba_to_rgb(&rgba);
    assert_eq!(back.into_samples(), data);
}

#[test]
fn from_samples_refuses_short_buffers() {
    assert!(RgbBuffer::from_samples(2, 2, vec![0; 11]).is_none());
    assert!(RgbBuffer::from_samples(2, 2, vec![0; 12]).is_some());
    assert!(RgbaBuffer::from_samples(2, 2, vec![0; 15]).is_none());
    assert!(RgbaBuffer::from_samples(2, 2, vec![0; 16]).is_some());
}

#[test]
fn scale_image_keeps_samples_at_same_size() {
    let data: Vec<u8> = (0..12).collect();
    let img = bytes_to_rgb(2, 2, &data);
    assert_eq!(scale_image(&img, 2, 2).into_samples(), data);
    let shrunk = scale_image(&img, 1, 3);
    assert_eq!(shrunk.dimensions(), (1, 3));
    assert_eq!(shrunk.into_samples().len(), 9);
}
