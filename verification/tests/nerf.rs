use image::{DynamicImage, GenericImageView, ImageBuffer, Rgba};
use nerf_studio::nerf::volume::{EncodedComponent, PositionalEncoder};
use nerf_studio::utils::imaging::{apply_exif_orientation, fit_dimensions, resize_maintain_aspect};

#[test]
fn test_positional_encoding() {
    let encoder = PositionalEncoder::new(4, true);

    let encoded = encoder.layout(3);

    // Original (3) + 4 frequencies * 2 (sin/cos) * 3 dims = 3 + 24 = 27
    assert_eq!(encoded.len(), 27);

    // First 3 should be original
    assert_eq!(
        &encoded[0..3],
        &[
            EncodedComponent::Original { axis: 0 },
            EncodedComponent::Original { axis: 1 },
            EncodedComponent::Original { axis: 2 },
        ]
    );
}

#[test]
fn encoding_order_and_dimension() {
    let encoder = PositionalEncoder::new(2, false);
    assert_eq!(encoder.output_dim(3), 12);
    let layout = encoder.layout(3);
    assert_eq!(layout.len(), 12);
    assert_eq!(layout[0], EncodedComponent::Sin { exponent: 0, axis: 0 });
    assert_eq!(layout[1], EncodedComponent::Cos { exponent: 0, axis: 0 });
    assert_eq!(layout[2], EncodedComponent::Sin { exponent: 0, axis: 1 });
    assert_eq!(layout[6], EncodedComponent::Sin { exponent: 1, axis: 0 });
    assert_eq!(layout[11], EncodedComponent::Cos { exponent: 1, axis: 2 });
    assert_eq!(PositionalEncoder::new(4, true).output_dim(3), 27);
    assert_eq!(PositionalEncoder::new(0, true).output_dim(5), 5);
    assert_eq!(PositionalEncoder::new(0, false).layout(5).len(), 0);
}

#[test]
fn test_resize_maintain_aspect() {
    let img = ImageBuffer::<Rgba<u8>, _>::from_fn(100, 200, |_, _| Rgba([255, 0, 0, 255]));
    let dyn_img = DynamicImage::ImageRgba8(img);

    let resized = resize_maintain_aspect(&dyn_img, 50, 50);
    let (w, h) = resized.dimensions();

    assert!(w <= 50);
    assert!(h <= 50);
    // Should maintain aspect ratio (1:2)
    assert!((h as f32 / w as f32 - 2.0).abs() < 0.1);
}

#[test]
fn resize_keeps_fitting_images() {
    let img = ImageBuffer::<Rgba<u8>, _>::from_fn(30, 20, |x, _| Rgba([x as u8, 0, 0, 255]));
    let dyn_img = DynamicImage::ImageRgba8(img);
    let same = resize_maintain_aspect(&dyn_img, 30, 20);
    assert_eq!(same, dyn_img);
}

#[test]
fn fit_dimensions_scales_by_smaller_factor() {
    assert_eq!(fit_dimensions(100, 200, 50, 50), (25, 50));
    assert_eq!(fit_dimensions(200, 100, 50, 50), (50, 25));
    assert_eq!(fit_dimensions(300, 100, 100, 100), (100, 33));
    assert_eq!(fit_dimensions(0, 100, 10, 10), (0, 10));
    assert_eq!(fit_dimensions(100, 0, 10, 10), (10, 0));
}

#[test]
fn resize_never_upscales() {
    let img = DynamicImage::ImageRgba8(ImageBuffer::from_pixel(1, 97, Rgba([1, 2, 3, 4])));
    let resized = resize_maintain_aspect(&img, 50, 50);
    let (w, h) = resized.dimensions();
    assert!(w <= 1 && h <= 50 && w >= 1 && h >= 1);
    assert_eq!(fit_dimensions(1, 97, 50, 50), (0, 50));
    assert_eq!(fit_dimensions(120, 60, 100, 100), (100, 50));
}

#[test]
fn resize_fits_box() {
    let img = DynamicImage::ImageRgba8(ImageBuffer::from_pixel(1000, 3, Rgba([1, 2, 3, 4])));
    let resized = resize_maintain_aspect(&img, 10, 10);
    let (w, h) = resized.dimensions();
    assert!(w <= 10 && h <= 10 && w >= 1 && h >= 1);
}

#[test]
fn exif_orientation_keeps_image() {
    let img = DynamicImage::ImageRgba8(ImageBuffer::from_pixel(2, 3, Rgba([1, 2, 3, 4])));
    let out = apply_exif_orientation(img.clone()).unwrap();
    assert_eq!(out, img);
}
