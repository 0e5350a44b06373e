//! Image processing utilities.

use vstd::prelude::*;
use image::GenericImageView;

verus! {

#[verifier::external_type_specification]
#[verifier::external_body]
pub struct ExDynamicImage(image::DynamicImage);

#[verifier::external_type_specification]
#[verifier::external_body]
pub struct ExAnyhowError(anyhow::Error);

/// Width and height, in pixels, of an image of the `image` crate.
pub uninterp spec fn image_size(img: image::DynamicImage) -> (u32, u32);

/// The size the `image` crate's aspect-preserving fitting (`resize_dimensions`,
/// used by `DynamicImage::resize` and `DynamicImage::thumbnail`) gives an image
/// of size `width` x `height` asked to fit `max_width` x `max_height`; it rounds
/// in floating point.
pub uninterp spec fn resize_fit_size(width: u32, height: u32, max_width: u32, max_height: u32) -> (
    u32,
    u32,
);

/// What `image::load_from_memory` decodes from the bytes `data`, or `None`
/// where it fails.
pub uninterp spec fn decoded_image(data: Seq<u8>) -> Option<image::DynamicImage>;

/// Decodes an uploaded file with `image::load_from_memory`: the result is named
/// by `decoded_image`; the text of a failure (the decoder's error message) is
/// not stated.
#[verifier::external_body]
pub(crate) fn decode_image(data: &[u8]) -> (r: Result<image::DynamicImage, String>)
    ensures
        r is Ok <==> decoded_image(data@) is Some,
        r matches Ok(img) ==> decoded_image(data@) == Some(img),
{
    match image::load_from_memory(data) {
        Ok(img) => Ok(img),
        Err(e) => Err(e.to_string()),
    }
}

/// `DynamicImage::thumbnail(max, max)`: the thumbnail's size is what the
/// crate's fitting gives for a `max` x `max` box, each side at least 1 and at
/// most `max` (or 1 when `max` is 0). The pixels are not stated.
#[verifier::external_body]
pub(crate) fn thumbnail_of(img: &image::DynamicImage, max: u32) -> (t: image::DynamicImage)
    ensures
        image_size(t) == resize_fit_size(image_size(*img).0, image_size(*img).1, max, max),
        1 <= image_size(t).0 <= max_side(max),
        1 <= image_size(t).1 <= max_side(max),
{
    img.thumbnail(max, max)
}

/// `n`, or 1 when `n` is 0: the crate's fitting never gives a side of 0.
pub open spec fn max_side(n: u32) -> u32 {
    if n == 0 { 1 } else { n }
}

/// The size of an image (`GenericImageView::dimensions`).
#[verifier::external_body]
pub(crate) fn image_dimensions(img: &image::DynamicImage) -> (size: (u32, u32))
    ensures
        size == image_size(*img),
{
    img.dimensions()
}

/// A copy of an image (`image::DynamicImage::clone`), equal to it.
#[verifier::external_body]
fn copy_image(img: &image::DynamicImage) -> (copy: image::DynamicImage)
    ensures
        copy == *img,
{
    img.clone()
}

/// `image::DynamicImage::resize` with the Lanczos filter: asked for the image's own
/// size it returns a copy; otherwise the result has the size the crate's
/// fitting computes, named `resize_fit_size`, which has sides of at least 1 and
/// never exceeds the box asked for (sides of 0 counting as 1). The pixels are
/// not stated.
#[verifier::external_body]
fn resize_lanczos(img: &image::DynamicImage, width: u32, height: u32) -> (out: image::DynamicImage)
    ensures
        image_size(out).0 <= max_side(width),
        image_size(out).1 <= max_side(height),
        (width, height) != image_size(*img) ==> image_size(out).0 >= 1 && image_size(out).1 >= 1,
        (width, height) == image_size(*img) ==> out == *img,
        (width, height) != image_size(*img) ==> image_size(out) == resize_fit_size(
            image_size(*img).0,
            image_size(*img).1,
            width,
            height,
        ),
{
    img.resize(width, height, image::imageops::FilterType::Lanczos3)
}

/// `length` scaled by `numerator / denominator`, rounded down.
pub open spec fn scaled(length: u32, numerator: u32, denominator: u32) -> int {
    (length as int) * (numerator as int) / (denominator as int)
}

/// Whether the width is the side that limits the fit: `max_width / width` is
/// the smaller of the two scale factors.
pub open spec fn width_limits(width: u32, height: u32, max_width: u32, max_height: u32) -> bool {
    (max_width as int) * (height as int) <= (max_height as int) * (width as int)
}

/// The size an image of `width` x `height` is scaled to so that it fits
/// `max_width` x `max_height` with its aspect ratio kept: both sides are scaled
/// by the smaller of the factors `max_width / width` and `max_height / height`,
/// rounded down. A side of length zero has no factor and stays zero while the
/// other side takes the whole box.
pub open spec fn fit_dimensions_spec(width: u32, height: u32, max_width: u32, max_height: u32) -> (
    u32,
    u32,
) {
    if width == 0 {
        (0, max_height)
    } else if height == 0 {
        (max_width, 0)
    } else if width_limits(width, height, max_width, max_height) {
        (scaled(width, max_width, width) as u32, scaled(height, max_width, width) as u32)
    } else {
        (scaled(width, max_height, height) as u32, scaled(height, max_height, height) as u32)
    }
}

/// The fitted size of a non-empty image scales both sides by the smaller of
/// the factors `max_width / width` and `max_height / height`, rounded down: the
/// side with the smaller factor reaches its bound exactly, and the other side
/// is its own length times that factor, rounded down, so it stays within its
/// bound.
pub proof fn lemma_fit_uses_smaller_factor(width: u32, height: u32, max_width: u32, max_height: u32)
    requires
        width > 0,
        height > 0,
    ensures
        (max_width as int) * (height as int) <= (max_height as int) * (width as int) ==> {
            &&& fit_dimensions_spec(width, height, max_width, max_height).0 == max_width
            &&& fit_dimensions_spec(width, height, max_width, max_height).1 as int == (height as int)
                * (max_width as int) / (width as int)
            &&& fit_dimensions_spec(width, height, max_width, max_height).1 <= max_height
        },
        (max_width as int) * (height as int) > (max_height as int) * (width as int) ==> {
            &&& fit_dimensions_spec(width, height, max_width, max_height).1 == max_height
            &&& fit_dimensions_spec(width, height, max_width, max_height).0 as int == (width as int)
                * (max_height as int) / (height as int)
            &&& fit_dimensions_spec(width, height, max_width, max_height).0 <= max_width
        },
{
    let w = width as int;
    let h = height as int;
    let mw = max_width as int;
    let mh = max_height as int;
    assert(w * mw / w == mw) by (nonlinear_arith)
        requires
            w > 0,
    ;
    assert(h * mh / h == mh) by (nonlinear_arith)
        requires
            h > 0,
    ;
    if mw * h <= mh * w {
        assert(h * mw / w <= mh) by (nonlinear_arith)
            requires
                mw * h <= mh * w,
                w > 0,
                mh >= 0,
        ;
        assert(0 <= h * mw / w) by (nonlinear_arith)
            requires
                w > 0,
                h >= 0,
                mw >= 0,
        ;
    } else {
        assert(w * mh / h <= mw) by (nonlinear_arith)
            requires
                mw * h > mh * w,
                h > 0,
        ;
        assert(0 <= w * mh / h) by (nonlinear_arith)
            requires
                h > 0,
                w >= 0,
                mh >= 0,
        ;
    }
}

/// Computes `fit_dimensions_spec`.
pub fn fit_dimensions(width: u32, height: u32, max_width: u32, max_height: u32) -> (size: (
    u32,
    u32,
))
    ensures
        size == fit_dimensions_spec(width, height, max_width, max_height),
        size.0 <= max_width || width == 0,
        size.1 <= max_height || height == 0,
        width > 0 && height > 0 && !(width <= max_width && height <= max_height) ==> size.0
            <= width && size.1 <= height,
        width > 0 && height > 0 && (max_width as int) * (height as int) <= (max_height as int) * (
        width as int) ==> size.0 == max_width && size.1 as int == (height as int) * (
        max_width as int) / (width as int),
        width > 0 && height > 0 && (max_width as int) * (height as int) > (max_height as int) * (
        width as int) ==> size.1 == max_height && size.0 as int == (width as int) * (
        max_height as int) / (height as int),
{
    if width == 0 {
        (0, max_height)
    } else if height == 0 {
        (max_width, 0)
    } else {
        proof {
            lemma_fit_uses_smaller_factor(width, height, max_width, max_height);
        }
        let w = width as u64;
        let h = height as u64;
        let mw = max_width as u64;
        let mh = max_height as u64;
        proof {
            assert(mw * h <= u32::MAX * u32::MAX) by (nonlinear_arith)
                requires
                    mw <= u32::MAX,
                    h <= u32::MAX,
            ;
            assert(mh * w <= u32::MAX * u32::MAX) by (nonlinear_arith)
                requires
                    mh <= u32::MAX,
                    w <= u32::MAX,
            ;
        }
        if mw * h <= mh * w {
            let nh = h * mw / w;
            proof {
                assert((h * mw) as int / (w as int) <= mh) by (nonlinear_arith)
                    requires
                        mw * h <= mh * w,
                        w > 0,
                ;
                if !(w <= mw && h <= mh) {
                    assert(mw < w && (h * mw) as int / (w as int) <= h) by (nonlinear_arith)
                        requires
                            mw * h <= mh * w,
                            w > 0,
                            h > 0,
                            !(w <= mw && h <= mh),
                    ;
                }
            }
            proof {
                assert((w as int) * (mw as int) / (w as int) == mw) by (nonlinear_arith)
                    requires
                        w > 0,
                ;
                assert((h * mw) as int == (h as int) * (mw as int));
            }
            (max_width, nh as u32)
        } else {
            let nw = w * mh / h;
            proof {
                assert((w * mh) as int / (h as int) <= mw) by (nonlinear_arith)
                    requires
                        mw * h > mh * w,
                        h > 0,
                ;
                if !(w <= mw && h <= mh) {
                    assert(mh < h && (w * mh) as int / (h as int) <= w) by (nonlinear_arith)
                        requires
                            mw * h > mh * w,
                            w > 0,
                            h > 0,
                            !(w <= mw && h <= mh),
                    ;
                }
            }
            proof {
                assert((h as int) * (mh as int) / (h as int) == mh) by (nonlinear_arith)
                    requires
                        h > 0,
                ;
                assert((w * mh) as int == (w as int) * (mh as int));
            }
            (nw as u32, max_height)
        }
    }
}

/// Resizes an image to fit `max_width` x `max_height` while keeping its aspect
/// ratio; an image that already fits is returned unchanged.
pub fn resize_maintain_aspect(img: &image::DynamicImage, max_width: u32, max_height: u32) -> (out:
    image::DynamicImage)
    ensures
        image_size(*img).0 <= max_width && image_size(*img).1 <= max_height ==> out == *img,
        max_width >= 1 && max_height >= 1 ==> image_size(out).0 <= max_width && image_size(out).1
            <= max_height,
        image_size(*img).0 >= 1 && image_size(*img).1 >= 1 ==> image_size(out).0 <= image_size(
            *img,
        ).0 && image_size(out).1 <= image_size(*img).1,
        !(image_size(*img).0 <= max_width && image_size(*img).1 <= max_height) ==> image_size(out)
            == resize_fit_size(
            image_size(*img).0,
            image_size(*img).1,
            fit_dimensions_spec(image_size(*img).0, image_size(*img).1, max_width, max_height).0,
            fit_dimensions_spec(image_size(*img).0, image_size(*img).1, max_width, max_height).1,
        ),
{
    let (width, height) = image_dimensions(img);
    if width <= max_width && height <= max_height {
        return copy_image(img);
    }
    let (new_width, new_height) = fit_dimensions(width, height, max_width, max_height);
    proof {
        assert((new_width, new_height) != (width, height));
    }
    resize_lanczos(img, new_width, new_height)
}

/// Applies the orientation recorded in an image's EXIF data; no orientation is
/// read yet, so the image comes back as it is.
pub fn apply_exif_orientation(img: image::DynamicImage) -> (r: Result<image::DynamicImage, anyhow::Error>)
    ensures
        r == Ok::<image::DynamicImage, anyhow::Error>(img),
{
    Ok(img)
}

} // verus!
