//! Transcode Engine: decode the payload into a raster image (sniffing the
//! true format from the bytes themselves), resize to the width cap when the
//! image is wider, preserving aspect ratio, and re-encode as WEBP.
//!
//! The pixel work is done by the `image` crate behind trusted wrappers; the
//! choice of output dimensions is computed and proved here.

use vstd::prelude::*;
use vstd::arithmetic::div_mod::lemma_fundamental_div_mod;
use std::io::Cursor;
use image::GenericImageView;
use image::ImageReader;
use image::imageops::FilterType;
use crate::guard::UploadError;

verus! {

/// Widest stored raster image, in pixels; wider inputs are resized down.
pub const MAX_WIDTH: u32 = 1200;

#[verifier::external_type_specification]
#[verifier::external_body]
pub struct ExDynamicImage(image::DynamicImage);

/// A decoded raster image: its dimensions as plain values, and the decoded
/// pixel data, which only the `image` crate reads. The fields are private,
/// so a value can only come out of the decode and resize wrappers, which
/// keep the recorded dimensions those of the pixel data.
pub struct RasterImage {
    width: u32,
    height: u32,
    inner: image::DynamicImage,
}

/// The height of a resized image, rounded to the nearest pixel of the
/// proportional height `h * 1200 / w`, and at least one pixel.
pub open spec fn spec_scaled_height(w: u32, h: u32) -> u32
    recommends
        w > MAX_WIDTH,
{
    let q = (2 * (h as int) * (MAX_WIDTH as int) + (w as int)) / (2 * (w as int));
    if q < 1 {
        1u32
    } else {
        q as u32
    }
}

/// The stored dimensions for a decoded raster image: images at or below
/// the width cap keep their resolution; wider images are scaled to the cap,
/// preserving aspect ratio.
pub open spec fn spec_target_dims(w: u32, h: u32) -> (u32, u32) {
    if w > MAX_WIDTH {
        (MAX_WIDTH, spec_scaled_height(w, h))
    } else {
        (w, h)
    }
}

/// The rounded proportional height lies between zero and the original
/// height, for an image that is being scaled down.
proof fn lemma_scaled_div_bounds(w: u32, h: u32)
    requires
        w > MAX_WIDTH,
        h >= 1,
    ensures
        0 <= (2 * (h as int) * (MAX_WIDTH as int) + (w as int)) / (2 * (w as int)) <= h as int,
{
    let num = 2 * (h as int) * (MAX_WIDTH as int) + (w as int);
    let den = 2 * (w as int);
    let q = num / den;
    lemma_fundamental_div_mod(num, den);
    assert(num < den * ((h as int) + 1)) by (nonlinear_arith)
        requires
            num == 2 * (h as int) * (MAX_WIDTH as int) + (w as int),
            den == 2 * (w as int),
            w > MAX_WIDTH,
            h >= 1,
            MAX_WIDTH == 1200,
    ;
    assert(0 <= q <= h) by (nonlinear_arith)
        requires
            num == den * q + num % den,
            0 <= num % den < den,
            num < den * ((h as int) + 1),
            num >= 0,
            den > 0,
    ;
}

/// Compute the output dimensions for a decoded raster image of the given
/// size: width capped at [`MAX_WIDTH`], height scaled proportionally and
/// rounded to the nearest pixel, but never below one.
pub fn plan_dimensions(w: u32, h: u32) -> (r: (u32, u32))
    ensures
        r == spec_target_dims(w, h),
        w > MAX_WIDTH ==> r.0 == MAX_WIDTH && r.1 >= 1,
{
    if w > MAX_WIDTH {
        // The width cap as a literal: the overflow check does not unfold
        // the constant, and `2 * h * 1200` is comfortably inside `u64`.
        let num: u64 = 2u64 * (h as u64) * 1200u64 + (w as u64);
        let den: u64 = 2u64 * (w as u64);
        let q: u64 = num / den;
        let oh: u32 = if q < 1 {
            1u32
        } else {
            proof {
                if h >= 1 {
                    lemma_scaled_div_bounds(w, h);
                } else {
                    vstd::arithmetic::div_mod::lemma_basic_div(num as int, den as int);
                }
            }
            q as u32
        };
        (MAX_WIDTH, oh)
    } else {
        (w, h)
    }
}

/// The planned dimensions follow the resize policy: the output width is
/// the input width capped at 1200; an image at or below the cap is left
/// untouched; a wider image keeps its aspect ratio, the output height lying
/// strictly within one pixel of the proportional height `h * 1200 / w`.
pub proof fn lemma_plan_preserves_aspect(w: u32, h: u32)
    requires
        w >= 1,
        h >= 1,
    ensures
        ({
            let (ow, oh) = spec_target_dims(w, h);
            &&& ow == if w > MAX_WIDTH {
                MAX_WIDTH as int
            } else {
                w as int
            }
            &&& w <= MAX_WIDTH ==> oh == h
            &&& w > MAX_WIDTH ==> -(w as int) < (MAX_WIDTH as int) * (h as int) - (oh as int) * (
            w as int) < w as int
        }),
{
    if w > MAX_WIDTH {
        let num = 2 * (h as int) * (MAX_WIDTH as int) + (w as int);
        let den = 2 * (w as int);
        let q = num / den;
        lemma_scaled_div_bounds(w, h);
        lemma_fundamental_div_mod(num, den);
        assert(den * q <= num < den * q + den) by (nonlinear_arith)
            requires
                num == den * q + num % den,
                0 <= num % den < den,
        ;
        let oh = spec_scaled_height(w, h);
        if q < 1 {
            // The proportional height rounds to zero: the height is clamped
            // to one pixel, still within one pixel of proportional.
            assert(q == 0);
            assert(num < den) by (nonlinear_arith)
                requires
                    num == den * q + num % den,
                    0 <= num % den < den,
                    q == 0,
            ;
            assert(-(w as int) < (MAX_WIDTH as int) * (h as int) - 1 * (w as int) < w as int)
                by (nonlinear_arith)
                requires
                    2 * (h as int) * (MAX_WIDTH as int) + (w as int) < 2 * (w as int),
                    h >= 1,
                    w >= 1,
                    MAX_WIDTH == 1200,
            ;
        } else {
            assert(oh as int == q);
            assert(-(w as int) < (MAX_WIDTH as int) * (h as int) - q * (w as int) < w as int)
                by (nonlinear_arith)
                requires
                    num == 2 * (h as int) * (MAX_WIDTH as int) + (w as int),
                    den == 2 * (w as int),
                    den * q <= num < den * q + den,
                    w >= 1,
        ;
        }
    }
}

/// The raster image the `image` crate decodes from a byte payload, or
/// nothing when the payload does not decode; a function of the bytes alone.
pub uninterp spec fn spec_decoded_image(data: Seq<u8>) -> Option<RasterImage>;

/// The image that resampling an image to the given dimensions with the
/// Lanczos3 filter produces; a function of its arguments alone.
pub uninterp spec fn spec_resized_image(img: RasterImage, w: u32, h: u32) -> RasterImage;

/// The WEBP encoding of a raster image; a function of the image alone.
pub uninterp spec fn spec_webp_bytes(img: RasterImage) -> Seq<u8>;

/// The dimensions of the raster image a payload decodes to, when it does.
pub closed spec fn spec_decoded_dims(data: Seq<u8>) -> Option<(u32, u32)> {
    match spec_decoded_image(data) {
        Some(img) => Some((img.width, img.height)),
        None => None,
    }
}

/// The image the pipeline hands to the encoder for a payload: the decoded
/// image itself at or below the width cap, the resized image above it.
pub closed spec fn spec_output_image(data: Seq<u8>) -> Option<RasterImage> {
    match spec_decoded_image(data) {
        None => None,
        Some(img) => Some(
            if img.width > MAX_WIDTH {
                spec_resized_image(img, MAX_WIDTH, spec_scaled_height(img.width, img.height))
            } else {
                img
            },
        ),
    }
}

/// The dimensions the WEBP encoder accepts: between one and 16384 pixels
/// on each side.
pub open spec fn spec_encoder_accepts(w: u32, h: u32) -> bool {
    1 <= w <= 16384 && 1 <= h <= 16384
}

/// Relies on `image::ImageReader`: `with_guessed_format` sniffs the concrete
/// format from the leading bytes of the stream, and `decode` produces the
/// raster image whose dimensions `GenericImageView::dimensions` reports.
/// Both read nothing but the bytes, so the outcome is a function of the
/// payload alone.
#[verifier::external_body]
fn decode_image(data: &Vec<u8>) -> (r: Result<RasterImage, String>)
    ensures
        r is Ok <==> spec_decoded_image(data@) is Some,
        r matches Ok(img) ==> spec_decoded_image(data@) == Some(img),
{
    let reader = match ImageReader::new(Cursor::new(data.as_slice())).with_guessed_format() {
        Ok(rd) => rd,
        Err(e) => {
            return Err(format!("Failed to read image format: {}", e));
        },
    };
    let img = match reader.decode() {
        Ok(i) => i,
        Err(e) => {
            return Err(format!("Failed to decode image: {}", e));
        },
    };
    let (w, h) = img.dimensions();
    Ok(RasterImage { width: w, height: h, inner: img })
}

/// Relies on `image::DynamicImage::resize_exact`: the result has exactly
/// the requested dimensions; the pixels are resampled with the Lanczos3
/// filter, a deterministic function of the image and the dimensions.
#[verifier::external_body]
fn resize_image(img: &RasterImage, w: u32, h: u32) -> (r: RasterImage)
    requires
        w >= 1,
        h >= 1,
    ensures
        r == spec_resized_image(*img, w, h),
        r.width == w,
        r.height == h,
{
    RasterImage { width: w, height: h, inner: img.inner.resize_exact(w, h, FilterType::Lanczos3) }
}

/// Relies on `image::DynamicImage::write_to` with `ImageFormat::WebP`: it
/// converts the image to an 8-bit color type the encoder accepts (which
/// cannot fail), then encodes lossless VP8L. On an in-memory buffer the
/// write itself cannot fail, and the encoder rejects exactly the images
/// with a dimension of zero or above 16384; the bytes written are a
/// deterministic function of the image.
#[verifier::external_body]
fn encode_webp(img: &RasterImage) -> (r: Result<Vec<u8>, String>)
    ensures
        r is Ok <==> spec_encoder_accepts(img.width, img.height),
        r matches Ok(b) ==> b@ == spec_webp_bytes(*img),
{
    let mut buf = Cursor::new(Vec::new());
    match img.inner.write_to(&mut buf, image::ImageFormat::WebP) {
        Ok(()) => Ok(buf.into_inner()),
        Err(e) => Err(format!("Failed to encode WebP: {}", e)),
    }
}

/// What a transcode produced: the WEBP bytes, the decoded input dimensions,
/// and the stored output dimensions.
pub struct TranscodeOutput {
    pub bytes: Vec<u8>,
    pub input_width: u32,
    pub input_height: u32,
    pub width: u32,
    pub height: u32,
}

/// Decode the payload, auto-detecting the concrete format from the byte
/// stream itself; resize to width 1200 when wider, preserving aspect ratio;
/// encode as WEBP. It succeeds exactly when the payload decodes and the
/// planned dimensions fit the encoder, and the produced bytes are the WEBP
/// encoding of the (possibly resized) decoded image. Decode failure fails
/// the request with `DecodeError`, encode failure with `EncodeError`; no
/// other error can come out.
pub fn transcode_to_webp(data: &Vec<u8>) -> (r: Result<TranscodeOutput, UploadError>)
    ensures
        r matches Ok(t) ==> (spec_output_image(data@) matches Some(out) && t.bytes@
            == spec_webp_bytes(out) && (t.width, t.height) == spec_target_dims(
            t.input_width,
            t.input_height,
        ) && spec_decoded_dims(data@) == Some((t.input_width, t.input_height))),
        r matches Err(e) ==> e is DecodeError || e is EncodeError,
        spec_decoded_dims(data@) is None <==> (r matches Err(e) && e is DecodeError),
        r is Ok <==> (spec_decoded_dims(data@) matches Some(d) && spec_encoder_accepts(
            spec_target_dims(d.0, d.1).0,
            spec_target_dims(d.0, d.1).1,
        )),
{
    let img = match decode_image(data) {
        Ok(i) => i,
        Err(m) => {
            return Err(UploadError::DecodeError(m));
        },
    };
    let iw = img.width;
    let ih = img.height;
    let (ow, oh) = plan_dimensions(iw, ih);
    let out_img = if iw > MAX_WIDTH {
        resize_image(&img, ow, oh)
    } else {
        img
    };
    let bytes = match encode_webp(&out_img) {
        Ok(b) => b,
        Err(m) => {
            return Err(UploadError::EncodeError(m));
        },
    };
    Ok(TranscodeOutput { bytes, input_width: iw, input_height: ih, width: ow, height: oh })
}

} // verus!
