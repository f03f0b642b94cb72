//! Downscaling of captured frames before they are handed to a vision
//! backend: trusted wrappers around the image codec, and a verified
//! computation of the scaled dimensions from an integer percentage.

use vstd::prelude::*;

verus! {

/// A byte string decodes as an image: `image::load_from_memory` either
/// accepts it or it does not, a function of the bytes alone.
pub uninterp spec fn png_decodes(png: Seq<u8>) -> bool;

/// The pixel dimensions of a decodable image, as the codec reads them: a
/// function of the bytes alone.
pub uninterp spec fn png_dims_of(png: Seq<u8>) -> (u32, u32);

/// The downscale pipeline (decode, resize to fit the given dimensions,
/// re-encode as PNG) succeeds on these arguments: a function of the
/// arguments alone.
pub uninterp spec fn resize_ok(png: Seq<u8>, width: u32, height: u32) -> bool;

/// What the downscale pipeline returns when it succeeds: a function of the
/// arguments alone.
pub uninterp spec fn resized_png_of(png: Seq<u8>, width: u32, height: u32) -> Seq<u8>;

/// `dim` scaled down to `percent` of its size, but never below one pixel.
pub open spec fn spec_scaled_dimension(dim: u32, percent: u32) -> u32 {
    let scaled = (dim * percent) / 100;
    if scaled < 1 {
        1u32
    } else {
        scaled as u32
    }
}

/// Scale one image dimension to `percent` of its size, keeping at least one
/// pixel.
pub fn scaled_dimension(dim: u32, percent: u32) -> (r: u32)
    requires
        1 <= percent <= 100,
    ensures
        r == spec_scaled_dimension(dim, percent),
        r >= 1,
{
    proof {
        assert(dim * percent <= dim * 100) by (nonlinear_arith)
            requires
                percent <= 100,
                0 <= dim,
        ;
        assert((dim * 100) / 100 == dim) by (nonlinear_arith);
        assert((dim * percent) / 100 <= (dim * 100) / 100) by (nonlinear_arith)
            requires
                dim * percent <= dim * 100,
        ;
    }
    let wide: u64 = (dim as u64) * (percent as u64) / 100;
    let scaled = wide as u32;
    if scaled < 1 {
        1
    } else {
        scaled
    }
}

/// Read the pixel dimensions of a PNG-encoded image, or `None` exactly when
/// the bytes cannot be decoded.
///
/// Relies on `image::load_from_memory` and `DynamicImage::dimensions`: both
/// are deterministic in the bytes, and reading the dimensions of a decoded
/// image cannot fail.
#[verifier::external_body]
fn png_dimensions(png_data: &Vec<u8>) -> (r: Option<(u32, u32)>)
    ensures
        r is Some <==> png_decodes(png_data@),
        r matches Some(d) ==> d == png_dims_of(png_data@),
{
    match image::load_from_memory(png_data.as_slice()) {
        Ok(img) => Some(image::GenericImageView::dimensions(&img)),
        Err(_) => None,
    }
}

/// Re-encode a PNG-encoded image scaled down to fit within the given
/// dimensions, or `None` when the bytes cannot be decoded or re-encoded.
///
/// Relies on `image::load_from_memory`, `DynamicImage::resize` with the
/// Lanczos3 filter, and `DynamicImage::write_to` with the PNG format: the
/// whole pipeline is deterministic in its arguments, so both its success and
/// its output are functions of them alone.
#[verifier::external_body]
fn resize_png_to(png_data: &Vec<u8>, width: u32, height: u32) -> (r: Option<Vec<u8>>)
    requires
        width >= 1,
        height >= 1,
    ensures
        r is Some <==> resize_ok(png_data@, width, height),
        r matches Some(v) ==> v@ == resized_png_of(png_data@, width, height),
{
    let img = match image::load_from_memory(png_data.as_slice()) {
        Ok(img) => img,
        Err(_) => return None,
    };
    let resized = img.resize(width, height, image::imageops::FilterType::Lanczos3);
    let mut out: Vec<u8> = Vec::new();
    match resized.write_to(&mut std::io::Cursor::new(&mut out), image::ImageFormat::Png) {
        Ok(()) => Some(out),
        Err(_) => None,
    }
}

/// Downscaling a frame to `percent` of its dimensions succeeds: the frame
/// decodes and the pipeline accepts the scaled dimensions.
pub open spec fn spec_resize_succeeds(png: Seq<u8>, percent: u32) -> bool {
    png_decodes(png) && resize_ok(
        png,
        spec_scaled_dimension(png_dims_of(png).0, percent),
        spec_scaled_dimension(png_dims_of(png).1, percent),
    )
}

/// The frame downscaled to `percent` of its dimensions.
pub open spec fn spec_resized(png: Seq<u8>, percent: u32) -> Seq<u8> {
    resized_png_of(
        png,
        spec_scaled_dimension(png_dims_of(png).0, percent),
        spec_scaled_dimension(png_dims_of(png).1, percent),
    )
}

/// Downscale a PNG-encoded frame to `scale_percent` percent of its
/// dimensions, or `None` exactly when the frame cannot be decoded or
/// re-encoded.
pub fn resize_image(png_data: &Vec<u8>, scale_percent: u32) -> (r: Option<Vec<u8>>)
    requires
        1 <= scale_percent <= 100,
    ensures
        r is Some <==> spec_resize_succeeds(png_data@, scale_percent),
        r matches Some(v) ==> v@ == spec_resized(png_data@, scale_percent),
{
    match png_dimensions(png_data) {
        Some(dims) => {
            let width = scaled_dimension(dims.0, scale_percent);
            let height = scaled_dimension(dims.1, scale_percent);
            resize_png_to(png_data, width, height)
        },
        None => None,
    }
}

} // verus!
