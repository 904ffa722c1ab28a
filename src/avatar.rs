//! The profile picture: image bytes decoded, resampled to a square thumbnail
//! and kept as unmultiplied RGBA samples.

use vstd::prelude::*;

use crate::error::FetchError;

verus! {

#[verifier::external_type_specification]
#[verifier::external_body]
pub struct ExImageError(image::ImageError);

/// The width and height of the image that `bytes` decode to; `None` when no
/// supported format decodes them.
pub uninterp spec fn decoded_size(bytes: Seq<u8>) -> Option<(u32, u32)>;

/// Relies on `image::load_from_memory`, which sniffs the format and decodes,
/// and on `DynamicImage::into_rgba8` and `ImageBuffer::into_raw`, which give
/// the decoded image as `4 * width * height` RGBA samples, row by row.
#[verifier::external_body]
fn decode_rgba(bytes: &[u8]) -> (r: Result<(u32, u32, Vec<u8>), image::ImageError>)
    ensures
        r matches Ok((w, h, px)) ==> decoded_size(bytes@) == Some((w, h)) && px@.len() == 4 * w * h,
        r is Err ==> decoded_size(bytes@) is None,
{
    let img = image::load_from_memory(bytes)?.into_rgba8();
    Ok((img.width(), img.height(), img.into_raw()))
}

/// Relies on `image::imageops::resize` with the Lanczos3 filter, which
/// returns an image of exactly `nw` by `nh` pixels; the source is rebuilt
/// from its raw samples by `ImageBuffer::from_raw`, which accepts a buffer
/// of `4 * w * h` bytes. When the size already matches, `resize` copies
/// the pixels unchanged. A source without pixels would make the resampler
/// index out of bounds; its intermediate buffer of `w * nh` four-channel
/// `f32` pixels, or its result, panics where it exceeds `isize::MAX` bytes.
#[verifier::external_body]
fn resize_rgba(w: u32, h: u32, px: Vec<u8>, nw: u32, nh: u32) -> (r: Vec<u8>)
    requires
        w > 0,
        h > 0,
        px@.len() == 4 * w * h,
        16 * (w as int) * (nh as int) <= isize::MAX,
        16 * (nw as int) * (nh as int) <= isize::MAX,
    ensures
        r@.len() == 4 * nw * nh,
        nw == w && nh == h ==> r@ == px@,
{
    let src: image::RgbaImage = image::ImageBuffer::from_raw(w, h, px).unwrap();
    image::imageops::resize(&src, nw, nh, image::imageops::FilterType::Lanczos3).into_raw()
}

/// The side of the square thumbnail, in pixels.
pub const THUMBNAIL_SIZE: u32 = 120;

/// A decoded profile picture of `THUMBNAIL_SIZE` pixels square, as
/// unmultiplied RGBA samples, row by row.
pub struct ProfileImage {
    width: u32,
    height: u32,
    pixels: Vec<u8>,
}

impl ProfileImage {
    /// The width, the height and the samples of the picture.
    pub closed spec fn view_parts(&self) -> (u32, u32, Seq<u8>) {
        (self.width, self.height, self.pixels@)
    }

    /// A thumbnail: `THUMBNAIL_SIZE` square, four samples per pixel.
    pub open spec fn wf(&self) -> bool {
        &&& self.view_parts().0 == THUMBNAIL_SIZE
        &&& self.view_parts().1 == THUMBNAIL_SIZE
        &&& self.view_parts().2.len() == 4 * THUMBNAIL_SIZE * THUMBNAIL_SIZE
    }

    /// Whether an image `w` pixels wide can be resampled to the thumbnail
    /// size within the memory that one buffer may address.
    pub open spec fn resamplable_width(w: u32) -> bool {
        16 * (w as int) * (THUMBNAIL_SIZE as int) <= isize::MAX
    }

    /// Resamples a decoded image of `w` by `h` pixels to the thumbnail size;
    /// an image without pixels, or too wide to resample, is a decode failure.
    /// An image of the thumbnail size already keeps its samples.
    pub fn from_rgba(w: u32, h: u32, px: Vec<u8>) -> (r: Result<ProfileImage, FetchError>)
        requires
            px@.len() == 4 * w * h,
        ensures
            r is Ok <==> w > 0 && h > 0 && ProfileImage::resamplable_width(w),
            r matches Ok(p) ==> p.wf(),
            r matches Err(e) ==> e == FetchError::Decode,
            w == THUMBNAIL_SIZE && h == THUMBNAIL_SIZE ==> (r matches Ok(p) && p.view_parts().2 == px@),
    {
        let per_column: u64 = 16 * (THUMBNAIL_SIZE as u64);
        let widest: u64 = (isize::MAX as u64) / per_column;
        proof {
            assert(ProfileImage::resamplable_width(w) <==> w as u64 <= widest) by (nonlinear_arith)
                requires
                    per_column == 16 * (THUMBNAIL_SIZE as int),
                    per_column > 0,
                    widest == (isize::MAX as int) / (per_column as int),
            ;
        }
        if w == 0 || h == 0 || w as u64 > widest {
            return Err(FetchError::Decode);
        }
        let pixels = resize_rgba(w, h, px, THUMBNAIL_SIZE, THUMBNAIL_SIZE);
        Ok(ProfileImage { width: THUMBNAIL_SIZE, height: THUMBNAIL_SIZE, pixels })
    }

    /// Decodes image bytes of any supported format and resamples them to the
    /// thumbnail size.
    pub fn decode(bytes: &[u8]) -> (r: Result<ProfileImage, FetchError>)
        ensures
            r is Ok <==> (decoded_size(bytes@) matches Some((w, h)) && w > 0 && h > 0
                && ProfileImage::resamplable_width(w)),
            r matches Ok(p) ==> p.wf(),
            r matches Err(e) ==> e == FetchError::Decode,
    {
        match decode_rgba(bytes) {
            Ok((w, h, px)) => ProfileImage::from_rgba(w, h, px),
            Err(_) => Err(FetchError::Decode),
        }
    }

    /// The width in pixels.
    pub fn width(&self) -> (r: u32)
        ensures
            r == self.view_parts().0,
    {
        self.width
    }

    /// The height in pixels.
    pub fn height(&self) -> (r: u32)
        ensures
            r == self.view_parts().1,
    {
        self.height
    }

    /// The RGBA samples, row by row.
    pub fn pixels(&self) -> (r: &Vec<u8>)
        ensures
            r@ == self.view_parts().2,
    {
        &self.pixels
    }
}

} // verus!
