//! The image transformer: decode, compute the reduced dimensions, resample,
//! select the output codec, encode.
//!
//! The exact per-image contract stands on [`transform_decoded`], which takes
//! the decoded image as an argument and holds for every value of it;
//! [`transform_image`] states only what holds whatever the decoder returned,
//! since decoding itself is promised nothing (see `img`).

use vstd::prelude::*;
use crate::img::{Image, codec_recognizes, decode_image, encode_image, encode_ok,
    extension_recognized, resize_image};
use crate::resize::{reduce_count, reduced_dim};

verus! {

/// Why one file's transformation failed.
#[derive(Debug)]
pub enum TransformError {
    /// The input bytes decode to no image; carries the decoder's message.
    Decode(String),
    /// A reduced dimension came out zero; a degenerate image is not written.
    ZeroDimension,
    /// The codec layer selects no output format for the requested extension.
    UnsupportedOutput,
    /// The encoder failed; carries the encoder's message.
    Encode(String),
}

/// A successfully transformed image: the encoded output bytes and the
/// dimensions of the encoded image.
pub struct Resized {
    pub bytes: Vec<u8>,
    pub width: u32,
    pub height: u32,
}

/// What a transformation run guarantees whatever the decoder returned: an
/// unrecognized output extension never succeeds and is the only reading of
/// that error, and a successful run has positive dimensions and a
/// recognized extension.
pub open spec fn transform_post(ext: Seq<char>, r: Result<Resized, TransformError>) -> bool {
    &&& !codec_recognizes(ext) ==> !(r is Ok)
    &&& ((r matches Err(TransformError::UnsupportedOutput)) ==> !codec_recognizes(ext))
    &&& (r matches Ok(o) ==> o.width > 0 && o.height > 0 && codec_recognizes(ext))
}

/// Transform an already decoded image: compute the reduced dimensions,
/// reject the degenerate zero case, reject an extension the codec layer
/// does not recognize, resample, encode. Success is owed exactly when the
/// encoder accepts the reduced geometry and color type, and a successful
/// result carries exactly the reduced dimensions.
pub fn transform_decoded(img: Image, reduce: u8, extension: &str) -> (r: Result<
    Resized,
    TransformError,
>)
    requires
        1 <= reduce <= 100,
    ensures
        !(r matches Err(TransformError::Decode(_))),
        ((r matches Err(TransformError::ZeroDimension)) <==> (reduced_dim(img.width(), reduce)
            == 0 || reduced_dim(img.height(), reduce) == 0)),
        ((r matches Err(TransformError::UnsupportedOutput)) <==> (reduced_dim(img.width(), reduce)
            > 0 && reduced_dim(img.height(), reduce) > 0 && !codec_recognizes(extension@))),
        (reduced_dim(img.width(), reduce) > 0 && reduced_dim(img.height(), reduce) > 0
            && codec_recognizes(extension@)) ==> ((r is Ok) <==> encode_ok(
            reduced_dim(img.width(), reduce),
            reduced_dim(img.height(), reduce),
            img.color(),
            extension@,
        )),
        (r matches Ok(o) ==> o.width == reduced_dim(img.width(), reduce) && o.height
            == reduced_dim(img.height(), reduce) && o.width > 0 && o.height > 0
            && codec_recognizes(extension@)),
{
    let new_w = reduce_count(reduce, img.width());
    let new_h = reduce_count(reduce, img.height());
    if new_w == 0 || new_h == 0 {
        return Err(TransformError::ZeroDimension);
    }
    if !extension_recognized(extension) {
        return Err(TransformError::UnsupportedOutput);
    }
    let resized = resize_image(&img, new_w, new_h);
    match encode_image(&resized, extension) {
        Ok(bytes) => Ok(Resized { bytes, width: new_w, height: new_h }),
        Err(e) => Err(TransformError::Encode(e)),
    }
}

/// Transform one input image: decode `input`, reduce both dimensions by
/// `reduce` percent, resample with the fixed Lanczos3 filter, and encode in
/// the format the codec layer selects for `extension`. The decode step is
/// promised nothing, so this contract holds whatever the decoder returned;
/// the exact per-image clauses stand on `transform_decoded`.
pub fn transform_image(input: &[u8], reduce: u8, extension: &str) -> (r: Result<
    Resized,
    TransformError,
>)
    requires
        1 <= reduce <= 100,
    ensures
        transform_post(extension@, r),
{
    let img = match decode_image(input) {
        Ok(img) => img,
        Err(e) => {
            return Err(TransformError::Decode(e));
        },
    };
    transform_decoded(img, reduce, extension)
}

} // verus!
