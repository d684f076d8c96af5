use vstd::prelude::*;
use crate::tensor::{denormalized, in_value_range, lemma_round_trip, normalized, preprocess_nhwc, InputTensor, CHANNELS};

verus! {

/// Side of the square model input, in pixels.
pub const SIDE: u32 = 112;

/// Whether the image codec decodes `bytes` (its format guessed from the bytes themselves).
pub uninterp spec fn is_decodable(bytes: Seq<u8>) -> bool;

/// The RGB buffer of the image that `bytes` decode to, resized to `width` x `height` with the
/// triangle filter, in row-major, channel-interleaved order.
pub uninterp spec fn rgb8_resized_of(bytes: Seq<u8>, width: u32, height: u32) -> Seq<u8>;

/// Relies on `image::load_from_memory`, then `DynamicImage::resize_exact` with the triangle
/// filter, `to_rgb8` and `into_raw`. Whether decoding succeeds, and the pixels it gives, depend
/// on the bytes alone (the format is guessed from them, under the default limits; no decoding
/// hooks are registered), and no format is guessed from an empty buffer. The resized image has
/// exactly the dimensions asked for, so its RGB buffer holds `width * height * 3` bytes.
#[verifier::external_body]
fn decode_resized_rgb8(bytes: &[u8], width: u32, height: u32) -> (r: Option<Vec<u8>>)
    requires
        width * height * 3 <= usize::MAX,
    ensures
        r is Some <==> is_decodable(bytes@),
        bytes@.len() == 0 ==> r is None,
        r matches Some(v) ==> v@ == rgb8_resized_of(bytes@, width, height) && v@.len() == width
            * height * 3,
{
    match image::load_from_memory(bytes) {
        Ok(img) => Some(
            img.resize_exact(width, height, image::imageops::FilterType::Triangle).to_rgb8().into_raw(),
        ),
        Err(_) => None,
    }
}

/// A decoded image ready for the model: its `SIDE` x `SIDE` RGB pixels and the tensor made
/// from them.
pub struct Preprocessed {
    pub pixels: Vec<u8>,
    pub tensor: InputTensor,
}

/// What `preprocess` guarantees of its result: the shape `(1, SIDE, SIDE, 3)`, each element
/// the normalized pixel byte at the same place, all within the normalization range.
pub open spec fn is_model_input(p: Preprocessed) -> bool {
    &&& p.tensor@.height == SIDE
    &&& p.tensor@.width == SIDE
    &&& p.pixels@.len() == SIDE * SIDE * CHANNELS
    &&& p.tensor@.data.len() == p.pixels@.len()
    &&& forall|i: int| 0 <= i < p.pixels@.len() ==>
        #[trigger] p.tensor@.data[i] as int == normalized(p.pixels@[i])
    &&& forall|i: int| 0 <= i < p.tensor@.data.len() ==> in_value_range(#[trigger] p.tensor@.data[i] as int)
}

/// Mapping the tensor of a preprocessed image back to pixel space, the inverse of the
/// normalization formula, recovers its pixels exactly.
pub proof fn lemma_pixels_round_trip(p: Preprocessed)
    requires
        is_model_input(p),
    ensures
        forall|i: int| 0 <= i < p.pixels@.len() ==>
            denormalized(#[trigger] p.tensor@.data[i] as int) == p.pixels@[i] as int,
{
    assert forall|i: int| 0 <= i < p.pixels@.len() implies
        denormalized(#[trigger] p.tensor@.data[i] as int) == p.pixels@[i] as int by {
        lemma_round_trip(p.pixels@[i]);
    }
}

/// The bytes are not an image that the codec can decode.
#[derive(Debug, Clone, Copy, PartialEq, Eq, Structural)]
pub struct DecodeError;

/// Decodes an encoded image of any resolution, resizes it to `SIDE` x `SIDE` with a triangle
/// filter, drops any alpha channel and normalizes it into the model's input tensor.
pub fn preprocess(bytes: &[u8]) -> (r: Result<Preprocessed, DecodeError>)
    ensures
        r is Ok <==> is_decodable(bytes@),
        bytes@.len() == 0 ==> r is Err,
        r matches Ok(p) ==> is_model_input(p) && p.pixels@ == rgb8_resized_of(bytes@, SIDE, SIDE),
{
    match decode_resized_rgb8(bytes, SIDE, SIDE) {
        None => Err(DecodeError),
        Some(pixels) => {
            let t = preprocess_nhwc(&pixels, SIDE, SIDE);
            match t {
                Ok(tensor) => {
                    proof {
                        assert forall|i: int| 0 <= i < tensor@.data.len() implies in_value_range(
                            #[trigger] tensor@.data[i] as int,
                        ) by {
                            crate::tensor::lemma_normalized_in_range(pixels@[i]);
                        }
                    }
                    Ok(Preprocessed { pixels, tensor })
                },
                Err(_) => {
                    proof {
                        assert(false);
                    }
                    Err(DecodeError)
                },
            }
        },
    }
}

} // verus!
