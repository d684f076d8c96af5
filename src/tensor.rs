use vstd::prelude::*;

verus! {

/// Number of colour channels in a tensor element group: R, G, B.
pub const CHANNELS: usize = 3;

/// Every element `n` of an [`InputTensor`] stands for the real value `n / VALUE_SCALE`.
/// With this scale, `(b - 127.5) / 128` is exactly `(2 * b - 255) / 256`.
pub const VALUE_SCALE: i16 = 256;

/// The element that stands for byte `b`, in units of `1 / VALUE_SCALE`:
/// `(b - 127.5) / 128 == (2 * b - 255) / 256`.
pub open spec fn normalized(b: u8) -> int {
    2 * b - 255
}

/// The byte that an element stands for: the inverse of [`normalized`].
pub open spec fn denormalized(n: int) -> int {
    (n + 255) / 2
}

/// Whether `n`, in units of `1 / VALUE_SCALE`, lies in the range of the normalization
/// formula over bytes, `[-0.99609375, 0.99609375]`.
pub open spec fn in_value_range(n: int) -> bool {
    -255 <= n <= 255
}

/// What a tensor holds: the shape `(1, height, width, CHANNELS)` and its elements in
/// row-major, channel-interleaved order.
pub struct TensorView {
    pub height: nat,
    pub width: nat,
    pub data: Seq<i16>,
}

/// A model input tensor of shape `(1, height, width, 3)`, channels R, G, B, each element
/// a normalized byte stored exactly as a numerator over [`VALUE_SCALE`].
pub struct InputTensor {
    height: usize,
    width: usize,
    data: Vec<i16>,
}

/// The pixel buffer does not hold `width * height` RGB pixels.
#[derive(Debug, Clone, Copy, PartialEq, Eq)]
pub struct ShapeError;

impl View for InputTensor {
    type V = TensorView;

    closed spec fn view(&self) -> TensorView {
        TensorView { height: self.height as nat, width: self.width as nat, data: self.data@ }
    }
}

impl InputTensor {
    #[verifier::type_invariant]
    spec fn inv(&self) -> bool {
        &&& self.data@.len() == self.height * self.width * CHANNELS
        &&& forall|i: int| 0 <= i < self.data@.len() ==> -255 <= #[trigger] self.data@[i] <= 255
    }

    /// The shape `(1, height, width, 3)`.
    pub fn shape(&self) -> (r: (usize, usize, usize, usize))
        ensures
            r.0 == 1,
            r.1 == self@.height,
            r.2 == self@.width,
            r.3 == CHANNELS,
            self@.data.len() == r.1 * r.2 * r.3,
    {
        proof {
            use_type_invariant(self);
        }
        (1, self.height, self.width, CHANNELS)
    }

    /// The elements, as numerators over [`VALUE_SCALE`].
    pub fn numerators(&self) -> (r: &Vec<i16>)
        ensures
            r@ == self@.data,
            forall|i: int| 0 <= i < r@.len() ==> in_value_range(#[trigger] r@[i] as int),
    {
        proof {
            use_type_invariant(self);
        }
        &self.data
    }

    /// The pixel buffer that the tensor was made from: each element mapped back to its byte.
    pub fn to_pixels(&self) -> (r: Vec<u8>)
        ensures
            r@.len() == self@.data.len(),
            forall|i: int| 0 <= i < r@.len() ==> #[trigger] r@[i] as int == denormalized(self@.data[i] as int),
    {
        proof {
            use_type_invariant(self);
        }
        let mut out: Vec<u8> = Vec::with_capacity(self.data.len());
        let mut i: usize = 0;
        while i < self.data.len()
            invariant
                0 <= i <= self.data@.len(),
                out@.len() == i,
                forall|j: int| 0 <= j < self.data@.len() ==> -255 <= #[trigger] self.data@[j] <= 255,
                forall|j: int| 0 <= j < i ==> #[trigger] out@[j] as int == denormalized(self.data@[j] as int),
            decreases self.data@.len() - i,
        {
            let n: i16 = self.data[i];
            let b: u8 = ((n + 255) / 2) as u8;
            out.push(b);
            i = i + 1;
        }
        out
    }
}

/// Builds the input tensor of shape `(1, height, width, 3)` from an RGB pixel buffer in its
/// row-major, channel-interleaved order, each byte `b` becoming `(b - 127.5) / 128`.
pub fn preprocess_nhwc(pixels: &Vec<u8>, width: u32, height: u32) -> (r: Result<InputTensor, ShapeError>)
    ensures
        r is Ok <==> pixels@.len() == width * height * CHANNELS,
        r matches Ok(t) ==> {
            &&& t@.height == height
            &&& t@.width == width
            &&& t@.data.len() == pixels@.len()
            &&& forall|i: int| 0 <= i < pixels@.len() ==> #[trigger] t@.data[i] as int == normalized(pixels@[i])
        },
{
    proof {
        let h = height as int;
        let w = width as int;
        assert(0 <= w * h <= 0xffff_ffff * 0xffff_ffff) by (nonlinear_arith)
            requires
                0 <= h <= 0xffff_ffff,
                0 <= w <= 0xffff_ffff,
        ;
    }
    let area: u128 = (width as u128) * (height as u128);
    let numel: u128 = area * (CHANNELS as u128);
    proof {
        assert(height * width == width * height) by (nonlinear_arith);
    }
    if numel != pixels.len() as u128 {
        return Err(ShapeError);
    }
    let mut data: Vec<i16> = Vec::with_capacity(pixels.len());
    let mut i: usize = 0;
    while i < pixels.len()
        invariant
            0 <= i <= pixels@.len(),
            data@.len() == i,
            forall|j: int| 0 <= j < i ==> #[trigger] data@[j] as int == normalized(pixels@[j]),
            forall|j: int| 0 <= j < i ==> -255 <= #[trigger] data@[j] <= 255,
        decreases pixels@.len() - i,
    {
        let b: u8 = pixels[i];
        data.push(2 * (b as i16) - 255);
        i = i + 1;
    }
    let t = InputTensor { height: height as usize, width: width as usize, data };
    Ok(t)
}

/// Every element of a tensor built from bytes lies in `[-0.99609375, 0.99609375]`, the
/// range of the normalization formula over bytes.
pub proof fn lemma_normalized_in_range(b: u8)
    ensures
        in_value_range(normalized(b)),
{
}

/// Mapping a normalized element back to pixel space recovers the byte it was made from.
pub proof fn lemma_round_trip(b: u8)
    ensures
        denormalized(normalized(b)) == b as int,
{
}

} // verus!
