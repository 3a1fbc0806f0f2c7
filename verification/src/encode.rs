//! The byte-budget-constrained encoder: the composited raster is written as
//! a lossless WebP picture, in a channel-reduced mode when every pixel is
//! opaque, and the result must stay strictly under a hard byte cap before it
//! is zero-padded to exactly that cap.

use vstd::prelude::*;

use crate::raster::{all_opaque, rgb_bytes_of, rgba_bytes_of, Raster};
use crate::Error;

verus! {

/// The hard ceiling on the encoded artifact, in bytes.
pub const ARTIFACT_CAP: usize = 4096;

/// The largest width or height the lossless encoder accepts.
pub const ENCODER_DIM_MAX: u32 = 16384;

/// The bytes of the lossless WebP encoding (predictor transform disabled) of
/// raw channel data: a function of the channel bytes, the dimensions and the
/// channel mode alone — the encoder draws on nothing else.
pub uninterp spec fn webp_lossless(data: Seq<u8>, w: u32, h: u32, alpha: bool) -> Seq<u8>;

/// The encoded form of a raster: channel-reduced RGB when every pixel is
/// fully opaque, full RGBA otherwise.
pub open spec fn encoded_webp(ps: Seq<crate::raster::Pixel>, w: u32, h: u32) -> Seq<u8> {
    if all_opaque(ps) {
        webp_lossless(rgb_bytes_of(ps), w, h, false)
    } else {
        webp_lossless(rgba_bytes_of(ps), w, h, true)
    }
}

/// Both dimensions lie in the range the encoder accepts.
pub open spec fn encoder_dims_ok(w: u32, h: u32) -> bool {
    1 <= w <= ENCODER_DIM_MAX && 1 <= h <= ENCODER_DIM_MAX
}

/// Relies on `image_webp::WebPEncoder::encode` writing to a byte vector,
/// with the predictor transform switched off: the encoding is lossless and
/// deterministic, it succeeds exactly when both dimensions are between 1 and
/// 16384, and it writes nothing else into the buffer.  The data length must
/// match the dimensions and mode, since the encoder asserts that.
#[verifier::external_body]
fn webp_encode(data: &Vec<u8>, w: u32, h: u32, alpha: bool) -> (r: Result<Vec<u8>, Error>)
    requires
        data@.len() == (if alpha {
            4int
        } else {
            3int
        }) * (w as int) * (h as int),
    ensures
        match r {
            Ok(v) => encoder_dims_ok(w, h) && v@ == webp_lossless(data@, w, h, alpha),
            Err(e) => e == Error::ArtifactTooLarge && !encoder_dims_ok(w, h),
        },
{
    let mut out: Vec<u8> = Vec::new();
    let mut enc = image_webp::WebPEncoder::new(&mut out);
    let mut params = image_webp::EncoderParams::default();
    params.use_predictor_transform = false;
    enc.set_params(params);
    let color = if alpha {
        image_webp::ColorType::Rgba8
    } else {
        image_webp::ColorType::Rgb8
    };
    match enc.encode(data.as_slice(), w, h, color) {
        Ok(()) => Ok(out),
        Err(_) => Err(Error::ArtifactTooLarge),
    }
}

/// Encodes the raster as lossless WebP, dropping the alpha channel when
/// every pixel is opaque.  A picture whose dimensions exceed the encoder's
/// range could never meet the byte cap, so it fails as too large.
pub fn encode_to_webp_deterministic(img: &Raster) -> (r: Result<Vec<u8>, Error>)
    requires
        img.wf(),
    ensures
        match r {
            Ok(v) => encoder_dims_ok(img.width, img.height) && v@ == encoded_webp(
                img.pixels@,
                img.width,
                img.height,
            ),
            Err(e) => e == Error::ArtifactTooLarge && !encoder_dims_ok(img.width, img.height),
        },
{
    proof {
        assert(3 * ((img.width as int) * (img.height as int)) == 3 * (img.width as int) * (
        img.height as int) && 4 * ((img.width as int) * (img.height as int)) == 4 * (
        img.width as int) * (img.height as int)) by (nonlinear_arith);
    }
    if img.is_fully_opaque() {
        let data = img.to_rgb_bytes();
        webp_encode(&data, img.width, img.height, false)
    } else {
        let data = img.to_rgba_bytes();
        webp_encode(&data, img.width, img.height, true)
    }
}

/// Left-aligns an encoded picture in a buffer of exactly the cap size,
/// zero-padded on the right.  The encoding must come in strictly under the
/// cap; one that does not is rejected, never truncated.
pub fn pad_artifact(webp: &Vec<u8>) -> (r: Result<Vec<u8>, Error>)
    ensures
        match r {
            Ok(v) => {
                &&& webp@.len() < ARTIFACT_CAP
                &&& v@.len() == ARTIFACT_CAP
                &&& v@.subrange(0, webp@.len() as int) =~= webp@
                &&& forall|j: int| webp@.len() <= j < ARTIFACT_CAP ==> #[trigger] v@[j] == 0
            },
            Err(e) => e == Error::ArtifactTooLarge && webp@.len() >= ARTIFACT_CAP,
        },
{
    let n = webp.len();
    if n >= ARTIFACT_CAP {
        return Err(Error::ArtifactTooLarge);
    }
    let mut out: Vec<u8> = Vec::new();
    let mut i: usize = 0;
    while i < n
        invariant
            n == webp@.len(),
            n < ARTIFACT_CAP,
            0 <= i <= n,
            out@.len() == i,
            forall|k: int| 0 <= k < i ==> #[trigger] out@[k] == webp@[k],
        decreases n - i,
    {
        out.push(webp[i]);
        i = i + 1;
    }
    while i < ARTIFACT_CAP
        invariant
            n == webp@.len(),
            n < ARTIFACT_CAP,
            n <= i <= ARTIFACT_CAP,
            out@.len() == i,
            forall|k: int| 0 <= k < n ==> #[trigger] out@[k] == webp@[k],
            forall|k: int| n <= k < i ==> #[trigger] out@[k] == 0,
        decreases ARTIFACT_CAP - i,
    {
        out.push(0);
        i = i + 1;
    }
    Ok(out)
}

/// Encodes a raster and pads it to the cap: the byte buffer the generation
/// path hands back.  Succeeds exactly when the encoder accepts the
/// dimensions and the encoding comes in strictly under the cap.
pub fn finish_artifact(img: &Raster) -> (r: Result<Vec<u8>, Error>)
    requires
        img.wf(),
    ensures
        match r {
            Ok(v) => {
                &&& encoder_dims_ok(img.width, img.height)
                &&& encoded_webp(img.pixels@, img.width, img.height).len() < ARTIFACT_CAP
                &&& v@.len() == ARTIFACT_CAP
                &&& v@.subrange(
                    0,
                    encoded_webp(img.pixels@, img.width, img.height).len() as int,
                ) =~= encoded_webp(img.pixels@, img.width, img.height)
                &&& forall|j: int|
                    encoded_webp(img.pixels@, img.width, img.height).len() <= j < ARTIFACT_CAP
                        ==> #[trigger] v@[j] == 0
            },
            Err(e) => {
                &&& e == Error::ArtifactTooLarge
                &&& (!encoder_dims_ok(img.width, img.height) || encoded_webp(
                    img.pixels@,
                    img.width,
                    img.height,
                ).len() >= ARTIFACT_CAP)
            },
        },
{
    let webp = encode_to_webp_deterministic(img)?;
    pad_artifact(&webp)
}


/// Determinism law: the contract of `finish_artifact` pins every byte of
/// the buffer, so any two buffers it can return for one encoding are equal.
pub proof fn lemma_artifact_bytes_determined(v1: Seq<u8>, v2: Seq<u8>, enc: Seq<u8>)
    requires
        enc.len() < ARTIFACT_CAP,
        v1.len() == ARTIFACT_CAP,
        v2.len() == ARTIFACT_CAP,
        v1.subrange(0, enc.len() as int) =~= enc,
        v2.subrange(0, enc.len() as int) =~= enc,
        forall|j: int| enc.len() <= j < ARTIFACT_CAP ==> #[trigger] v1[j] == 0,
        forall|j: int| enc.len() <= j < ARTIFACT_CAP ==> #[trigger] v2[j] == 0,
    ensures
        v1 =~= v2,
{
    assert forall|j: int| 0 <= j < v1.len() implies v1[j] == v2[j] by {
        if j < enc.len() {
            assert(v1.subrange(0, enc.len() as int)[j] == v1[j]);
            assert(v2.subrange(0, enc.len() as int)[j] == v2[j]);
        }
    }
}

} // verus!

