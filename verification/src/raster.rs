//! The in-memory picture the compositor works on: a width by height grid of
//! RGBA pixels, built from a decoded image, recoloured and overlaid in
//! place, and finally handed to the encoder as raw channel bytes.

use vstd::prelude::*;

use crate::Error;

verus! {

/// One RGBA pixel.
#[derive(Clone, Copy, Debug, PartialEq, Eq, Structural)]
pub struct Pixel {
    pub r: u8,
    pub g: u8,
    pub b: u8,
    pub a: u8,
}

/// One opaque colour, used for the recoloured values the caller computes.
#[derive(Clone, Copy, Debug, PartialEq, Eq, Structural)]
pub struct Rgb {
    pub r: u8,
    pub g: u8,
    pub b: u8,
}

/// A raster image: row-major pixels, `width * height` of them.
pub struct Raster {
    pub width: u32,
    pub height: u32,
    pub pixels: Vec<Pixel>,
}

/// The pixel sequence that a raw RGBA byte sequence denotes.
pub open spec fn pixels_of_rgba(raw: Seq<u8>) -> Seq<Pixel> {
    Seq::new(
        raw.len() / 4,
        |i: int| Pixel { r: raw[4 * i], g: raw[4 * i + 1], b: raw[4 * i + 2], a: raw[4 * i + 3] },
    )
}

/// The raw RGBA byte sequence of a pixel sequence: four bytes per pixel.
pub open spec fn rgba_bytes_of(ps: Seq<Pixel>) -> Seq<u8> {
    Seq::new(
        4 * ps.len(),
        |j: int|
            if j % 4 == 0 {
                ps[j / 4].r
            } else if j % 4 == 1 {
                ps[j / 4].g
            } else if j % 4 == 2 {
                ps[j / 4].b
            } else {
                ps[j / 4].a
            },
    )
}

/// The raw RGB byte sequence of a pixel sequence: three bytes per pixel, the
/// alpha channel dropped.
pub open spec fn rgb_bytes_of(ps: Seq<Pixel>) -> Seq<u8> {
    Seq::new(
        3 * ps.len(),
        |j: int|
            if j % 3 == 0 {
                ps[j / 3].r
            } else if j % 3 == 1 {
                ps[j / 3].g
            } else {
                ps[j / 3].b
            },
    )
}

/// A pixel the hue shift must not touch: fully transparent, or near-white
/// with every colour channel above the threshold (outline and background
/// pixels keep their exact bytes).
pub open spec fn hue_exempt(p: Pixel) -> bool {
    p.a == 0 || (p.r > 240 && p.g > 240 && p.b > 240)
}

/// What one pixel becomes under the hue shift: exempt pixels unchanged,
/// every other pixel takes the computed colour and keeps its alpha.
pub open spec fn hue_shift_result(p: Pixel, s: Rgb) -> Pixel {
    if hue_exempt(p) {
        p
    } else {
        Pixel { r: s.r, g: s.g, b: s.b, a: p.a }
    }
}

/// What base pixel `i` becomes when an accessory of width `aw` and height
/// `ah` is laid over a base of width `bw`: within the overlapping region a
/// visible accessory pixel contributes its blended colour and the larger of
/// the two alphas; everywhere else the base pixel stays.
pub open spec fn composite_result(
    base: Seq<Pixel>,
    bw: int,
    acc: Seq<Pixel>,
    aw: int,
    ah: int,
    blended: Seq<Rgb>,
    i: int,
) -> Pixel {
    if bw > 0 {
        let y = i / bw;
        let x = i % bw;
        if x < aw && y < ah {
            let j = y * aw + x;
            let ap = acc[j];
            if ap.a > 0 {
                Pixel {
                    r: blended[j].r,
                    g: blended[j].g,
                    b: blended[j].b,
                    a: if base[i].a >= ap.a {
                        base[i].a
                    } else {
                        ap.a
                    },
                }
            } else {
                base[i]
            }
        } else {
            base[i]
        }
    } else {
        base[i]
    }
}

/// A row and column that lie inside an accessory index its pixel sequence
/// within bounds.
proof fn lemma_row_col_in_acc(aw: int, ah: int, x: int, y: int)
    requires
        0 <= x < aw,
        0 <= y < ah,
    ensures
        0 <= y * aw + x,
        y * aw + x < aw * ah,
{
    assert(0 <= y * aw + x && y * aw + x < aw * ah) by (nonlinear_arith)
        requires
            0 <= x < aw,
            0 <= y < ah,
    ;
}

/// The byte sequence forms a picture the image library can decode.
pub uninterp spec fn decodable(data: Seq<u8>) -> bool;

/// What a decodable picture decodes to: width, height, and the raw RGBA
/// bytes, a function of the input bytes alone — the decoders mix in no
/// other input.
pub uninterp spec fn decoded_of(data: Seq<u8>) -> (u32, u32, Seq<u8>);

/// Relies on `image::load_from_memory` and `DynamicImage::to_rgba8`: the
/// decode succeeds exactly on decodable bytes, the dimensions and raw RGBA
/// buffer are the ones those bytes decode to, and the buffer holds exactly
/// four bytes per pixel of the dimensions.
#[verifier::external_body]
fn decode_rgba_image(data: &[u8]) -> (r: Result<(u32, u32, Vec<u8>), Error>)
    ensures
        match r {
            Ok(t) => {
                &&& decodable(data@)
                &&& t.0 == decoded_of(data@).0
                &&& t.1 == decoded_of(data@).1
                &&& t.2@ == decoded_of(data@).2
                &&& t.2@.len() == 4 * (t.0 as int) * (t.1 as int)
            },
            Err(e) => e == Error::AssetDecodeFailure && !decodable(data@),
        },
{
    match image::load_from_memory(data) {
        Ok(img) => {
            let rgba = img.to_rgba8();
            let (w, h) = rgba.dimensions();
            Ok((w, h, rgba.into_raw()))
        },
        Err(_) => Err(Error::AssetDecodeFailure),
    }
}

/// The raw RGBA bytes of the Lanczos3 resample of a picture to new
/// dimensions: the resampler is a fixed pure algorithm of the input buffer
/// and the four dimensions (its arithmetic is pinned per build, like the
/// generator's).
pub uninterp spec fn resized_rgba(raw: Seq<u8>, w: u32, h: u32, nw: u32, nh: u32) -> Seq<u8>;

/// Relies on `image::RgbaImage::from_raw` and `image::imageops::resize`
/// with the Lanczos3 filter: the resampled picture is the named function of
/// the input buffer and dimensions, with exactly four bytes per pixel of
/// the requested dimensions.
#[verifier::external_body]
fn resize_rgba_image(w: u32, h: u32, raw: &Vec<u8>, nw: u32, nh: u32) -> (r: Vec<u8>)
    requires
        raw@.len() == 4 * (w as int) * (h as int),
        4 * (nw as int) * (nh as int) <= usize::MAX,
    ensures
        r@ == resized_rgba(raw@, w, h, nw, nh),
        r@.len() == 4 * (nw as int) * (nh as int),
{
    let img = image::RgbaImage::from_raw(w, h, raw.clone()).unwrap();
    let out = image::imageops::resize(&img, nw, nh, image::imageops::FilterType::Lanczos3);
    out.into_raw()
}

/// Decodes encoded image bytes (format-sniffed) into a raster.  Succeeds
/// exactly on decodable bytes, and the raster is what those bytes decode
/// to.
pub fn decode_raster(data: &[u8]) -> (r: Result<Raster, Error>)
    ensures
        match r {
            Ok(img) => {
                &&& decodable(data@)
                &&& img.wf()
                &&& img.width == decoded_of(data@).0
                &&& img.height == decoded_of(data@).1
                &&& img.pixels@ =~= pixels_of_rgba(decoded_of(data@).2)
            },
            Err(e) => e == Error::AssetDecodeFailure && !decodable(data@),
        },
{
    match decode_rgba_image(data) {
        Ok((w, h, raw)) => Ok(Raster::from_rgba_raw(w, h, &raw)),
        Err(e) => Err(e),
    }
}

/// Resamples a raster to new dimensions with a high-quality filter.  The
/// result's pixels are the named resample of the raster's raw bytes.
pub fn resize_raster(img: &Raster, nw: u32, nh: u32) -> (r: Raster)
    requires
        img.wf(),
        4 * (nw as int) * (nh as int) <= usize::MAX,
    ensures
        r.wf(),
        r.width == nw,
        r.height == nh,
        r.pixels@ =~= pixels_of_rgba(
            resized_rgba(rgba_bytes_of(img.pixels@), img.width, img.height, nw, nh),
        ),
{
    proof {
        assert(4 * ((img.width as int) * (img.height as int)) == 4 * (img.width as int) * (
        img.height as int)) by (nonlinear_arith);
    }
    let raw = img.to_rgba_bytes();
    let out = resize_rgba_image(img.width, img.height, &raw, nw, nh);
    Raster::from_rgba_raw(nw, nh, &out)
}

/// Every pixel is fully opaque.
pub open spec fn all_opaque(ps: Seq<Pixel>) -> bool {
    forall|i: int| 0 <= i < ps.len() ==> #[trigger] ps[i].a == 255
}

impl Raster {
    /// The pixel grid matches the declared dimensions, and its raw RGBA form
    /// fits in a byte count the machine can address.
    pub open spec fn wf(&self) -> bool {
        &&& self.pixels@.len() == self.width * self.height
        &&& 4 * self.pixels@.len() <= usize::MAX
    }

    /// Builds a raster from raw RGBA bytes, four per pixel, row-major.
    pub fn from_rgba_raw(width: u32, height: u32, raw: &Vec<u8>) -> (r: Raster)
        requires
            raw@.len() == 4 * (width as int) * (height as int),
        ensures
            r.wf(),
            r.width == width,
            r.height == height,
            r.pixels@ =~= pixels_of_rgba(raw@),
    {
        let raw_len: usize = raw.len();
        proof {
            let t: int = (width as int) * (height as int);
            assert(raw@.len() == 4 * t) by (nonlinear_arith)
                requires
                    raw@.len() == 4 * (width as int) * (height as int),
                    t == (width as int) * (height as int),
            ;
            assert(t <= usize::MAX);
            assert((width as usize) as int == width as int);
            assert((height as usize) as int == height as int);
            assert(((width as usize) as int) * ((height as usize) as int) == t);
        }
        let n: usize = (width as usize) * (height as usize);
        let mut pixels: Vec<Pixel> = Vec::new();
        let mut i: usize = 0;
        while i < n
            invariant
                raw@.len() == 4 * n,
                4 * n <= usize::MAX,
                0 <= i <= n,
                pixels@.len() == i,
                forall|k: int| 0 <= k < i ==> #[trigger] pixels@[k] == pixels_of_rgba(raw@)[k],
            decreases n - i,
        {
            let p = Pixel {
                r: raw[4 * i],
                g: raw[4 * i + 1],
                b: raw[4 * i + 2],
                a: raw[4 * i + 3],
            };
            proof {
                assert(pixels_of_rgba(raw@)[i as int] == p);
            }
            pixels.push(p);
            i = i + 1;
        }
        Raster { width, height, pixels }
    }

    /// The raw RGBA bytes of the raster, as the encoder consumes them.
    pub fn to_rgba_bytes(&self) -> (r: Vec<u8>)
        requires
            self.wf(),
        ensures
            r@ =~= rgba_bytes_of(self.pixels@),
            r@.len() == 4 * self.pixels@.len(),
    {
        let n = self.pixels.len();
        let mut out: Vec<u8> = Vec::new();
        let mut j: usize = 0;
        while j < 4 * n
            invariant
                n == self.pixels@.len(),
                4 * n <= usize::MAX,
                0 <= j <= 4 * n,
                out@.len() == j,
                forall|k: int| 0 <= k < j ==> #[trigger] out@[k] == rgba_bytes_of(self.pixels@)[k],
            decreases 4 * n - j,
        {
            let p = self.pixels[j / 4];
            let byte: u8 = if j % 4 == 0 {
                p.r
            } else if j % 4 == 1 {
                p.g
            } else if j % 4 == 2 {
                p.b
            } else {
                p.a
            };
            out.push(byte);
            j = j + 1;
        }
        out
    }

    /// The raw RGB bytes of the raster, alpha dropped, for the channel-
    /// reduced encoding of fully opaque pictures.
    pub fn to_rgb_bytes(&self) -> (r: Vec<u8>)
        requires
            self.wf(),
        ensures
            r@ =~= rgb_bytes_of(self.pixels@),
            r@.len() == 3 * self.pixels@.len(),
    {
        let n = self.pixels.len();
        let mut out: Vec<u8> = Vec::new();
        let mut j: usize = 0;
        while j < 3 * n
            invariant
                n == self.pixels@.len(),
                4 * n <= usize::MAX,
                0 <= j <= 3 * n,
                out@.len() == j,
                forall|k: int| 0 <= k < j ==> #[trigger] out@[k] == rgb_bytes_of(self.pixels@)[k],
            decreases 3 * n - j,
        {
            let p = self.pixels[j / 3];
            let byte: u8 = if j % 3 == 0 {
                p.r
            } else if j % 3 == 1 {
                p.g
            } else {
                p.b
            };
            out.push(byte);
            j = j + 1;
        }
        out
    }

    /// Recolours the raster: pixel `i` takes the caller-computed colour
    /// `shifted[i]` and keeps its alpha, except that exempt pixels pass
    /// through untouched whatever colour the caller computed for them.
    pub fn apply_hue_shift(&mut self, shifted: &Vec<Rgb>)
        requires
            old(self).wf(),
            shifted@.len() == old(self).pixels@.len(),
        ensures
            final(self).wf(),
            final(self).width == old(self).width,
            final(self).height == old(self).height,
            forall|i: int|
                0 <= i < final(self).pixels@.len() ==> #[trigger] final(self).pixels@[i]
                    == hue_shift_result(
                    old(self).pixels@[i],
                    shifted@[i],
                ),
    {
        let n = self.pixels.len();
        let mut i: usize = 0;
        while i < n
            invariant
                n == self.pixels@.len(),
                self.pixels@.len() == old(self).pixels@.len(),
                shifted@.len() == old(self).pixels@.len(),
                self.width == old(self).width,
                self.height == old(self).height,
                old(self).wf(),
                0 <= i <= n,
                forall|k: int|
                    0 <= k < i ==> #[trigger] self.pixels@[k] == hue_shift_result(
                        old(self).pixels@[k],
                        shifted@[k],
                    ),
                forall|k: int| i <= k < n ==> #[trigger] self.pixels@[k] == old(self).pixels@[k],
            decreases n - i,
        {
            let p = self.pixels[i];
            if !(p.a == 0 || (p.r > 240 && p.g > 240 && p.b > 240)) {
                let s = shifted[i];
                self.pixels[i] = Pixel { r: s.r, g: s.g, b: s.b, a: p.a };
            }
            i = i + 1;
        }
    }

    /// Overlays an accessory on the raster.  The caller supplies, for every
    /// accessory pixel, the blended colour it computed from the two pixels
    /// under the standard "over" rule; this method applies those colours
    /// where the accessory is visible, takes the larger alpha there, and
    /// leaves the base untouched wherever the accessory is fully
    /// transparent or out of range.
    pub fn composite_over(&mut self, acc: &Raster, blended: &Vec<Rgb>)
        requires
            old(self).wf(),
            acc.wf(),
            blended@.len() == acc.pixels@.len(),
        ensures
            final(self).wf(),
            final(self).width == old(self).width,
            final(self).height == old(self).height,
            forall|i: int|
                0 <= i < final(self).pixels@.len() ==> #[trigger] final(self).pixels@[i]
                    == composite_result(
                    old(self).pixels@,
                    old(self).width as int,
                    acc.pixels@,
                    acc.width as int,
                    acc.height as int,
                    blended@,
                    i,
                ),
    {
        let bw = self.width;
        let bh = self.height;
        let aw = acc.width;
        let ah = acc.height;
        let n = self.pixels.len();
        let mut i: usize = 0;
        while i < n
            invariant
                n == self.pixels@.len(),
                self.pixels@.len() == old(self).pixels@.len(),
                self.width == old(self).width,
                self.height == old(self).height,
                bw == self.width,
                bh == self.height,
                aw == acc.width,
                ah == acc.height,
                old(self).wf(),
                acc.wf(),
                blended@.len() == acc.pixels@.len(),
                0 <= i <= n,
                forall|k: int|
                    0 <= k < i ==> #[trigger] self.pixels@[k] == composite_result(
                        old(self).pixels@,
                        old(self).width as int,
                        acc.pixels@,
                        acc.width as int,
                        acc.height as int,
                        blended@,
                        k,
                    ),
                forall|k: int| i <= k < n ==> #[trigger] self.pixels@[k] == old(self).pixels@[k],
            decreases n - i,
        {
            if bw > 0 {
                let y = i / (bw as usize);
                let x = i % (bw as usize);
                if x < aw as usize && y < ah as usize {
                    proof {
                        lemma_row_col_in_acc(aw as int, ah as int, x as int, y as int);
                    }
                    let j = y * (aw as usize) + x;
                    let ap = acc.pixels[j];
                    if ap.a > 0 {
                        let bp = self.pixels[i];
                        let s = blended[j];
                        let na = if bp.a >= ap.a {
                            bp.a
                        } else {
                            ap.a
                        };
                        self.pixels[i] = Pixel { r: s.r, g: s.g, b: s.b, a: na };
                    }
                }
            }
            i = i + 1;
        }
    }

    /// Whether every pixel of the raster is fully opaque.
    pub fn is_fully_opaque(&self) -> (r: bool)
        ensures
            r == all_opaque(self.pixels@),
    {
        let n = self.pixels.len();
        let mut i: usize = 0;
        while i < n
            invariant
                n == self.pixels@.len(),
                0 <= i <= n,
                forall|k: int| 0 <= k < i ==> #[trigger] self.pixels@[k].a == 255,
            decreases n - i,
        {
            if self.pixels[i].a != 255 {
                return false;
            }
            i = i + 1;
        }
        true
    }
}


/// Invariance law: a fully transparent or near-white pixel is byte-
/// identical before and after the hue shift, whatever colour the caller
/// computed for it.
pub proof fn lemma_exempt_pixel_unchanged(p: Pixel, s: Rgb)
    ensures
        hue_exempt(p) ==> hue_shift_result(p, s) == p,
        !hue_exempt(p) ==> hue_shift_result(p, s) == (Pixel { r: s.r, g: s.g, b: s.b, a: p.a }),
{
}

} // verus!

