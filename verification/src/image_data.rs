//! The in-memory RGBA image, the pixel-count ceiling, and the downsampling
//! decision that keeps submitted images at or under that ceiling.
use vstd::prelude::*;

verus! {

use crate::errors::OcrError;

/// No image larger than this many pixels is submitted.
pub const PIXEL_CEILING: u64 = 3_000_000;

/// An RGBA pixel buffer: exactly `width * height * 4` bytes, always.
pub struct PixelImage {
    pub width: u32,
    pub height: u32,
    pub bytes: Vec<u8>,
}

impl PixelImage {
    /// The buffer holds exactly four bytes per pixel; no partial buffer is
    /// ever exposed.
    pub open spec fn wf(&self) -> bool {
        self.bytes@.len() == self.width as nat * self.height as nat * 4
    }

    /// Decides `wf` at run time, for callers that cannot carry the proof.
    pub fn is_wf(&self) -> (r: bool)
        ensures
            r == self.wf(),
    {
        proof {
            assert((self.width as int) * (self.height as int) <= 0xffff_ffff * 0xffff_ffff)
                by (nonlinear_arith)
                requires
                    0 <= self.width as int <= 0xffff_ffff,
                    0 <= self.height as int <= 0xffff_ffff,
            ;
        }
        (self.bytes.len() as u128) == (self.width as u128) * (self.height as u128) * 4
    }

    /// The only constructor: a complete, size-checked image or an error.
    pub fn new(width: u32, height: u32, bytes: Vec<u8>) -> (r: Result<PixelImage, OcrError>)
        ensures
            match r {
                Ok(img) => {
                    &&& img.width == width
                    &&& img.height == height
                    &&& img.bytes@ == bytes@
                    &&& img.wf()
                },
                Err(e) => {
                    &&& e == OcrError::BufferSize
                    &&& bytes@.len() != width as nat * height as nat * 4
                },
            },
    {
        proof {
            assert((width as int) * (height as int) <= 0xffff_ffff * 0xffff_ffff)
                by (nonlinear_arith)
                requires
                    0 <= width as int <= 0xffff_ffff,
                    0 <= height as int <= 0xffff_ffff,
            ;
        }
        let expected: u128 = (width as u128) * (height as u128) * 4;
        if (bytes.len() as u128) == expected {
            Ok(PixelImage { width, height, bytes })
        } else {
            Err(OcrError::BufferSize)
        }
    }
}

/// The integer square root: the largest `r` with `r * r <= n`.
pub open spec fn spec_isqrt(n: nat) -> nat
    decreases n,
{
    if n == 0 {
        0
    } else {
        let r = spec_isqrt((n - 1) as nat);
        if (r + 1) * (r + 1) <= n {
            r + 1
        } else {
            r
        }
    }
}

pub proof fn lemma_isqrt_bounds(n: nat)
    ensures
        spec_isqrt(n) * spec_isqrt(n) <= n,
        n < (spec_isqrt(n) + 1) * (spec_isqrt(n) + 1),
    decreases n,
{
    let s = spec_isqrt(n);
    if n == 0 {
        assert(s == 0);
        assert(s * s <= n && n < (s + 1) * (s + 1)) by (nonlinear_arith)
            requires
                n == 0,
                s == 0,
        ;
    } else {
        lemma_isqrt_bounds((n - 1) as nat);
        let r = spec_isqrt((n - 1) as nat);
        assert(r * r <= n - 1);
        assert(n - 1 < (r + 1) * (r + 1));
        if (r + 1) * (r + 1) <= n {
            assert(s == r + 1);
            assert(n <= (r + 1) * (r + 1));
            assert((r + 1) * (r + 1) < (r + 2) * (r + 2)) by (nonlinear_arith)
                requires
                    r >= 0,
            ;
            assert((s + 1) * (s + 1) == (r + 2) * (r + 2));
            assert(n < (s + 1) * (s + 1));
        } else {
            assert(s == r);
            assert((s + 1) * (s + 1) == (r + 1) * (r + 1));
            assert(n < (s + 1) * (s + 1));
        }
    }
    assert(s * s <= n);
    assert(n < (s + 1) * (s + 1));
}

pub proof fn lemma_isqrt_unique(n: nat, r: nat)
    requires
        r * r <= n,
        n < (r + 1) * (r + 1),
    ensures
        r == spec_isqrt(n),
{
    lemma_isqrt_bounds(n);
    let s = spec_isqrt(n);
    assert(!(r < s) && !(s < r)) by (nonlinear_arith)
        requires
            r * r <= n,
            n < (r + 1) * (r + 1),
            s * s <= n,
            n < (s + 1) * (s + 1),
    ;
}

/// Binary search for the integer square root.
fn isqrt64(n: u64) -> (r: u64)
    ensures
        r as nat == spec_isqrt(n as nat),
{
    let mut lo: u64 = 0;
    let mut hi: u64 = n;
    proof {
        assert((n as int + 1) * (n as int + 1) > n as int) by (nonlinear_arith);
    }
    while lo < hi
        invariant
            lo <= hi <= n,
            (lo as nat) * (lo as nat) <= n as nat,
            (n as nat) < (hi as nat + 1) * (hi as nat + 1),
        decreases hi - lo,
    {
        let mid: u64 = lo + (hi - lo) / 2;
        proof {
            assert(mid < hi);
            assert((mid as int + 1) * (mid as int + 1) <= 0xffff_ffff_ffff_ffffi128
                * 0xffff_ffff_ffff_ffffi128) by (nonlinear_arith)
                requires
                    0 <= mid as int + 1 <= 0xffff_ffff_ffff_ffffi128,
            ;
        }
        let next: u128 = (mid as u128) + 1;
        let sq: u128 = next * next;
        if sq <= (n as u128) {
            lo = mid + 1;
        } else {
            hi = mid;
        }
    }
    proof {
        lemma_isqrt_unique(n as nat, lo as nat);
    }
    lo
}

/// The downsampled width: preserves the aspect ratio while bringing the
/// pixel count to roughly the ceiling.
pub open spec fn spec_new_width(w: nat, h: nat) -> nat {
    spec_isqrt((PIXEL_CEILING as nat) * w / h)
}

/// The downsampled height: the new width divided by the aspect ratio.
pub open spec fn spec_new_height(w: nat, h: nat) -> nat {
    spec_new_width(w, h) * h / w
}

/// An image over the ceiling is brought to or under it: the downsampled
/// dimensions multiply out to at most the ceiling.
pub proof fn lemma_dims_within_ceiling(w: nat, h: nat)
    requires
        w * h > PIXEL_CEILING as nat,
    ensures
        spec_new_width(w, h) * spec_new_height(w, h) <= PIXEL_CEILING as nat,
{
    let c = PIXEL_CEILING as nat;
    assert(w >= 1 && h >= 1) by (nonlinear_arith)
        requires
            w * h > c,
            c > 0,
    ;
    let n = c * w / h;
    let nw = spec_isqrt(n);
    let nh = nw * h / w;
    lemma_isqrt_bounds(n);
    vstd::arithmetic::div_mod::lemma_fundamental_div_mod((c * w) as int, h as int);
    vstd::arithmetic::div_mod::lemma_mod_bound((c * w) as int, h as int);
    assert(n * h <= c * w);
    vstd::arithmetic::div_mod::lemma_fundamental_div_mod((nw * h) as int, w as int);
    vstd::arithmetic::div_mod::lemma_mod_bound((nw * h) as int, w as int);
    assert(nh * w <= nw * h);
    assert(nw * nh <= c) by (nonlinear_arith)
        requires
            nw * nw <= n,
            n * h <= c * w,
            nh * w <= nw * h,
            w >= 1,
            h >= 1,
            nw >= 0,
            nh >= 0,
            n >= 0,
            c > 0,
    ;
}

/// The aspect ratio is preserved up to rounding: in cross-multiplied form,
/// `new_height / new_width` differs from `height / width` by less than one
/// part in `new_width`.
pub proof fn lemma_aspect_preserved(w: nat, h: nat)
    requires
        w >= 1,
        h >= 1,
    ensures
        spec_new_height(w, h) * w <= spec_new_width(w, h) * h,
        spec_new_width(w, h) * h < (spec_new_height(w, h) + 1) * w,
{
    let nw = spec_new_width(w, h);
    let nh = spec_new_height(w, h);
    let x = (nw * h) as int;
    let d = w as int;
    vstd::arithmetic::div_mod::lemma_fundamental_div_mod(x, d);
    vstd::arithmetic::div_mod::lemma_mod_bound(x, d);
    assert(nh == x / d);
    assert(nh * w == d * (x / d));
    assert((nh + 1) * w == nh * w + w) by (nonlinear_arith);
    assert((nh + 1) * w == d * (x / d) + d);
}

/// Computes the downsampled dimensions for an image over the ceiling.
pub fn compute_target_dims(width: u32, height: u32) -> (r: (u32, u32))
    requires
        (width as nat) * (height as nat) > PIXEL_CEILING as nat,
    ensures
        r.0 as nat == spec_new_width(width as nat, height as nat),
        r.1 as nat == spec_new_height(width as nat, height as nat),
{
    proof {
        assert(width >= 1 && height >= 1) by (nonlinear_arith)
            requires
                (width as nat) * (height as nat) > PIXEL_CEILING as nat,
                PIXEL_CEILING > 0,
        ;
    }
    let n: u64 = PIXEL_CEILING * (width as u64) / (height as u64);
    let nw: u64 = isqrt64(n);
    proof {
        lemma_isqrt_bounds(n as nat);
        assert(nw as nat <= 0xffff_ffff) by (nonlinear_arith)
            requires
                (nw as nat) * (nw as nat) <= n as nat,
                n as nat <= 0xffff_ffff * (PIXEL_CEILING as nat),
                PIXEL_CEILING as nat <= 0x2dc6c0,
        ;
        assert((nw as int) * (height as int) <= 0xffff_ffff * 0xffff_ffff) by (nonlinear_arith)
            requires
                0 <= nw as int <= 0xffff_ffff,
                0 <= height as int <= 0xffff_ffff,
        ;
        lemma_dims_within_ceiling(width as nat, height as nat);
    }
    let nh: u64 = nw * (height as u64) / (width as u64);
    proof {
        assert(nw as nat == spec_new_width(width as nat, height as nat));
        assert(nh as nat == spec_new_height(width as nat, height as nat));
        if nw == 0 {
            assert(nh as int == 0) by (nonlinear_arith)
                requires
                    nw as int == 0,
                    width as int >= 1,
                    nh as int == (nw as int) * (height as int) / (width as int),
            ;
        } else {
            assert(nh as nat <= PIXEL_CEILING as nat) by (nonlinear_arith)
                requires
                    (nw as nat) * (nh as nat) <= PIXEL_CEILING as nat,
                    nw as nat >= 1,
            ;
        }
    }
    (nw as u32, nh as u32)
}

/// Relies on `image::imageops::resize`: resampling an RGBA buffer with the
/// three-lobe Lanczos filter returns a buffer of exactly the requested
/// dimensions. The pixel values are resampled with floating-point weights,
/// so nothing is claimed of them.
#[verifier::external_body]
fn resample(img: &PixelImage, nw: u32, nh: u32) -> (r: PixelImage)
    requires
        img.wf(),
        (nw as nat) * (nh as nat) <= PIXEL_CEILING as nat,
    ensures
        r.width == nw,
        r.height == nh,
        r.wf(),
{
    let buf = image::RgbaImage::from_vec(img.width, img.height, img.bytes.clone()).unwrap();
    let out = image::imageops::resize(&buf, nw, nh, image::imageops::FilterType::Lanczos3);
    PixelImage { width: nw, height: nh, bytes: out.into_raw() }
}

/// The image that is submitted: unchanged when at or under the pixel
/// ceiling, downsampled to the aspect-preserving target dimensions when
/// over it.
pub fn maybe_resize_image(img: PixelImage) -> (r: PixelImage)
    requires
        img.wf(),
    ensures
        r.wf(),
        (img.width as nat) * (img.height as nat) <= PIXEL_CEILING as nat ==> r == img,
        (img.width as nat) * (img.height as nat) > PIXEL_CEILING as nat ==> {
            &&& r.width as nat == spec_new_width(img.width as nat, img.height as nat)
            &&& r.height as nat == spec_new_height(img.width as nat, img.height as nat)
        },
{
    proof {
        assert((img.width as int) * (img.height as int) <= 0xffff_ffff * 0xffff_ffff)
            by (nonlinear_arith)
            requires
                0 <= img.width as int <= 0xffff_ffff,
                0 <= img.height as int <= 0xffff_ffff,
        ;
    }
    let px: u64 = (img.width as u64) * (img.height as u64);
    if px > PIXEL_CEILING {
        let dims = compute_target_dims(img.width, img.height);
        proof {
            lemma_dims_within_ceiling(img.width as nat, img.height as nat);
        }
        resample(&img, dims.0, dims.1)
    } else {
        img
    }
}

/// What the PNG encoder produces for a pixel buffer: a function of the
/// dimensions and the pixel bytes alone.
pub uninterp spec fn png_bytes_of(width: nat, height: nat, pixels: Seq<u8>) -> Seq<u8>;

/// Relies on `image::ImageBuffer::write_to` with the PNG format: encoding is
/// deterministic, a function of the pixel data alone, named by
/// `png_bytes_of`. For an exact-size RGBA buffer written to an in-memory
/// cursor the encoder refuses only a zero width or height, so a failure
/// implies a degenerate dimension.
#[verifier::external_body]
fn encode_png(img: &PixelImage) -> (r: Option<Vec<u8>>)
    requires
        img.wf(),
    ensures
        match r {
            Some(b) => b@ == png_bytes_of(img.width as nat, img.height as nat, img.bytes@),
            None => img.width == 0 || img.height == 0,
        },
{
    let buf = match image::RgbaImage::from_vec(img.width, img.height, img.bytes.clone()) {
        Some(b) => b,
        None => return None,
    };
    let mut bytes: Vec<u8> = Vec::new();
    match buf.write_to(&mut std::io::Cursor::new(&mut bytes), image::ImageFormat::Png) {
        Ok(()) => Some(bytes),
        Err(_) => None,
    }
}

/// Encodes the pixel buffer as PNG; an encoder failure is fatal for the
/// pipeline and surfaces as `EncodeError`, and only a degenerate dimension
/// can bring one, so every image with at least one pixel encodes.
pub fn encode_image(img: &PixelImage) -> (r: Result<Vec<u8>, OcrError>)
    requires
        img.wf(),
    ensures
        match r {
            Ok(b) => b@ == png_bytes_of(img.width as nat, img.height as nat, img.bytes@),
            Err(e) => e == OcrError::Encode && (img.width == 0 || img.height == 0),
        },
        img.width >= 1 && img.height >= 1 ==> r is Ok,
{
    match encode_png(img) {
        Some(b) => Ok(b),
        None => Err(OcrError::Encode),
    }
}

} // verus!
