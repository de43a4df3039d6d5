//! Texture resources built from decoded pixel data.
//!
//! A texture is built from an RGBA byte buffer whose length must be
//! exactly `width * height * 4`; anything else is rejected and no
//! resource is created.  The upload copies row by row with a natural
//! stride of four bytes per pixel; when the backend imposes a larger
//! row alignment, the rows are padded out to it.  The sampler is a fixed
//! default: clamp-to-edge on all axes, linear magnification, nearest
//! minification and mip filtering.

use vstd::prelude::*;

use crate::error::RenderError;

verus! {

/// How a sampler treats coordinates outside [0, 1].
#[derive(Clone, Copy, Debug, PartialEq, Eq, Structural)]
pub enum AddressMode {
    ClampToEdge,
    Repeat,
    MirrorRepeat,
}

/// How a sampler interpolates between texels.
#[derive(Clone, Copy, Debug, PartialEq, Eq, Structural)]
pub enum FilterMode {
    Nearest,
    Linear,
}

/// The full sampler description.
#[derive(Clone, Copy, Debug, PartialEq, Eq, Structural)]
pub struct SamplerSpec {
    pub address_mode_u: AddressMode,
    pub address_mode_v: AddressMode,
    pub address_mode_w: AddressMode,
    pub mag_filter: FilterMode,
    pub min_filter: FilterMode,
    pub mipmap_filter: FilterMode,
}

/// The one sampler this core uses: clamp-to-edge on every axis, linear
/// magnification, nearest minification and mip filtering.  A deliberate
/// fixed default, not configurable here.
pub open spec fn spec_default_sampler() -> SamplerSpec {
    SamplerSpec {
        address_mode_u: AddressMode::ClampToEdge,
        address_mode_v: AddressMode::ClampToEdge,
        address_mode_w: AddressMode::ClampToEdge,
        mag_filter: FilterMode::Linear,
        min_filter: FilterMode::Nearest,
        mipmap_filter: FilterMode::Nearest,
    }
}

pub fn default_sampler() -> (r: SamplerSpec)
    ensures
        r == spec_default_sampler(),
{
    SamplerSpec {
        address_mode_u: AddressMode::ClampToEdge,
        address_mode_v: AddressMode::ClampToEdge,
        address_mode_w: AddressMode::ClampToEdge,
        mag_filter: FilterMode::Linear,
        min_filter: FilterMode::Nearest,
        mipmap_filter: FilterMode::Nearest,
    }
}

/// A 2D, single-mip, single-layer RGBA texture with its source pixels.
///
/// Invariant: the pixel buffer length is exactly `width * height * 4`, so
/// the byte layout (row stride `4 * width`, `height` rows) matches the
/// source dimensions.
#[derive(Debug)]
pub struct TextureResource {
    pub width: u32,
    pub height: u32,
    pub pixels: Vec<u8>,
}

impl TextureResource {
    pub open spec fn wf(self) -> bool {
        self.pixels@.len() == 4 * self.width * self.height
    }

    /// Build a texture resource from decoded RGBA bytes.  Fails with
    /// `InvalidImageData`, creating nothing, exactly when the byte length
    /// is not `width * height * 4`.
    pub fn from_pixels(rgba: Vec<u8>, width: u32, height: u32) -> (r: Result<
        TextureResource,
        RenderError,
    >)
        ensures
            match r {
                Ok(t) => {
                    &&& rgba@.len() == 4 * width * height
                    &&& t.width == width
                    &&& t.height == height
                    &&& t.pixels@ == rgba@
                    &&& t.wf()
                },
                Err(e) => {
                    &&& e == RenderError::InvalidImageData
                    &&& rgba@.len() != 4 * width * height
                },
            },
    {
        let w128 = width as u128;
        let h128 = height as u128;
        proof {
            assert((w128 as int) * (h128 as int) <= 0xFFFF_FFFF * 0xFFFF_FFFF)
                by (nonlinear_arith)
                requires
                    0 <= w128 as int <= 0xFFFF_FFFF,
                    0 <= h128 as int <= 0xFFFF_FFFF,
            ;
        }
        let expected: u128 = 4 * (w128 * h128);
        proof {
            assert(4 * ((width as int) * (height as int)) == 4 * (width as int) * (height as int))
                by (nonlinear_arith);
        }
        if (rgba.len() as u128) != expected {
            return Err(RenderError::InvalidImageData);
        }
        Ok(TextureResource { width, height, pixels: rgba })
    }

    /// The natural row stride of the upload: four bytes per pixel.
    pub fn bytes_per_row(&self) -> (r: u64)
        ensures
            r == 4 * self.width,
    {
        4u64 * (self.width as u64)
    }

    /// Rows in the image; the upload copies exactly this many.
    pub fn rows_per_image(&self) -> (r: u32)
        ensures
            r == self.height,
    {
        self.height
    }

    /// The texture is 2D: a single layer deep.
    pub fn depth_or_array_layers(&self) -> (r: u32)
        ensures
            r == 1,
    {
        1
    }

    /// A single mip level; no chain is built.
    pub fn mip_level_count(&self) -> (r: u32)
        ensures
            r == 1,
    {
        1
    }
}

/// The row stride after padding to `alignment`: the least multiple of
/// `alignment` that holds a natural row of `4 * width` bytes.
pub open spec fn spec_padded_bytes_per_row(width: u32, alignment: u64) -> int
    recommends
        alignment >= 1,
{
    ((4 * width + alignment - 1) / (alignment as int)) * alignment
}

/// The byte an aligned upload reads at flat position `i` of the padded
/// buffer: the source byte at the same row and column while the column
/// lies inside the natural row of `bpr` bytes, and zero padding beyond it.
pub open spec fn spec_padded_byte(pixels: Seq<u8>, bpr: int, pbpr: int, i: int) -> u8
    recommends
        0 < bpr <= pbpr,
{
    let row = i / pbpr;
    let c = i % pbpr;
    if c < bpr {
        pixels[row * bpr + c]
    } else {
        0
    }
}

impl TextureResource {
    /// Build the buffer an aligned upload copies from: every natural row
    /// of `4 * width` bytes is padded with zeroes out to the least
    /// multiple of `alignment` that holds it.  With `alignment == 1` the
    /// buffer is the pixel data itself, row for row.
    pub fn padded_pixels(&self, alignment: u64) -> (r: Vec<u8>)
        requires
            self.wf(),
            self.width > 0,
            1 <= alignment <= 65536,
            self.height * spec_padded_bytes_per_row(self.width, alignment) <= usize::MAX,
        ensures
            r@.len() == self.height * spec_padded_bytes_per_row(self.width, alignment),
            forall|i: int|
                0 <= i < r@.len() ==> #[trigger] r@[i] == spec_padded_byte(
                    self.pixels@,
                    4 * self.width,
                    spec_padded_bytes_per_row(self.width, alignment),
                    i,
                ),
    {
        let bpr: u64 = 4 * (self.width as u64);
        let q: u64 = (bpr + alignment - 1) / alignment;
        proof {
            lemma_padded_stride_bounds(self.width, alignment);
            assert((q as int) * (alignment as int) == spec_padded_bytes_per_row(
                self.width,
                alignment,
            ));
        }
        let pbpr: u64 = q * alignment;
        let height = self.height;
        let ghost pix = self.pixels@;
        let ghost gbpr = 4 * self.width as int;
        let ghost gpbpr = pbpr as int;
        let total: usize = self.pixels.len();
        let mut out: Vec<u8> = Vec::new();
        let mut row: u32 = 0;
        while row < height
            invariant
                self.wf(),
                total == pix.len(),
                bpr == 4 * self.width,
                gbpr == bpr as int,
                gpbpr == pbpr as int,
                0 < bpr <= pbpr,
                pix == self.pixels@,
                pix.len() == self.height * gbpr,
                0 <= row <= height,
                height == self.height,
                height * gpbpr <= usize::MAX,
                out@.len() == row * gpbpr,
                forall|i: int|
                    0 <= i < out@.len() ==> #[trigger] out@[i] == spec_padded_byte(
                        pix,
                        gbpr,
                        gpbpr,
                        i,
                    ),
            decreases height - row,
        {
            proof {
                vstd::arithmetic::mul::lemma_mul_inequality(row + 1, height as int, gpbpr);
                vstd::arithmetic::mul::lemma_mul_inequality(row + 1, height as int, gbpr);
                assert((row + 1) * gpbpr == row * gpbpr + gpbpr) by (nonlinear_arith);
                assert((row + 1) * gbpr == row * gbpr + gbpr) by (nonlinear_arith);
                assert(row * gbpr >= 0) by (nonlinear_arith)
                    requires
                        row >= 0 && gbpr >= 0,
                ;
            }
            let row_base: usize = (row as usize) * (bpr as usize);
            let mut c: u64 = 0;
            while c < bpr
                invariant
                    self.wf(),
                    total == pix.len(),
                    gbpr == bpr as int,
                    gpbpr == pbpr as int,
                    0 < bpr <= pbpr,
                    pix == self.pixels@,
                    pix.len() == self.height * gbpr,
                    0 <= row < height,
                    height == self.height,
                    height * gpbpr <= usize::MAX,
                    row_base == row * gbpr,
                    row * gbpr + gbpr <= pix.len(),
                    (row + 1) * gpbpr <= height * gpbpr,
                    (row + 1) * gpbpr == row * gpbpr + gpbpr,
                    0 <= c <= bpr,
                    out@.len() == row * gpbpr + c,
                    forall|i: int|
                        0 <= i < out@.len() ==> #[trigger] out@[i] == spec_padded_byte(
                            pix,
                            gbpr,
                            gpbpr,
                            i,
                        ),
                decreases bpr - c,
            {
                let b = self.pixels[row_base + (c as usize)];
                proof {
                    vstd::arithmetic::div_mod::lemma_fundamental_div_mod_converse(
                        row * gpbpr + c,
                        gpbpr,
                        row as int,
                        c as int,
                    );
                }
                out.push(b);
                c = c + 1;
            }
            while c < pbpr
                invariant
                    gbpr == bpr as int,
                    gpbpr == pbpr as int,
                    0 < bpr <= pbpr,
                    0 <= row < height,
                    (row + 1) * gpbpr <= height * gpbpr,
                    (row + 1) * gpbpr == row * gpbpr + gpbpr,
                    height * gpbpr <= usize::MAX,
                    bpr <= c <= pbpr,
                    out@.len() == row * gpbpr + c,
                    forall|i: int|
                        0 <= i < out@.len() ==> #[trigger] out@[i] == spec_padded_byte(
                            pix,
                            gbpr,
                            gpbpr,
                            i,
                        ),
                decreases pbpr - c,
            {
                proof {
                    vstd::arithmetic::div_mod::lemma_fundamental_div_mod_converse(
                        row * gpbpr + c,
                        gpbpr,
                        row as int,
                        c as int,
                    );
                }
                out.push(0u8);
                c = c + 1;
            }
            row = row + 1;
        }
        out
    }
}

/// With no alignment imposed beyond the natural stride, padding is the
/// identity: the padded buffer reads back the source byte at every
/// position.
pub proof fn lemma_unpadded_copy_is_identity(pixels: Seq<u8>, bpr: int, i: int)
    requires
        bpr > 0,
        0 <= i < pixels.len(),
    ensures
        spec_padded_byte(pixels, bpr, bpr, i) == pixels[i],
{
    vstd::arithmetic::div_mod::lemma_fundamental_div_mod(i, bpr);
    vstd::arithmetic::div_mod::lemma_mod_bound(i, bpr);
    assert((i / bpr) * bpr == bpr * (i / bpr)) by (nonlinear_arith);
}

/// The padded stride is a multiple of the alignment, holds a full natural
/// row, and wastes less than one alignment unit.
pub proof fn lemma_padded_stride_bounds(width: u32, alignment: u64)
    requires
        1 <= alignment,
    ensures
        spec_padded_bytes_per_row(width, alignment) % (alignment as int) == 0,
        4 * width <= spec_padded_bytes_per_row(width, alignment) < 4 * width + alignment,
{
    let a = alignment as int;
    let n = 4 * width as int;
    let q = (n + a - 1) / a;
    vstd::arithmetic::div_mod::lemma_fundamental_div_mod(n + a - 1, a);
    let rem = (n + a - 1) % a;
    vstd::arithmetic::div_mod::lemma_mod_bound(n + a - 1, a);
    assert(q * a == n + a - 1 - rem);
    vstd::arithmetic::div_mod::lemma_mod_multiples_basic(q, a);
}

} // verus!
