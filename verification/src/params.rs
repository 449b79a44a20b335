//! Decode options: resolution reduction, quality-layer truncation, decode
//! region, worker threads, and a fallback color space.
//!
//! A [`DecodeParams`] value is built once, field by field, and then handed
//! to the pipeline unchanged. Each `with_*` builder sets exactly one field
//! and leaves the others untouched; a repeated call overwrites the earlier
//! value. This module also owns the ceiling-division rule that turns an
//! intrinsic dimension into the effective output dimension for a given
//! resolution-reduction factor.

use vstd::prelude::*;
use vstd::arithmetic::power2::pow2;
use crate::image::ColorSpace;

verus! {

/// Absolute-pixel crop box, applied after the header is read.
#[derive(Debug, Clone, Copy, PartialEq, Eq, Structural)]
pub struct DecodingArea {
    pub x0: i32,
    pub y0: i32,
    pub x1: i32,
    pub y1: i32,
}

/// Options of one decode. Absent fields mean the engine default.
#[derive(Debug, Clone, Copy, PartialEq)]
pub struct DecodeParams {
    pub default_color_space: Option<ColorSpace>,
    pub reduce_factor: Option<u32>,
    pub decoding_area: Option<DecodingArea>,
    pub quality_layers: Option<u32>,
    pub num_threads: Option<i32>,
}

impl Default for DecodeParams {
    /// The empty option set: every choice is left to the engine.
    fn default() -> (r: Self)
        ensures
            r.default_color_space is None,
            r.reduce_factor is None,
            r.decoding_area is None,
            r.quality_layers is None,
            r.num_threads is None,
    {
        DecodeParams {
            default_color_space: None,
            reduce_factor: None,
            decoding_area: None,
            quality_layers: None,
            num_threads: None,
        }
    }
}

/// Effective output dimension for an intrinsic dimension `dim` and an
/// applied resolution-reduction factor `level`: `dim / 2^level`, rounded
/// up when the division leaves a remainder (a partial downsampled row or
/// column still contributes one output pixel).
pub open spec fn reduced_dim(dim: int, level: nat) -> int {
    let d = pow2(level) as int;
    if dim % d == 0 {
        dim / d
    } else {
        dim / d + 1
    }
}

impl DecodeParams {
    /// Used when the engine cannot determine the color space.
    pub fn with_default_color_space(self, color_space: ColorSpace) -> (r: Self)
        ensures
            r.default_color_space == Some(color_space),
            r.reduce_factor == self.reduce_factor,
            r.decoding_area == self.decoding_area,
            r.quality_layers == self.quality_layers,
            r.num_threads == self.num_threads,
    {
        DecodeParams { default_color_space: Some(color_space), ..self }
    }

    /// The image will be scaled to `dim / 2^reduce_factor` per dimension.
    pub fn with_reduce_factor(self, reduce_factor: u32) -> (r: Self)
        ensures
            r.reduce_factor == Some(reduce_factor),
            r.default_color_space == self.default_color_space,
            r.decoding_area == self.decoding_area,
            r.quality_layers == self.quality_layers,
            r.num_threads == self.num_threads,
    {
        DecodeParams { reduce_factor: Some(reduce_factor), ..self }
    }

    /// Hint the number of worker threads to the engine.
    pub fn with_num_threads(self, num: i32) -> (r: Self)
        ensures
            r.num_threads == Some(num),
            r.default_color_space == self.default_color_space,
            r.reduce_factor == self.reduce_factor,
            r.decoding_area == self.decoding_area,
            r.quality_layers == self.quality_layers,
    {
        DecodeParams { num_threads: Some(num), ..self }
    }

    /// The image will be cropped to the given area, with width `x1 - x0`
    /// and height `y1 - y0`.
    pub fn with_decoding_area(self, x0: i32, y0: i32, x1: i32, y1: i32) -> (r: Self)
        ensures
            r.decoding_area == Some(DecodingArea { x0, y0, x1, y1 }),
            r.default_color_space == self.default_color_space,
            r.reduce_factor == self.reduce_factor,
            r.quality_layers == self.quality_layers,
            r.num_threads == self.num_threads,
    {
        DecodeParams { decoding_area: Some(DecodingArea { x0, y0, x1, y1 }), ..self }
    }

    /// Only the given number of progressive quality layers is decoded.
    pub fn with_quality_layers(self, quality_layers: u32) -> (r: Self)
        ensures
            r.quality_layers == Some(quality_layers),
            r.default_color_space == self.default_color_space,
            r.reduce_factor == self.reduce_factor,
            r.decoding_area == self.decoding_area,
            r.num_threads == self.num_threads,
    {
        DecodeParams { quality_layers: Some(quality_layers), ..self }
    }

    /// Ceiling division of `u` by `2^discard_level`: the effective output
    /// size of a dimension after the engine applied `discard_level` as the
    /// resolution-reduction factor.
    pub fn value_for_discard_level(u: u32, discard_level: u32) -> (r: u32)
        requires
            discard_level < 32,
        ensures
            r == reduced_dim(u as int, discard_level as nat),
    {
        proof {
            vstd::bits::lemma_u32_pow2_no_overflow(discard_level as nat);
            vstd::bits::lemma_u32_shl_is_mul(1u32, discard_level);
        }
        let div: u32 = 1u32 << discard_level;
        let quot = u / div;
        let rem = u % div;
        if rem > 0 {
            proof {
                vstd::arithmetic::div_mod::lemma_fundamental_div_mod(u as int, div as int);
                assert(u as int % 1int == 0) by (nonlinear_arith);
                assert(div >= 2);
                vstd::arithmetic::mul::lemma_mul_inequality(2, div as int, quot as int);
                assert(2 * (quot as int) <= u as int);
            }
            quot + 1
        } else {
            quot
        }
    }
}

} // verus!
