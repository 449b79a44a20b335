//! The engine-populated image descriptor and the packed output buffer.
//!
//! An [`Image`] holds, as plain values, what a decode reads out of the
//! engine after the header and the full decode: the image bounds, one
//! [`Component`] per color/alpha channel with its sample precision, the
//! resolution-reduction factor the engine actually applied, and the sample
//! plane itself. The only artifact that outlives a pipeline run is an
//! [`ImageBuffer`].

use vstd::prelude::*;
use crate::params::reduced_dim;

verus! {

/// Color space of a decoded image, as the engine reports it (or as the
/// caller's fallback supplies it when the engine cannot infer one).
#[derive(Debug, Clone, Copy, PartialEq, Eq, Structural)]
pub enum ColorSpace {
    Unknown,
    Unspecified,
    Srgb,
    Gray,
    Sycc,
    Eycc,
    Cmyk,
}

/// One color/alpha channel of a decoded image: its sample precision in
/// bits, the resolution-reduction factor the engine applied, and the
/// contiguous plane of integer samples for the decoded area.
#[derive(Debug, Clone, PartialEq)]
pub struct Component {
    /// Sample precision in bits.
    pub prec: u32,
    /// Resolution-reduction factor actually applied by the engine.
    pub factor: u32,
    /// The component's sample plane, one integer per sample.
    pub data: Vec<i32>,
}

/// Engine-populated image structure: bounds, components, color space.
#[derive(Debug, Clone, PartialEq)]
pub struct Image {
    pub x0: u32,
    pub y0: u32,
    pub x1: u32,
    pub y1: u32,
    pub comps: Vec<Component>,
    pub color_space: ColorSpace,
}

impl Image {
    /// Intrinsic width, before any resolution reduction.
    pub open spec fn spec_width(&self) -> int {
        self.x1 - self.x0
    }

    /// Intrinsic height, before any resolution reduction.
    pub open spec fn spec_height(&self) -> int {
        self.y1 - self.y0
    }

    /// The applied resolution-reduction factor, read from the first
    /// component; the engine keeps it uniform across components.
    pub open spec fn spec_factor(&self) -> u32 {
        self.comps@[0].factor
    }

    /// Effective output width after the applied reduction factor.
    pub open spec fn reduced_width(&self) -> int {
        reduced_dim(self.spec_width(), self.spec_factor() as nat)
    }

    /// Effective output height after the applied reduction factor.
    pub open spec fn reduced_height(&self) -> int {
        reduced_dim(self.spec_height(), self.spec_factor() as nat)
    }

    /// What the engine guarantees of a descriptor it populated by a full
    /// decode: ordered bounds, at least one component, one factor shared
    /// by all components, and one sample per pixel of the effective
    /// (reduced) area in every plane.
    pub open spec fn wf(&self) -> bool {
        &&& self.x0 <= self.x1
        &&& self.y0 <= self.y1
        &&& self.comps@.len() >= 1
        &&& self.spec_factor() < 32
        &&& forall|i: int|
            0 <= i < self.comps@.len() ==> (#[trigger] self.comps@[i]).factor == self.spec_factor()
        &&& forall|i: int|
            0 <= i < self.comps@.len() ==> (#[trigger] self.comps@[i]).data@.len()
                == self.reduced_width() * self.reduced_height()
    }

    /// Intrinsic width of the image area.
    pub fn width(&self) -> (w: u32)
        requires
            self.x0 <= self.x1,
        ensures
            w == self.spec_width(),
    {
        self.x1 - self.x0
    }

    /// Intrinsic height of the image area.
    pub fn height(&self) -> (h: u32)
        requires
            self.y0 <= self.y1,
        ensures
            h == self.spec_height(),
    {
        self.y1 - self.y0
    }

    /// Number of components (color/alpha channels).
    pub fn num_components(&self) -> (n: u32)
        requires
            self.comps@.len() <= u32::MAX,
        ensures
            n == self.comps@.len(),
    {
        self.comps.len() as u32
    }

    /// The per-component descriptors.
    pub fn components(&self) -> (r: &Vec<Component>)
        ensures
            r@ == self.comps@,
    {
        &self.comps
    }

    /// The applied resolution-reduction factor, read from the first
    /// component.
    pub fn factor(&self) -> (f: u32)
        requires
            self.comps@.len() >= 1,
        ensures
            f == self.spec_factor(),
    {
        self.comps[0].factor
    }

    /// The color space the descriptor carries.
    pub fn color_space(&self) -> (c: ColorSpace)
        ensures
            c == self.color_space,
    {
        self.color_space
    }
}

/// Basic metadata read from the codestream header alone.
#[derive(Debug, Clone, Copy, PartialEq, Eq, Structural)]
pub struct Info {
    pub width: u32,
    pub height: u32,
}

impl Info {
    /// The intrinsic dimensions of a header-populated descriptor.
    pub fn build(img: &Image) -> (r: Info)
        requires
            img.x0 <= img.x1,
            img.y0 <= img.y1,
        ensures
            r.width == img.spec_width(),
            r.height == img.spec_height(),
    {
        Info { width: img.width(), height: img.height() }
    }
}

/// The packed, interleaved output of one decode: the only entity that
/// outlives the pipeline.
#[derive(Debug, Clone, PartialEq)]
pub struct ImageBuffer {
    /// Interleaved samples, `num_bands` bytes per pixel at precision 8,
    /// twice that at precision 16.
    pub buffer: Vec<u8>,
    /// Effective width, after the applied resolution reduction.
    pub width: u32,
    /// Effective height, after the applied resolution reduction.
    pub height: u32,
    /// Output channels: 1 gray, 2 gray+alpha, 3 RGB, 4 RGBA.
    pub num_bands: usize,
    /// Bits per sample, uniform across bands: 8 or 16.
    pub precision: u32,
}

} // verus!
