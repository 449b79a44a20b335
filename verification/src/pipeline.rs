//! The decode state machine: configure, optional thread hint, header read,
//! optional region restriction, full decode, then dimension computation
//! and band packing.
//!
//! The stages are strictly ordered, with no retries and no backward
//! transitions; the two optional stages are visited exactly when the
//! corresponding option was set. The engine calls themselves are outside
//! work: a host program asks the machine for the [`EngineAction`] of the
//! current stage, performs it, and feeds back whether the engine accepted
//! it. Every rejection aborts the decode with the error of the stage it
//! happened in. After the last stage, [`DecodePipeline::finish`] turns the
//! engine-populated descriptor into the packed output buffer.

use vstd::prelude::*;
use crate::err::Error;
use crate::image::Image;
use crate::image::ImageBuffer;
use crate::pack::band_count;
use crate::pack::layout_of;
use crate::pack::pack;
use crate::pack::packed_bytes_for;
use crate::pack::precision_of;
use crate::params::DecodeParams;
use crate::params::reduced_dim;

verus! {

/// The stages of one decode, in the order they run.
#[derive(Debug, Clone, Copy, PartialEq, Eq, Structural)]
pub enum Stage {
    /// Apply reduction factor and quality-layer limit; set up the decoder.
    Configure,
    /// Hint the worker-thread count (only when one was requested).
    ThreadHint,
    /// Attach the stream and parse the codestream header.
    HeaderRead,
    /// Restrict the decode to the crop box (only when one was requested).
    RegionRestrict,
    /// Run the full entropy/wavelet decode.
    FullDecode,
    /// All engine work is done; only packing remains.
    Done,
}

/// The engine call the host must perform for a stage.
#[derive(Debug, Clone, Copy, PartialEq, Eq)]
pub enum EngineAction {
    /// Set up the decoder with the requested reduction factor and
    /// quality-layer limit; absent fields keep the engine defaults.
    Setup { reduce_factor: Option<u32>, quality_layers: Option<u32> },
    /// Instruct the engine to use this many worker threads.
    SetThreads { count: i32 },
    /// Attach the byte source and parse the header.
    ReadHeader,
    /// Restrict the decode to this absolute-pixel area.
    SetRegion { x0: i32, y0: i32, x1: i32, y1: i32 },
    /// Decode the (possibly restricted) region.
    Decode,
    /// Nothing is left to ask of the engine.
    Complete,
}

/// The error a stage reports when the engine rejects its action.
pub open spec fn stage_error(stage: Stage) -> Error {
    match stage {
        Stage::Configure => Error::DecoderSetupFailed,
        Stage::ThreadHint => Error::ThreadConfigFailed,
        Stage::HeaderRead => Error::HeaderReadFailed,
        Stage::RegionRestrict => Error::InvalidDecodeRegion,
        Stage::FullDecode => Error::DecodeFailed,
        Stage::Done => Error::DecodeFailed,
    }
}

/// The stage after a successful one: the next in order, where the two
/// optional stages are entered only when their option was set.
pub open spec fn next_stage(stage: Stage, params: DecodeParams) -> Stage {
    match stage {
        Stage::Configure => if params.num_threads is Some {
            Stage::ThreadHint
        } else {
            Stage::HeaderRead
        },
        Stage::ThreadHint => Stage::HeaderRead,
        Stage::HeaderRead => if params.decoding_area is Some {
            Stage::RegionRestrict
        } else {
            Stage::FullDecode
        },
        Stage::RegionRestrict => Stage::FullDecode,
        Stage::FullDecode => Stage::Done,
        Stage::Done => Stage::Done,
    }
}

/// The engine call a stage asks of the host.
pub open spec fn action_for(stage: Stage, params: DecodeParams) -> EngineAction {
    match stage {
        Stage::Configure => EngineAction::Setup {
            reduce_factor: params.reduce_factor,
            quality_layers: params.quality_layers,
        },
        Stage::ThreadHint => EngineAction::SetThreads { count: params.num_threads->0 },
        Stage::HeaderRead => EngineAction::ReadHeader,
        Stage::RegionRestrict => EngineAction::SetRegion {
            x0: params.decoding_area->0.x0,
            y0: params.decoding_area->0.y0,
            x1: params.decoding_area->0.x1,
            y1: params.decoding_area->0.y1,
        },
        Stage::FullDecode => EngineAction::Decode,
        Stage::Done => EngineAction::Complete,
    }
}

/// The bytes one decode packs from a fully populated descriptor, or the
/// rejection its component layout earns. A pure function of the
/// descriptor: two runs over equal descriptors yield equal buffers.
pub open spec fn decoded_bytes(img: Image) -> Result<Seq<u8>, Error> {
    match layout_of(img.comps@) {
        Result::Err(e) => Result::Err(e),
        Result::Ok(layout) => Result::Ok(
            packed_bytes_for(layout, img.comps@, img.reduced_width() * img.reduced_height()),
        ),
    }
}

/// One decode in flight: the options it was started with and the stage it
/// has reached.
#[derive(Debug, Clone, Copy, PartialEq)]
pub struct DecodePipeline {
    pub stage: Stage,
    pub params: DecodeParams,
}

impl DecodePipeline {
    /// An optional stage is only ever current when its option was set.
    pub open spec fn wf(&self) -> bool {
        &&& (self.stage is ThreadHint ==> self.params.num_threads is Some)
        &&& (self.stage is RegionRestrict ==> self.params.decoding_area is Some)
    }

    /// Start a decode with the given options, at the first stage.
    pub fn new(params: DecodeParams) -> (p: DecodePipeline)
        ensures
            p.stage is Configure,
            p.params == params,
            p.wf(),
    {
        DecodePipeline { stage: Stage::Configure, params }
    }

    /// The engine call the host must perform next.
    pub fn next_action(&self) -> (a: EngineAction)
        requires
            self.wf(),
        ensures
            a == action_for(self.stage, self.params),
    {
        match self.stage {
            Stage::Configure => EngineAction::Setup {
                reduce_factor: self.params.reduce_factor,
                quality_layers: self.params.quality_layers,
            },
            Stage::ThreadHint => {
                let count = match self.params.num_threads {
                    Some(n) => n,
                    None => 0,
                };
                EngineAction::SetThreads { count }
            },
            Stage::HeaderRead => EngineAction::ReadHeader,
            Stage::RegionRestrict => {
                let area = match self.params.decoding_area {
                    Some(a) => a,
                    None => crate::params::DecodingArea { x0: 0, y0: 0, x1: 0, y1: 0 },
                };
                EngineAction::SetRegion { x0: area.x0, y0: area.y0, x1: area.x1, y1: area.y1 }
            },
            Stage::FullDecode => EngineAction::Decode,
            Stage::Done => EngineAction::Complete,
        }
    }

    /// Record the engine's answer to the current stage's action. On
    /// success the machine moves to the next stage in order; on rejection
    /// it stays where it is and reports the stage's error, which aborts
    /// the decode.
    pub fn advance(&mut self, succeeded: bool) -> (r: Result<(), Error>)
        requires
            old(self).wf(),
            !(old(self).stage is Done),
        ensures
            final(self).params == old(self).params,
            final(self).wf(),
            succeeded ==> r is Ok && final(self).stage == next_stage(
                old(self).stage,
                old(self).params,
            ),
            !succeeded ==> r == Result::<(), Error>::Err(stage_error(old(self).stage))
                && final(self).stage == old(self).stage,
    {
        if !succeeded {
            let e = match self.stage {
                Stage::Configure => Error::DecoderSetupFailed,
                Stage::ThreadHint => Error::ThreadConfigFailed,
                Stage::HeaderRead => Error::HeaderReadFailed,
                Stage::RegionRestrict => Error::InvalidDecodeRegion,
                Stage::FullDecode => Error::DecodeFailed,
                Stage::Done => Error::DecodeFailed,
            };
            return Err(e);
        }
        let next = match self.stage {
            Stage::Configure => if self.params.num_threads.is_some() {
                Stage::ThreadHint
            } else {
                Stage::HeaderRead
            },
            Stage::ThreadHint => Stage::HeaderRead,
            Stage::HeaderRead => if self.params.decoding_area.is_some() {
                Stage::RegionRestrict
            } else {
                Stage::FullDecode
            },
            Stage::RegionRestrict => Stage::FullDecode,
            Stage::FullDecode => Stage::Done,
            Stage::Done => Stage::Done,
        };
        self.stage = next;
        Ok(())
    }

    /// Whether every engine stage has succeeded.
    pub fn is_done(&self) -> (b: bool)
        ensures
            b == (self.stage is Done),
    {
        matches!(self.stage, Stage::Done)
    }

    /// Pack a fully populated descriptor into the output buffer: compute
    /// the effective dimensions from the intrinsic bounds and the factor
    /// the engine actually applied, then interleave the component planes.
    /// Succeeds exactly when the packing table supports the component
    /// layout; no partial buffer is ever returned.
    pub fn finish(&self, img: &Image) -> (r: Result<ImageBuffer, Error>)
        requires
            self.stage is Done,
            img.wf(),
            img.comps@.len() <= u32::MAX,
            img.reduced_width() * img.reduced_height() * 4 <= usize::MAX,
        ensures
            ({
                match layout_of(img.comps@) {
                    Result::Err(e) => r == Result::<ImageBuffer, Error>::Err(e),
                    Result::Ok(layout) => {
                        &&& r is Ok
                        &&& (r->Ok_0).width == img.reduced_width()
                        &&& (r->Ok_0).height == img.reduced_height()
                        &&& (r->Ok_0).num_bands == band_count(layout)
                        &&& (r->Ok_0).precision == precision_of(layout)
                        &&& Result::Ok::<Seq<u8>, Error>((r->Ok_0).buffer@) == decoded_bytes(
                            *img,
                        )
                    },
                }
            }),
            r is Ok ==> (r->Ok_0).buffer@.len() == (r->Ok_0).width * (r->Ok_0).height
                * (r->Ok_0).num_bands * ((r->Ok_0).precision as int / 8),
    {
        let factor = img.factor();
        let w = DecodeParams::value_for_discard_level(img.width(), factor);
        let h = DecodeParams::value_for_discard_level(img.height(), factor);
        pack(img.components(), w, h)
    }
}

/// Law: decoding depends on the descriptor's value alone. Two pipeline
/// runs over equal byte buffers populate equal descriptors, and equal
/// descriptors pack to identical output buffers.
pub proof fn lemma_decode_deterministic(a: Image, b: Image)
    requires
        a == b,
    ensures
        decoded_bytes(a) == decoded_bytes(b),
{
}

/// Law: the quality-layer limit changes fidelity only, never the path
/// through the pipeline. Two option sets that agree on the thread hint
/// and the decode region walk the same stages in the same order,
/// whatever their quality-layer limits (and their reduction factors,
/// which only parameterize the setup action).
pub proof fn lemma_stage_flow_ignores_quality_layers(
    stage: Stage,
    p1: DecodeParams,
    p2: DecodeParams,
)
    requires
        p1.num_threads == p2.num_threads,
        p1.decoding_area == p2.decoding_area,
    ensures
        next_stage(stage, p1) == next_stage(stage, p2),
{
}

/// Law: a supported decode packs a buffer of exactly
/// `width * height * bands` samples, one byte per sample at precision 8
/// and two at precision 16, over the effective (reduced) dimensions.
pub proof fn lemma_decoded_len(img: Image)
    requires
        img.wf(),
    ensures
        decoded_bytes(img) matches Ok(bytes) ==> bytes.len() == img.reduced_width()
            * img.reduced_height() * band_count(layout_of(img.comps@)->Ok_0) * (precision_of(
            layout_of(img.comps@)->Ok_0,
        ) / 8),
{
    lemma_reduced_dim_nonneg(img.spec_width(), img.spec_factor() as nat);
    lemma_reduced_dim_nonneg(img.spec_height(), img.spec_factor() as nat);
    vstd::arithmetic::mul::lemma_mul_nonnegative(img.reduced_width(), img.reduced_height());
}

/// An intrinsic dimension is never negative, so neither is its effective
/// (reduced) counterpart.
pub proof fn lemma_reduced_dim_nonneg(dim: int, level: nat)
    requires
        dim >= 0,
    ensures
        reduced_dim(dim, level) >= 0,
{
    vstd::arithmetic::power2::lemma_pow2_pos(level);
    vstd::arithmetic::div_mod::lemma_div_pos_is_pos(dim, vstd::arithmetic::power2::pow2(level) as int);
}

} // verus!
