//! Typed failures of the decode pipeline.
//!
//! Every stage of a decode reports its own variant, so a caller always
//! learns which stage aborted the attempt. All variants are terminal for
//! the current decode: nothing is retried.

use vstd::prelude::*;

verus! {

/// One failure kind per pipeline stage, plus the two rejections of the
/// band-packing step, which record the offending component count and
/// sample precision.
#[derive(Debug, Clone, Copy, PartialEq, Eq, Structural)]
pub enum Error {
    /// The engine could not allocate a decompressor for the chosen format.
    EngineCreationFailed,
    /// The engine rejected the decoding parameters.
    DecoderSetupFailed,
    /// The engine rejected the requested worker-thread count.
    ThreadConfigFailed,
    /// The header could not be parsed (malformed, truncated, or wrong format).
    HeaderReadFailed,
    /// The requested decode region is degenerate or does not fit the image.
    InvalidDecodeRegion,
    /// The full decode failed on the codestream data.
    DecodeFailed,
    /// The component count, or the mix of precisions across components,
    /// has no entry in the packing table.
    UnsupportedComponentLayout { components: u32, precision: u32 },
    /// The components agree on a precision, but it is not one the packing
    /// table defines for this component count.
    UnsupportedPrecision { precision: u32 },
}

} // verus!
