//! The container-format choice for one decoding engine instance.
//!
//! The engine decompresses one of five framing variants. The choice is
//! fixed when the [`Codec`] is created and never changes; the host program
//! maps it onto the engine's own format constant when it allocates the
//! native decompressor.

use vstd::prelude::*;

verus! {

/// The five container formats the engine can read.
#[derive(Debug, Clone, Copy, PartialEq, Eq, Structural)]
pub enum CodecFormat {
    /// Raw JPEG2000 codestream.
    J2k,
    /// JPT-stream (JPEG 2000, JPIP).
    Jpt,
    /// JP2 file format.
    Jp2,
    /// JPP-stream (JPEG 2000, JPIP).
    Jpp,
    /// JPX file format (JPEG 2000 Part-2).
    Jpx,
}

/// One decoding engine instance, bound to one container format.
#[derive(Debug, Clone, Copy, PartialEq, Eq, Structural)]
pub struct Codec {
    pub format: CodecFormat,
}

impl Codec {
    fn create(format: CodecFormat) -> (c: Codec)
        ensures
            c.format == format,
    {
        Codec { format }
    }

    /// JPEG-2000 codestream.
    pub fn j2k() -> (c: Codec)
        ensures
            c.format == CodecFormat::J2k,
    {
        Codec::create(CodecFormat::J2k)
    }

    /// JPT-stream (JPEG 2000, JPIP).
    pub fn jpt() -> (c: Codec)
        ensures
            c.format == CodecFormat::Jpt,
    {
        Codec::create(CodecFormat::Jpt)
    }

    /// JP2 file format.
    pub fn jp2() -> (c: Codec)
        ensures
            c.format == CodecFormat::Jp2,
    {
        Codec::create(CodecFormat::Jp2)
    }

    /// JPP-stream (JPEG 2000, JPIP).
    pub fn jpp() -> (c: Codec)
        ensures
            c.format == CodecFormat::Jpp,
    {
        Codec::create(CodecFormat::Jpp)
    }

    /// JPX file format (JPEG 2000 Part-2).
    pub fn jpx() -> (c: Codec)
        ensures
            c.format == CodecFormat::Jpx,
    {
        Codec::create(CodecFormat::Jpx)
    }
}

} // verus!
