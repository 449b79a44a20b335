//! Decoding pipeline for JPEG2000-family bitstreams.
//!
//! The crate models the orchestration around an external decoding engine:
//! a pull-based byte source ([`Stream`]), the decode options
//! ([`DecodeParams`]), the container-format choice ([`Codec`]), the decoded
//! image descriptor ([`Image`]), the strictly ordered decode state machine
//! ([`DecodePipeline`]), and the planar-to-interleaved packing that yields
//! the one artifact a caller keeps, an [`ImageBuffer`].
//!
//! The engine itself (entropy decoding, wavelet transform) is an external
//! collaborator: a host program performs its calls and feeds their results
//! back into the state machine, which decides every transition, computes
//! the effective output dimensions, and packs the component planes.

pub mod codec;
pub mod err;
pub mod image;
pub mod pack;
pub mod params;
pub mod pipeline;
pub mod stream;

pub use codec::Codec;
pub use codec::CodecFormat;
pub use err::Error;
pub use stream::Stream;
pub use image::ColorSpace;
pub use image::Component;
pub use image::Image;
pub use image::ImageBuffer;
pub use image::Info;
pub use pack::Layout;
pub use params::DecodeParams;
pub use params::DecodingArea;
pub use pipeline::DecodePipeline;
pub use pipeline::EngineAction;
pub use pipeline::Stage;
