//! Server-side image optimization driven by query parameters: a small DSL of
//! chained transform steps, its parser, and its execution engine.

pub(crate) mod format;
pub(crate) mod imgio;
mod pixeldim;
pub use format::ImgFormat;
pub use imgio::{SizedImage, decode_ok, resize_dims_of, sniffed_format, spec_crop_clip, spec_dim_floor};
pub use pixeldim::PixelDim;

pub mod transformers;

mod chain;
pub use chain::{TransformBytesError, TransformerChain};
pub use format::lemma_format_mime_roundtrip;
pub use chain::{spec_chain_dims_ok, spec_chain_steps, spec_chain_wf, spec_count_formats, spec_parse_chain, spec_step_dims_ok};
