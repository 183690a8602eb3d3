//! Lossy raster-image compression by low-rank reconstruction.
//!
//! Each color channel of an image is treated as a matrix, decomposed by a
//! singular value decomposition supplied by a numeric collaborator, truncated
//! to a rank chosen from a compression level in `0..=9`, and rebuilt. This
//! crate holds the verified integer-side core: image and channel-plane data
//! types, level and dimension validation, rank selection, and the clamping
//! and reassembly of reconstructed channel values into pixels. The
//! floating-point decomposition and reconstruction themselves are performed
//! by the caller between `extract_channels` and `assemble_image`.

mod assemble;
mod channels;
mod error;
mod image_data;
mod pipeline;
mod rank;

pub use assemble::assemble_image;
pub use assemble::assembled_pixel;
pub use assemble::clamp_byte;
pub use assemble::clamp_to_byte;
pub use assemble::lemma_clamp_byte_in_range;
pub use assemble::lemma_exact_planes_reassemble_identically;
pub use assemble::lemma_reassembly_identity;
pub use channels::extract_channels;
pub use channels::ChannelPlanes;
pub use error::CompressError;
pub use image_data::Image;
pub use image_data::Pixel;
pub use pipeline::max_rank_of;
pub use pipeline::plan_compression;
pub use rank::lemma_full_rank_at_level_zero;
pub use rank::lemma_rank_bounds;
pub use rank::lemma_rank_monotone_in_level;
pub use rank::rank_for;
pub use rank::select_rank;
