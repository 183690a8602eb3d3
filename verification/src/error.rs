use vstd::prelude::*;

verus! {

/// The ways a compression run can fail. Every failure aborts the whole
/// pipeline invocation; no partially compressed image is ever produced.
#[derive(Clone, Copy, Debug, PartialEq, Eq, Structural)]
pub enum CompressError {
    /// The image has zero width or zero height.
    InvalidImageDimensions,
    /// The requested compression level lies outside `0..=9`.
    InvalidCompressionLevel,
    /// A channel matrix held a non-finite value, or the numeric
    /// decomposition itself failed.
    DecompositionError,
}

impl CompressError {
    /// A short description naming the failing stage.
    pub fn message(&self) -> (r: &'static str)
        ensures
            self is InvalidImageDimensions ==> r@ == "image has zero width or height"@,
            self is InvalidCompressionLevel ==> r@ == "compression level must be between 0 and 9"@,
            self is DecompositionError ==> r@ == "singular value decomposition failed"@,
    {
        match self {
            CompressError::InvalidImageDimensions => "image has zero width or height",
            CompressError::InvalidCompressionLevel => "compression level must be between 0 and 9",
            CompressError::DecompositionError => "singular value decomposition failed",
        }
    }
}

} // verus!
