//! What can go wrong on the way from raw bytes to a stored image.

use vstd::prelude::*;

verus! {

/// The ways in which the pipeline fails.
#[derive(Clone, Debug, PartialEq, Eq)]
pub enum PipelineError {
    /// The raw bytes could not be decoded under the format that was resolved for
    /// them. The decoder's account comes with it.
    Decode(String),
    /// The image has to be scaled down, and the raster is too large to be resampled
    /// in the memory that this machine can address.
    Resize,
    /// Every enabled encoder failed on an image that did decode. The error of the
    /// first candidate comes with it.
    AllCandidatesFailed(String),
    /// The image has had its optimization pass: the policy refuses another one.
    /// This is an answer, not a fault.
    IneligibleForOptimization,
    /// An operation on the store failed. The store's account comes with it.
    StoreUnavailable(String),
}

/// What a caller is told when an image cannot be resampled.
pub const RESIZE_ERROR: &'static str = "The image is too large to be resized";

/// What a caller is told when an image has had its pass.
pub const INELIGIBLE_ERROR: &'static str = "This image is already too compressed!";

impl PipelineError {
    /// The account of the error as text: the one it carries, or the fixed text of
    /// its kind.
    pub open spec fn message_text(self) -> Seq<char> {
        match self {
            PipelineError::Decode(message) => message@,
            PipelineError::Resize => RESIZE_ERROR@,
            PipelineError::AllCandidatesFailed(message) => message@,
            PipelineError::IneligibleForOptimization => INELIGIBLE_ERROR@,
            PipelineError::StoreUnavailable(message) => message@,
        }
    }

    /// The account of the error as text.
    pub fn message(&self) -> (text: String)
        ensures
            text@ == self.message_text(),
    {
        match self {
            PipelineError::Decode(message) => message.clone(),
            PipelineError::Resize => RESIZE_ERROR.to_owned(),
            PipelineError::AllCandidatesFailed(message) => message.clone(),
            PipelineError::IneligibleForOptimization => INELIGIBLE_ERROR.to_owned(),
            PipelineError::StoreUnavailable(message) => message.clone(),
        }
    }
}

} // verus!
