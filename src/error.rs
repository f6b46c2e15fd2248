use vstd::prelude::*;

verus! {

/// The ways color extraction can fail. Each variant carries a readable cause.
#[derive(Debug)]
pub enum PigmentsError {
    /// The image could not be turned into observations.
    ImageProcessError(String),
    /// The clustering step produced something unusable.
    ColorExtractionError(String),
    /// The requested number of colors is zero or exceeds the number of observations.
    InvalidColorCount(String),
    /// Sampling left no pixel to cluster.
    EmptyInput(String),
    /// Reading or writing a file failed.
    IoError(String),
    /// The output format named is neither `json` nor `text`.
    UnsupportedFormat(String),
}

impl PigmentsError {
    /// The readable cause carried by the error.
    pub fn message(&self) -> (r: &String)
        ensures
            r == match self {
                PigmentsError::ImageProcessError(m) => m,
                PigmentsError::ColorExtractionError(m) => m,
                PigmentsError::InvalidColorCount(m) => m,
                PigmentsError::EmptyInput(m) => m,
                PigmentsError::IoError(m) => m,
                PigmentsError::UnsupportedFormat(m) => m,
            },
    {
        match self {
            PigmentsError::ImageProcessError(m) => m,
            PigmentsError::ColorExtractionError(m) => m,
            PigmentsError::InvalidColorCount(m) => m,
            PigmentsError::EmptyInput(m) => m,
            PigmentsError::IoError(m) => m,
            PigmentsError::UnsupportedFormat(m) => m,
        }
    }
}

} // verus!
