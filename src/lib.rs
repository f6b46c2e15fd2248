use vstd::prelude::*;

pub mod cli;
pub mod color;
pub mod error;
pub mod sampler;
pub mod text;

pub use cli::{Args, OutputFormat};
pub use color::{colors_from_clusters, Centroid, Color, ColorExtractor};
pub use error::PigmentsError;
pub use sampler::{sample, target_dimensions, PixelGrid};
pub use text::format_colors_text;

verus! {

} // verus!
