//! Finds, for each input color, the perceptually nearest color among a fixed
//! set of named "parent" colors.
//!
//! Colors enter and leave as 6-digit hex triplets. Matching happens in a
//! perceptually uniform space (CIE Lab), represented here in fixed-point
//! coordinates so that the distance computation and the nearest-neighbor
//! search are exact integer arithmetic.

pub mod color;
pub mod config;
pub mod hex;
pub mod json;
pub mod nearest;

pub use color::Lab;
pub use color::Rgb;
pub use config::ColorIdError;
pub use hex::ParsingError;
pub use nearest::Parent;
