//! Product catalogue types.

/// Product kinds and their catalogue paths.
pub mod product;
