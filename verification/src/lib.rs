//! Core library for the MoKa Reads platform: educational content records
//! (articles, cheat sheets, guides), their classification by topic language
//! and difficulty level, and a multi-index search resolver over an immutable
//! content snapshot.

/// Handles for the remote content API.
pub mod api;
/// Paged lists of repositories gathered from GitHub searches.
pub mod awesome_lists;
/// A sample markdown document for benchmarking parsers.
pub mod bench;
/// Consumer-price-index observations from the Bank of Canada.
pub mod cpi;
/// Build targets for markdown-to-LaTeX and PDF conversion.
pub mod latex;
/// Product catalogue types.
pub mod products;
/// Content records, classification, and the search resolver.
pub mod resources;
/// Verified helpers over strings and characters.
pub mod strutil;
/// Timestamps taken from the system clock.
pub mod timeutil;
