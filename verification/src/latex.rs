//! Build targets for converting markdown into LaTeX or PDF artifacts. The
//! conversion runs an external document processor, so it lives with the
//! embedding application; only the choice of target is modeled here.

use vstd::prelude::*;

verus! {

/// The artifact a markdown document can be turned into:
/// a LaTeX file, a plain PDF, or a PDF with Rust-flavored code styling.
#[derive(Debug, Clone, Copy)]
pub enum BuildType {
    TeX,
    PDF,
    PdfRustStyling,
}

} // verus!
