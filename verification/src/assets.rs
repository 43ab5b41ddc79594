//! Identifiers for font assets the text renderer draws with.

use vstd::prelude::*;

verus! {

/// Identifies one typeface (a font file at one size class) registered with
/// the text renderer.
#[derive(Debug, Clone, Copy, PartialEq, Eq, Structural, Hash)]
pub struct TypefaceId(pub u32);

/// Identifies one loaded font asset.
#[derive(Debug, Clone, Copy, PartialEq, Eq, Structural, Hash)]
pub struct FontId(pub u32);

} // verus!
