use vstd::prelude::*;

verus! {

/// Watching over an area.
pub const SURVEILLANCE: u8 = 0;

/// Carrying goods to a place.
pub const DELIVERY: u8 = 1;

/// Looking at a structure.
pub const INSPECTION: u8 = 2;

/// Surveying an area for a map.
pub const MAPPING: u8 = 3;

/// Taking pictures.
pub const PHOTOGRAPHY: u8 = 4;

} // verus!
