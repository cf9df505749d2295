//! Tile data.
use vstd::prelude::*;

verus! {

/// One 8x8 tile: two bytes per row, sixteen bytes in all.
#[derive(Debug, Clone, Copy)]
pub struct TileData(pub [u8; 16]);

} // verus!
