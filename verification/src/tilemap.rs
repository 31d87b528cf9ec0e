//! A rectangular map of tiles, sized at construction.
use vstd::prelude::*;

verus! {

/// One cell of a tilemap.
pub struct Tile {}

/// A rectangular tile grid stored row by row.
pub struct Tilemap {
    pub tiles: Vec<Tile>,
    pub size: (usize, usize),
}

impl Tilemap {
    /// A map of `size.0` by `size.1` tiles: one tile per cell.
    pub fn new(size: (usize, usize)) -> (t: Tilemap)
        requires
            size.0 * size.1 <= usize::MAX,
        ensures
            t.size == size,
            t.tiles@.len() == size.0 * size.1,
    {
        let count: usize = size.0 * size.1;
        let mut tiles: Vec<Tile> = Vec::new();
        let mut i: usize = 0;
        while i < count
            invariant
                i <= count,
                tiles@.len() == i,
            decreases count - i,
        {
            tiles.push(Tile {});
            i += 1;
        }
        Tilemap { tiles, size }
    }
}

} // verus!
