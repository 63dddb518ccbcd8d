use vstd::prelude::*;

verus! {

/// How many times its image size a terrain tile is drawn.
pub const TERRAIN_SCALE: u32 = 5;

/// How many terrain tiles are laid side by side.
pub const TERRAIN_TILES: usize = 2;

/// The horizontal position of terrain tile `i` when the terrain image is
/// `width` pixels wide: tiles stand edge to edge from the origin.
pub open spec fn tile_offset(width: u32, i: int) -> int {
    i * width * TERRAIN_SCALE
}

/// The horizontal positions of the terrain tiles, left to right.
pub fn terrain_tile_offsets(width: u32) -> (r: Vec<u64>)
    ensures
        r@.len() == TERRAIN_TILES,
        forall|i: int| 0 <= i < r@.len() ==> #[trigger] r@[i] == tile_offset(width, i),
{
    let mut r: Vec<u64> = Vec::new();
    let tile_width: u64 = width as u64 * TERRAIN_SCALE as u64;
    let mut i: usize = 0;
    while i < TERRAIN_TILES
        invariant
            i <= TERRAIN_TILES,
            r@.len() == i,
            tile_width == width * TERRAIN_SCALE,
            forall|j: int| 0 <= j < i ==> #[trigger] r@[j] == tile_offset(width, j),
        decreases TERRAIN_TILES - i,
    {
        assert(i * tile_width <= 1 * (u32::MAX * TERRAIN_SCALE)) by (nonlinear_arith)
            requires
                i <= 1,
                tile_width <= u32::MAX * TERRAIN_SCALE,
        ;
        assert(i * tile_width == tile_offset(width, i as int)) by (nonlinear_arith)
            requires
                tile_width == width * TERRAIN_SCALE,
        ;
        r.push(i as u64 * tile_width);
        i = i + 1;
    }
    r
}

} // verus!
