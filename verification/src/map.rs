use vstd::prelude::*;

pub mod map_plugin;

verus! {

/// Width of the background grass map in tiles.
pub const GRASS_MAP_WIDTH: u32 = 128;
/// Height of the background grass map in tiles.
pub const GRASS_MAP_HEIGHT: u32 = 64;

/// The tile of the background grass map in row `y`: two bands of other
/// tiles across the map, grass elsewhere.
pub open spec fn grass_tile(y: nat) -> u32 {
    if y > 30 && y < 34 {
        6
    } else if y > 25 && y < 29 {
        13
    } else {
        3
    }
}

/// The texture index of the background tile in row `y`.
pub fn grass_texture_index(y: u32) -> (index: u32)
    ensures
        index == grass_tile(y as nat),
{
    if y > 30 && y < 34 {
        6
    } else if y > 25 && y < 29 {
        13
    } else {
        3
    }
}

/// Rows 31 to 33 of the background get tile 6, rows 26 to 28 tile 13,
/// and every other row (rows 29 and 30 among them) tile 3.
pub proof fn lemma_grass_bands(y: nat)
    ensures
        grass_tile(y) == 6 <==> 31 <= y <= 33,
        grass_tile(y) == 13 <==> 26 <= y <= 28,
        grass_tile(y) == 3 <==> !(31 <= y <= 33) && !(26 <= y <= 28),
{
}

/// Every tile of the background grass map as `(x, y, texture index)`,
/// column by column.
pub fn grass_layer() -> (tiles: Vec<(u32, u32, u32)>)
    ensures
        tiles.len() == GRASS_MAP_WIDTH * GRASS_MAP_HEIGHT,
        forall|k: int|
            0 <= k < tiles.len() ==> #[trigger] tiles[k] == (
                (k / GRASS_MAP_HEIGHT as int) as u32,
                (k % GRASS_MAP_HEIGHT as int) as u32,
                grass_tile((k % GRASS_MAP_HEIGHT as int) as nat),
            ),
{
    let mut tiles: Vec<(u32, u32, u32)> = Vec::new();
    let mut x: u32 = 0;
    while x < GRASS_MAP_WIDTH
        invariant
            x <= GRASS_MAP_WIDTH,
            tiles.len() == x * GRASS_MAP_HEIGHT,
            forall|k: int|
                0 <= k < tiles.len() ==> #[trigger] tiles[k] == (
                    (k / GRASS_MAP_HEIGHT as int) as u32,
                    (k % GRASS_MAP_HEIGHT as int) as u32,
                    grass_tile((k % GRASS_MAP_HEIGHT as int) as nat),
                ),
        decreases GRASS_MAP_WIDTH - x,
    {
        let mut y: u32 = 0;
        while y < GRASS_MAP_HEIGHT
            invariant
                x < GRASS_MAP_WIDTH,
                y <= GRASS_MAP_HEIGHT,
                tiles.len() == x * GRASS_MAP_HEIGHT + y,
                forall|k: int|
                    0 <= k < tiles.len() ==> #[trigger] tiles[k] == (
                        (k / GRASS_MAP_HEIGHT as int) as u32,
                        (k % GRASS_MAP_HEIGHT as int) as u32,
                        grass_tile((k % GRASS_MAP_HEIGHT as int) as nat),
                    ),
            decreases GRASS_MAP_HEIGHT - y,
        {
            proof {
                let k = (x * GRASS_MAP_HEIGHT + y) as int;
                vstd::arithmetic::div_mod::lemma_fundamental_div_mod_converse(
                    k,
                    GRASS_MAP_HEIGHT as int,
                    x as int,
                    y as int,
                );
            }
            tiles.push((x, y, grass_texture_index(y)));
            y = y + 1;
        }
        x = x + 1;
    }
    tiles
}

} // verus!
