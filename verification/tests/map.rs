use test_game::map::map_plugin::{rounded_edges_layer, TileSheetIndex, MAP_SIZE};
use test_game::map::{grass_layer, grass_texture_index};

#[test]
fn grass_bands() {
    assert_eq!(grass_texture_index(0), 3);
    assert_eq!(grass_texture_index(25), 3);
    assert_eq!(grass_texture_index(26), 13);
    assert_eq!(grass_texture_index(28), 13);
    assert_eq!(grass_texture_index(29), 3);
    assert_eq!(grass_texture_index(31), 6);
    assert_eq!(grass_texture_index(33), 6);
    assert_eq!(grass_texture_index(34), 3);
}

#[test]
fn grass_layer_covers_the_map() {
    let tiles = grass_layer();
    assert_eq!(tiles.len(), 128 * 64);
    assert_eq!(tiles[0], (0, 0, 3));
    assert_eq!(tiles[64 * 2 + 31], (2, 31, 6));
    assert_eq!(tiles[tiles.len() - 1], (127, 63, 3));
}

fn all_grass() -> Vec<Vec<TileSheetIndex>> {
    vec![vec![TileSheetIndex::MiddleGrassTile; MAP_SIZE + 1]; MAP_SIZE + 1]
}

#[test]
fn grass_has_no_edges() {
    assert!(rounded_edges_layer(&all_grass()).is_empty());
}

#[test]
fn sand_island_gets_four_edges() {
    let mut ground = all_grass();
    ground[5][5] = TileSheetIndex::MiddleSandTile;
    let edges = rounded_edges_layer(&ground);
    assert_eq!(
        edges,
        vec![
            (5, 5, TileSheetIndex::DownGrassTile),
            (5, 5, TileSheetIndex::TopGrassTile),
            (5, 5, TileSheetIndex::LeftGrassTile),
            (5, 5, TileSheetIndex::RightGrassTile),
        ]
    );
}

#[test]
fn edges_at_the_border() {
    let mut ground = all_grass();
    ground[0][0] = TileSheetIndex::MiddleSandTile;
    ground[0][1] = TileSheetIndex::MiddleSandTile;
    let edges = rounded_edges_layer(&ground);
    assert_eq!(
        edges,
        vec![
            (0, 0, TileSheetIndex::LeftGrassTile),
            (0, 1, TileSheetIndex::DownGrassTile),
            (0, 1, TileSheetIndex::LeftGrassTile),
        ]
    );
}

#[test]
fn sheet_indices() {
    assert_eq!(TileSheetIndex::MiddleGrassTile.sheet_index(), 113);
    assert_eq!(TileSheetIndex::MiddleSandTile.sheet_index(), 117);
    assert_eq!(TileSheetIndex::Bush.sheet_index(), 1078);
    assert_eq!(TileSheetIndex::TopGrassTile.sheet_index(), 1239);
}
