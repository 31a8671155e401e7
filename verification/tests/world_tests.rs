use road_tools::world::{content_from_index, tile_type_from_index, Content, Tile, TileType, WorldGenerator};

fn tile(t: TileType) -> Tile {
    Tile { tile_type: t, content: Content::Nothing, elevation: 0 }
}

#[test]
fn generated_world_has_a_lava_column() {
    let g = WorldGenerator::init(3);
    assert_eq!(g.size(), 3);
    let map = g.layout();
    assert_eq!(map.len(), 3);
    for row in &map {
        assert_eq!(row, &vec![tile(TileType::Grass), tile(TileType::Lava), tile(TileType::Grass)]);
    }
}

#[test]
fn two_by_two_world() {
    let map = WorldGenerator::init(2).layout();
    assert_eq!(map, vec![vec![tile(TileType::Grass), tile(TileType::Lava)]; 2]);
}

#[test]
fn empty_world() {
    assert!(WorldGenerator::init(0).layout().is_empty());
}

#[test]
fn tile_type_draws() {
    assert_eq!(tile_type_from_index(0), TileType::DeepWater);
    assert_eq!(tile_type_from_index(4), TileType::Street);
    assert_eq!(tile_type_from_index(8), TileType::Lava);
    assert_eq!(tile_type_from_index(9), TileType::Teleport(false));
    assert_eq!(tile_type_from_index(10), TileType::Grass);
    assert_eq!(tile_type_from_index(usize::MAX), TileType::Grass);
}

#[test]
fn content_draws() {
    assert_eq!(content_from_index(0), Content::Rock(0));
    assert_eq!(content_from_index(5), Content::Bin(2, 3));
    assert_eq!(content_from_index(7), Content::Bank(3, 54));
    assert_eq!(content_from_index(9), Content::Nothing);
    assert_eq!(content_from_index(15), Content::Scarecrow);
    assert_eq!(content_from_index(16), Content::Nothing);
}
