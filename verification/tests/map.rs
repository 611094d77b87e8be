use dq_like_rpg::inventory::{generate_items, Item};
use dq_like_rpg::map::{CellRoll, Field, GameMap, MapRolls, Position, CHUNK_SIZE, MAP_HEIGHT, MAP_TEXTURE_SIZE, MAP_WIDTH};

fn cell(x: i32, y: i32) -> usize {
    ((y + 24) * 64 + (x + 32)) as usize
}

fn plain_cells() -> Vec<CellRoll> {
    let mut cells = Vec::new();
    for _ in 0..3072 {
        cells.push(CellRoll { mountain_walk: Vec::new(), water: false, forest: false });
    }
    cells
}

fn row_of_towns() -> Vec<(i32, i32)> {
    (0..16).map(|k| (k - 8, 10)).collect()
}

fn field(map: &GameMap, x: i32, y: i32) -> Field {
    map.position_to_field(&Position { x, y })
}

#[test]
fn map_constants() {
    assert_eq!((MAP_WIDTH, MAP_HEIGHT, MAP_TEXTURE_SIZE, CHUNK_SIZE), (64, 48, 16, 3));
    let sprites: Vec<usize> = [
        Field::Grass,
        Field::Forest,
        Field::Mountain,
        Field::Water,
        Field::Town { item: Item::IronArm, visited: true },
        Field::Castle,
        Field::Player,
        Field::Blink,
    ]
    .iter()
    .map(|f| f.sprite_index())
    .collect();
    assert_eq!(sprites, vec![0, 1, 2, 3, 4, 5, 6, 7]);
}

#[test]
fn plain_map_layout() {
    let map = GameMap::generate_map_from(&MapRolls { cells: plain_cells(), castle: (20, 15), towns: row_of_towns() });
    assert_eq!((map.width, map.height, map.tile_size, map.blink_status), (64, 48, 16, false));
    assert_eq!(map.fields.len(), 3072);
    assert_eq!(map.tiles.len(), 27648);
    assert_eq!(map.mini_tiles.len(), 3072);
    assert!(map.collisions.is_empty());
    // the first cell is the bottom-left corner, drawn first in the bottom-left block
    assert_eq!(map.tiles[0].point, (-96, -72));
    assert_eq!(map.tiles[0].sprite_index, 0);
    assert_eq!(map.tiles[4].point, (-32, -24));
    assert_eq!(map.tiles[8].point, (32, 24));
    // the start is drawn as the player on the mini map
    let start = cell(0, 0);
    assert_eq!(start, 1568);
    assert_eq!(map.mini_tiles[start].point, (0, 0));
    assert_eq!(map.mini_tiles[start].sprite_index, 6);
    assert_eq!(map.tiles[9 * start + 4].sprite_index, 0);
    // castle and towns
    assert_eq!(field(&map, 20, 15), Field::Castle);
    let castle = cell(20, 15);
    assert_eq!(map.mini_tiles[castle].sprite_index, 5);
    let items = generate_items();
    for k in 0..16 {
        assert_eq!(field(&map, k - 8, 10), Field::Town { item: items[k as usize], visited: false });
        assert_eq!(map.mini_tiles[cell(k - 8, 10)].sprite_index, 4);
    }
    assert_eq!(map.blinks_on_mini_tiles.len(), 17);
    assert!(map.blinks_on_mini_tiles.contains(&(20, 15)));
    assert!(map.blinks_on_mini_tiles.contains(&(-8, 10)));
    assert!(map.blinks_on_mini_tiles.contains(&(7, 10)));
    assert_eq!(field(&map, -32, -24), Field::Grass);
    assert_eq!(field(&map, 31, 23), Field::Grass);
}

#[test]
fn terrain_rolls_shape_the_map() {
    let mut cells = plain_cells();
    // water off the border, water on the border (ignored), water under forest
    cells[cell(4, -22)].water = true;
    cells[cell(-32, 0)].water = true;
    cells[cell(10, 10)].water = true;
    cells[cell(10, 10)].forest = true;
    // forest near the start is cleared
    cells[cell(1, 1)].forest = true;
    cells[cell(2, 2)].forest = true;
    // a mountain range, with a step clamped at the corner
    cells[cell(8, 6)].mountain_walk = vec![(3, 3), (-1, 0)];
    cells[cell(-32, -24)].mountain_walk = vec![(-3, -3)];
    let map = GameMap::generate_map_from(&MapRolls { cells, castle: (-25, -20), towns: row_of_towns() });
    assert_eq!(field(&map, 4, -22), Field::Water);
    assert_eq!(field(&map, -32, 0), Field::Grass);
    assert_eq!(field(&map, 10, 10), Field::Forest);
    assert_eq!(field(&map, 1, 1), Field::Grass);
    assert_eq!(field(&map, 2, 2), Field::Forest);
    assert_eq!(field(&map, 11, 9), Field::Mountain);
    assert_eq!(field(&map, 7, 6), Field::Mountain);
    assert_eq!(field(&map, 8, 6), Field::Grass);
    assert_eq!(field(&map, -32, -24), Field::Mountain);
    assert_eq!(map.collisions, vec![(4, -22)]);
    assert!(map.collides(4, -22));
    assert!(!map.collides(-32, 0));
    assert!(!map.collides(10, 10));
    assert_eq!(map.mini_tiles[cell(4, -22)].sprite_index, 3);
    assert_eq!(map.mini_tiles[cell(11, 9)].sprite_index, 2);
    assert_eq!(map.mini_tiles[cell(10, 10)].sprite_index, 1);
}

#[test]
fn towns_never_replace_towns_or_the_castle() {
    let mut towns = row_of_towns();
    towns[0] = (-25, -20);
    towns[2] = towns[1];
    let map = GameMap::generate_map_from(&MapRolls { cells: plain_cells(), castle: (-25, -20), towns });
    assert_eq!(field(&map, -25, -20), Field::Castle);
    assert_eq!(field(&map, -7, 10), Field::Town { item: Item::SpellHeal(2), visited: false });
    assert_eq!(field(&map, -6, 10), Field::Grass);
    assert_eq!(map.blinks_on_mini_tiles.len(), 15);
}

#[test]
fn getting_an_item_visits_the_town() {
    let mut map = GameMap::generate_map_from(&MapRolls { cells: plain_cells(), castle: (20, 15), towns: row_of_towns() });
    map.got_item((-5, 10));
    assert_eq!(field(&map, -5, 10), Field::Town { item: Item::SpellFire(1), visited: true });
    assert_eq!(field(&map, -4, 10), Field::Town { item: Item::SpellFire(2), visited: false });
    assert_eq!(map.blinks_on_mini_tiles.len(), 17);
}

#[test]
fn mini_map_blinks() {
    let mut map = GameMap::generate_map_from(&MapRolls { cells: plain_cells(), castle: (20, 15), towns: row_of_towns() });
    let first = map.animate_blinks();
    assert_eq!(first.len(), 17);
    assert!(first.iter().all(|t| t.sprite_index == 7));
    assert!(map.blink_status);
    let second = map.animate_blinks();
    assert!(!map.blink_status);
    assert_eq!(second.len(), 17);
    for t in &second {
        let expected = if t.point == (20, 15) { 5 } else { 4 };
        assert_eq!(t.sprite_index, expected);
    }
    let points: Vec<(i32, i32)> = second.iter().map(|t| t.point).collect();
    assert_eq!(points, map.blinks_on_mini_tiles);
}

#[test]
fn random_maps_keep_their_promises() {
    let towns: Vec<(i32, i32)> = (0..16).map(|k| (-20 + 2 * k, -15 + k)).collect();
    for _ in 0..5 {
        let map = GameMap::generate_map(( -25, 17), towns.clone());
        assert_eq!(map.fields.len(), 3072);
        assert_eq!(map.tiles.len(), 27648);
        let mut castles = 0;
        let mut items = Vec::new();
        for y in -24..24 {
            for x in -32..32 {
                let f = field(&map, x, y);
                let border = x == -32 || x == 31 || y == -24 || y == 23;
                if border {
                    assert_ne!(f, Field::Water);
                }
                if f == Field::Castle {
                    castles += 1;
                    assert_eq!((x, y), (-25, 17));
                }
                if let Field::Town { item, visited } = f {
                    assert!(!visited);
                    items.push(item);
                }
                assert_eq!(map.collides(x, y), f == Field::Water);
            }
        }
        assert_eq!(castles, 1);
        assert_eq!(items.len(), 16);
        for i in 0..items.len() {
            for j in 0..i {
                assert_ne!(items[i], items[j]);
            }
        }
        for y in -1..2 {
            for x in -1..2 {
                assert_eq!(field(&map, x, y), Field::Grass);
            }
        }
    }
}

#[test]
fn regenerating_keeps_the_size() {
    let mut map = GameMap::generate_map_from(&MapRolls { cells: plain_cells(), castle: (20, 15), towns: row_of_towns() });
    map.blink_status = true;
    let mut cells = plain_cells();
    cells[cell(4, 4)].water = true;
    let other = GameMap::generate_map_from(&MapRolls { cells, castle: (-20, -15), towns: row_of_towns() });
    map.regenerate_from(other);
    assert_eq!((map.width, map.height, map.tile_size), (64, 48, 16));
    assert!(!map.blink_status);
    assert_eq!(field(&map, -20, -15), Field::Castle);
    assert_eq!(field(&map, 20, 15), Field::Grass);
    assert_eq!(map.collisions, vec![(4, 4)]);
}
