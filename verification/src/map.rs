//! The world map: its terrain, its generation, and its towns.
use vstd::prelude::*;
use crate::inventory::Item;
use crate::actions::Action;
use crate::character_status::{clamp, clamp_i32};
use crate::chance::random_range;
use crate::inventory::{all_items, generate_items};

verus! {

/// Width of the world map in cells.
pub const MAP_WIDTH: u32 = 64;

/// Height of the world map in cells.
pub const MAP_HEIGHT: u32 = 48;

/// Size of a map tile in pixels.
pub const MAP_TEXTURE_SIZE: u32 = 16;

/// The map is drawn as a 3 x 3 block of copies so that it wraps around.
pub const CHUNK_SIZE: u32 = 3;

/// The terrain of a map cell, and two markers used only on the mini map.
#[derive(Clone, Copy, PartialEq, Eq, Structural, Debug, Hash)]
pub enum Field {
    Grass,
    Forest,
    Mountain,
    Water,
    Town { item: Item, visited: bool },
    Castle,
    Player,
    Blink,
}

/// The sprite of each field in the tile sheet.
pub open spec fn field_sprite(f: Field) -> int {
    match f {
        Field::Grass => 0,
        Field::Forest => 1,
        Field::Mountain => 2,
        Field::Water => 3,
        Field::Town { .. } => 4,
        Field::Castle => 5,
        Field::Player => 6,
        Field::Blink => 7,
    }
}

impl Field {
    /// The index of this field's sprite in the tile sheet.
    pub fn sprite_index(&self) -> (r: usize)
        ensures
            r == field_sprite(*self),
    {
        match self {
            Field::Grass => 0,
            Field::Forest => 1,
            Field::Mountain => 2,
            Field::Water => 3,
            Field::Town { .. } => 4,
            Field::Castle => 5,
            Field::Player => 6,
            Field::Blink => 7,
        }
    }
}

/// A cell of the map. The start is `(0, 0)`; x grows to the right and y upwards.
#[derive(Clone, Copy, PartialEq, Eq, Structural, Debug, Default)]
pub struct Position {
    pub x: i32,
    pub y: i32,
}

/// A tile to draw: a point of the tile map and the sprite drawn there.
#[derive(Clone, Copy, Debug)]
pub struct Tile {
    pub point: (i32, i32),
    pub sprite_index: usize,
}

/// Whether the cell `(x, y)` lies on a `w` by `h` map centred on the start:
/// x in `[-w/2, w - w/2)`, y in `[-h/2, h - h/2)`.
pub open spec fn in_grid(w: int, h: int, x: int, y: int) -> bool {
    -(w / 2) <= x < w - w / 2 && -(h / 2) <= y < h - h / 2
}

/// The place of cell `(x, y)` in the row-major list of a `w`-wide map's fields.
pub open spec fn cell_index(w: int, h: int, x: int, y: int) -> int {
    (y + h / 2) * w + (x + w / 2)
}

/// Different cells of a map have different places in its list of fields,
/// and every cell's place lies within the list.
pub proof fn lemma_cell_index_injective(w: int, h: int, x1: int, y1: int, x2: int, y2: int)
    requires
        w >= 0,
        h >= 0,
        in_grid(w, h, x1, y1),
        in_grid(w, h, x2, y2),
    ensures
        (x1, y1) != (x2, y2) ==> cell_index(w, h, x1, y1) != cell_index(w, h, x2, y2),
        0 <= cell_index(w, h, x1, y1) < w * h,
{
    let a = y1 + h / 2;
    let b = x1 + w / 2;
    let c = y2 + h / 2;
    let d = x2 + w / 2;
    assert(0 <= a * w + b < w * h) by (nonlinear_arith)
        requires
            0 <= a < h,
            0 <= b < w,
    ;
    if a < c {
        assert(a * w + b < c * w + d) by (nonlinear_arith)
            requires
                0 <= b < w,
                0 <= d,
                a + 1 <= c,
        ;
    } else if c < a {
        assert(c * w + d < a * w + b) by (nonlinear_arith)
            requires
                0 <= d < w,
                0 <= b,
                c + 1 <= a,
        ;
    }
}

/// The world map: the terrain of every cell, the cells that block movement,
/// the cells that blink on the mini map, and the tiles that draw it.
pub struct GameMap {
    pub width: u32,
    pub height: u32,
    pub tile_size: u32,
    pub collisions: Vec<(i32, i32)>,
    pub blinks_on_mini_tiles: Vec<(i32, i32)>,
    pub blink_status: bool,
    pub fields: Vec<Field>,
    pub tiles: Vec<Tile>,
    pub mini_tiles: Vec<Tile>,
}

impl GameMap {
    /// The fields hold one entry per cell, row by row from the bottom.
    pub open spec fn wf(&self) -> bool {
        &&& self.width <= 1024
        &&& self.height <= 1024
        &&& self.fields.len() == self.width * self.height
    }

    /// The field at `(x, y)`, if the map has that cell.
    pub open spec fn field_at(&self, x: int, y: int) -> Option<Field> {
        if self.wf() && in_grid(self.width as int, self.height as int, x, y) {
            Some(self.fields@[cell_index(self.width as int, self.height as int, x, y)])
        } else {
            None
        }
    }

    fn index_of(&self, x: i32, y: i32) -> (r: usize)
        requires
            self.field_at(x as int, y as int) is Some,
        ensures
            r == cell_index(self.width as int, self.height as int, x as int, y as int),
            r < self.fields.len(),
    {
        let w = self.width as i64;
        let h = self.height as i64;
        let row = (y as i64) + h / 2;
        let col = (x as i64) + w / 2;
        assert(0 <= row * w + col < w * h) by (nonlinear_arith)
            requires
                0 <= row < h,
                0 <= col < w,
        ;
        assert(row * w <= 1024 * 1024) by (nonlinear_arith)
            requires
                0 <= row < h,
                h <= 1024,
                0 <= w <= 1024,
        ;
        (row * w + col) as usize
    }

    /// Whether the map has the cell `point`.
    pub fn has_cell(&self, point: &Position) -> (r: bool)
        ensures
            r == self.field_at(point.x as int, point.y as int) is Some,
    {
        if self.width > 1024 || self.height > 1024 {
            return false;
        }
        let w = self.width as u64;
        let h = self.height as u64;
        assert(w * h <= 1024 * 1024) by (nonlinear_arith)
            requires
                w <= 1024,
                h <= 1024,
        ;
        if self.fields.len() as u64 != w * h {
            return false;
        }
        let x = point.x as i64;
        let y = point.y as i64;
        let wi = self.width as i64;
        let hi = self.height as i64;
        -(wi / 2) <= x && x < wi - wi / 2 && -(hi / 2) <= y && y < hi - hi / 2
    }

    /// The field at a cell of the map.
    pub fn position_to_field(&self, point: &Position) -> (r: Field)
        requires
            self.field_at(point.x as int, point.y as int) is Some,
        ensures
            r == self.field_at(point.x as int, point.y as int).unwrap(),
    {
        let i = self.index_of(point.x, point.y);
        self.fields[i]
    }

    /// Marks the town at `pos` as visited: its item has been taken.
    pub fn got_item(&mut self, pos: (i32, i32))
        requires
            old(self).field_at(pos.0 as int, pos.1 as int) matches Some(Field::Town { .. }),
        ensures
            final(self).field_at(pos.0 as int, pos.1 as int) == Some(Field::Town {
                item: old(self).field_at(pos.0 as int, pos.1 as int).unwrap()->item,
                visited: true,
            }),
            forall|x: int, y: int| #![auto] (x, y) != (pos.0 as int, pos.1 as int) ==> final(self).field_at(x, y) == old(self).field_at(x, y),
            final(self).width == old(self).width,
            final(self).height == old(self).height,
            final(self).tile_size == old(self).tile_size,
            final(self).collisions@ == old(self).collisions@,
            final(self).blinks_on_mini_tiles@ == old(self).blinks_on_mini_tiles@,
            final(self).blink_status == old(self).blink_status,
            final(self).tiles@ == old(self).tiles@,
            final(self).mini_tiles@ == old(self).mini_tiles@,
    {
        let i = self.index_of(pos.0, pos.1);
        let town = self.fields[i];
        match town {
            Field::Town { item, visited: _ } => {
                self.fields.set(i, Field::Town { item, visited: true });
            },
            _ => {},
        }
        proof {
            let w = self.width as int;
            let h = self.height as int;
            assert forall|x: int, y: int| #![auto] (x, y) != (pos.0 as int, pos.1 as int) implies self.field_at(x, y) == old(self).field_at(x, y) by {
                if in_grid(w, h, x, y) {
                    lemma_cell_index_injective(w, h, x, y, pos.0 as int, pos.1 as int);
                }
            }
        }
    }

    /// The mini map tiles to redraw when the player moves from the cell `from`
    /// to the cell `to`: the cell left shows its own field again, and the
    /// player is drawn on the cell reached.
    pub fn mini_map_move_tiles(&self, from: &Position, to: &Position) -> (r: (Tile, Tile))
        requires
            self.field_at(from.x as int, from.y as int) is Some,
        ensures
            r.0 == (Tile { point: (from.x, from.y), sprite_index: field_sprite(self.field_at(from.x as int, from.y as int).unwrap()) as usize }),
            r.1 == (Tile { point: (to.x, to.y), sprite_index: field_sprite(Field::Player) as usize }),
    {
        let left = Tile { point: (from.x, from.y), sprite_index: self.position_to_field(from).sprite_index() };
        let reached = Tile { point: (to.x, to.y), sprite_index: Field::Player.sprite_index() };
        (left, reached)
    }

    /// Whether `(x, y)` blocks movement.
    pub fn collides(&self, x: i32, y: i32) -> (r: bool)
        ensures
            r == self.collisions@.contains((x, y)),
    {
        let n = self.collisions.len();
        let mut i: usize = 0;
        while i < n
            invariant
                n == self.collisions@.len(),
                0 <= i <= n,
                forall|j: int| 0 <= j < i ==> self.collisions@[j] != (x, y),
            decreases n - i,
        {
            let c = self.collisions[i];
            if c.0 == x && c.1 == y {
                return true;
            }
            i = i + 1;
        }
        false
    }
}

/// The random choices that shape a new map's terrain at one cell, in the
/// order the cells are visited (row by row from the bottom): the steps of a
/// mountain range starting there (empty when none starts), whether water
/// springs there, and whether a forest grows there.
pub struct CellRoll {
    pub mountain_walk: Vec<(i32, i32)>,
    pub water: bool,
    pub forest: bool,
}

/// All the choices that shape a new map: one `CellRoll` per cell, the
/// castle's cell, and one candidate cell per town item.
pub struct MapRolls {
    pub cells: Vec<CellRoll>,
    pub castle: (i32, i32),
    pub towns: Vec<(i32, i32)>,
}

pub open spec fn gw() -> int {
    MAP_WIDTH as int
}

pub open spec fn gh() -> int {
    MAP_HEIGHT as int
}

/// The number of cells of the world map.
pub open spec fn cell_count() -> int {
    gw() * gh()
}

/// The x coordinate of the `i`-th cell of the world map.
pub open spec fn cell_x(i: int) -> int {
    i % gw() - gw() / 2
}

/// The y coordinate of the `i`-th cell of the world map.
pub open spec fn cell_y(i: int) -> int {
    i / gw() - gh() / 2
}

/// The place of cell `(x, y)` among the world map's cells.
pub open spec fn grid_index(x: int, y: int) -> int {
    cell_index(gw(), gh(), x, y)
}

/// Cells off the edge of the map: water never springs there, so that a
/// player who walks off one edge and comes back on the other lands on land.
pub open spec fn on_border(i: int) -> bool {
    i % gw() == 0 || i % gw() == gw() - 1 || i / gw() == 0 || i / gw() == gh() - 1
}

/// The start and the eight cells around it.
pub open spec fn in_start_area(i: int) -> bool {
    -1 <= cell_x(i) <= 1 && -1 <= cell_y(i) <= 1
}

/// Mountains along a walk from `(x, y)`; each step is taken from the start
/// and kept on the map.
pub open spec fn walk_apply(g: Seq<Field>, x: int, y: int, walk: Seq<(i32, i32)>) -> Seq<Field>
    decreases walk.len(),
{
    if walk.len() == 0 {
        g
    } else {
        walk_apply(g, x, y, walk.drop_last()).update(
            grid_index(
                clamp(x + walk.last().0, -(gw() / 2), gw() / 2 - 1),
                clamp(y + walk.last().1, -(gh() / 2), gh() / 2 - 1),
            ),
            Field::Mountain,
        )
    }
}

/// The terrain after the choices for cell `i`: its mountains, then water
/// (only off the border), then forest.
pub open spec fn cell_apply(g: Seq<Field>, i: int, c: CellRoll) -> Seq<Field> {
    let g1 = walk_apply(g, cell_x(i), cell_y(i), c.mountain_walk@);
    let g2 = if !on_border(i) && c.water {
        g1.update(i, Field::Water)
    } else {
        g1
    };
    if c.forest {
        g2.update(i, Field::Forest)
    } else {
        g2
    }
}

/// Grass everywhere.
pub open spec fn all_grass() -> Seq<Field> {
    Seq::new(cell_count() as nat, |i: int| Field::Grass)
}

/// The terrain after the choices for the first `n` cells.
pub open spec fn terrain(cells: Seq<CellRoll>, n: nat) -> Seq<Field>
    decreases n,
{
    if n == 0 {
        all_grass()
    } else {
        cell_apply(terrain(cells, (n - 1) as nat), n - 1, cells[n - 1])
    }
}

/// The terrain with grass around the start.
pub open spec fn clear_start(g: Seq<Field>) -> Seq<Field> {
    Seq::new(g.len(), |i: int| if in_start_area(i) { Field::Grass } else { g[i] })
}

/// The first `n` towns placed: a town is not built on a town or the castle.
pub open spec fn place_towns(g: Seq<Field>, towns: Seq<(i32, i32)>, n: nat) -> Seq<Field>
    decreases n,
{
    if n == 0 {
        g
    } else {
        let g1 = place_towns(g, towns, (n - 1) as nat);
        let t = grid_index(towns[n - 1].0 as int, towns[n - 1].1 as int);
        match g1[t] {
            Field::Town { .. } | Field::Castle => g1,
            _ => g1.update(t, Field::Town { item: all_items()[n - 1], visited: false }),
        }
    }
}

/// The fields of the map the choices make: the terrain, grass around the
/// start, the castle, and then the towns.
pub open spec fn generated_fields(r: MapRolls) -> Seq<Field> {
    let g = clear_start(terrain(r.cells@, cell_count() as nat));
    place_towns(g.update(grid_index(r.castle.0 as int, r.castle.1 as int), Field::Castle), r.towns@, 16)
}

/// Choices the generator can make: one per cell, mountain steps of at most
/// three cells each way, one town per item, and castle and towns on the map.
pub open spec fn rolls_valid(r: MapRolls) -> bool {
    &&& r.cells.len() == cell_count()
    &&& forall|i: int, j: int| 0 <= i < r.cells.len() && 0 <= j < r.cells@[i].mountain_walk.len() ==>
        -3 <= #[trigger] r.cells@[i].mountain_walk@[j].0 <= 3 && -3 <= r.cells@[i].mountain_walk@[j].1 <= 3
    &&& r.towns.len() == 16
    &&& in_grid(gw(), gh(), r.castle.0 as int, r.castle.1 as int)
    &&& forall|k: int| 0 <= k < 16 ==> in_grid(gw(), gh(), #[trigger] r.towns@[k].0 as int, r.towns@[k].1 as int)
}

/// The `t`-th tile of the map drawing: each cell is drawn nine times, once
/// in each map-sized block of a 3 x 3 arrangement, so that the edges wrap.
pub open spec fn tile_at(g: Seq<Field>, t: int) -> Tile {
    let i = t / 9;
    let a = (t % 9) / 3;
    let b = t % 3;
    Tile {
        point: ((cell_x(i) + (a - 1) * gw()) as i32, (cell_y(i) + (b - 1) * gh()) as i32),
        sprite_index: field_sprite(g[i]) as usize,
    }
}

/// The `i`-th tile of the mini map: the start is drawn as the player.
pub open spec fn mini_tile_at(g: Seq<Field>, i: int) -> Tile {
    Tile {
        point: (cell_x(i) as i32, cell_y(i) as i32),
        sprite_index: if cell_x(i) == 0 && cell_y(i) == 0 {
            field_sprite(Field::Player) as usize
        } else {
            field_sprite(g[i]) as usize
        },
    }
}

/// The cells among the first `n` whose field satisfies `p`, in order.
pub open spec fn cells_where(g: Seq<Field>, n: nat, p: spec_fn(Field) -> bool) -> Seq<(i32, i32)>
    decreases n,
{
    if n == 0 {
        Seq::empty()
    } else if p(g[n - 1]) {
        cells_where(g, (n - 1) as nat, p).push((cell_x(n - 1) as i32, cell_y(n - 1) as i32))
    } else {
        cells_where(g, (n - 1) as nat, p)
    }
}

pub open spec fn is_water(f: Field) -> bool {
    f == Field::Water
}

/// Towns and the castle blink on the mini map.
pub open spec fn blinks(f: Field) -> bool {
    f is Town || f is Castle
}

/// The world map has 64 x 48 = 3072 cells.
pub proof fn lemma_world_size()
    ensures
        gw() == 64,
        gh() == 48,
        cell_count() == 3072,
{
}

proof fn lemma_terrain_len(cells: Seq<CellRoll>, n: nat)
    requires
        n <= cell_count(),
    ensures
        terrain(cells, n).len() == cell_count(),
    decreases n,
{
    if n > 0 {
        lemma_terrain_len(cells, (n - 1) as nat);
        lemma_walk_len(terrain(cells, (n - 1) as nat), cell_x(n - 1), cell_y(n - 1), cells[n - 1].mountain_walk@);
    }
}

proof fn lemma_walk_len(g: Seq<Field>, x: int, y: int, walk: Seq<(i32, i32)>)
    requires
        g.len() == cell_count(),
    ensures
        walk_apply(g, x, y, walk).len() == g.len(),
    decreases walk.len(),
{
    if walk.len() > 0 {
        lemma_walk_len(g, x, y, walk.drop_last());
        lemma_cell_index_injective(
            gw(),
            gh(),
            clamp(x + walk.last().0, -(gw() / 2), gw() / 2 - 1),
            clamp(y + walk.last().1, -(gh() / 2), gh() / 2 - 1),
            0,
            0,
        );
    }
}

proof fn lemma_place_towns_len(g: Seq<Field>, towns: Seq<(i32, i32)>, n: nat)
    requires
        g.len() == cell_count(),
        n <= towns.len(),
        forall|k: int| 0 <= k < n ==> in_grid(gw(), gh(), #[trigger] towns[k].0 as int, towns[k].1 as int),
    ensures
        place_towns(g, towns, n).len() == g.len(),
    decreases n,
{
    if n > 0 {
        lemma_place_towns_len(g, towns, (n - 1) as nat);
        lemma_cell_index_injective(gw(), gh(), towns[n - 1].0 as int, towns[n - 1].1 as int, 0, 0);
    }
}

fn world_index(x: i32, y: i32) -> (r: usize)
    requires
        in_grid(gw(), gh(), x as int, y as int),
    ensures
        r == grid_index(x as int, y as int),
        r < cell_count(),
{
    ((y + 24) * 64 + (x + 32)) as usize
}

impl GameMap {
    /// Builds the map the given choices describe. Cells are visited row by
    /// row; at each a mountain range may start, then water may spring (not on
    /// the border), then a forest may grow; later choices cover earlier ones.
    /// The start and its neighbours are then cleared to grass, the castle is
    /// placed, and each item's town is built unless its cell already holds a
    /// town or the castle. Water blocks movement; towns and the castle blink
    /// on the mini map.
    pub fn generate_map_from(rolls: &MapRolls) -> (m: GameMap)
        requires
            rolls_valid(*rolls),
        ensures
            m.width == MAP_WIDTH,
            m.height == MAP_HEIGHT,
            m.tile_size == MAP_TEXTURE_SIZE,
            !m.blink_status,
            m.fields@ == generated_fields(*rolls),
            m.wf(),
            m.collisions@ == cells_where(m.fields@, cell_count() as nat, |f: Field| is_water(f)),
            m.blinks_on_mini_tiles@ == cells_where(m.fields@, cell_count() as nat, |f: Field| blinks(f)),
            m.tiles.len() == 9 * cell_count(),
            forall|t: int| 0 <= t < 9 * cell_count() ==> #[trigger] m.tiles@[t] == tile_at(m.fields@, t),
            m.mini_tiles.len() == cell_count(),
            forall|i: int| 0 <= i < cell_count() ==> #[trigger] m.mini_tiles@[i] == mini_tile_at(m.fields@, i),
    {
        proof {
            lemma_world_size();
        }
        let n: usize = 3072;
        let mut fields: Vec<Field> = Vec::new();
        let mut i: usize = 0;
        while i < n
            invariant
                n == cell_count(),
                n == 3072,
                0 <= i <= n,
                fields@ == Seq::new(i as nat, |k: int| Field::Grass),
            decreases n - i,
        {
            fields.push(Field::Grass);
            i = i + 1;
        }
        assert(fields@ =~= all_grass());
        let ghost cells = rolls.cells@;
        i = 0;
        while i < n
            invariant
                n == cell_count(),
                n == 3072,
                0 <= i <= n,
                cells == rolls.cells@,
                rolls_valid(*rolls),
                fields@ == terrain(cells, i as nat),
                fields.len() == n,
            decreases n - i,
        {
            proof {
                lemma_terrain_len(cells, i as nat);
            }
            assert(i / 64 < 48 && i % 64 < 64) by (nonlinear_arith)
                requires
                    i < 3072,
            ;
            let x: i32 = (i % 64) as i32 - 32;
            let y: i32 = (i / 64) as i32 - 24;
            let walk = &rolls.cells[i].mountain_walk;
            let ghost start = fields@;
            let wn = walk.len();
            let mut j: usize = 0;
            while j < wn
                invariant
                    n == cell_count(),
                    n == 3072,
                n == 3072,
                    0 <= i < n,
                    wn == walk@.len(),
                    *walk == rolls.cells@[i as int].mountain_walk,
                    rolls_valid(*rolls),
                    x == cell_x(i as int),
                    y == cell_y(i as int),
                    0 <= j <= wn,
                    fields@ == walk_apply(start, x as int, y as int, walk@.take(j as int)),
                    fields.len() == n,
                decreases wn - j,
            {
                proof {
                    assert(walk@.take(j + 1).drop_last() =~= walk@.take(j as int));
                    assert(walk@.take(j + 1).last() == walk@[j as int]);
                }
                let step = walk[j];
                assert(-3 <= step.0 <= 3 && -3 <= step.1 <= 3);
                let px = clamp_i32(x + step.0, -32, 31);
                let py = clamp_i32(y + step.1, -24, 23);
                let k = world_index(px, py);
                fields.set(k, Field::Mountain);
                j = j + 1;
            }
            assert(walk@.take(wn as int) =~= walk@);
            let border = i % 64 == 0 || i % 64 == 63 || i / 64 == 0 || i / 64 == 47;
            if !border && rolls.cells[i].water {
                fields.set(i, Field::Water);
            }
            if rolls.cells[i].forest {
                fields.set(i, Field::Forest);
            }
            i = i + 1;
        }
        proof {
            lemma_terrain_len(cells, n as nat);
        }
        let ghost terr = fields@;
        i = 0;
        while i < n
            invariant
                n == cell_count(),
                n == 3072,
                0 <= i <= n,
                terr.len() == n,
                fields.len() == n,
                forall|k: int| 0 <= k < n ==> #[trigger] fields@[k] == (if k < i && in_start_area(k) { Field::Grass } else { terr[k] }),
            decreases n - i,
        {
            let cx = i % 64;
            let cy = i / 64;
            if 31 <= cx && cx <= 33 && 23 <= cy && cy <= 25 {
                fields.set(i, Field::Grass);
            }
            i = i + 1;
        }
        assert(fields@ =~= clear_start(terr));
        let ci = world_index(rolls.castle.0, rolls.castle.1);
        fields.set(ci, Field::Castle);
        let ghost placed = fields@;
        let items = generate_items();
        let mut k: usize = 0;
        while k < 16
            invariant
                0 <= k <= 16,
                rolls_valid(*rolls),
                items@ == all_items(),
                fields@ == place_towns(placed, rolls.towns@, k as nat),
                fields.len() == n,
                n == cell_count(),
                n == 3072,
                placed.len() == n,
            decreases 16 - k,
        {
            proof {
                lemma_place_towns_len(placed, rolls.towns@, k as nat);
            }
            let t = rolls.towns[k];
            assert(in_grid(gw(), gh(), rolls.towns@[k as int].0 as int, rolls.towns@[k as int].1 as int));
            let ti = world_index(t.0, t.1);
            match fields[ti] {
                Field::Town { .. } | Field::Castle => {},
                _ => {
                    fields.set(ti, Field::Town { item: items[k], visited: false });
                },
            }
            k = k + 1;
        }
        proof {
            lemma_place_towns_len(placed, rolls.towns@, 16);
        }
        let ghost g = fields@;
        let mut tiles: Vec<Tile> = Vec::new();
        let mut mini_tiles: Vec<Tile> = Vec::new();
        let mut collisions: Vec<(i32, i32)> = Vec::new();
        let mut blink_cells: Vec<(i32, i32)> = Vec::new();
        i = 0;
        while i < n
            invariant
                n == cell_count(),
                n == 3072,
                0 <= i <= n,
                fields@ == g,
                g.len() == n,
                tiles.len() == 9 * i,
                forall|t: int| 0 <= t < 9 * i ==> #[trigger] tiles@[t] == tile_at(g, t),
                mini_tiles.len() == i,
                forall|c: int| 0 <= c < i ==> #[trigger] mini_tiles@[c] == mini_tile_at(g, c),
                collisions@ == cells_where(g, i as nat, |f: Field| is_water(f)),
                blink_cells@ == cells_where(g, i as nat, |f: Field| blinks(f)),
            decreases n - i,
        {
            let f = fields[i];
            assert(i / 64 < 48 && i % 64 < 64) by (nonlinear_arith)
                requires
                    i < 3072,
            ;
            let x: i32 = (i % 64) as i32 - 32;
            let y: i32 = (i / 64) as i32 - 24;
            let sprite = f.sprite_index();
            let mut a: i32 = 0;
            while a < 3
                invariant
                    0 <= a <= 3,
                    0 <= i < n,
                    n == cell_count(),
                    n == 3072,
                n == 3072,
                    g.len() == n,
                    f == g[i as int],
                    sprite == field_sprite(f),
                    x == cell_x(i as int),
                    y == cell_y(i as int),
                    -32 <= x <= 31,
                    -24 <= y <= 23,
                    tiles.len() == 9 * i + 3 * a,
                    forall|t: int| 0 <= t < 9 * i + 3 * a ==> #[trigger] tiles@[t] == tile_at(g, t),
                decreases 3 - a,
            {
                let mut b: i32 = 0;
                while b < 3
                    invariant
                        0 <= a < 3,
                        0 <= b <= 3,
                        0 <= i < n,
                        n == cell_count(),
                        n == 3072,
                    n == 3072,
                n == 3072,
                        g.len() == n,
                        f == g[i as int],
                        sprite == field_sprite(f),
                        x == cell_x(i as int),
                        y == cell_y(i as int),
                        -32 <= x <= 31,
                        -24 <= y <= 23,
                        tiles.len() == 9 * i + 3 * a + b,
                        forall|t: int| 0 <= t < 9 * i + 3 * a + b ==> #[trigger] tiles@[t] == tile_at(g, t),
                    decreases 3 - b,
                {
                    let t = Tile { point: (x + (a - 1) * 64, y + (b - 1) * 48), sprite_index: sprite };
                    proof {
                        let tt = 9 * i + 3 * a + b;
                        assert(tt / 9 == i && (tt % 9) / 3 == a && tt % 3 == b) by (nonlinear_arith)
                            requires
                                tt == 9 * i + 3 * a + b,
                                0 <= a < 3,
                                0 <= b < 3,
                                0 <= i,
                        ;
                    }
                    tiles.push(t);
                    b = b + 1;
                }
                a = a + 1;
            }
            let mini_sprite = if x == 0 && y == 0 { Field::Player.sprite_index() } else { sprite };
            mini_tiles.push(Tile { point: (x, y), sprite_index: mini_sprite });
            if f == Field::Water {
                collisions.push((x, y));
            }
            match f {
                Field::Town { .. } | Field::Castle => {
                    blink_cells.push((x, y));
                },
                _ => {},
            }
            i = i + 1;
        }
        GameMap {
            width: MAP_WIDTH,
            height: MAP_HEIGHT,
            tile_size: MAP_TEXTURE_SIZE,
            collisions,
            blinks_on_mini_tiles: blink_cells,
            blink_status: false,
            fields,
            tiles,
            mini_tiles,
        }
    }
}

/// Terrain before castle and towns: grass, forest, mountain or water, and
/// no water on the border.
pub open spec fn terrain_ok(g: Seq<Field>) -> bool {
    &&& g.len() == cell_count()
    &&& forall|i: int| 0 <= i < g.len() ==> {
        let f = #[trigger] g[i];
        &&& (f == Field::Grass || f == Field::Forest || f == Field::Mountain || f == Field::Water)
        &&& on_border(i) ==> f != Field::Water
    }
}

proof fn lemma_walk_ok(g: Seq<Field>, x: int, y: int, walk: Seq<(i32, i32)>)
    requires
        terrain_ok(g),
    ensures
        terrain_ok(walk_apply(g, x, y, walk)),
    decreases walk.len(),
{
    if walk.len() > 0 {
        lemma_walk_ok(g, x, y, walk.drop_last());
        lemma_cell_index_injective(
            gw(),
            gh(),
            clamp(x + walk.last().0, -(gw() / 2), gw() / 2 - 1),
            clamp(y + walk.last().1, -(gh() / 2), gh() / 2 - 1),
            0,
            0,
        );
    }
}

proof fn lemma_terrain_ok(cells: Seq<CellRoll>, n: nat)
    requires
        n <= cell_count(),
    ensures
        terrain_ok(terrain(cells, n)),
    decreases n,
{
    lemma_world_size();
    if n > 0 {
        lemma_terrain_ok(cells, (n - 1) as nat);
        lemma_walk_ok(terrain(cells, (n - 1) as nat), cell_x(n - 1), cell_y(n - 1), cells[n - 1].mountain_walk@);
    }
}

/// What placing the towns keeps and makes: the castle stays the only castle,
/// no water appears on the border, every town is unvisited and holds the
/// item of a town candidate at its cell, and every other cell is unchanged.
pub open spec fn towns_ok(g: Seq<Field>, base: Seq<Field>, c: int, towns: Seq<(i32, i32)>, k: int) -> bool {
    &&& g.len() == cell_count()
    &&& 0 <= c < g.len()
    &&& g[c] == Field::Castle
    &&& forall|i: int| 0 <= i < g.len() ==> {
        let f = #[trigger] g[i];
        &&& i != c ==> f != Field::Castle
        &&& on_border(i) ==> f != Field::Water
        &&& (f matches Field::Town { item, visited } ==> !visited && exists|j: int|
            0 <= j < k && all_items()[j] == item && grid_index(towns[j].0 as int, towns[j].1 as int) == i)
        &&& (!(f is Town) && i != c) ==> f == base[i]
    }
}

proof fn lemma_place_towns_ok(g: Seq<Field>, base: Seq<Field>, c: int, towns: Seq<(i32, i32)>, n: nat)
    requires
        towns_ok(g, base, c, towns, 0),
        n <= towns.len(),
        forall|k: int| 0 <= k < n ==> in_grid(gw(), gh(), #[trigger] towns[k].0 as int, towns[k].1 as int),
    ensures
        towns_ok(place_towns(g, towns, n), base, c, towns, n as int),
    decreases n,
{
    lemma_world_size();
    if n > 0 {
        lemma_place_towns_ok(g, base, c, towns, (n - 1) as nat);
        let g1 = place_towns(g, towns, (n - 1) as nat);
        let t = grid_index(towns[n - 1].0 as int, towns[n - 1].1 as int);
        lemma_cell_index_injective(gw(), gh(), towns[n - 1].0 as int, towns[n - 1].1 as int, 0, 0);
        let g2 = place_towns(g, towns, n);
        lemma_place_towns_len(g, towns, n);
        lemma_place_towns_len(g, towns, (n - 1) as nat);
        assert(g2[c] == Field::Castle) by {
            if t == c {
                assert(g1[t] is Castle);
            }
        }
        assert forall|i: int| 0 <= i < g2.len() implies {
            let f = #[trigger] g2[i];
            &&& i != c ==> f != Field::Castle
            &&& on_border(i) ==> f != Field::Water
            &&& (f matches Field::Town { item, visited } ==> !visited && exists|j: int|
                0 <= j < n && all_items()[j] == item && grid_index(towns[j].0 as int, towns[j].1 as int) == i)
            &&& (!(f is Town) && i != c) ==> f == base[i]
        } by {
            if g2[i] != g1[i] {
                assert(i == t);
                assert(g2[i] == Field::Town { item: all_items()[n - 1], visited: false });
            } else if g1[i] is Town {
                let item = g1[i]->item;
                let j = choose|j: int| 0 <= j < n - 1 && all_items()[j] == item && grid_index(towns[j].0 as int, towns[j].1 as int) == i;
                assert(0 <= j < n && all_items()[j] == item && grid_index(towns[j].0 as int, towns[j].1 as int) == i);
            }
        }
    }
}

/// The map the choices make, as `generate_map_from` builds it.
pub open spec fn generated_from(m: GameMap, r: MapRolls) -> bool {
    &&& m.width == MAP_WIDTH
    &&& m.height == MAP_HEIGHT
    &&& m.tile_size == MAP_TEXTURE_SIZE
    &&& !m.blink_status
    &&& m.fields@ == generated_fields(r)
    &&& m.wf()
    &&& m.collisions@ == cells_where(m.fields@, cell_count() as nat, |f: Field| is_water(f))
    &&& m.blinks_on_mini_tiles@ == cells_where(m.fields@, cell_count() as nat, |f: Field| blinks(f))
    &&& m.tiles.len() == 9 * cell_count()
    &&& forall|t: int| 0 <= t < 9 * cell_count() ==> #[trigger] m.tiles@[t] == tile_at(m.fields@, t)
    &&& m.mini_tiles.len() == cell_count()
    &&& forall|i: int| 0 <= i < cell_count() ==> #[trigger] m.mini_tiles@[i] == mini_tile_at(m.fields@, i)
}

/// What every generated map promises:
/// - no water on the border, so a player walking off one edge lands on land;
/// - exactly one castle, at the castle's cell;
/// - the start and its neighbours are grass, unless the castle or a town
///   candidate falls there;
/// - every town is unvisited and holds the item of a town candidate at its
///   cell, so no two towns hold the same item.
pub proof fn lemma_generated_map(r: MapRolls)
    requires
        rolls_valid(r),
    ensures
        ({
            let g = generated_fields(r);
            let c = grid_index(r.castle.0 as int, r.castle.1 as int);
            &&& g.len() == cell_count()
            &&& forall|i: int| 0 <= i < cell_count() && on_border(i) ==> #[trigger] g[i] != Field::Water
            &&& g[c] == Field::Castle
            &&& forall|i: int| 0 <= i < cell_count() && i != c ==> #[trigger] g[i] != Field::Castle
            &&& forall|i: int| 0 <= i < cell_count() && in_start_area(i) && i != c
                && (forall|k: int| 0 <= k < 16 ==> grid_index(r.towns@[k].0 as int, r.towns@[k].1 as int) != i)
                ==> #[trigger] g[i] == Field::Grass
            &&& forall|i: int| 0 <= i < cell_count() ==> (#[trigger] g[i] matches Field::Town { item, visited } ==> !visited
                && exists|k: int| 0 <= k < 16 && all_items()[k] == item && grid_index(r.towns@[k].0 as int, r.towns@[k].1 as int) == i)
            &&& forall|i: int, j: int| 0 <= i < cell_count() && 0 <= j < cell_count() && i != j
                && #[trigger] g[i] is Town && #[trigger] g[j] is Town ==> g[i]->item != g[j]->item
        }),
{
    lemma_world_size();
    let n = cell_count() as nat;
    lemma_terrain_ok(r.cells@, n);
    let base = clear_start(terrain(r.cells@, n));
    let c = grid_index(r.castle.0 as int, r.castle.1 as int);
    lemma_cell_index_injective(gw(), gh(), r.castle.0 as int, r.castle.1 as int, 0, 0);
    let g0 = base.update(c, Field::Castle);
    assert(towns_ok(g0, base, c, r.towns@, 0));
    lemma_place_towns_ok(g0, base, c, r.towns@, 16);
    let g = generated_fields(r);
    assert forall|i: int| 0 <= i < cell_count() && in_start_area(i) && i != c
        && (forall|k: int| 0 <= k < 16 ==> grid_index(r.towns@[k].0 as int, r.towns@[k].1 as int) != i)
        implies #[trigger] g[i] == Field::Grass by {
        if g[i] is Town {
            let k = choose|k: int| 0 <= k < 16 && all_items()[k] == g[i]->item && grid_index(r.towns@[k].0 as int, r.towns@[k].1 as int) == i;
        }
    }
    assert forall|i: int, j: int| 0 <= i < cell_count() && 0 <= j < cell_count() && i != j
        && #[trigger] g[i] is Town && #[trigger] g[j] is Town implies g[i]->item != g[j]->item by {
        let ki = choose|k: int| 0 <= k < 16 && all_items()[k] == g[i]->item && grid_index(r.towns@[k].0 as int, r.towns@[k].1 as int) == i;
        let kj = choose|k: int| 0 <= k < 16 && all_items()[k] == g[j]->item && grid_index(r.towns@[k].0 as int, r.towns@[k].1 as int) == j;
        crate::inventory::lemma_all_items_distinct();
    }
}

/// A point is listed by `cells_where` exactly when some cell satisfying the
/// predicate lies there.
pub proof fn lemma_cells_where(g: Seq<Field>, n: nat, p: spec_fn(Field) -> bool)
    requires
        n <= g.len(),
    ensures
        forall|q: (i32, i32)| #[trigger] cells_where(g, n, p).contains(q) <==> exists|i: int|
            0 <= i < n && p(g[i]) && q == (cell_x(i) as i32, cell_y(i) as i32),
    decreases n,
{
    if n > 0 {
        lemma_cells_where(g, (n - 1) as nat, p);
        let prev = cells_where(g, (n - 1) as nat, p);
        assert forall|q: (i32, i32)| #[trigger] cells_where(g, n, p).contains(q) <==> exists|i: int|
            0 <= i < n && p(g[i]) && q == (cell_x(i) as i32, cell_y(i) as i32) by {
            let cur = cells_where(g, n, p);
            if cur.contains(q) {
                let m = choose|m: int| 0 <= m < cur.len() && cur[m] == q;
                if p(g[n - 1]) && m == prev.len() {
                    assert(0 <= n - 1 < n && p(g[n - 1]) && q == (cell_x(n - 1) as i32, cell_y(n - 1) as i32));
                } else {
                    assert(prev[m] == q);
                    assert(prev.contains(q));
                    let i = choose|i: int| 0 <= i < n - 1 && p(g[i]) && q == (cell_x(i) as i32, cell_y(i) as i32);
                    assert(0 <= i < n && p(g[i]) && q == (cell_x(i) as i32, cell_y(i) as i32));
                }
            }
            if exists|i: int| 0 <= i < n && p(g[i]) && q == (cell_x(i) as i32, cell_y(i) as i32) {
                let i = choose|i: int| 0 <= i < n && p(g[i]) && q == (cell_x(i) as i32, cell_y(i) as i32);
                if i == n - 1 {
                    assert(cur[prev.len() as int] == q);
                } else {
                    assert(prev.contains(q));
                    let m = choose|m: int| 0 <= m < prev.len() && prev[m] == q;
                    if p(g[n - 1]) {
                        assert(cur[m] == q);
                    }
                }
            }
        }
    }
}

/// Terrain choices the game's dice can make: mountain ranges of 10 to 59
/// steps, water only off the border.
pub open spec fn cell_roll_drawn(i: int, c: CellRoll) -> bool {
    &&& (c.mountain_walk.len() == 0 || 10 <= c.mountain_walk.len() < 60)
    &&& forall|j: int| 0 <= j < c.mountain_walk.len() ==>
        -3 <= #[trigger] c.mountain_walk@[j].0 <= 3 && -3 <= c.mountain_walk@[j].1 <= 3
    &&& on_border(i) ==> !c.water
}

/// The dice thrown for one cell's terrain: the roll that may start a
/// mountain range (one of 60), the water roll (one of 12) and the forest roll
/// (one of 6).
pub struct TerrainDraws {
    pub range: int,
    pub water: int,
    pub forest: int,
}

/// Each roll lies on its die.
pub open spec fn draws_on_dice(d: TerrainDraws) -> bool {
    &&& 0 <= d.range < 60
    &&& 0 <= d.water < 12
    &&& 0 <= d.forest < 6
}

/// A mountain range starts on the roll 0 of its die.
pub open spec fn range_starts(roll: int) -> bool {
    roll == 0
}

/// Water springs off the border on the roll 0 of its die.
pub open spec fn water_springs(border: bool, roll: int) -> bool {
    !border && roll == 0
}

/// A forest grows on the roll 0 of its die.
pub open spec fn forest_grows(roll: int) -> bool {
    roll == 0
}

/// The odds of the terrain: a mountain range starts on one roll in sixty;
/// off the border water springs on one roll in twelve, and never on the
/// border; a forest grows on one roll in six.
pub proof fn lemma_terrain_odds()
    ensures
        Set::new(|s: int| 0 <= s < 60 && range_starts(s)) == set![0int],
        Set::new(|w: int| 0 <= w < 12 && water_springs(false, w)) == set![0int],
        Set::new(|w: int| 0 <= w < 12 && water_springs(true, w)) == Set::<int>::empty(),
        Set::new(|f: int| 0 <= f < 6 && forest_grows(f)) == set![0int],
{
    assert(Set::new(|s: int| 0 <= s < 60 && range_starts(s)) =~= set![0int]);
    assert(Set::new(|w: int| 0 <= w < 12 && water_springs(false, w)) =~= set![0int]);
    assert(Set::new(|w: int| 0 <= w < 12 && water_springs(true, w)) =~= Set::<int>::empty());
    assert(Set::new(|f: int| 0 <= f < 6 && forest_grows(f)) =~= set![0int]);
}

/// Draws the terrain choices of one cell: a mountain range starts with
/// probability 1/60 and takes 10 to 59 steps of up to three cells each way;
/// off the border, water springs with probability 1/12; a forest grows with
/// probability 1/6. Also gives, for proofs, the rolls thrown.
fn draw_cell(border: bool) -> (r: (CellRoll, Ghost<TerrainDraws>))
    ensures
        r.0.mountain_walk.len() == 0 || 10 <= r.0.mountain_walk.len() < 60,
        forall|j: int| 0 <= j < r.0.mountain_walk.len() ==>
            -3 <= #[trigger] r.0.mountain_walk@[j].0 <= 3 && -3 <= r.0.mountain_walk@[j].1 <= 3,
        border ==> !r.0.water,
        draws_on_dice(r.1@),
        (r.0.mountain_walk.len() > 0) == range_starts(r.1@.range),
        r.0.water == water_springs(border, r.1@.water),
        r.0.forest == forest_grows(r.1@.forest),
{
    let mut walk: Vec<(i32, i32)> = Vec::new();
    let range_roll = random_range(0, 60);
    if range_roll == 0 {
        let count = random_range(10, 60);
        let mut j: i32 = 0;
        while j < count
            invariant
                10 <= count < 60,
                0 <= j <= count,
                walk.len() == j,
                forall|k: int| 0 <= k < walk.len() ==> -3 <= #[trigger] walk@[k].0 <= 3 && -3 <= walk@[k].1 <= 3,
            decreases count - j,
        {
            let dx = random_range(-3, 4);
            let dy = random_range(-3, 4);
            walk.push((dx, dy));
            j = j + 1;
        }
    }
    let water_roll = random_range(0, 12);
    let water = !border && water_roll == 0;
    let forest_roll = random_range(0, 6);
    let forest = forest_roll == 0;
    let draws = Ghost(TerrainDraws { range: range_roll as int, water: water_roll as int, forest: forest_roll as int });
    (CellRoll { mountain_walk: walk, water, forest }, draws)
}

/// Draws the terrain choices of every cell of the world map, row by row.
pub fn draw_terrain() -> (cells: Vec<CellRoll>)
    ensures
        cells.len() == cell_count(),
        forall|i: int| 0 <= i < cells.len() ==> cell_roll_drawn(i, #[trigger] cells@[i]),
{
    proof {
        lemma_world_size();
    }
    let mut cells: Vec<CellRoll> = Vec::new();
    let mut i: usize = 0;
    while i < 3072
        invariant
            0 <= i <= 3072,
            cell_count() == 3072,
            cells.len() == i,
            forall|k: int| 0 <= k < cells.len() ==> cell_roll_drawn(k, #[trigger] cells@[k]),
        decreases 3072 - i,
    {
        let border = i % 64 == 0 || i % 64 == 63 || i / 64 == 0 || i / 64 == 47;
        let (c, _draws) = draw_cell(border);
        cells.push(c);
        i = i + 1;
    }
    cells
}

impl GameMap {
    /// Generates a new world map with the castle at `castle` and the towns'
    /// candidate cells `towns` (one per item of `generate_items`), drawing the
    /// terrain at random.
    pub fn generate_map(castle: (i32, i32), towns: Vec<(i32, i32)>) -> (m: GameMap)
        requires
            towns.len() == 16,
            in_grid(gw(), gh(), castle.0 as int, castle.1 as int),
            forall|k: int| 0 <= k < 16 ==> in_grid(gw(), gh(), #[trigger] towns@[k].0 as int, towns@[k].1 as int),
        ensures
            exists|r: MapRolls|
                {
                    &&& rolls_valid(r)
                    &&& r.castle == castle
                    &&& r.towns@ == towns@
                    &&& forall|i: int| 0 <= i < r.cells.len() ==> cell_roll_drawn(i, #[trigger] r.cells@[i])
                    &&& generated_from(m, r)
                },
    {
        let cells = draw_terrain();
        let rolls = MapRolls { cells, castle, towns };
        assert forall|i: int, j: int| 0 <= i < rolls.cells.len() && 0 <= j < rolls.cells@[i].mountain_walk.len() implies
            -3 <= #[trigger] rolls.cells@[i].mountain_walk@[j].0 <= 3 && -3 <= rolls.cells@[i].mountain_walk@[j].1 <= 3 by {
            assert(cell_roll_drawn(i, rolls.cells@[i]));
        }
        assert(rolls_valid(rolls));
        let m = GameMap::generate_map_from(&rolls);
        assert(generated_from(m, rolls));
        assert(forall|i: int| 0 <= i < rolls.cells.len() ==> cell_roll_drawn(i, #[trigger] rolls.cells@[i]));
        m
    }

    /// Replaces the terrain, markers and tiles with those of a newly generated
    /// map, keeping the size of this one.
    pub fn regenerate_from(&mut self, new_map: GameMap)
        ensures
            final(self).width == old(self).width,
            final(self).height == old(self).height,
            final(self).tile_size == old(self).tile_size,
            final(self).collisions@ == new_map.collisions@,
            final(self).blinks_on_mini_tiles@ == new_map.blinks_on_mini_tiles@,
            final(self).blink_status == new_map.blink_status,
            final(self).fields@ == new_map.fields@,
            final(self).tiles@ == new_map.tiles@,
            final(self).mini_tiles@ == new_map.mini_tiles@,
    {
        self.collisions = new_map.collisions;
        self.blinks_on_mini_tiles = new_map.blinks_on_mini_tiles;
        self.blink_status = new_map.blink_status;
        self.fields = new_map.fields;
        self.tiles = new_map.tiles;
        self.mini_tiles = new_map.mini_tiles;
    }

    /// The blinking markers of the mini map: every marked cell shows its own
    /// field or the blink sprite in turn.
    pub open spec fn blink_tile(&self, p: (i32, i32)) -> Tile {
        Tile {
            point: p,
            sprite_index: if self.blink_status {
                field_sprite(self.field_at(p.0 as int, p.1 as int).unwrap()) as usize
            } else {
                field_sprite(Field::Blink) as usize
            },
        }
    }

    /// The tiles that redraw the blinking cells of the mini map, after which
    /// the blink turns over.
    pub fn animate_blinks(&mut self) -> (r: Vec<Tile>)
        requires
            forall|k: int| 0 <= k < old(self).blinks_on_mini_tiles.len() ==>
                old(self).field_at(#[trigger] old(self).blinks_on_mini_tiles@[k].0 as int, old(self).blinks_on_mini_tiles@[k].1 as int) is Some,
        ensures
            r.len() == old(self).blinks_on_mini_tiles.len(),
            forall|k: int| 0 <= k < r.len() ==> #[trigger] r@[k] == old(self).blink_tile(old(self).blinks_on_mini_tiles@[k]),
            final(self).blink_status == !old(self).blink_status,
            final(self).fields@ == old(self).fields@,
            final(self).width == old(self).width,
            final(self).height == old(self).height,
            final(self).tile_size == old(self).tile_size,
            final(self).blinks_on_mini_tiles@ == old(self).blinks_on_mini_tiles@,
            final(self).collisions@ == old(self).collisions@,
            final(self).tiles@ == old(self).tiles@,
            final(self).mini_tiles@ == old(self).mini_tiles@,
    {
        let mut r: Vec<Tile> = Vec::new();
        let n = self.blinks_on_mini_tiles.len();
        let mut k: usize = 0;
        while k < n
            invariant
                n == self.blinks_on_mini_tiles.len(),
                0 <= k <= n,
                *self == *old(self),
                forall|j: int| 0 <= j < self.blinks_on_mini_tiles.len() ==>
                    self.field_at(#[trigger] self.blinks_on_mini_tiles@[j].0 as int, self.blinks_on_mini_tiles@[j].1 as int) is Some,
                r.len() == k,
                forall|j: int| 0 <= j < k ==> #[trigger] r@[j] == self.blink_tile(self.blinks_on_mini_tiles@[j]),
            decreases n - k,
        {
            let p = self.blinks_on_mini_tiles[k];
            assert(self.field_at(self.blinks_on_mini_tiles@[k as int].0 as int, self.blinks_on_mini_tiles@[k as int].1 as int) is Some);
            let sprite = if self.blink_status {
                self.position_to_field(&Position { x: p.0, y: p.1 }).sprite_index()
            } else {
                Field::Blink.sprite_index()
            };
            r.push(Tile { point: p, sprite_index: sprite });
            k = k + 1;
        }
        self.blink_status = !self.blink_status;
        r
    }
}

} // verus!
