//! Walking the world map: the camera that follows the player, moves on key
//! presses, wrapping around the edges, and what happens on arrival.
use vstd::prelude::*;
use crate::actions::{Action, Key, KeyboardInput, PlayerActions};
use crate::inventory::Item;
use crate::chance::random_ratio;
use crate::enemies::{default_enemy_table, lookup, Enemy, EnemyData};
use crate::events::GameEvent;
use crate::map::{
    cell_count, cell_index, cell_x, cell_y, cells_where, generated_from, gh, gw, in_grid, is_water,
    lemma_cell_index_injective, lemma_cells_where, lemma_generated_map, lemma_world_size, on_border,
    rolls_valid, Field, GameMap, MapRolls, Position, MAP_HEIGHT, MAP_WIDTH,
};

verus! {

/// Whether the camera is gliding to its destination.
#[derive(Clone, Copy, PartialEq, Eq, Structural, Debug)]
pub enum MapCameraState {
    Stop,
    Moving,
}

/// The camera that follows the player on the map: the direction it last
/// moved in, the cell it is heading for, and whether it is moving.
#[derive(Clone, Copy, PartialEq, Eq, Structural, Debug)]
pub struct MapCamera {
    pub direction: Option<Action>,
    pub destination: Position,
    pub state: MapCameraState,
}

impl Default for MapCamera {
    /// At rest on the start, facing nowhere.
    fn default() -> (r: Self)
        ensures
            r == (MapCamera { direction: None, destination: Position { x: 0, y: 0 }, state: MapCameraState::Stop }),
    {
        MapCamera { direction: None, destination: Position { x: 0, y: 0 }, state: MapCameraState::Stop }
    }
}

/// The neighbouring cell in the direction of an action.
pub open spec fn step_from(d: Position, a: Option<Action>) -> Position {
    match a {
        Some(Action::Up) => Position { y: (d.y + 1) as i32, ..d },
        Some(Action::Down) => Position { y: (d.y - 1) as i32, ..d },
        Some(Action::Left) => Position { x: (d.x - 1) as i32, ..d },
        Some(Action::Right) => Position { x: (d.x + 1) as i32, ..d },
        _ => d,
    }
}

/// The right, left, top and bottom edges of the world map.
pub open spec fn east_edge() -> int {
    gw() / 2 - 1
}

pub open spec fn west_edge() -> int {
    -(gw() / 2)
}

pub open spec fn north_edge() -> int {
    gh() / 2 - 1
}

pub open spec fn south_edge() -> int {
    -(gh() / 2)
}

/// Where a step off an edge leads: the destination moves to the opposite
/// edge, and the camera jumps to the cell just beyond it so that it glides in.
/// Returns the destination and, for a wrap, where the camera jumps to.
pub open spec fn wrap_step(n: Position) -> (Position, Option<Position>) {
    let (d1, p1) = if n.x > east_edge() {
        (Position { x: west_edge() as i32, y: n.y }, Some(Position { x: (west_edge() - 1) as i32, y: n.y }))
    } else {
        (n, None::<Position>)
    };
    let (d2, p2) = if n.x < west_edge() {
        (Position { x: east_edge() as i32, y: n.y }, Some(Position { x: (east_edge() + 1) as i32, y: n.y }))
    } else {
        (d1, p1)
    };
    let (d3, p3) = if n.y > north_edge() {
        (Position { x: n.x, y: south_edge() as i32 }, Some(Position { x: n.x, y: (south_edge() - 1) as i32 }))
    } else {
        (d2, p2)
    };
    if n.y < south_edge() {
        (Position { x: n.x, y: north_edge() as i32 }, Some(Position { x: n.x, y: (north_edge() + 1) as i32 }))
    } else {
        (d3, p3)
    }
}

/// The camera after the player asks for `a` on the map: nothing happens
/// without an action or while the camera moves; otherwise it turns, and moves
/// one cell unless that cell blocks, wrapping around the edges.
/// Returns the camera and, for a wrap, where the camera jumps to.
pub open spec fn explore_move(m: GameMap, cam: MapCamera, a: Option<Action>) -> (MapCamera, Option<Position>) {
    if a is None || cam.state == MapCameraState::Moving {
        (cam, None)
    } else {
        let turned = MapCamera { direction: a, ..cam };
        let n = step_from(cam.destination, a);
        if m.collisions@.contains((n.x, n.y)) {
            (turned, None)
        } else {
            let (d, jump) = wrap_step(n);
            (MapCamera { destination: d, ..turned }, jump)
        }
    }
}

/// Moves the camera's destination as the player asks. Returns where the
/// camera itself must jump to when the move wraps around an edge.
pub fn update_position(actions: &PlayerActions, map: &GameMap, map_camera: &mut MapCamera) -> (r: Option<Position>)
    requires
        i32::MIN < old(map_camera).destination.x < i32::MAX,
        i32::MIN < old(map_camera).destination.y < i32::MAX,
    ensures
        (*final(map_camera), r) == explore_move(*map, *old(map_camera), actions.action),
{
    if actions.action.is_none() {
        return None;
    }
    if map_camera.state == MapCameraState::Moving {
        return None;
    }
    map_camera.direction = actions.action;
    let mut new_position = map_camera.destination;
    match map_camera.direction {
        Some(Action::Up) => new_position.y = new_position.y + 1,
        Some(Action::Down) => new_position.y = new_position.y - 1,
        Some(Action::Left) => new_position.x = new_position.x - 1,
        Some(Action::Right) => new_position.x = new_position.x + 1,
        _ => {},
    }
    if map.collides(new_position.x, new_position.y) {
        return None;
    }
    map_camera.destination = new_position;
    let left: i32 = 31;
    let right: i32 = -32;
    let top: i32 = 23;
    let bottom: i32 = -24;
    let mut jump: Option<Position> = None;
    if new_position.x > left {
        map_camera.destination = Position { x: right, y: new_position.y };
        jump = Some(Position { x: right - 1, y: new_position.y });
    }
    if new_position.x < right {
        map_camera.destination = Position { x: left, y: new_position.y };
        jump = Some(Position { x: left + 1, y: new_position.y });
    }
    if new_position.y > top {
        map_camera.destination = Position { x: new_position.x, y: bottom };
        jump = Some(Position { x: new_position.x, y: bottom - 1 });
    }
    if new_position.y < bottom {
        map_camera.destination = Position { x: new_position.x, y: top };
        jump = Some(Position { x: new_position.x, y: top + 1 });
    }
    jump
}

impl MapCamera {
    /// Follows the camera's glide: when it reaches its destination while
    /// moving it stops, and the arrival is reported; when it is away from its
    /// destination it is moving.
    pub fn settle(&mut self, at_destination: bool) -> (arrived: bool)
        ensures
            arrived == (at_destination && old(self).state == MapCameraState::Moving),
            final(self).state == (if at_destination { MapCameraState::Stop } else { MapCameraState::Moving }),
            final(self).direction == old(self).direction,
            final(self).destination == old(self).destination,
    {
        if at_destination {
            if self.state == MapCameraState::Moving {
                self.state = MapCameraState::Stop;
                return true;
            }
            false
        } else {
            if self.state == MapCameraState::Stop {
                self.state = MapCameraState::Moving;
            }
            false
        }
    }
}

/// What arriving at a cell brings, given whether an encounter was rolled:
/// a town reports the arrival with its item, the castle always brings the
/// boss, grass, forest and mountains bring their enemy when one was rolled,
/// and other cells nothing.
pub open spec fn arrival(m: GameMap, data: EnemyData, pos: Position, encounter: bool) -> Option<GameEvent> {
    match m.field_at(pos.x as int, pos.y as int).unwrap() {
        Field::Town { item, visited } => Some(GameEvent::TownArrived(item, visited)),
        Field::Castle => Some(GameEvent::EnemyEncountered(data.status_of(Field::Castle).unwrap().name)),
        Field::Grass | Field::Forest | Field::Mountain => if encounter {
            Some(GameEvent::EnemyEncountered(data.status_of(m.field_at(pos.x as int, pos.y as int).unwrap()).unwrap().name))
        } else {
            None
        },
        _ => None,
    }
}

/// What an arrival brings, field by field: on grass, forest and mountains a
/// rolled encounter meets the enemy that lives there and no encounter brings
/// nothing; a town reports the arrival with its item and the castle brings its
/// enemy whatever the roll; water and the mini-map markers bring nothing. With
/// the game's enemy table that is a goblin on grass, a skeleton in a forest, a
/// griffin on a mountain and the boss in the castle.
pub proof fn lemma_arrival_by_field(m: GameMap, data: EnemyData, pos: Position, encounter: bool)
    requires
        m.field_at(pos.x as int, pos.y as int) is Some,
    ensures
        ({
            let f = m.field_at(pos.x as int, pos.y as int).unwrap();
            &&& (f == Field::Grass || f == Field::Forest || f == Field::Mountain) ==> {
                &&& arrival(m, data, pos, true) == Some(GameEvent::EnemyEncountered(data.status_of(f).unwrap().name))
                &&& arrival(m, data, pos, false) == None::<GameEvent>
            }
            &&& f == Field::Castle ==> arrival(m, data, pos, encounter) == Some(GameEvent::EnemyEncountered(data.status_of(f).unwrap().name))
            &&& (f matches Field::Town { item, visited } ==> arrival(m, data, pos, encounter) == Some(GameEvent::TownArrived(item, visited)))
            &&& (f == Field::Water || f == Field::Player || f == Field::Blink) ==> arrival(m, data, pos, encounter) == None::<GameEvent>
            &&& data.data@ == default_enemy_table() ==> {
                &&& f == Field::Grass ==> arrival(m, data, pos, true) == Some(GameEvent::EnemyEncountered(Enemy::Goblin))
                &&& f == Field::Forest ==> arrival(m, data, pos, true) == Some(GameEvent::EnemyEncountered(Enemy::Skeleton))
                &&& f == Field::Mountain ==> arrival(m, data, pos, true) == Some(GameEvent::EnemyEncountered(Enemy::Griffin))
                &&& f == Field::Castle ==> arrival(m, data, pos, encounter) == Some(GameEvent::EnemyEncountered(Enemy::Boss))
            }
        }),
{
    reveal_with_fuel(lookup, 5);
    let t = default_enemy_table();
    assert(t.drop_first() =~= t.subrange(1, 4));
    assert(t.drop_first().drop_first() =~= t.subrange(2, 4));
    assert(t.drop_first().drop_first().drop_first() =~= t.subrange(3, 4));
}

/// Cells where enemies can be met have an enemy; on grass, forest and
/// mountains it must be met at most once per step.
pub open spec fn arrival_safe(m: GameMap, data: EnemyData, pos: Position) -> bool {
    &&& m.field_at(pos.x as int, pos.y as int) is Some
    &&& m.field_at(pos.x as int, pos.y as int).unwrap() == Field::Castle ==> data.status_of(Field::Castle) is Some
    &&& ({
        let f = m.field_at(pos.x as int, pos.y as int).unwrap();
        (f == Field::Grass || f == Field::Forest || f == Field::Mountain) ==> data.status_of(f) is Some && data.status_of(f).unwrap().rate >= 1
    })
}

/// Whether arriving at `position` can be handled: the cell is on the map, and
/// the enemies of the castle, grass, forest and mountains are known, the
/// latter with a positive rate.
pub fn arrival_is_safe(map: &GameMap, enemy_data: &EnemyData, position: &Position) -> (r: bool)
    ensures
        r == arrival_safe(*map, *enemy_data, *position),
{
    if !map.has_cell(position) {
        return false;
    }
    let field = map.position_to_field(position);
    match field {
        Field::Castle => enemy_data.has_enemy(&field),
        Field::Grass | Field::Forest | Field::Mountain => enemy_data.has_enemy(&field) && enemy_data.field_to_rate(&field) >= 1,
        _ => true,
    }
}

/// What arriving at `position` brings, given whether an encounter was rolled.
pub fn arrival_event_with_roll(map: &GameMap, enemy_data: &EnemyData, position: &Position, encounter: bool) -> (r: Option<GameEvent>)
    requires
        arrival_safe(*map, *enemy_data, *position),
    ensures
        r == arrival(*map, *enemy_data, *position, encounter),
{
    let field = map.position_to_field(position);
    match field {
        Field::Town { item, visited } => Some(GameEvent::TownArrived(item, visited)),
        Field::Castle => Some(GameEvent::EnemyEncountered(enemy_data.field_to_enemy(&field))),
        Field::Grass | Field::Forest | Field::Mountain => {
            if encounter {
                Some(GameEvent::EnemyEncountered(enemy_data.field_to_enemy(&field)))
            } else {
                None
            }
        },
        _ => None,
    }
}

/// What arriving at `position` brings; on grass, forest and mountains an
/// enemy is met with probability one in the field's rate.
pub fn arrival_event(map: &GameMap, enemy_data: &EnemyData, position: &Position) -> (r: Option<GameEvent>)
    requires
        arrival_safe(*map, *enemy_data, *position),
    ensures
        exists|encounter: bool| r == arrival(*map, *enemy_data, *position, encounter),
        ({
            let f = map.field_at(position.x as int, position.y as int).unwrap();
            (f == Field::Grass || f == Field::Forest || f == Field::Mountain) && enemy_data.status_of(f).unwrap().rate == 1
                ==> r == arrival(*map, *enemy_data, *position, true)
        }),
{
    let field = map.position_to_field(position);
    let encounter = match field {
        Field::Grass | Field::Forest | Field::Mountain => {
            let rate = enemy_data.field_to_rate(&field);
            random_ratio(1, rate as u32)
        },
        _ => false,
    };
    arrival_event_with_roll(map, enemy_data, position, encounter)
}

/// The events of the debugging shortcuts on the map: B meets the enemy of
/// the player's cell, then T arrives at an unvisited town holding a level-1
/// fire spell.
pub open spec fn debug_events(input: KeyboardInput, data: EnemyData, m: GameMap, pos: Position) -> Seq<GameEvent> {
    let meet = if input.just_pressed@.contains(Key::B) {
        seq![GameEvent::EnemyEncountered(data.status_of(m.field_at(pos.x as int, pos.y as int).unwrap()).unwrap().name)]
    } else {
        Seq::empty()
    };
    let town = if input.just_pressed@.contains(Key::T) {
        seq![GameEvent::TownArrived(Item::SpellFire(1), false)]
    } else {
        Seq::empty()
    };
    meet + town
}

/// The debugging shortcuts on the map. B needs an enemy living on the
/// player's cell.
pub fn explore_debug_input(keyboard_input: &KeyboardInput, enemy_data: &EnemyData, map: &GameMap, position: &Position) -> (r: Vec<GameEvent>)
    requires
        keyboard_input.just_pressed@.contains(Key::B) ==> {
            &&& map.field_at(position.x as int, position.y as int) is Some
            &&& enemy_data.status_of(map.field_at(position.x as int, position.y as int).unwrap()) is Some
        },
    ensures
        r@ == debug_events(*keyboard_input, *enemy_data, *map, *position),
{
    let mut events: Vec<GameEvent> = Vec::new();
    if keyboard_input.just_pressed(Key::B) {
        let enemy = enemy_data.field_to_enemy(&map.position_to_field(position));
        events.push(GameEvent::EnemyEncountered(enemy));
    }
    if keyboard_input.just_pressed(Key::T) {
        events.push(GameEvent::TownArrived(Item::SpellFire(1), false));
    }
    assert(events@ =~= debug_events(*keyboard_input, *enemy_data, *map, *position));
    events
}

/// A map of the world's size.
pub open spec fn world_shaped(m: GameMap) -> bool {
    m.wf() && m.width == MAP_WIDTH && m.height == MAP_HEIGHT
}

/// Exactly the water cells block movement.
pub open spec fn collisions_exact(m: GameMap) -> bool {
    forall|x: i32, y: i32| #[trigger] m.collisions@.contains((x, y)) <==> m.field_at(x as int, y as int) == Some(Field::Water)
}

/// No water on the edges of the map.
pub open spec fn border_dry(m: GameMap) -> bool {
    forall|x: int, y: int|
        in_grid(gw(), gh(), x, y) && (x == west_edge() || x == east_edge() || y == south_edge() || y == north_edge())
            ==> #[trigger] m.field_at(x, y) != Some(Field::Water)
}

/// A cell of the map the player can stand on.
pub open spec fn walkable(m: GameMap, p: Position) -> bool {
    m.field_at(p.x as int, p.y as int) is Some && m.field_at(p.x as int, p.y as int) != Some(Field::Water)
}

/// On a map of the world's size where exactly the water blocks and the edges
/// are dry, the camera's destination stays on a walkable cell whatever the
/// player asks; when a move wraps around an edge, the camera jumps to the cell
/// just beyond the opposite edge, next to its new destination.
pub proof fn lemma_walk_stays_on_land(m: GameMap, cam: MapCamera, a: Option<Action>)
    requires
        world_shaped(m),
        collisions_exact(m),
        border_dry(m),
        walkable(m, cam.destination),
    ensures
        walkable(m, explore_move(m, cam, a).0.destination),
        explore_move(m, cam, a).1 matches Some(j) ==> {
            let d = explore_move(m, cam, a).0.destination;
            (j.y == d.y && (j.x == d.x - 1 || j.x == d.x + 1)) || (j.x == d.x && (j.y == d.y - 1 || j.y == d.y + 1))
        },
{
    lemma_world_size();
    let n = step_from(cam.destination, a);
    if !(a is None || cam.state == MapCameraState::Moving) && !m.collisions@.contains((n.x, n.y)) {
        if in_grid(gw(), gh(), n.x as int, n.y as int) {
            assert(m.field_at(n.x as int, n.y as int) != Some(Field::Water));
        } else {
            let d = wrap_step(n).0;
            assert(in_grid(gw(), gh(), d.x as int, d.y as int));
            assert(m.field_at(d.x as int, d.y as int) != Some(Field::Water));
        }
    }
}

/// The `i`-th cell of the world map lies on the map, and is listed at place `i`.
pub proof fn lemma_cell_coords(i: int)
    requires
        0 <= i < cell_count(),
    ensures
        in_grid(gw(), gh(), cell_x(i), cell_y(i)),
        cell_index(gw(), gh(), cell_x(i), cell_y(i)) == i,
        on_border(i) <==> (cell_x(i) == west_edge() || cell_x(i) == east_edge() || cell_y(i) == south_edge()
            || cell_y(i) == north_edge()),
{
    lemma_world_size();
    vstd::arithmetic::div_mod::lemma_fundamental_div_mod(i, 64);
    assert(0 <= i / 64 < 48) by (nonlinear_arith)
        requires
            0 <= i < 3072,
    ;
}

/// Every cell on the world map is the `i`-th cell for its place `i`.
pub proof fn lemma_coords_cell(x: int, y: int)
    requires
        in_grid(gw(), gh(), x, y),
    ensures
        0 <= cell_index(gw(), gh(), x, y) < cell_count(),
        cell_x(cell_index(gw(), gh(), x, y)) == x,
        cell_y(cell_index(gw(), gh(), x, y)) == y,
{
    lemma_world_size();
    let i = cell_index(gw(), gh(), x, y);
    vstd::arithmetic::div_mod::lemma_fundamental_div_mod_converse(i, 64, y + 24, x + 32);
}

/// Every generated map is of the world's size, exactly its water blocks, and
/// its edges are dry: so the walking law above holds on it.
pub proof fn lemma_generated_map_walkable(m: GameMap, r: MapRolls)
    requires
        rolls_valid(r),
        generated_from(m, r),
    ensures
        world_shaped(m),
        collisions_exact(m),
        border_dry(m),
{
    lemma_world_size();
    lemma_generated_map(r);
    lemma_cells_where(m.fields@, cell_count() as nat, |f: Field| is_water(f));
    assert forall|x: i32, y: i32| #[trigger] m.collisions@.contains((x, y)) <==> m.field_at(x as int, y as int) == Some(Field::Water) by {
        if m.collisions@.contains((x, y)) {
            let i = choose|i: int| 0 <= i < cell_count() && is_water(m.fields@[i]) && (x, y) == (cell_x(i) as i32, cell_y(i) as i32);
            lemma_cell_coords(i);
        }
        if m.field_at(x as int, y as int) == Some(Field::Water) {
            lemma_coords_cell(x as int, y as int);
            let i = cell_index(gw(), gh(), x as int, y as int);
            assert(0 <= i < cell_count() && is_water(m.fields@[i]) && (x, y) == (cell_x(i) as i32, cell_y(i) as i32));
        }
    }
    assert forall|x: int, y: int|
        in_grid(gw(), gh(), x, y) && (x == west_edge() || x == east_edge() || y == south_edge() || y == north_edge())
        implies #[trigger] m.field_at(x, y) != Some(Field::Water) by {
        lemma_coords_cell(x, y);
        let i = cell_index(gw(), gh(), x, y);
        lemma_cell_coords(i);
    }
}

/// Moves `position` by `delta_xy` when the new cell lies within a
/// `width` by `height` map whose corner is `(0, 0)`; returns whether it moved.
pub fn try_move_player(position: &mut Position, delta_xy: (i32, i32), width: i32, height: i32) -> (moved: bool)
    requires
        i32::MIN <= old(position).x + delta_xy.0 <= i32::MAX,
        i32::MIN <= old(position).y + delta_xy.1 <= i32::MAX,
    ensures
        moved == (0 <= old(position).x + delta_xy.0 < width && 0 <= old(position).y + delta_xy.1 < height),
        moved ==> *final(position) == (Position { x: (old(position).x + delta_xy.0) as i32, y: (old(position).y + delta_xy.1) as i32 }),
        !moved ==> *final(position) == *old(position),
{
    let new_x = position.x + delta_xy.0;
    let new_y = position.y + delta_xy.1;
    if 0 <= new_x && new_x < width && 0 <= new_y && new_y < height {
        position.x = new_x;
        position.y = new_y;
        true
    } else {
        false
    }
}

} // verus!
