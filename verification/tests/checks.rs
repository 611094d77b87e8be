use dq_like_rpg::character_status::{level_is_in_range, CharacterStatus, Skill};
use dq_like_rpg::effects::skill_has_effect;
use dq_like_rpg::enemies::{Enemy, EnemyData, EnemyStatus};
use dq_like_rpg::events::{attack_is_safe, battle_step_is_safe, explore_event_is_safe, skill_is_usable, GameEvent, RunState};
use dq_like_rpg::explore::arrival_is_safe;
use dq_like_rpg::inventory::{Inventory, Item};
use dq_like_rpg::map::{CellRoll, Field, GameMap, MapRolls, Position};
use dq_like_rpg::state::{Player, PlayerBattleState};

fn map_with_water_and_town() -> GameMap {
    let mut cells = Vec::new();
    for _ in 0..3072 {
        cells.push(CellRoll { mountain_walk: Vec::new(), water: false, forest: false });
    }
    cells[(10 * 64 + 40) as usize].water = true;
    let towns: Vec<(i32, i32)> = (0..16).map(|k| (k - 8, 10)).collect();
    GameMap::generate_map_from(&MapRolls { cells, castle: (20, 15), towns })
}

#[test]
fn map_cells() {
    let map = map_with_water_and_town();
    assert!(map.has_cell(&Position { x: 0, y: 0 }));
    assert!(map.has_cell(&Position { x: -32, y: -24 }));
    assert!(map.has_cell(&Position { x: 31, y: 23 }));
    assert!(!map.has_cell(&Position { x: 32, y: 0 }));
    assert!(!map.has_cell(&Position { x: 0, y: -25 }));
    let broken = GameMap {
        width: 2,
        height: 2,
        tile_size: 16,
        collisions: Vec::new(),
        blinks_on_mini_tiles: Vec::new(),
        blink_status: false,
        fields: vec![Field::Grass],
        tiles: Vec::new(),
        mini_tiles: Vec::new(),
    };
    assert!(!broken.has_cell(&Position { x: 0, y: 0 }));
}

#[test]
fn known_enemies() {
    let data = EnemyData::default();
    assert!(data.has_enemy(&Field::Grass));
    assert!(data.has_enemy(&Field::Castle));
    assert!(!data.has_enemy(&Field::Water));
    assert!(!data.has_enemy(&Field::Town { item: Item::IronArm, visited: false }));
}

#[test]
fn arrivals_that_can_be_handled() {
    let map = map_with_water_and_town();
    let data = EnemyData::default();
    assert!(arrival_is_safe(&map, &data, &Position { x: 0, y: 0 }));
    assert!(arrival_is_safe(&map, &data, &Position { x: 8, y: -14 }));
    assert!(arrival_is_safe(&map, &data, &Position { x: -8, y: 10 }));
    assert!(arrival_is_safe(&map, &data, &Position { x: 20, y: 15 }));
    assert!(!arrival_is_safe(&map, &data, &Position { x: 40, y: 0 }));
    let no_boss = EnemyData {
        data: vec![(
            Field::Grass,
            EnemyStatus { name: Enemy::Goblin, rate: 0, img: 0, hp: 50, at: 10, df: 5, skl: Skill::Sword },
        )],
    };
    assert!(!arrival_is_safe(&map, &no_boss, &Position { x: 20, y: 15 }));
    assert!(!arrival_is_safe(&map, &no_boss, &Position { x: 0, y: 0 }));
}

#[test]
fn levels_and_skills() {
    assert!(level_is_in_range(1));
    assert!(level_is_in_range(85899342));
    assert!(!level_is_in_range(85899343));
    assert!(level_is_in_range(-85899344));
    assert!(!level_is_in_range(-85899345));
    assert!(skill_has_effect(Skill::Sword));
    assert!(skill_has_effect(Skill::Spell(Item::SpellIce(1))));
    assert!(!skill_has_effect(Skill::Spell(Item::HeroSword)));
    assert!(skill_is_usable(Skill::Spell(Item::SpellFire(3))));
    assert!(!skill_is_usable(Skill::Spell(Item::SpellFire(4))));
    assert!(skill_is_usable(Skill::Spell(Item::SpellHeal(9268))));
    assert!(!skill_is_usable(Skill::Spell(Item::SpellHeal(9269))));
    assert!(!skill_is_usable(Skill::Spell(Item::WisdomRing)));
}

#[test]
fn attacks_that_can_run() {
    let p = CharacterStatus::default();
    let e = EnemyData::default().create(&Field::Grass, 1);
    assert!(attack_is_safe(&p, &e, Skill::Sword));
    assert!(attack_is_safe(&p, &e, Skill::Spell(Item::SpellHeal(1))));
    // a level-0 fire spell has no attack to roll
    assert!(!attack_is_safe(&p, &e, Skill::Spell(Item::SpellFire(0))));
    let mut weak = CharacterStatus::default();
    weak.attack = 1;
    assert!(!attack_is_safe(&weak, &e, Skill::Sword));
    // without the magic points nothing happens, so nothing can fail
    let mut tired = CharacterStatus::default();
    tired.mp_current = 0;
    tired.attack = 0;
    assert!(attack_is_safe(&tired, &e, Skill::Spell(Item::SpellFire(1))));
    assert!(!attack_is_safe(&tired, &e, Skill::Sword));
}

#[test]
fn battle_steps_that_can_run() {
    let p = CharacterStatus::default();
    let inv = Inventory::default();
    let e = EnemyData::default().create(&Field::Forest, 1);
    let rs = RunState::default();
    let attack = Player { battle_state: PlayerBattleState::Attack };
    let defense = Player { battle_state: PlayerBattleState::Defense };
    let select = Player { battle_state: PlayerBattleState::Select };
    assert!(battle_step_is_safe(&p, &inv, &attack, &e, Skill::Sword, Enemy::Skeleton, &rs));
    assert!(battle_step_is_safe(&p, &inv, &defense, &e, Skill::Sword, Enemy::Skeleton, &rs));
    assert!(battle_step_is_safe(&p, &inv, &select, &e, Skill::Spell(Item::IronArm), Enemy::Skeleton, &rs));
    assert!(!battle_step_is_safe(&p, &inv, &defense, &e, Skill::Spell(Item::IronArm), Enemy::Skeleton, &rs));
    let mut bad = Inventory::default();
    bad.selected_skill_index = 3;
    assert!(!battle_step_is_safe(&p, &bad, &attack, &e, Skill::Sword, Enemy::Skeleton, &rs));
    let mut beaten = e.clone();
    beaten.hp_current = 0;
    assert!(battle_step_is_safe(&p, &inv, &defense, &beaten, Skill::Sword, Enemy::Skeleton, &rs));
    let mut rich = CharacterStatus::default();
    rich.exp = i32::MAX;
    assert!(!battle_step_is_safe(&rich, &inv, &defense, &beaten, Skill::Sword, Enemy::Skeleton, &rs));
    assert!(battle_step_is_safe(&rich, &inv, &defense, &beaten, Skill::Sword, Enemy::Boss, &rs));
}

#[test]
fn explore_events_that_can_be_handled() {
    let map = map_with_water_and_town();
    let p = CharacterStatus::default();
    let town = Position { x: -8, y: 10 };
    let grass = Position { x: 0, y: 0 };
    assert!(explore_event_is_safe(&GameEvent::EnemyEncountered(Enemy::Goblin), &map, &grass, &p));
    assert!(explore_event_is_safe(&GameEvent::TownArrived(Item::SpellHeal(1), false), &map, &town, &p));
    assert!(!explore_event_is_safe(&GameEvent::TownArrived(Item::SpellHeal(1), false), &map, &grass, &p));
    assert!(explore_event_is_safe(&GameEvent::TownArrived(Item::SpellFire(1), true), &map, &grass, &p));
    assert!(!explore_event_is_safe(&GameEvent::Win(true), &map, &grass, &p));
    let mut huge = CharacterStatus::default();
    huge.lv = i32::MAX;
    assert!(!explore_event_is_safe(&GameEvent::TownArrived(Item::SpellFire(1), true), &map, &grass, &huge));
}
