use dq_like_rpg::audio::{AudioEvent, AudioKind};
use dq_like_rpg::character_status::{CharacterStatus, Skill};
use dq_like_rpg::effects::{EffectEvent, EffectKind};
use dq_like_rpg::enemies::{level, level_from_roll, Enemy, EnemyData};
use dq_like_rpg::events::{
    attack, attack_with_rolls, battle_events, explore_events, setup_battle, skill2param, update_events, BattleStep, GameEvent,
    RunState,
};
use dq_like_rpg::actions::{Action, Key, KeyboardInput, PlayerActions};
use dq_like_rpg::inventory::{Inventory, Item};
use dq_like_rpg::map::{CellRoll, Field, GameMap, MapRolls, Position};
use dq_like_rpg::state::{AppState, Player, PlayerBattleState};

fn goblin(level: i32) -> CharacterStatus {
    EnemyData::default().create(&Field::Grass, level)
}

#[test]
fn enemy_table() {
    let data = EnemyData::default();
    assert_eq!(data.field_to_enemy(&Field::Grass), Enemy::Goblin);
    assert_eq!(data.field_to_enemy(&Field::Forest), Enemy::Skeleton);
    assert_eq!(data.field_to_enemy(&Field::Mountain), Enemy::Griffin);
    assert_eq!(data.field_to_enemy(&Field::Castle), Enemy::Boss);
    assert_eq!(data.field_to_rate(&Field::Grass), 20);
    assert_eq!(data.field_to_rate(&Field::Castle), 1);
    assert_eq!(data.field_to_enemy_skill(&Field::Mountain), Skill::Wind);
    assert_eq!(data.field_to_enemy_skill(&Field::Castle), Skill::Death);
    assert_eq!(data.image_index(&Field::Forest), 1);
    assert_eq!(Enemy::default(), Enemy::Goblin);
    assert_eq!(Enemy::Griffin.display_text(), "Griffin");
}

#[test]
fn enemies_grow_with_level() {
    let g = goblin(1);
    assert_eq!(g.name, "Goblin");
    assert_eq!((g.lv, g.exp, g.hp_current, g.hp_max, g.mp_current, g.mp_max, g.attack, g.defence), (1, 0, 50, 50, 0, 0, 10, 5));
    let g3 = goblin(3);
    assert_eq!((g3.hp_max, g3.attack, g3.defence), (100, 20, 10));
    let s = EnemyData::default().create(&Field::Forest, 2);
    assert_eq!((s.name.as_str(), s.hp_max, s.attack, s.defence), ("Skeleton", 150, 30, 15));
    let b = EnemyData::default().create(&Field::Castle, 1);
    assert_eq!((b.hp_max, b.attack, b.defence), (999, 99, 99));
}

#[test]
fn enemy_levels() {
    assert_eq!(level(10, Enemy::Boss), 1);
    assert_eq!(level(1, Enemy::Goblin), 1);
    assert_eq!(level(3, Enemy::Goblin), 1);
    for _ in 0..200 {
        let l = level(30, Enemy::Skeleton);
        assert!((1..=5).contains(&l));
        let l = level(6, Enemy::Griffin);
        assert!((1..=3).contains(&l));
    }
    let mut seen = [false; 6];
    for _ in 0..500 {
        seen[level(30, Enemy::Goblin) as usize] = true;
    }
    // every level from 1 to 5 comes up
    assert_eq!(seen, [false, true, true, true, true, true]);
    let mut damages = std::collections::HashSet::new();
    for _ in 0..500 {
        let mut p = CharacterStatus::default();
        let mut e = goblin(1);
        damages.insert(attack(&mut p, &mut e, Skill::Sword));
    }
    // the two rolls spread the damage over 1 to 9
    assert_eq!(damages.len(), 9);
    assert_eq!(level_from_roll(30, Enemy::Goblin, 4), 5);
    assert_eq!(level_from_roll(30, Enemy::Boss, 4), 1);
}

#[test]
fn skill_parameters() {
    let p = CharacterStatus::default();
    let e = goblin(1);
    assert_eq!(skill2param(&p, &e, Skill::Sword), (5, 5, 0, 0));
    assert_eq!(skill2param(&p, &e, Skill::Arrow), (5, 1, 0, 0));
    assert_eq!(skill2param(&p, &e, Skill::Wind), (5, 2, 0, 0));
    assert_eq!(skill2param(&p, &e, Skill::Death), (5, 5, 0, 0));
    assert_eq!(skill2param(&p, &e, Skill::Spell(Item::SpellHeal(2))), (0, 5, 200, 20));
    assert_eq!(skill2param(&p, &e, Skill::Spell(Item::SpellFire(3))), (120, 5, 0, 75));
    assert_eq!(skill2param(&p, &e, Skill::Spell(Item::SpellIce(2))), (45, 1, 0, 50));
    assert_eq!(skill2param(&p, &e, Skill::Spell(Item::SpellFire(0))), (0, 5, 0, 0));
    let mut weak = CharacterStatus::default();
    weak.attack = -7;
    assert_eq!(skill2param(&weak, &e, Skill::Sword).0, -3);
}

#[test]
fn sword_attack_with_rolls() {
    let mut p = CharacterStatus::default();
    let mut e = goblin(1);
    let d = attack_with_rolls(&mut p, &mut e, Skill::Sword, 2, 1);
    assert_eq!(d, 6);
    assert_eq!(e.hp_current, 44);
    assert_eq!(p.mp_current, 100);
    let d = attack_with_rolls(&mut p, &mut e, Skill::Sword, 0, 4);
    assert_eq!(d, 1);
    assert_eq!(e.hp_current, 43);
}

#[test]
fn spells_cost_and_heal() {
    let mut p = CharacterStatus::default();
    let mut e = goblin(1);
    p.hp_current = 30;
    let h = attack_with_rolls(&mut p, &mut e, Skill::Spell(Item::SpellHeal(1)), 0, 0);
    assert_eq!(h, 50);
    assert_eq!((p.hp_current, p.mp_current), (80, 90));
    let h = attack_with_rolls(&mut p, &mut e, Skill::Spell(Item::SpellHeal(1)), 0, 0);
    assert_eq!(h, 50);
    assert_eq!((p.hp_current, p.mp_current), (100, 80));
    let d = attack_with_rolls(&mut p, &mut e, Skill::Spell(Item::SpellFire(3)), 100, 0);
    assert_eq!(d, 220);
    assert_eq!((e.hp_current, p.mp_current), (0, 5));
    let before = (p.clone(), e.clone());
    let n = attack_with_rolls(&mut p, &mut e, Skill::Spell(Item::SpellFire(1)), 0, 0);
    assert_eq!(n, 0);
    assert_eq!((p.mp_current, e.hp_current), (before.0.mp_current, before.1.hp_current));
}

#[test]
fn random_attacks_stay_in_range() {
    for _ in 0..300 {
        let mut p = CharacterStatus::default();
        let mut e = goblin(1);
        let d = attack(&mut p, &mut e, Skill::Sword);
        assert!((1..=9).contains(&d));
        assert_eq!(e.hp_current, 50 - d);
        let mut e2 = goblin(1);
        let d2 = attack(&mut e2, &mut p, Skill::Sword);
        assert!((1..=999).contains(&d2));
        assert_eq!(p.hp_current, 100 - d2);
    }
}

#[test]
fn battle_attack_step() {
    let mut p = CharacterStatus::default();
    let inv = Inventory::default();
    let mut player = Player { battle_state: PlayerBattleState::Attack };
    let mut e = goblin(1);
    let mut rs = RunState::default();
    let step = battle_events(&mut p, &inv, &mut player, &mut e, Skill::Sword, Enemy::Goblin, &mut rs);
    let effect = step.effect.unwrap();
    assert_eq!(effect.kind, EffectKind::Attack);
    assert!(effect.is_player_attack);
    assert_eq!(e.hp_current, 50 - effect.damage_or_heal);
    assert_eq!(step.next_state, None);
    assert_eq!(player.battle_state, PlayerBattleState::Attack);
}

#[test]
fn beating_an_enemy_wins_and_gives_experience() {
    let mut p = CharacterStatus::default();
    let inv = Inventory::default();
    let mut player = Player { battle_state: PlayerBattleState::Defense };
    let mut e = EnemyData::default().create(&Field::Forest, 1);
    e.hp_current = 0;
    let mut rs = RunState::default();
    let step = battle_events(&mut p, &inv, &mut player, &mut e, Skill::Sword, Enemy::Skeleton, &mut rs);
    assert_eq!(p.exp, 10);
    assert_eq!(p.lv, 2);
    assert_eq!(rs.event, Some(GameEvent::Win(true)));
    assert_eq!(step.next_state, Some(AppState::InGameEvent));
    assert_eq!(player.battle_state, PlayerBattleState::Select);
    let effect = step.effect.unwrap();
    assert!(!effect.is_player_attack);
    assert_eq!(p.hp_current, p.hp_max - effect.damage_or_heal);
}

#[test]
fn beating_the_boss_wins_the_game() {
    let mut p = CharacterStatus::default();
    p.hp_current = 999;
    p.hp_max = 999;
    let inv = Inventory::default();
    let mut player = Player { battle_state: PlayerBattleState::Defense };
    let mut e = EnemyData::default().create(&Field::Castle, 1);
    e.hp_current = -5;
    let mut rs = RunState::default();
    let step = battle_events(&mut p, &inv, &mut player, &mut e, Skill::Death, Enemy::Boss, &mut rs);
    assert_eq!(rs.event, Some(GameEvent::WinLast));
    assert_eq!(step.next_state, Some(AppState::InGameEvent));
    assert_eq!(p.exp, 0);
    assert_eq!(step.effect.unwrap().kind, EffectKind::Death);
}

#[test]
fn losing_a_battle() {
    let mut p = CharacterStatus::default();
    p.hp_current = 0;
    let inv = Inventory::default();
    let mut player = Player { battle_state: PlayerBattleState::Select };
    let mut e = goblin(1);
    let mut rs = RunState::default();
    let step = battle_events(&mut p, &inv, &mut player, &mut e, Skill::Sword, Enemy::Goblin, &mut rs);
    assert_eq!(step, BattleStep { effect: None, next_state: Some(AppState::InGameEvent) });
    assert_eq!(rs.event, Some(GameEvent::Lose));
    p.hp_current = 1;
    let mut rs2 = RunState::default();
    let step = battle_events(&mut p, &inv, &mut player, &mut e, Skill::Sword, Enemy::Goblin, &mut rs2);
    assert_eq!(step, BattleStep { effect: None, next_state: None });
    assert_eq!(rs2.event, None);
}

fn plain_map_with_town(town: (i32, i32)) -> GameMap {
    let mut cells = Vec::new();
    for _ in 0..3072 {
        cells.push(CellRoll { mountain_walk: Vec::new(), water: false, forest: false });
    }
    let mut towns = vec![(-20, -20); 16];
    towns[3] = town;
    GameMap::generate_map_from(&MapRolls { cells, castle: (20, 15), towns })
}

#[test]
fn arriving_at_a_town_twice() {
    let mut map = plain_map_with_town((5, 6));
    let pos = Position { x: 5, y: 6 };
    assert_eq!(map.position_to_field(&pos), Field::Town { item: Item::SpellFire(1), visited: false });
    let mut p = CharacterStatus::default();
    p.hp_current = 7;
    let mut inv = Inventory::default();
    let mut rs = RunState::default();
    let ev = GameEvent::TownArrived(Item::SpellFire(1), false);
    assert_eq!(explore_events(&ev, &mut map, &pos, &mut p, &mut inv, &mut rs), AppState::InGameEvent);
    assert_eq!(inv.items, vec![Item::SpellFire(1)]);
    assert_eq!(inv.skills, vec![Skill::Sword, Skill::Spell(Item::SpellFire(1))]);
    assert_eq!(map.position_to_field(&pos), Field::Town { item: Item::SpellFire(1), visited: true });
    assert_eq!(p.hp_current, 100);
    assert_eq!(rs.event, Some(ev));
    let ev2 = GameEvent::TownArrived(Item::SpellFire(1), true);
    p.hp_current = 3;
    explore_events(&ev2, &mut map, &pos, &mut p, &mut inv, &mut rs);
    assert_eq!(inv.items.len(), 1);
    assert_eq!(p.hp_current, 100);
    assert_eq!(rs.event, Some(ev2));
}

#[test]
fn town_items_raise_statistics() {
    let mut map = plain_map_with_town((5, 6));
    map.fields[(6 + 24) * 64 + (5 + 32)] = Field::Town { item: Item::HeroSword, visited: false };
    let pos = Position { x: 5, y: 6 };
    let mut p = CharacterStatus::default();
    let mut inv = Inventory::default();
    let mut rs = RunState::default();
    explore_events(&GameEvent::TownArrived(Item::HeroSword, false), &mut map, &pos, &mut p, &mut inv, &mut rs);
    assert_eq!(p.attack, 25);
}

#[test]
fn encounters_are_announced() {
    let mut map = plain_map_with_town((5, 6));
    let pos = Position { x: 0, y: 0 };
    let mut p = CharacterStatus::default();
    let mut inv = Inventory::default();
    let mut rs = RunState::default();
    let ev = GameEvent::EnemyEncountered(Enemy::Griffin);
    assert_eq!(explore_events(&ev, &mut map, &pos, &mut p, &mut inv, &mut rs), AppState::InGameEvent);
    assert_eq!(rs.event, Some(ev));
    assert_eq!(p.hp_current, 100);
}

#[test]
fn dismissing_events() {
    let mut kb = KeyboardInput { pressed: vec![Key::Return, Key::Space], just_pressed: vec![Key::Return], just_released: vec![Key::W] };
    let none = PlayerActions { action: None };
    let go = PlayerActions { action: Some(Action::Return) };
    let cases = [
        (GameEvent::EnemyEncountered(Enemy::Goblin), AppState::InGameBattle),
        (GameEvent::TownArrived(Item::IronArm, true), AppState::InGameExplore),
        (GameEvent::Win(false), AppState::InGameExplore),
        (GameEvent::Lose, AppState::Menu),
        (GameEvent::WinLast, AppState::Menu),
    ];
    for (ev, next) in cases {
        let rs = RunState { event: Some(ev) };
        assert_eq!(update_events(&none, &rs, &mut kb), None);
        assert_eq!(kb.pressed, vec![Key::Return, Key::Space]);
        let mut kb2 = kb.clone();
        assert_eq!(update_events(&go, &rs, &mut kb2), Some(next));
        assert_eq!(kb2.pressed, vec![Key::Space]);
        assert!(kb2.just_pressed.is_empty());
        assert!(kb2.just_released.is_empty());
    }
    kb.reset(Key::Space);
    assert_eq!(kb.pressed, vec![Key::Return]);
}

#[test]
fn event_messages() {
    let text = |e| RunState { event: Some(e) }.event_text();
    assert_eq!(text(GameEvent::EnemyEncountered(Enemy::Skeleton)), "Battle!!!\nSkeleton appeared.\n");
    assert_eq!(text(GameEvent::TownArrived(Item::SpellIce(2), false)), "Town\nGet healed up your HP!\nGet a SpellIce(2)!");
    assert_eq!(text(GameEvent::TownArrived(Item::SpellIce(2), true)), "Town\nGet healed up your HP!\n");
    assert_eq!(text(GameEvent::Win(true)), "You Win!\nLevel Up!\n");
    assert_eq!(text(GameEvent::Win(false)), "You Win!\n");
    assert_eq!(text(GameEvent::Lose), "You Lose!\n");
    assert_eq!(text(GameEvent::WinLast), "You won the last battle!\nYou saved the kingdom!");
}

#[test]
fn battle_setup_against_the_field_enemy() {
    let map = plain_map_with_town((5, 6));
    let data = EnemyData::default();
    let s = setup_battle(&map, &data, &Position { x: 20, y: 15 }, 10);
    assert_eq!(s.enemy, Enemy::Boss);
    assert_eq!(s.enemy_skill, Skill::Death);
    assert_eq!(s.enemy_status.lv, 1);
    assert_eq!(s.enemy_status.hp_max, 999);
    assert_eq!(s.music, AudioEvent::Play(AudioKind::BGMBattleLast));
    let s = setup_battle(&map, &data, &Position { x: 1, y: 1 }, 1);
    assert_eq!(s.enemy, Enemy::Goblin);
    assert_eq!(s.enemy_status.name, "Goblin");
    assert_eq!(s.enemy_status.hp_max, 50);
    assert_eq!(s.music, AudioEvent::Play(AudioKind::BGMBattle));
    let _ = EffectEvent { kind: EffectKind::Fire, damage_or_heal: 1, is_player_attack: true };
}
