use dq_like_rpg::actions::{
    exec_actions, set_battle_actions, set_event_actions, set_menu_actions, set_movement_actions, Action, Key, KeyboardInput,
    PlayerActions,
};
use dq_like_rpg::audio::{channel_name, channel_of, AudioCommand, AudioEvent, AudioKind, Channel, ChannelAudioState};
use dq_like_rpg::character_status::Skill;
use dq_like_rpg::enemies::Enemy;
use dq_like_rpg::events::{battle_debug_input, event_sound, GameEvent};
use dq_like_rpg::effects::{effect_sound, finish_effect, get_length_for_effect, next_frame, skill_to_effect, EffectEvent, EffectKind};
use dq_like_rpg::inventory::{Inventory, Item};
use dq_like_rpg::state::{next_loading_text, next_menu_text, render_layer, AppState, ForState, GameState, Player, PlayerBattleState, RenderLayer};

fn input(pressed: &[Key], just_pressed: &[Key], just_released: &[Key]) -> KeyboardInput {
    KeyboardInput { pressed: pressed.to_vec(), just_pressed: just_pressed.to_vec(), just_released: just_released.to_vec() }
}

fn movement(kb: &KeyboardInput, previous: Option<Action>) -> Option<Action> {
    let mut a = PlayerActions { action: previous };
    set_movement_actions(&mut a, kb);
    a.action
}

fn battle(kb: &KeyboardInput) -> Option<Action> {
    let mut a = PlayerActions { action: Some(Action::Left) };
    set_battle_actions(&mut a, kb);
    a.action
}

fn event(kb: &KeyboardInput, previous: Option<Action>) -> Option<Action> {
    let mut a = PlayerActions { action: previous };
    set_event_actions(&mut a, kb);
    a.action
}

#[test]
fn keyboard_queries() {
    let mut kb = input(&[Key::W, Key::Space], &[Key::W], &[Key::Left]);
    assert!(kb.pressed(Key::W) && kb.just_pressed(Key::W) && kb.just_released(Key::Left));
    assert!(!kb.pressed(Key::S) && !kb.just_pressed(Key::Space));
    assert!(Action::Up.pressed(&kb) && Action::Up.just_pressed(&kb) && Action::Left.just_released(&kb));
    assert!(!Action::Down.pressed(&kb) && !Action::Return.pressed(&kb));
    kb.reset(Key::W);
    assert_eq!(kb.pressed, vec![Key::Space]);
    assert!(kb.just_pressed.is_empty());
    assert_eq!(kb.just_released, vec![Key::Left]);
}

#[test]
fn movement_on_the_map() {
    // nothing held or released
    assert_eq!(movement(&input(&[], &[], &[]), Some(Action::Up)), None);
    // pressing a key starts a movement
    assert_eq!(movement(&input(&[Key::Up], &[Key::Up], &[]), None), Some(Action::Up));
    assert_eq!(movement(&input(&[Key::A], &[Key::A], &[]), None), Some(Action::Left));
    // holding keeps the previous movement
    assert_eq!(movement(&input(&[Key::S], &[], &[]), Some(Action::Down)), Some(Action::Down));
    // a horizontal press overrides a vertical one
    assert_eq!(movement(&input(&[Key::W, Key::D], &[Key::W, Key::D], &[]), None), Some(Action::Right));
    // releasing one key gives way to the other still held
    assert_eq!(movement(&input(&[Key::Down], &[], &[Key::Up]), Some(Action::Up)), Some(Action::Down));
    assert_eq!(movement(&input(&[Key::Left], &[], &[Key::D]), Some(Action::Right)), Some(Action::Left));
    // releasing a horizontal key with none left held keeps the previous movement
    assert_eq!(movement(&input(&[Key::Up], &[], &[Key::Right]), Some(Action::Right)), Some(Action::Right));
    // releasing the last key keeps the previous movement for this frame; the next frame stops
    assert_eq!(movement(&input(&[], &[], &[Key::Left]), Some(Action::Left)), Some(Action::Left));
    assert_eq!(movement(&input(&[], &[], &[]), Some(Action::Left)), None);
    // a vertical release over a held horizontal key settles on no new choice
    assert_eq!(movement(&input(&[Key::Left], &[], &[Key::W]), Some(Action::Up)), Some(Action::Up));
}

#[test]
fn commands_in_battle() {
    assert_eq!(battle(&input(&[], &[], &[])), None);
    assert_eq!(battle(&input(&[Key::Up], &[Key::Up], &[])), Some(Action::Up));
    assert_eq!(battle(&input(&[Key::S], &[Key::S], &[])), Some(Action::Down));
    // holding a key does not repeat it
    assert_eq!(battle(&input(&[Key::Up], &[], &[])), None);
    assert_eq!(battle(&input(&[Key::Return], &[Key::Return], &[])), Some(Action::Return));
    assert_eq!(battle(&input(&[Key::Up, Key::Return], &[Key::Up, Key::Return], &[])), Some(Action::Return));
    assert_eq!(battle(&input(&[], &[], &[Key::Return])), None);
    // left and right mean nothing in battle
    assert_eq!(battle(&input(&[Key::Left], &[Key::Left], &[])), None);
}

#[test]
fn commands_on_the_event_screen() {
    assert_eq!(event(&input(&[], &[], &[]), Some(Action::Return)), None);
    assert_eq!(event(&input(&[Key::Return], &[Key::Return], &[]), None), Some(Action::Return));
    assert_eq!(event(&input(&[Key::Return], &[], &[]), Some(Action::Return)), Some(Action::Return));
    assert_eq!(event(&input(&[Key::Return], &[], &[]), None), None);
    assert_eq!(event(&input(&[], &[], &[Key::Return]), Some(Action::Return)), Some(Action::Return));
    assert_eq!(event(&input(&[Key::Up], &[Key::Up], &[]), Some(Action::Return)), None);
}

#[test]
fn the_menu_starts_on_space() {
    let mut kb = input(&[Key::Space, Key::W], &[Key::Space], &[]);
    assert_eq!(set_menu_actions(&mut kb), Some(AppState::InGameMap));
    assert_eq!(kb.pressed, vec![Key::W]);
    assert!(kb.just_pressed.is_empty());
    let mut kb = input(&[Key::Space], &[], &[]);
    assert_eq!(set_menu_actions(&mut kb), None);
    assert_eq!(kb.pressed, vec![Key::Space]);
}

#[test]
fn reset_all_forgets_movement_keys() {
    let mut kb = input(&[Key::W, Key::Return, Key::Space], &[Key::Right, Key::B], &[Key::S]);
    PlayerActions::default().reset_all(&mut kb);
    assert_eq!(kb.pressed, vec![Key::Space]);
    assert_eq!(kb.just_pressed, vec![Key::B]);
    assert!(kb.just_released.is_empty());
}

#[test]
fn battle_commands_move_the_cursor_and_attack() {
    let mut inv = Inventory::default();
    inv.add_item(Item::SpellHeal(1));
    inv.add_item(Item::IronArm);
    inv.add_item(Item::SpellFire(2));
    assert_eq!(inv.skills.len(), 3);
    let mut player = Player { battle_state: PlayerBattleState::Select };
    exec_actions(Some(Action::Down), &mut inv, &mut player);
    assert_eq!(inv.selected_skill_index, 1);
    assert_eq!(inv.skill(), Skill::Spell(Item::SpellHeal(1)));
    exec_actions(Some(Action::Down), &mut inv, &mut player);
    exec_actions(Some(Action::Down), &mut inv, &mut player);
    // the cursor stops at the last skill
    assert_eq!(inv.selected_skill_index, 2);
    exec_actions(Some(Action::Up), &mut inv, &mut player);
    assert_eq!(inv.selected_skill_index, 1);
    exec_actions(Some(Action::Up), &mut inv, &mut player);
    exec_actions(Some(Action::Up), &mut inv, &mut player);
    // and at the first
    assert_eq!(inv.selected_skill_index, 0);
    exec_actions(Some(Action::Left), &mut inv, &mut player);
    assert_eq!(inv.selected_skill_index, 0);
    assert_eq!(player.battle_state, PlayerBattleState::Select);
    exec_actions(Some(Action::Return), &mut inv, &mut player);
    assert_eq!(player.battle_state, PlayerBattleState::Attack);
    exec_actions(Some(Action::Return), &mut inv, &mut player);
    assert_eq!(player.battle_state, PlayerBattleState::Attack);
}

#[test]
fn sound_channels() {
    assert_eq!(channel_of(&AudioKind::SEHeal), Channel::Se);
    assert_eq!(channel_of(&AudioKind::SETown), Channel::Se);
    assert_eq!(channel_of(&AudioKind::BGMBattle), Channel::Bgm);
    assert_eq!(channel_name(Channel::Bgm), "bgm");
    assert_eq!(channel_name(Channel::Se), "se");
    let fresh = ChannelAudioState::default();
    assert_eq!((fresh.stopped, fresh.paused, fresh.loop_started), (true, false, false));
}

#[test]
fn music_loops_once_per_scene() {
    let mut bgm = ChannelAudioState::default();
    assert_eq!(bgm.handle(&AudioEvent::Play(AudioKind::BGMExplore)), AudioCommand::PlayLooped(AudioKind::BGMExplore));
    assert!(bgm.loop_started && !bgm.stopped);
    assert_eq!(bgm.handle(&AudioEvent::Play(AudioKind::BGMExplore)), AudioCommand::Nothing);
    assert_eq!(bgm.handle(&AudioEvent::Play(AudioKind::BGMBattle)), AudioCommand::Nothing);
    assert_eq!(bgm.handle(&AudioEvent::Stop(AudioKind::BGMExplore)), AudioCommand::StopChannel);
    assert_eq!(bgm, ChannelAudioState::default());
    assert_eq!(bgm.handle(&AudioEvent::Stop(AudioKind::BGMExplore)), AudioCommand::Nothing);
    assert_eq!(bgm.handle(&AudioEvent::Play(AudioKind::BGMBattle)), AudioCommand::PlayLooped(AudioKind::BGMBattle));
    bgm.after_scene_exit();
    assert_eq!((bgm.stopped, bgm.paused, bgm.loop_started), (false, false, false));
    assert_eq!(bgm.handle(&AudioEvent::Play(AudioKind::BGMWin)), AudioCommand::PlayLooped(AudioKind::BGMWin));
}

#[test]
fn effects_play_every_time() {
    let mut se = ChannelAudioState::default();
    for _ in 0..3 {
        assert_eq!(se.handle(&AudioEvent::Play(AudioKind::SEAttack)), AudioCommand::PlayOnce(AudioKind::SEAttack));
    }
    assert!(!se.stopped && !se.loop_started);
    assert_eq!(se.handle(&AudioEvent::Stop(AudioKind::SEAttack)), AudioCommand::StopChannel);
    assert!(se.stopped);
}

#[test]
fn skill_animations() {
    assert_eq!(skill_to_effect(Skill::Sword), EffectKind::Attack);
    assert_eq!(skill_to_effect(Skill::Wind), EffectKind::Wind);
    assert_eq!(skill_to_effect(Skill::Arrow), EffectKind::Arrow);
    assert_eq!(skill_to_effect(Skill::Death), EffectKind::Death);
    assert_eq!(skill_to_effect(Skill::Spell(Item::SpellHeal(2))), EffectKind::Heal);
    assert_eq!(skill_to_effect(Skill::Spell(Item::SpellFire(1))), EffectKind::Fire);
    assert_eq!(skill_to_effect(Skill::Spell(Item::SpellIce(3))), EffectKind::Ice);
    let lengths: Vec<i32> = [
        EffectKind::Attack,
        EffectKind::Heal,
        EffectKind::Fire,
        EffectKind::Ice,
        EffectKind::Death,
        EffectKind::Arrow,
        EffectKind::Wind,
    ]
    .iter()
    .map(get_length_for_effect)
    .collect();
    assert_eq!(lengths, vec![5, 8, 8, 8, 8, 9, 8]);
    assert_eq!(next_frame(0, 5), 1);
    assert_eq!(next_frame(4, 5), 0);
    assert_eq!(next_frame(8, 9), 0);
}

#[test]
fn effect_sounds() {
    let heal = EffectEvent { kind: EffectKind::Heal, damage_or_heal: 12, is_player_attack: true };
    assert_eq!(effect_sound(&heal), Some(AudioEvent::Play(AudioKind::SEHeal)));
    let fire = EffectEvent { kind: EffectKind::Fire, damage_or_heal: 30, is_player_attack: true };
    assert_eq!(effect_sound(&fire), Some(AudioEvent::Play(AudioKind::SEAttack)));
    let wind = EffectEvent { kind: EffectKind::Wind, damage_or_heal: 9, is_player_attack: false };
    assert_eq!(effect_sound(&wind), None);
}

#[test]
fn a_turn_goes_round() {
    let mut s = PlayerBattleState::Attack;
    finish_effect(&mut s);
    assert_eq!(s, PlayerBattleState::Defense);
    finish_effect(&mut s);
    assert_eq!(s, PlayerBattleState::Select);
    finish_effect(&mut s);
    assert_eq!(s, PlayerBattleState::Select);
}

#[test]
fn scenes_and_layers() {
    assert_eq!(GameState::default(), GameState::Title);
    let only_battle = ForState { states: vec![AppState::InGameBattle, AppState::InGameEvent] };
    assert!(only_battle.keeps(&AppState::InGameBattle));
    assert!(only_battle.keeps(&AppState::InGameEvent));
    assert!(!only_battle.keeps(&AppState::InGameExplore));
    assert!(!ForState { states: Vec::new() }.keeps(&AppState::Menu));
    let depths: Vec<usize> = [
        RenderLayer::MapBackGround,
        RenderLayer::MapForeGround,
        RenderLayer::Player,
        RenderLayer::BattleBackGround,
        RenderLayer::BattleForeGround,
        RenderLayer::BattleEffect,
    ]
    .iter()
    .map(|l| render_layer(*l))
    .collect();
    assert_eq!(depths, vec![0, 1, 2, 3, 4, 100]);
}

#[test]
fn blinking_texts() {
    assert_eq!(next_menu_text(""), "Press 'Space' to start");
    assert_eq!(next_menu_text("Press 'Space' to start"), "");
    let mut t = String::from("Loading");
    let mut seen = Vec::new();
    for _ in 0..6 {
        t = next_loading_text(&t);
        seen.push(t.clone());
    }
    assert_eq!(seen, vec!["Loading.", "Loading..", "Loading...", "Loading....", "Loading", "Loading."]);
}

#[test]
fn debugging_shortcuts_in_battle() {
    let mut inv = Inventory::default();
    let mut kb = input(&[Key::B, Key::E, Key::W], &[Key::B, Key::E], &[Key::I]);
    let (state, effect) = battle_debug_input(&mut kb, &mut inv);
    assert_eq!(state, Some(AppState::InGameExplore));
    assert_eq!(effect, Some(EffectEvent { kind: EffectKind::Wind, damage_or_heal: 10, is_player_attack: true }));
    assert_eq!(kb.pressed, vec![Key::W]);
    assert!(kb.just_pressed.is_empty());
    // I was released, not pressed: nothing is given and the key is kept
    assert_eq!(kb.just_released, vec![Key::I]);
    assert!(inv.items.is_empty());
    let mut kb = input(&[Key::I], &[Key::I], &[]);
    assert_eq!(battle_debug_input(&mut kb, &mut inv), (None, None));
    assert_eq!(inv.items, vec![Item::SpellFire(1)]);
    assert_eq!(inv.skills, vec![Skill::Sword, Skill::Spell(Item::SpellFire(1))]);
    assert!(kb.pressed.is_empty() && kb.just_pressed.is_empty());
}

#[test]
fn event_screen_sounds() {
    assert_eq!(event_sound(&GameEvent::TownArrived(Item::IronArm, true)), Some(AudioEvent::Play(AudioKind::SETown)));
    assert_eq!(event_sound(&GameEvent::Win(false)), Some(AudioEvent::Play(AudioKind::BGMWin)));
    assert_eq!(event_sound(&GameEvent::WinLast), Some(AudioEvent::Play(AudioKind::BGMWin)));
    assert_eq!(event_sound(&GameEvent::Lose), Some(AudioEvent::Play(AudioKind::BGMLose)));
    assert_eq!(event_sound(&GameEvent::EnemyEncountered(Enemy::Boss)), None);
}
