//! Battle effects: which animation a skill shows, how long it runs, which
//! sound it makes, and how the turn moves on when it ends.
use vstd::prelude::*;
use crate::audio::{AudioEvent, AudioKind};
use crate::character_status::Skill;
use crate::inventory::Item;
use crate::state::PlayerBattleState;

verus! {

/// The battle animations.
#[derive(Clone, Copy, PartialEq, Eq, Structural, Debug, Hash)]
pub enum EffectKind {
    Attack,
    Heal,
    Fire,
    Ice,
    Death,
    Arrow,
    Wind,
}

/// A request to show an effect with the damage or healing it caused.
#[derive(Clone, Copy, PartialEq, Eq, Structural, Debug)]
pub struct EffectEvent {
    pub kind: EffectKind,
    pub damage_or_heal: i32,
    pub is_player_attack: bool,
}

/// Whether a skill has an animation: every skill but a spell made from an
/// item that is no spell.
pub open spec fn has_effect(skill: Skill) -> bool {
    match skill {
        Skill::Spell(item) => match item {
            Item::SpellHeal(_) | Item::SpellFire(_) | Item::SpellIce(_) => true,
            _ => false,
        },
        _ => true,
    }
}

/// Whether a skill has an animation.
pub fn skill_has_effect(skill: Skill) -> (r: bool)
    ensures
        r == has_effect(skill),
{
    match skill {
        Skill::Spell(item) => match item {
            Item::SpellHeal(_) | Item::SpellFire(_) | Item::SpellIce(_) => true,
            _ => false,
        },
        _ => true,
    }
}

/// The animation of a skill.
pub open spec fn effect_of(skill: Skill) -> EffectKind
    recommends
        has_effect(skill),
{
    match skill {
        Skill::Sword => EffectKind::Attack,
        Skill::Wind => EffectKind::Wind,
        Skill::Arrow => EffectKind::Arrow,
        Skill::Death => EffectKind::Death,
        Skill::Spell(item) => match item {
            Item::SpellHeal(_) => EffectKind::Heal,
            Item::SpellFire(_) => EffectKind::Fire,
            _ => EffectKind::Ice,
        },
    }
}

/// The animation of a skill.
pub fn skill_to_effect(skill: Skill) -> (r: EffectKind)
    requires
        has_effect(skill),
    ensures
        r == effect_of(skill),
{
    match skill {
        Skill::Sword => EffectKind::Attack,
        Skill::Wind => EffectKind::Wind,
        Skill::Arrow => EffectKind::Arrow,
        Skill::Death => EffectKind::Death,
        Skill::Spell(item) => match item {
            Item::SpellHeal(_) => EffectKind::Heal,
            Item::SpellFire(_) => EffectKind::Fire,
            _ => EffectKind::Ice,
        },
    }
}

/// The number of frames of an animation.
pub open spec fn effect_frames(kind: EffectKind) -> int {
    match kind {
        EffectKind::Attack => 5,
        EffectKind::Arrow => 9,
        _ => 8,
    }
}

/// The number of frames of an animation; it runs a tenth of a second per frame.
pub fn get_length_for_effect(kind: &EffectKind) -> (r: i32)
    ensures
        r == effect_frames(*kind),
{
    match kind {
        EffectKind::Attack => 5,
        EffectKind::Heal => 8,
        EffectKind::Fire => 8,
        EffectKind::Ice => 8,
        EffectKind::Death => 8,
        EffectKind::Arrow => 9,
        EffectKind::Wind => 8,
    }
}

/// The sound an effect makes: the player's healing and attacks have their
/// own sounds; the enemy's attacks are silent.
pub fn effect_sound(event: &EffectEvent) -> (r: Option<AudioEvent>)
    ensures
        !event.is_player_attack ==> r is None,
        event.is_player_attack && event.kind == EffectKind::Heal ==> r == Some(AudioEvent::Play(AudioKind::SEHeal)),
        event.is_player_attack && event.kind != EffectKind::Heal ==> r == Some(AudioEvent::Play(AudioKind::SEAttack)),
{
    if event.is_player_attack {
        if event.kind == EffectKind::Heal {
            Some(AudioEvent::Play(AudioKind::SEHeal))
        } else {
            Some(AudioEvent::Play(AudioKind::SEAttack))
        }
    } else {
        None
    }
}

/// The turn after an attack animation ends: the player's attack is followed
/// by the enemy's, and the enemy's by the player's next choice.
pub open spec fn turn_after_effect(s: PlayerBattleState) -> PlayerBattleState {
    match s {
        PlayerBattleState::Attack => PlayerBattleState::Defense,
        PlayerBattleState::Defense => PlayerBattleState::Select,
        PlayerBattleState::Select => PlayerBattleState::Select,
    }
}

/// Moves the turn on when an attack animation ends.
pub fn finish_effect(state: &mut PlayerBattleState)
    ensures
        *final(state) == turn_after_effect(*old(state)),
{
    match *state {
        PlayerBattleState::Attack => *state = PlayerBattleState::Defense,
        PlayerBattleState::Defense => *state = PlayerBattleState::Select,
        PlayerBattleState::Select => {},
    }
}

/// A whole turn: after the player's attack and the enemy's reply, the player
/// chooses again.
pub proof fn lemma_turn_cycle()
    ensures
        turn_after_effect(turn_after_effect(PlayerBattleState::Attack)) == PlayerBattleState::Select,
        turn_after_effect(PlayerBattleState::Select) == PlayerBattleState::Select,
{
}

/// The next frame of a looping animation of `frames` frames.
pub fn next_frame(index: u32, frames: usize) -> (r: u32)
    requires
        frames > 0,
        frames <= u32::MAX,
    ensures
        r == (index + 1) % (frames as int),
{
    (((index as u64) + 1) % (frames as u64)) as u32
}

} // verus!
