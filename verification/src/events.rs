//! Game events and the battle rules: how skills hit, heal and cost, and how
//! a battle turn is decided.
use vstd::prelude::*;
use crate::actions::{movement_keys_forgotten, Key, KeyboardInput, PlayerActions};
use crate::audio::{AudioEvent, AudioKind};
use crate::chance::random_range;
use crate::character_status::{
    after_exp, clamp, clamp_i32, healed, level_in_range, level_is_in_range, leveled, CharacterStatus, Skill,
};
use crate::enemies::{enemy_name_string, created_enemy, enemy_level, enemy_name, level, level_roll_bound, EnemyData};
use crate::inventory::skills_after;
use crate::map::{Field, GameMap, Position};
use crate::effects::{effect_of, has_effect, skill_has_effect, skill_to_effect, EffectEvent};
use crate::enemies::Enemy;
use crate::inventory::{item_text, Inventory, Item};
use crate::state::{AppState, Player, PlayerBattleState};

verus! {

/// Something that happened on the map or in battle.
#[derive(Clone, Copy, PartialEq, Eq, Structural, Debug)]
pub enum GameEvent {
    /// An enemy was met.
    EnemyEncountered(Enemy),
    /// A town was reached; it holds the item, and says whether it was visited before.
    TownArrived(Item, bool),
    /// A battle was won; says whether the player gained a level.
    Win(bool),
    /// A battle was lost.
    Lose,
    /// The boss was beaten.
    WinLast,
}

/// The event whose message is shown.
#[derive(Clone, Copy, PartialEq, Eq, Structural, Debug, Default)]
pub struct RunState {
    pub event: Option<GameEvent>,
}

/// Division rounding toward zero, as the game's integer arithmetic does.
pub open spec fn tdiv(a: int, d: int) -> int {
    if a >= 0 {
        a / d
    } else {
        -((-a) / d)
    }
}

/// The power of a spell of level `lv` (0 to 3).
pub open spec fn spell_power(lv: int) -> int {
    if lv == 1 {
        1
    } else if lv == 2 {
        3
    } else if lv == 3 {
        6
    } else {
        0
    }
}

/// Skills the game can use: spells must be made from spell items, fire and
/// ice have levels 0 to 3, and healing's power must fit in 32 bits.
pub open spec fn skill_usable(skill: Skill) -> bool {
    match skill {
        Skill::Spell(item) => match item {
            Item::SpellHeal(lv) => lv * lv * 50 <= u32::MAX,
            Item::SpellFire(lv) => lv <= 3,
            Item::SpellIce(lv) => lv <= 3,
            _ => false,
        },
        _ => true,
    }
}

/// What a skill does when `own` uses it on `other`:
/// (attack, defence, healing, magic point cost).
pub open spec fn skill_params(own: CharacterStatus, other: CharacterStatus, skill: Skill) -> (int, int, int, int) {
    match skill {
        Skill::Sword => (tdiv(own.attack as int, 2), other.defence as int, 0, 0),
        Skill::Spell(item) => match item {
            Item::SpellHeal(lv) => (0, other.defence as int, ((lv * lv * 50) as i32) as int, 10 * lv),
            Item::SpellFire(lv) => (spell_power(lv as int) * 20, other.defence as int, 0, 25 * lv),
            Item::SpellIce(lv) => (spell_power(lv as int) * 15, 1, 0, 25 * lv),
            _ => (0, 0, 0, 0),
        },
        Skill::Arrow => (tdiv(own.attack as int, 2), tdiv(other.defence as int, 4), 0, 0),
        Skill::Wind => (tdiv(own.attack as int, 2), tdiv(other.defence as int, 2), 0, 0),
        Skill::Death => (tdiv(own.attack as int, 2), other.defence as int, 0, 0),
    }
}

/// The attack of fire and ice spells: fire hits for 20, 60 and 120 at
/// levels 1, 2 and 3, ice for 15, 45 and 90, and a level-0 spell for
/// nothing; so a higher level always hits harder, whoever casts it on whom.
/// Both cost 25 magic points per level, and neither heals.
pub proof fn lemma_spell_attack(own: CharacterStatus, other: CharacterStatus, lv: u32, lv2: u32)
    ensures
        skill_params(own, other, Skill::Spell(Item::SpellFire(0))).0 == 0,
        skill_params(own, other, Skill::Spell(Item::SpellFire(1))).0 == 20,
        skill_params(own, other, Skill::Spell(Item::SpellFire(2))).0 == 60,
        skill_params(own, other, Skill::Spell(Item::SpellFire(3))).0 == 120,
        skill_params(own, other, Skill::Spell(Item::SpellIce(0))).0 == 0,
        skill_params(own, other, Skill::Spell(Item::SpellIce(1))).0 == 15,
        skill_params(own, other, Skill::Spell(Item::SpellIce(2))).0 == 45,
        skill_params(own, other, Skill::Spell(Item::SpellIce(3))).0 == 90,
        lv < lv2 <= 3 ==> skill_params(own, other, Skill::Spell(Item::SpellFire(lv))).0
            < skill_params(own, other, Skill::Spell(Item::SpellFire(lv2))).0,
        lv < lv2 <= 3 ==> skill_params(own, other, Skill::Spell(Item::SpellIce(lv))).0
            < skill_params(own, other, Skill::Spell(Item::SpellIce(lv2))).0,
        skill_params(own, other, Skill::Spell(Item::SpellFire(lv))).3 == 25 * lv,
        skill_params(own, other, Skill::Spell(Item::SpellIce(lv))).3 == 25 * lv,
        skill_params(own, other, Skill::Spell(Item::SpellFire(lv))).2 == 0,
        skill_params(own, other, Skill::Spell(Item::SpellIce(lv))).2 == 0,
{
}

/// What a skill does when `own` uses it on `other`:
/// (attack, defence, healing, magic point cost).
pub fn skill2param(own_status: &CharacterStatus, other_status: &CharacterStatus, skill: Skill) -> (r: (i32, i32, i32, i32))
    requires
        skill_usable(skill),
    ensures
        (r.0 as int, r.1 as int, r.2 as int, r.3 as int) == skill_params(*own_status, *other_status, skill),
{
    match skill {
        Skill::Sword => (own_status.attack / 2, other_status.defence, 0, 0),
        Skill::Spell(item) => match item {
            Item::SpellHeal(lv) => {
                assert(lv <= 9268) by (nonlinear_arith)
                    requires
                        lv * lv * 50 <= u32::MAX,
                ;
                (0, other_status.defence, (lv * lv * 50) as i32, (10 * lv) as i32)
            },
            Item::SpellFire(lv) => {
                let power: i32 = if lv == 1 { 1 } else if lv == 2 { 3 } else if lv == 3 { 6 } else { 0 };
                (power * 20, other_status.defence, 0, (25 * lv) as i32)
            },
            Item::SpellIce(lv) => {
                let power: i32 = if lv == 1 { 1 } else if lv == 2 { 3 } else if lv == 3 { 6 } else { 0 };
                (power * 15, 1, 0, (25 * lv) as i32)
            },
            _ => (0, 0, 0, 0),
        },
        Skill::Arrow => (own_status.attack / 2, other_status.defence / 4, 0, 0),
        Skill::Wind => (own_status.attack / 2, other_status.defence / 2, 0, 0),
        Skill::Death => (own_status.attack / 2, other_status.defence, 0, 0),
    }
}

/// The outcome of `own` using `skill` on `other`, given the two rolls the
/// attack draws: `roll_a` from `0..attack` and `roll_d` from `0..defence`.
/// Without enough magic points nothing happens. Otherwise the cost is paid;
/// a healing skill heals `own` up to its maximum; any other skill deals
/// `attack + roll_a - roll_d` damage, limited to `[1, 999]`, and leaves
/// `other` with hit points in `[0, 999]`. The number is the healing, the
/// damage, or 0.
pub open spec fn attack_outcome(
    own: CharacterStatus,
    other: CharacterStatus,
    skill: Skill,
    roll_a: int,
    roll_d: int,
) -> (CharacterStatus, CharacterStatus, int) {
    let p = skill_params(own, other, skill);
    if (own.mp_current as int) < p.3 {
        (own, other, 0)
    } else {
        let paid = CharacterStatus { mp_current: clamp(own.mp_current - p.3, 0, 999) as i32, ..own };
        if p.2 > 0 {
            (
                CharacterStatus {
                    hp_current: clamp(own.hp_current + p.2, 1, own.hp_max as int) as i32,
                    ..paid
                },
                other,
                p.2,
            )
        } else {
            let dmg = clamp(p.0 + roll_a - roll_d, 1, 999);
            (paid, CharacterStatus { hp_current: clamp(other.hp_current - dmg, 0, 999) as i32, ..other }, dmg)
        }
    }
}

/// Whether the rolls are ones the attack can draw.
pub open spec fn rolls_fit(own: CharacterStatus, other: CharacterStatus, skill: Skill, roll_a: int, roll_d: int) -> bool {
    let p = skill_params(own, other, skill);
    (own.mp_current as int) < p.3 || p.2 > 0 || (0 <= roll_a < p.0 && 0 <= roll_d < p.1)
}

/// The inputs on which an attack runs without failing, whatever it rolls:
/// the skill is usable; a heal has a positive maximum to heal to and does not
/// overflow; a damaging skill has positive attack and defence to roll from,
/// and the target's hit points can take 999 damage.
pub open spec fn attack_safe(own: CharacterStatus, other: CharacterStatus, skill: Skill) -> bool {
    let p = skill_params(own, other, skill);
    &&& skill_usable(skill)
    &&& (own.mp_current as int) >= p.3 ==> {
        &&& p.2 > 0 ==> own.hp_max >= 1 && own.hp_current + p.2 <= i32::MAX
        &&& p.2 <= 0 ==> p.0 > 0 && p.1 > 0 && other.hp_current >= i32::MIN + 999
    }
}

/// Whether the game can use `skill`.
pub fn skill_is_usable(skill: Skill) -> (r: bool)
    ensures
        r == skill_usable(skill),
{
    match skill {
        Skill::Spell(item) => match item {
            Item::SpellHeal(lv) => {
                let l = lv as u128;
                assert(l * l * 50 < 0x1_0000_0000_0000_0000_00u128) by (nonlinear_arith)
                    requires
                        l <= 0xffff_ffff,
                ;
                l * l * 50 <= 4294967295u128
            },
            Item::SpellFire(lv) => lv <= 3,
            Item::SpellIce(lv) => lv <= 3,
            _ => false,
        },
        _ => true,
    }
}

/// Whether `own` can use `skill` on `other` without failing.
pub fn attack_is_safe(own: &CharacterStatus, other: &CharacterStatus, skill: Skill) -> (r: bool)
    ensures
        r == attack_safe(*own, *other, skill),
{
    if !skill_is_usable(skill) {
        return false;
    }
    let (attack, defence, heal, mp) = skill2param(own, other, skill);
    if own.mp_current < mp {
        return true;
    }
    if heal > 0 {
        own.hp_max >= 1 && (own.hp_current as i64) + (heal as i64) <= 2147483647i64
    } else {
        attack > 0 && defence > 0 && other.hp_current >= -2147483648i32 + 999
    }
}

/// `own` uses `skill` on `other` with the given rolls; returns the damage or
/// healing done, or 0 when the magic points do not suffice.
pub fn attack_with_rolls(
    own_status: &mut CharacterStatus,
    other_status: &mut CharacterStatus,
    skill: Skill,
    roll_a: i32,
    roll_d: i32,
) -> (r: i32)
    requires
        attack_safe(*old(own_status), *old(other_status), skill),
        rolls_fit(*old(own_status), *old(other_status), skill, roll_a as int, roll_d as int),
    ensures
        (*final(own_status), *final(other_status), r as int) == attack_outcome(
            *old(own_status),
            *old(other_status),
            skill,
            roll_a as int,
            roll_d as int,
        ),
{
    let (attack, _defence, heal, mp) = skill2param(own_status, other_status, skill);
    if own_status.mp_current < mp {
        0
    } else {
        own_status.mp_current = clamp_i32(own_status.mp_current - mp, 0, 999);
        if heal > 0 {
            own_status.hp_current = clamp_i32(own_status.hp_current + heal, 1, own_status.hp_max);
            heal
        } else {
            let dmg = clamp_i32(attack + roll_a - roll_d, 1, 999);
            other_status.hp_current = clamp_i32(other_status.hp_current - dmg, 0, 999);
            dmg
        }
    }
}

/// `own` uses `skill` on `other`; a damaging skill draws its two rolls at
/// random. Returns the damage or healing done, or 0 when the magic points do
/// not suffice.
pub fn attack(own_status: &mut CharacterStatus, other_status: &mut CharacterStatus, skill: Skill) -> (r: i32)
    requires
        attack_safe(*old(own_status), *old(other_status), skill),
    ensures
        exists|roll_a: int, roll_d: int|
            {
                &&& rolls_fit(*old(own_status), *old(other_status), skill, roll_a, roll_d)
                &&& (*final(own_status), *final(other_status), r as int) == attack_outcome(
                    *old(own_status),
                    *old(other_status),
                    skill,
                    roll_a,
                    roll_d,
                )
            },
{
    let (attack, defence, heal, mp) = skill2param(own_status, other_status, skill);
    let mut roll_a: i32 = 0;
    let mut roll_d: i32 = 0;
    if own_status.mp_current >= mp && heal <= 0 {
        roll_a = random_range(0, attack);
        roll_d = random_range(0, defence);
    }
    attack_with_rolls(own_status, other_status, skill, roll_a, roll_d)
}

/// Whatever the rolls, an attack either changes nothing for lack of magic
/// points, or heals its user without passing the maximum, or deals between
/// 1 and 999 damage and leaves the target with hit points in `[0, 999]`;
/// the cost leaves the user's magic points in `[0, 999]`, and nothing else
/// about either character changes.
pub proof fn lemma_attack_outcome(own: CharacterStatus, other: CharacterStatus, skill: Skill, roll_a: int, roll_d: int)
    requires
        attack_safe(own, other, skill),
    ensures
        ({
            let (o, t, n) = attack_outcome(own, other, skill, roll_a, roll_d);
            let p = skill_params(own, other, skill);
            &&& (own.mp_current as int) < p.3 ==> o == own && t == other && n == 0
            &&& (own.mp_current as int) >= p.3 ==> 0 <= o.mp_current <= 999
            &&& (own.mp_current as int) >= p.3 && p.2 > 0 ==> {
                &&& 1 <= o.hp_current <= o.hp_max
                &&& t == other
                &&& n == p.2
            }
            &&& (own.mp_current as int) >= p.3 && p.2 <= 0 ==> {
                &&& 1 <= n <= 999
                &&& 0 <= t.hp_current <= 999
                &&& t.hp_current == clamp(other.hp_current - n, 0, 999)
                &&& o.hp_current == own.hp_current
            }
            &&& o.name == own.name && o.lv == own.lv && o.exp == own.exp && o.hp_max == own.hp_max
            &&& o.mp_max == own.mp_max && o.attack == own.attack && o.defence == own.defence
            &&& t.name == other.name && t.lv == other.lv && t.exp == other.exp && t.hp_max == other.hp_max
            &&& t.mp_current == other.mp_current && t.mp_max == other.mp_max
            &&& t.attack == other.attack && t.defence == other.defence
        }),
{
}

/// What a battle turn asks of the rest of the game: an effect to show, and
/// a scene to move to.
#[derive(Clone, Copy, PartialEq, Eq, Structural, Debug)]
pub struct BattleStep {
    pub effect: Option<EffectEvent>,
    pub next_state: Option<AppState>,
}

/// The player's state before the enemy strikes back in the defence phase:
/// a beaten enemy other than the boss gives a tenth of its maximum hit points
/// as experience.
pub open spec fn before_reply(
    p: CharacterStatus,
    items: Seq<Item>,
    e: CharacterStatus,
    e_kind: Enemy,
    bs: PlayerBattleState,
    rs: RunState,
) -> (CharacterStatus, PlayerBattleState, RunState, Option<AppState>) {
    if e.hp_current <= 0 {
        if e_kind == Enemy::Boss {
            (p, PlayerBattleState::Select, RunState { event: Some(GameEvent::WinLast) }, Some(AppState::InGameEvent))
        } else {
            let (gained, level_up) = after_exp(p, tdiv(e.hp_max as int, 10), items);
            (gained, PlayerBattleState::Select, RunState { event: Some(GameEvent::Win(level_up)) }, Some(AppState::InGameEvent))
        }
    } else {
        (p, bs, rs, None)
    }
}

/// One step of a battle, given the rolls of the attack made in it:
/// - in the attack phase the player uses the selected skill on the enemy;
/// - in the defence phase a beaten enemy ends the battle (won, or the game
///   won against the boss), and then the enemy strikes back;
/// - while choosing, a player without hit points loses the battle.
/// Returns the player, the battle phase, the enemy, the event, and the step.
pub open spec fn battle_outcome(
    p: CharacterStatus,
    items: Seq<Item>,
    player_skill: Skill,
    bs: PlayerBattleState,
    e: CharacterStatus,
    e_skill: Skill,
    e_kind: Enemy,
    rs: RunState,
    roll_a: int,
    roll_d: int,
) -> (CharacterStatus, PlayerBattleState, CharacterStatus, RunState, BattleStep) {
    match bs {
        PlayerBattleState::Attack => {
            let (p1, e1, d) = attack_outcome(p, e, player_skill, roll_a, roll_d);
            (
                p1,
                bs,
                e1,
                rs,
                BattleStep {
                    effect: Some(EffectEvent { kind: effect_of(player_skill), damage_or_heal: d as i32, is_player_attack: true }),
                    next_state: None,
                },
            )
        },
        PlayerBattleState::Defense => {
            let (p1, bs1, rs1, ns) = before_reply(p, items, e, e_kind, bs, rs);
            let (e2, p2, d) = attack_outcome(e, p1, e_skill, roll_a, roll_d);
            (
                p2,
                bs1,
                e2,
                rs1,
                BattleStep {
                    effect: Some(EffectEvent { kind: effect_of(e_skill), damage_or_heal: d as i32, is_player_attack: false }),
                    next_state: ns,
                },
            )
        },
        PlayerBattleState::Select => {
            if p.hp_current <= 0 {
                (p, bs, e, RunState { event: Some(GameEvent::Lose) }, BattleStep { effect: None, next_state: Some(AppState::InGameEvent) })
            } else {
                (p, bs, e, rs, BattleStep { effect: None, next_state: None })
            }
        },
    }
}

/// Whether the rolls are ones the step's attack can draw.
pub open spec fn battle_rolls_fit(
    p: CharacterStatus,
    items: Seq<Item>,
    player_skill: Skill,
    bs: PlayerBattleState,
    e: CharacterStatus,
    e_skill: Skill,
    e_kind: Enemy,
    rs: RunState,
    roll_a: int,
    roll_d: int,
) -> bool {
    match bs {
        PlayerBattleState::Attack => rolls_fit(p, e, player_skill, roll_a, roll_d),
        PlayerBattleState::Defense => rolls_fit(e, before_reply(p, items, e, e_kind, bs, rs).0, e_skill, roll_a, roll_d),
        PlayerBattleState::Select => true,
    }
}

/// The inputs on which a battle step runs without failing: the attacking
/// side's skill has an effect and its attack is safe, the selection points at
/// a skill when the player attacks, and the experience gained fits in 32 bits.
pub open spec fn battle_safe(
    p: CharacterStatus,
    inventory: Inventory,
    bs: PlayerBattleState,
    e: CharacterStatus,
    e_skill: Skill,
    e_kind: Enemy,
    rs: RunState,
) -> bool {
    match bs {
        PlayerBattleState::Attack => {
            &&& inventory.selected_skill_index < inventory.skills.len()
            &&& has_effect(inventory.skills@[inventory.selected_skill_index as int])
            &&& attack_safe(p, e, inventory.skills@[inventory.selected_skill_index as int])
        },
        PlayerBattleState::Defense => {
            &&& has_effect(e_skill)
            &&& (e.hp_current <= 0 && e_kind != Enemy::Boss) ==> i32::MIN <= p.exp + tdiv(e.hp_max as int, 10) <= i32::MAX
            &&& attack_safe(e, before_reply(p, inventory.items@, e, e_kind, bs, rs).0, e_skill)
        },
        PlayerBattleState::Select => true,
    }
}

/// The skill the player attacks with.
pub open spec fn selected_skill(inventory: Inventory) -> Skill {
    inventory.skills@[inventory.selected_skill_index as int]
}

/// One step of a battle between the player and an enemy.
pub fn battle_events(
    player_status: &mut CharacterStatus,
    inventory: &Inventory,
    player: &mut Player,
    enemy_status: &mut CharacterStatus,
    skill: Skill,
    enemy: Enemy,
    runstate: &mut RunState,
) -> (r: BattleStep)
    requires
        battle_safe(*old(player_status), *inventory, old(player).battle_state, *old(enemy_status), skill, enemy, *old(runstate)),
    ensures
        exists|roll_a: int, roll_d: int|
            {
                &&& battle_rolls_fit(*old(player_status), inventory.items@, selected_skill(*inventory),
                    old(player).battle_state, *old(enemy_status), skill, enemy, *old(runstate), roll_a, roll_d)
                &&& (*final(player_status), final(player).battle_state, *final(enemy_status), *final(runstate), r)
                    == battle_outcome(*old(player_status), inventory.items@, selected_skill(*inventory),
                    old(player).battle_state, *old(enemy_status), skill, enemy, *old(runstate), roll_a, roll_d)
            },
{
    match player.battle_state {
        PlayerBattleState::Attack => {
            let player_skill = inventory.skill();
            let ghost p0 = *player_status;
            let ghost e0 = *enemy_status;
            let dmg_or_heal = attack(player_status, enemy_status, player_skill);
            let r = BattleStep {
                effect: Some(EffectEvent { kind: skill_to_effect(player_skill), damage_or_heal: dmg_or_heal, is_player_attack: true }),
                next_state: None,
            };
            proof {
                let (ra, rd) = choose|ra: int, rd: int|
                    {
                        &&& rolls_fit(p0, e0, player_skill, ra, rd)
                        &&& (*player_status, *enemy_status, dmg_or_heal as int) == attack_outcome(p0, e0, player_skill, ra, rd)
                    };
                assert(battle_rolls_fit(p0, inventory.items@, selected_skill(*inventory), PlayerBattleState::Attack, e0, skill, enemy, *runstate, ra, rd));
                assert((*player_status, player.battle_state, *enemy_status, *runstate, r) == battle_outcome(
                    p0, inventory.items@, selected_skill(*inventory), PlayerBattleState::Attack, e0, skill, enemy, *runstate, ra, rd));
            }
            r
        },
        PlayerBattleState::Defense => {
            let ghost p0 = *player_status;
            let ghost e0 = *enemy_status;
            let ghost rs0 = *runstate;
            let mut next_state: Option<AppState> = None;
            if enemy_status.hp_current <= 0 {
                if enemy == Enemy::Boss {
                    runstate.event = Some(GameEvent::WinLast);
                    next_state = Some(AppState::InGameEvent);
                } else {
                    let level_up = player_status.add_exp(enemy_status.hp_max / 10, inventory);
                    runstate.event = Some(GameEvent::Win(level_up));
                    next_state = Some(AppState::InGameEvent);
                }
                player.battle_state = PlayerBattleState::Select;
            }
            let ghost p1 = *player_status;
            assert((p1, player.battle_state, *runstate, next_state) == before_reply(
                p0, inventory.items@, e0, enemy, PlayerBattleState::Defense, rs0));
            let dmg = attack(enemy_status, player_status, skill);
            let r = BattleStep {
                effect: Some(EffectEvent { kind: skill_to_effect(skill), damage_or_heal: dmg, is_player_attack: false }),
                next_state,
            };
            proof {
                let (ra, rd) = choose|ra: int, rd: int|
                    {
                        &&& rolls_fit(e0, p1, skill, ra, rd)
                        &&& (*enemy_status, *player_status, dmg as int) == attack_outcome(e0, p1, skill, ra, rd)
                    };
                assert(battle_rolls_fit(p0, inventory.items@, selected_skill(*inventory), PlayerBattleState::Defense, e0, skill, enemy, rs0, ra, rd));
                assert((*player_status, player.battle_state, *enemy_status, *runstate, r) == battle_outcome(
                    p0, inventory.items@, selected_skill(*inventory), PlayerBattleState::Defense, e0, skill, enemy, rs0, ra, rd));
            }
            r
        },
        PlayerBattleState::Select => {
            let ghost rs0 = *runstate;
            let r = if player_status.hp_current <= 0 {
                runstate.event = Some(GameEvent::Lose);
                player.battle_state = PlayerBattleState::Select;
                BattleStep { effect: None, next_state: Some(AppState::InGameEvent) }
            } else {
                BattleStep { effect: None, next_state: None }
            };
            proof {
                assert(battle_rolls_fit(*player_status, inventory.items@, selected_skill(*inventory), PlayerBattleState::Select, *enemy_status, skill, enemy, rs0, 0, 0));
            }
            r
        },
    }
}

/// Whether a battle step can run without failing.
pub fn battle_step_is_safe(
    player_status: &CharacterStatus,
    inventory: &Inventory,
    player: &Player,
    enemy_status: &CharacterStatus,
    skill: Skill,
    enemy: Enemy,
    runstate: &RunState,
) -> (r: bool)
    ensures
        r == battle_safe(*player_status, *inventory, player.battle_state, *enemy_status, skill, enemy, *runstate),
{
    match player.battle_state {
        PlayerBattleState::Attack => {
            if inventory.selected_skill_index >= inventory.skills.len() {
                return false;
            }
            let player_skill = inventory.skills[inventory.selected_skill_index];
            skill_has_effect(player_skill) && attack_is_safe(player_status, enemy_status, player_skill)
        },
        PlayerBattleState::Defense => {
            if !skill_has_effect(skill) {
                return false;
            }
            if enemy_status.hp_current <= 0 && enemy != Enemy::Boss {
                let gain = enemy_status.hp_max / 10;
                let total = (player_status.exp as i64) + (gain as i64);
                if total < -2147483648i64 || total > 2147483647i64 {
                    return false;
                }
                let mut gained = CharacterStatus {
                    name: String::new(),
                    lv: player_status.lv,
                    exp: player_status.exp,
                    hp_current: player_status.hp_current,
                    hp_max: player_status.hp_max,
                    mp_current: player_status.mp_current,
                    mp_max: player_status.mp_max,
                    attack: player_status.attack,
                    defence: player_status.defence,
                };
                gained.add_exp(gain, inventory);
                attack_is_safe(enemy_status, &gained, skill)
            } else {
                attack_is_safe(enemy_status, player_status, skill)
            }
        },
        PlayerBattleState::Select => true,
    }
}

/// Whether `explore_events` can handle `event` at `position`: it is an
/// encounter or a town arrival, and a first arrival is at a town of the map
/// while the player's level keeps the statistics in 32 bits.
pub fn explore_event_is_safe(event: &GameEvent, map: &GameMap, position: &Position, player_status: &CharacterStatus) -> (r: bool)
    ensures
        r == (explore_event_handled(*event) && (*event matches GameEvent::TownArrived(_, visited) ==> {
            &&& visited || (map.field_at(position.x as int, position.y as int) is Some
                && map.field_at(position.x as int, position.y as int).unwrap() is Town)
            &&& level_in_range(player_status.lv as int)
        })),
{
    match event {
        GameEvent::EnemyEncountered(_) => true,
        GameEvent::TownArrived(_, visited) => {
            let at_town = *visited || (map.has_cell(position) && match map.position_to_field(position) {
                Field::Town { .. } => true,
                _ => false,
            });
            at_town && level_is_in_range(player_status.lv)
        },
        _ => false,
    }
}

/// Whether a debugging shortcut of the battle used `k`, so that it is forgotten.
pub open spec fn debug_key_used(before: KeyboardInput, k: Key) -> bool {
    (k == Key::B || k == Key::E || k == Key::I) && before.just_pressed@.contains(k)
}

/// `after` is `before` with the used debugging keys forgotten.
pub open spec fn debug_keys_forgotten(before: KeyboardInput, after: KeyboardInput) -> bool {
    &&& forall|k: Key| #![auto] after.pressed@.contains(k) <==> (before.pressed@.contains(k) && !debug_key_used(before, k))
    &&& forall|k: Key| #![auto] after.just_pressed@.contains(k) <==> (before.just_pressed@.contains(k) && !debug_key_used(before, k))
    &&& forall|k: Key| #![auto] after.just_released@.contains(k) <==> (before.just_released@.contains(k) && !debug_key_used(before, k))
}

/// The debugging shortcuts in battle: B leaves the battle for the map, E
/// shows a wind effect of 10 as the player's, and I gives the player a
/// level-1 fire spell. Each key is forgotten once used. Returns the scene to
/// move to and the effect to show.
pub fn battle_debug_input(keyboard_input: &mut KeyboardInput, inventory: &mut Inventory) -> (r: (Option<AppState>, Option<EffectEvent>))
    ensures
        r.0 == (if old(keyboard_input).just_pressed@.contains(Key::B) { Some(AppState::InGameExplore) } else { None }),
        r.1 == (if old(keyboard_input).just_pressed@.contains(Key::E) {
            Some(EffectEvent { kind: effect_of(Skill::Wind), damage_or_heal: 10, is_player_attack: true })
        } else {
            None
        }),
        old(keyboard_input).just_pressed@.contains(Key::I) ==> {
            &&& final(inventory).items@ == old(inventory).items@.push(Item::SpellFire(1))
            &&& final(inventory).skills@ == skills_after(old(inventory).skills@, Item::SpellFire(1))
        },
        !old(keyboard_input).just_pressed@.contains(Key::I) ==> {
            &&& final(inventory).items@ == old(inventory).items@
            &&& final(inventory).skills@ == old(inventory).skills@
        },
        final(inventory).selected_skill_index == old(inventory).selected_skill_index,
        debug_keys_forgotten(*old(keyboard_input), *final(keyboard_input)),
{
    let ghost before = *keyboard_input;
    let mut state: Option<AppState> = None;
    let mut effect: Option<EffectEvent> = None;
    if keyboard_input.just_pressed(Key::B) {
        state = Some(AppState::InGameExplore);
        keyboard_input.reset(Key::B);
    }
    let ghost after_b = *keyboard_input;
    if keyboard_input.just_pressed(Key::E) {
        effect = Some(EffectEvent { kind: skill_to_effect(Skill::Wind), damage_or_heal: 10, is_player_attack: true });
        keyboard_input.reset(Key::E);
    }
    let ghost after_e = *keyboard_input;
    if keyboard_input.just_pressed(Key::I) {
        inventory.add_item(Item::SpellFire(1));
        keyboard_input.reset(Key::I);
    }
    assert(after_b.just_pressed@.contains(Key::E) == before.just_pressed@.contains(Key::E));
    assert(after_e.just_pressed@.contains(Key::I) == before.just_pressed@.contains(Key::I));
    (state, effect)
}

/// Events the map reacts to: meeting an enemy and reaching a town.
pub open spec fn explore_event_handled(e: GameEvent) -> bool {
    e is EnemyEncountered || e is TownArrived
}

/// Handles an event met while exploring: an encounter is announced; reaching
/// a town for the first time gives its item (a spell is learned, the town is
/// marked visited, and the statistics are recomputed with the new item), and
/// every town heals fully. Either way the event screen comes next.
pub fn explore_events(
    event: &GameEvent,
    map: &mut GameMap,
    position: &Position,
    player_status: &mut CharacterStatus,
    inventory: &mut Inventory,
    runstate: &mut RunState,
) -> (r: AppState)
    requires
        explore_event_handled(*event),
        *event matches GameEvent::TownArrived(_, visited) ==> {
            &&& visited || (old(map).field_at(position.x as int, position.y as int) is Some
                && old(map).field_at(position.x as int, position.y as int).unwrap() is Town)
            &&& level_in_range(old(player_status).lv as int)
        },
    ensures
        r == AppState::InGameEvent,
        final(runstate).event == Some(*event),
        event is EnemyEncountered ==> {
            &&& *final(player_status) == *old(player_status)
            &&& final(inventory).items@ == old(inventory).items@
            &&& final(inventory).skills@ == old(inventory).skills@
            &&& final(inventory).selected_skill_index == old(inventory).selected_skill_index
            &&& final(map).fields@ == old(map).fields@
        },
        *event matches GameEvent::TownArrived(item, visited) ==> {
            &&& final(inventory).selected_skill_index == old(inventory).selected_skill_index
            &&& visited ==> {
                &&& final(inventory).items@ == old(inventory).items@
                &&& final(inventory).skills@ == old(inventory).skills@
                &&& final(map).fields@ == old(map).fields@
                &&& *final(player_status) == healed(*old(player_status))
            }
            &&& !visited ==> {
                &&& final(inventory).items@ == old(inventory).items@.push(item)
                &&& final(inventory).skills@ == skills_after(old(inventory).skills@, item)
                &&& final(map).field_at(position.x as int, position.y as int) == Some(Field::Town { item: old(map).field_at(position.x as int, position.y as int).unwrap()->item, visited: true })
                &&& forall|x: int, y: int| #![auto] (x, y) != (position.x as int, position.y as int) ==> final(map).field_at(x, y) == old(map).field_at(x, y)
                &&& *final(player_status) == healed(leveled(*old(player_status), old(player_status).lv as int, final(inventory).items@))
            }
        },
        final(map).width == old(map).width,
        final(map).height == old(map).height,
        final(map).tile_size == old(map).tile_size,
        final(map).collisions@ == old(map).collisions@,
        final(map).blinks_on_mini_tiles@ == old(map).blinks_on_mini_tiles@,
        final(map).blink_status == old(map).blink_status,
        final(map).tiles@ == old(map).tiles@,
        final(map).mini_tiles@ == old(map).mini_tiles@,
{
    match event {
        GameEvent::TownArrived(item, visited) => {
            if !*visited {
                inventory.add_item(*item);
                map.got_item((position.x, position.y));
                let current_lv = player_status.lv;
                player_status.level_up(current_lv, inventory);
            }
            player_status.heal2max();
            runstate.event = Some(GameEvent::TownArrived(*item, *visited));
            AppState::InGameEvent
        },
        GameEvent::EnemyEncountered(enemy) => {
            runstate.event = Some(GameEvent::EnemyEncountered(*enemy));
            AppState::InGameEvent
        },
        _ => {
            runstate.event = Some(*event);
            AppState::InGameEvent
        },
    }
}

/// The scene after the player dismisses an event's message: a battle after
/// an encounter, back to the map after a town or a won battle, and the title
/// menu after a lost battle or the final victory.
pub open spec fn state_after_event(e: GameEvent) -> AppState {
    match e {
        GameEvent::EnemyEncountered(_) => AppState::InGameBattle,
        GameEvent::TownArrived(_, _) => AppState::InGameExplore,
        GameEvent::Win(_) => AppState::InGameExplore,
        GameEvent::Lose => AppState::Menu,
        GameEvent::WinLast => AppState::Menu,
    }
}

/// On the event screen, any command dismisses the message: the next scene
/// follows from the event, and the movement keys and Return are forgotten.
pub fn update_events(actions: &PlayerActions, runstate: &RunState, keyboard_input: &mut KeyboardInput) -> (r: Option<AppState>)
    requires
        actions.action is Some ==> runstate.event is Some,
    ensures
        actions.action is None ==> r is None && *final(keyboard_input) == *old(keyboard_input),
        actions.action is Some ==> r == Some(state_after_event(runstate.event.unwrap())),
        actions.action is Some ==> movement_keys_forgotten(*old(keyboard_input), *final(keyboard_input)),
{
    if actions.action.is_none() {
        return None;
    }
    let next = match runstate.event {
        Some(GameEvent::EnemyEncountered(_)) => AppState::InGameBattle,
        Some(GameEvent::TownArrived(_, _)) => AppState::InGameExplore,
        Some(GameEvent::Win(_)) => AppState::InGameExplore,
        Some(GameEvent::Lose) => AppState::Menu,
        Some(GameEvent::WinLast) => AppState::Menu,
        None => AppState::Menu,
    };
    actions.reset_all(keyboard_input);
    Some(next)
}

/// Everything a battle starts with: the enemy of the player's field, its
/// statistics at its level, its skill, and the music to play.
pub struct BattleSetup {
    pub enemy: Enemy,
    pub enemy_status: CharacterStatus,
    pub enemy_skill: Skill,
    pub music: AudioEvent,
}

/// Sets up a battle against the enemy of the field at `position`, at a level
/// drawn for a player of level `player_lv`; the boss has its own music.
pub fn setup_battle(map: &GameMap, enemy_data: &EnemyData, position: &Position, player_lv: i32) -> (r: BattleSetup)
    requires
        map.field_at(position.x as int, position.y as int) is Some,
        enemy_data.status_of(map.field_at(position.x as int, position.y as int).unwrap()) is Some,
    ensures
        ({
            let s = enemy_data.status_of(map.field_at(position.x as int, position.y as int).unwrap()).unwrap();
            &&& r.enemy == s.name
            &&& r.enemy_skill == s.skl
            &&& r.enemy_status.name@ == enemy_name(s.name)
            &&& exists|roll: int| 0 <= roll < level_roll_bound(player_lv as int)
                && r.enemy_status == (CharacterStatus { name: r.enemy_status.name, ..created_enemy(s, #[trigger] enemy_level(s.name, roll)) })
            &&& r.music == (if s.name == Enemy::Boss {
                AudioEvent::Play(AudioKind::BGMBattleLast)
            } else {
                AudioEvent::Play(AudioKind::BGMBattle)
            })
        }),
{
    let map_field = map.position_to_field(position);
    let enemy = enemy_data.field_to_enemy(&map_field);
    let lv = level(player_lv, enemy);
    let enemy_status = enemy_data.create(&map_field, lv);
    let enemy_skill = enemy_data.field_to_enemy_skill(&map_field);
    let music = if enemy == Enemy::Boss {
        AudioEvent::Play(AudioKind::BGMBattleLast)
    } else {
        AudioEvent::Play(AudioKind::BGMBattle)
    };
    BattleSetup { enemy, enemy_status, enemy_skill, music }
}

/// Whenever a battle step ends the battle, the event screen has a message:
/// the step leaves an event in the run state.
pub proof fn lemma_battle_end_has_event(
    p: CharacterStatus,
    items: Seq<Item>,
    player_skill: Skill,
    bs: PlayerBattleState,
    e: CharacterStatus,
    e_skill: Skill,
    e_kind: Enemy,
    rs: RunState,
    roll_a: int,
    roll_d: int,
)
    ensures
        ({
            let (p1, bs1, e1, rs1, step) = battle_outcome(p, items, player_skill, bs, e, e_skill, e_kind, rs, roll_a, roll_d);
            &&& step.next_state is Some ==> step.next_state == Some(AppState::InGameEvent) && rs1.event is Some
            &&& step.next_state is Some ==> bs1 == PlayerBattleState::Select
            &&& step.next_state is None ==> rs1 == rs
        }),
{
}

/// How a battle ends: beating the boss wins the game, beating another enemy
/// wins the battle (reporting whether a level was gained), and running out
/// of hit points while choosing loses it.
pub proof fn lemma_battle_results(
    p: CharacterStatus,
    items: Seq<Item>,
    player_skill: Skill,
    e: CharacterStatus,
    e_skill: Skill,
    e_kind: Enemy,
    rs: RunState,
    roll_a: int,
    roll_d: int,
)
    ensures
        e.hp_current <= 0 && e_kind == Enemy::Boss ==> battle_outcome(p, items, player_skill,
            PlayerBattleState::Defense, e, e_skill, e_kind, rs, roll_a, roll_d).3.event == Some(GameEvent::WinLast),
        e.hp_current <= 0 && e_kind != Enemy::Boss ==> battle_outcome(p, items, player_skill,
            PlayerBattleState::Defense, e, e_skill, e_kind, rs, roll_a, roll_d).3.event == Some(GameEvent::Win(
            after_exp(p, tdiv(e.hp_max as int, 10), items).1)),
        p.hp_current <= 0 ==> battle_outcome(p, items, player_skill,
            PlayerBattleState::Select, e, e_skill, e_kind, rs, roll_a, roll_d).3.event == Some(GameEvent::Lose),
        p.hp_current > 0 ==> battle_outcome(p, items, player_skill,
            PlayerBattleState::Select, e, e_skill, e_kind, rs, roll_a, roll_d).4.next_state is None,
{
}

/// A town's item is received once: arriving at an unvisited town reports it
/// unvisited with its item; once the visit has marked it visited, as
/// `explore_events` does, arriving again reports it visited, and handling
/// that arrival gives nothing more. Whatever the encounter rolls, a town
/// always reports the arrival.
pub proof fn lemma_town_item_once(
    m1: GameMap,
    m2: GameMap,
    data: EnemyData,
    pos: Position,
    item: Item,
    roll1: bool,
    roll2: bool,
)
    requires
        m1.field_at(pos.x as int, pos.y as int) == Some(Field::Town { item, visited: false }),
        m2.field_at(pos.x as int, pos.y as int) == Some(Field::Town {
            item: m1.field_at(pos.x as int, pos.y as int).unwrap()->item,
            visited: true,
        }),
    ensures
        crate::explore::arrival(m1, data, pos, roll1) == Some(GameEvent::TownArrived(item, false)),
        crate::explore::arrival(m2, data, pos, roll2) == Some(GameEvent::TownArrived(item, true)),
{
}

/// The message shown for an event.
pub open spec fn event_text_of(e: GameEvent) -> Seq<char> {
    match e {
        GameEvent::EnemyEncountered(enemy) => "Battle!!!\n"@ + enemy_name(enemy) + " appeared.\n"@,
        GameEvent::TownArrived(item, visited) => if visited {
            "Town\nGet healed up your HP!\n"@
        } else {
            "Town\nGet healed up your HP!\nGet a "@ + item_text(item) + "!"@
        },
        GameEvent::Win(level_up) => if level_up {
            "You Win!\nLevel Up!\n"@
        } else {
            "You Win!\n"@
        },
        GameEvent::Lose => "You Lose!\n"@,
        GameEvent::WinLast => "You won the last battle!\nYou saved the kingdom!"@,
    }
}

/// The sound of the event screen: a chime for a town, the victory music for a
/// won battle or game, the defeat music for a lost one, and none for an encounter.
pub open spec fn event_sound_of(e: GameEvent) -> Option<AudioEvent> {
    match e {
        GameEvent::TownArrived(_, _) => Some(AudioEvent::Play(AudioKind::SETown)),
        GameEvent::Win(_) | GameEvent::WinLast => Some(AudioEvent::Play(AudioKind::BGMWin)),
        GameEvent::Lose => Some(AudioEvent::Play(AudioKind::BGMLose)),
        GameEvent::EnemyEncountered(_) => None,
    }
}

/// The sound to play when the event screen opens on `event`.
pub fn event_sound(event: &GameEvent) -> (r: Option<AudioEvent>)
    ensures
        r == event_sound_of(*event),
{
    match event {
        GameEvent::TownArrived(_, _) => Some(AudioEvent::Play(AudioKind::SETown)),
        GameEvent::Win(_) | GameEvent::WinLast => Some(AudioEvent::Play(AudioKind::BGMWin)),
        GameEvent::Lose => Some(AudioEvent::Play(AudioKind::BGMLose)),
        GameEvent::EnemyEncountered(_) => None,
    }
}

impl RunState {
    /// The message of the current event.
    pub fn event_text(&self) -> (r: String)
        requires
            self.event is Some,
        ensures
            r@ == event_text_of(self.event.unwrap()),
    {
        match self.event {
            Some(GameEvent::EnemyEncountered(enemy)) => {
                let mut r = String::from_str("Battle!!!\n");
                let name = enemy_name_string(enemy);
                r.append(name.as_str());
                r.append(" appeared.\n");
                r
            },
            Some(GameEvent::TownArrived(item, visited)) => {
                if visited {
                    String::from_str("Town\nGet healed up your HP!\n")
                } else {
                    let mut r = String::from_str("Town\nGet healed up your HP!\nGet a ");
                    let t = item.display_text();
                    r.append(t.as_str());
                    r.append("!");
                    r
                }
            },
            Some(GameEvent::Win(level_up)) => {
                if level_up {
                    String::from_str("You Win!\nLevel Up!\n")
                } else {
                    String::from_str("You Win!\n")
                }
            },
            Some(GameEvent::Lose) => String::from_str("You Lose!\n"),
            _ => String::from_str("You won the last battle!\nYou saved the kingdom!"),
        }
    }
}

} // verus!
