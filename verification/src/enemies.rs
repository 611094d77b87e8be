//! The enemies, where they live, and how strong they are.
use vstd::prelude::*;
use crate::character_status::{CharacterStatus, Skill};
use crate::chance::random_range;
use crate::map::Field;
use crate::single::{level_scaled, level_scaled_exec};

verus! {

/// The kinds of enemy.
#[derive(Clone, Copy, PartialEq, Eq, Structural, Debug)]
pub enum Enemy {
    Goblin,
    Skeleton,
    Griffin,
    Boss,
}

impl Default for Enemy {
    fn default() -> (r: Self)
        ensures
            r == Enemy::Goblin,
    {
        Enemy::Goblin
    }
}

/// The name of an enemy as the game shows it.
pub open spec fn enemy_name(e: Enemy) -> Seq<char> {
    match e {
        Enemy::Goblin => "Goblin"@,
        Enemy::Skeleton => "Skeleton"@,
        Enemy::Griffin => "Griffin"@,
        Enemy::Boss => "Boss"@,
    }
}

/// The name of an enemy as the game shows it.
pub fn enemy_name_string(e: Enemy) -> (r: String)
    ensures
        r@ == enemy_name(e),
{
    match e {
        Enemy::Goblin => String::from_str("Goblin"),
        Enemy::Skeleton => String::from_str("Skeleton"),
        Enemy::Griffin => String::from_str("Griffin"),
        Enemy::Boss => String::from_str("Boss"),
    }
}

impl Enemy {
    /// The name of this enemy as the game shows it.
    pub fn display_text(&self) -> (r: String)
        ensures
            r@ == enemy_name(*self),
    {
        enemy_name_string(*self)
    }
}

/// What a kind of terrain breeds: the enemy, how rare it is (one encounter
/// in `rate` steps), its picture, its level-1 strength, and its skill.
#[derive(Clone, Copy, PartialEq, Eq, Structural, Debug)]
pub struct EnemyStatus {
    pub name: Enemy,
    pub rate: i32,
    pub img: usize,
    pub hp: i32,
    pub at: i32,
    pub df: i32,
    pub skl: Skill,
}

/// The enemy table: which terrain breeds which enemy.
pub struct EnemyData {
    pub data: Vec<(Field, EnemyStatus)>,
}

/// The first entry of `data` for the field `f`, if any.
pub open spec fn lookup(data: Seq<(Field, EnemyStatus)>, f: Field) -> Option<EnemyStatus>
    decreases data.len(),
{
    if data.len() == 0 {
        None
    } else if data[0].0 == f {
        Some(data[0].1)
    } else {
        lookup(data.drop_first(), f)
    }
}

/// The game's enemy table: goblins on grass, skeletons in forests, griffins
/// on mountains, and the boss in the castle.
pub open spec fn default_enemy_table() -> Seq<(Field, EnemyStatus)> {
    seq![
        (Field::Grass, EnemyStatus { name: Enemy::Goblin, rate: 20, img: 0, hp: 50, at: 10, df: 5, skl: Skill::Sword }),
        (Field::Forest, EnemyStatus { name: Enemy::Skeleton, rate: 10, img: 1, hp: 100, at: 20, df: 10, skl: Skill::Sword }),
        (Field::Mountain, EnemyStatus { name: Enemy::Griffin, rate: 5, img: 2, hp: 200, at: 40, df: 30, skl: Skill::Wind }),
        (Field::Castle, EnemyStatus { name: Enemy::Boss, rate: 1, img: 3, hp: 999, at: 99, df: 99, skl: Skill::Death }),
    ]
}

/// An enemy of the given status at level `level`: its strength scaled by
/// `1/2 + level/2` in single precision, without magic points.
pub open spec fn created_enemy(s: EnemyStatus, level: int) -> CharacterStatus {
    CharacterStatus {
        name: arbitrary(),
        lv: level as i32,
        exp: 0,
        hp_current: level_scaled(s.hp as int, level) as i32,
        hp_max: level_scaled(s.hp as int, level) as i32,
        mp_current: 0,
        mp_max: 0,
        attack: level_scaled(s.at as int, level) as i32,
        defence: level_scaled(s.df as int, level) as i32,
    }
}

/// The highest roll for an enemy's level: half the player's level, within `[1, 5]`.
pub open spec fn level_roll_bound(player_lv: int) -> int {
    if player_lv < 2 {
        1
    } else if player_lv / 2 > 5 {
        5
    } else {
        player_lv / 2
    }
}

/// The level of an enemy met by a player of level `player_lv`, given the
/// roll drawn from `0..level_roll_bound(player_lv)`: the boss is always
/// level 1, other enemies `1 + roll`.
pub open spec fn enemy_level(enemy: Enemy, roll: int) -> int {
    if enemy == Enemy::Boss {
        1
    } else {
        1 + roll
    }
}

impl EnemyData {
    /// The status of the enemy living on field `f`, if any lives there.
    pub open spec fn status_of(&self, f: Field) -> Option<EnemyStatus> {
        lookup(self.data@, f)
    }

    fn find(&self, map_field: &Field) -> (r: EnemyStatus)
        requires
            self.status_of(*map_field) is Some,
        ensures
            r == self.status_of(*map_field).unwrap(),
    {
        let n = self.data.len();
        let mut i: usize = 0;
        assert(self.data@.subrange(0, n as int) =~= self.data@);
        while i < n
            invariant
                n == self.data@.len(),
                0 <= i <= n,
                lookup(self.data@.subrange(i as int, n as int), *map_field) == self.status_of(*map_field),
            decreases n - i,
        {
            let ghost rest = self.data@.subrange(i as int, n as int);
            assert(rest.drop_first() =~= self.data@.subrange(i + 1, n as int));
            if self.data[i].0 == *map_field {
                return self.data[i].1;
            }
            i = i + 1;
        }
        assert(false);
        self.data[0].1
    }

    /// Whether an enemy lives on `map_field`.
    pub fn has_enemy(&self, map_field: &Field) -> (r: bool)
        ensures
            r == self.status_of(*map_field) is Some,
    {
        let n = self.data.len();
        let mut i: usize = 0;
        assert(self.data@.subrange(0, n as int) =~= self.data@);
        while i < n
            invariant
                n == self.data@.len(),
                0 <= i <= n,
                lookup(self.data@.subrange(i as int, n as int), *map_field) == self.status_of(*map_field),
            decreases n - i,
        {
            let ghost rest = self.data@.subrange(i as int, n as int);
            assert(rest.drop_first() =~= self.data@.subrange(i + 1, n as int));
            if self.data[i].0 == *map_field {
                return true;
            }
            i = i + 1;
        }
        false
    }

    /// A new enemy of the kind that lives on `map_field`, at level `level`.
    pub fn create(&self, map_field: &Field, level: i32) -> (r: CharacterStatus)
        requires
            self.status_of(*map_field) is Some,
        ensures
            r.name@ == enemy_name(self.status_of(*map_field).unwrap().name),
            r == (CharacterStatus { name: r.name, ..created_enemy(self.status_of(*map_field).unwrap(), level as int) }),
    {
        let s = self.find(map_field);
        CharacterStatus {
            name: enemy_name_string(s.name),
            lv: level,
            exp: 0,
            hp_current: level_scaled_exec(s.hp, level),
            hp_max: level_scaled_exec(s.hp, level),
            mp_current: 0,
            mp_max: 0,
            attack: level_scaled_exec(s.at, level),
            defence: level_scaled_exec(s.df, level),
        }
    }

    /// The kind of enemy that lives on `map_field`.
    pub fn field_to_enemy(&self, map_field: &Field) -> (r: Enemy)
        requires
            self.status_of(*map_field) is Some,
        ensures
            r == self.status_of(*map_field).unwrap().name,
    {
        self.find(map_field).name
    }

    /// How rare encounters are on `map_field`: one in `rate` steps.
    pub fn field_to_rate(&self, map_field: &Field) -> (r: i32)
        requires
            self.status_of(*map_field) is Some,
        ensures
            r == self.status_of(*map_field).unwrap().rate,
    {
        self.find(map_field).rate
    }

    /// The skill of the enemy that lives on `map_field`.
    pub fn field_to_enemy_skill(&self, map_field: &Field) -> (r: Skill)
        requires
            self.status_of(*map_field) is Some,
        ensures
            r == self.status_of(*map_field).unwrap().skl,
    {
        self.find(map_field).skl
    }

    /// The picture of the enemy that lives on `map_field`.
    pub fn image_index(&self, map_field: &Field) -> (r: usize)
        requires
            self.status_of(*map_field) is Some,
        ensures
            r == self.status_of(*map_field).unwrap().img,
    {
        self.find(map_field).img
    }
}

impl Default for EnemyData {
    /// The game's enemy table.
    fn default() -> (r: Self)
        ensures
            r.data@ == default_enemy_table(),
    {
        let r = EnemyData {
            data: vec![
                (Field::Grass, EnemyStatus { name: Enemy::Goblin, rate: 20, img: 0, hp: 50, at: 10, df: 5, skl: Skill::Sword }),
                (Field::Forest, EnemyStatus { name: Enemy::Skeleton, rate: 10, img: 1, hp: 100, at: 20, df: 10, skl: Skill::Sword }),
                (Field::Mountain, EnemyStatus { name: Enemy::Griffin, rate: 5, img: 2, hp: 200, at: 40, df: 30, skl: Skill::Wind }),
                (Field::Castle, EnemyStatus { name: Enemy::Boss, rate: 1, img: 3, hp: 999, at: 99, df: 99, skl: Skill::Death }),
            ],
        };
        assert(r.data@ =~= default_enemy_table());
        r
    }
}

/// Enemy levels: the boss is always level 1; every other enemy is one level
/// above its roll, so different rolls give different levels and the highest
/// roll a player of level `player_lv` allows gives level `level_roll_bound(player_lv)`,
/// which lies between 1 and 5.
pub proof fn lemma_enemy_levels(enemy: Enemy, roll: int, roll2: int, player_lv: int)
    ensures
        enemy_level(Enemy::Boss, roll) == 1,
        enemy != Enemy::Boss ==> enemy_level(enemy, roll) == roll + 1,
        enemy != Enemy::Boss && roll != roll2 ==> enemy_level(enemy, roll) != enemy_level(enemy, roll2),
        1 <= level_roll_bound(player_lv) <= 5,
        enemy != Enemy::Boss ==> enemy_level(enemy, level_roll_bound(player_lv) - 1) == level_roll_bound(player_lv),
{
}

/// The level of an enemy, given the roll drawn from `0..level_roll_bound(player_lv)`.
pub fn level_from_roll(player_lv: i32, enemy: Enemy, roll: i32) -> (r: i32)
    requires
        0 <= roll < level_roll_bound(player_lv as int),
    ensures
        r == enemy_level(enemy, roll as int),
{
    if enemy == Enemy::Boss {
        1
    } else {
        1 + roll
    }
}

/// The level of an enemy met by a player of level `player_lv`: the boss is
/// level 1, others `1 + roll` with the roll drawn at random from
/// `0..level_roll_bound(player_lv)`.
pub fn level(player_lv: i32, enemy: Enemy) -> (r: i32)
    ensures
        enemy == Enemy::Boss ==> r == 1,
        enemy != Enemy::Boss ==> 1 <= r <= level_roll_bound(player_lv as int),
        exists|roll: int| 0 <= roll < level_roll_bound(player_lv as int) && r == enemy_level(enemy, roll),
{
    let bound: i32 = if player_lv < 2 {
        1
    } else if player_lv / 2 > 5 {
        5
    } else {
        player_lv / 2
    };
    let roll = random_range(0, bound);
    level_from_roll(player_lv, enemy, roll)
}

} // verus!
