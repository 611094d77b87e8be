//! Character statistics and their growth with experience and items.
use vstd::prelude::*;
use crate::inventory::{Inventory, Item};
use crate::text::{int_text, pad, push_int_padded};
use crate::single::{lemma_round24_error, round24, scale_single, scale_single_exec, FIVE_HALVES, THIRTEEN_TENTHS};

verus! {

/// What a character can do on its turn in battle.
#[derive(Clone, Copy, PartialEq, Eq, Structural, Debug)]
pub enum Skill {
    Sword,
    Spell(Item),
    Arrow,
    Wind,
    Death,
}


/// `v` limited to the range `[lo, hi]` (requires `lo <= hi`).
pub open spec fn clamp(v: int, lo: int, hi: int) -> int {
    if v < lo {
        lo
    } else if v > hi {
        hi
    } else {
        v
    }
}

pub fn clamp_i32(v: i32, lo: i32, hi: i32) -> (r: i32)
    requires
        lo <= hi,
    ensures
        r == clamp(v as int, lo as int, hi as int),
{
    if v < lo {
        lo
    } else if v > hi {
        hi
    } else {
        v
    }
}

/// The statistics of a character: the player or an enemy.
#[derive(Clone, Debug)]
pub struct CharacterStatus {
    pub name: String,
    pub lv: i32,
    pub exp: i32,
    pub hp_current: i32,
    pub hp_max: i32,
    pub mp_current: i32,
    pub mp_max: i32,
    pub attack: i32,
    pub defence: i32,
}

/// The experience needed for each level: level `n` is reached at
/// `level_thresholds()[n - 1]` experience points.
pub open spec fn level_thresholds() -> Seq<int> {
    seq![
        0, 10, 20, 40, 60, 80, 100, 125, 150, 175, 200, 225, 250, 275, 300, 325, 350, 375, 400,
        425, 450, 500, 550, 600, 650, 700, 750, 800, 850, 900, 950, 999,
    ]
}

/// The number of entries of `s` that are at most `e`.
pub open spec fn count_at_most(s: Seq<int>, e: int) -> nat
    decreases s.len(),
{
    if s.len() == 0 {
        0
    } else {
        count_at_most(s.drop_last(), e) + if s.last() <= e {
            1nat
        } else {
            0nat
        }
    }
}

/// The level that `exp` experience points give.
pub open spec fn level_for_exp(exp: int) -> int {
    count_at_most(level_thresholds(), exp) as int
}

/// The experience thresholds of the levels, lowest first.
pub fn level_list() -> (r: [i32; 32])
    ensures
        forall|i: int| 0 <= i < 32 ==> r@[i] == level_thresholds()[i],
{
    [
        0, 10, 20, 40, 60, 80, 100, 125, 150, 175, 200, 225, 250, 275, 300, 325, 350, 375, 400,
        425, 450, 500, 550, 600, 650, 700, 750, 800, 850, 900, 950, 999,
    ]
}

/// The level that `exp` experience points give: how many thresholds it reaches.
pub fn level_of(exp: i32) -> (r: i32)
    ensures
        r == level_for_exp(exp as int),
        0 <= r <= 32,
{
    let list = level_list();
    let mut count: i32 = 0;
    let mut i: usize = 0;
    while i < 32
        invariant
            0 <= i <= 32,
            forall|j: int| 0 <= j < 32 ==> list@[j] == level_thresholds()[j],
            count == count_at_most(level_thresholds().take(i as int), exp as int),
            count <= i,
        decreases 32 - i,
    {
        assert(level_thresholds().take(i + 1).drop_last() =~= level_thresholds().take(i as int));
        if list[i] <= exp {
            count = count + 1;
        }
        i = i + 1;
    }
    assert(level_thresholds().take(32) =~= level_thresholds());
    count
}

/// The four statistics that items raise: (hp_max, mp_max, attack, defence).
pub type StatBlock = (int, int, int, int);

/// One item's effect on the statistics: armour raises the hit points by 13/10,
/// the sword the attack, the ring the magic points and the shield the defence
/// by 5/2, each computed in single precision and truncated.
pub open spec fn item_effect(item: Item, s: StatBlock) -> StatBlock {
    match item {
        Item::IronBody | Item::IronArm | Item::IronLeg | Item::IronHead =>
            (scale_single(s.0, THIRTEEN_TENTHS as nat), s.1, s.2, s.3),
        Item::HeroSword => (s.0, s.1, scale_single(s.2, FIVE_HALVES as nat), s.3),
        Item::WisdomRing => (s.0, scale_single(s.1, FIVE_HALVES as nat), s.2, s.3),
        Item::FairyShield => (s.0, s.1, s.2, scale_single(s.3, FIVE_HALVES as nat)),
        _ => s,
    }
}

/// The statistics after applying every item, first to last.
pub open spec fn apply_items(items: Seq<Item>, s: StatBlock) -> StatBlock
    decreases items.len(),
{
    if items.len() == 0 {
        s
    } else {
        item_effect(items.last(), apply_items(items.drop_last(), s))
    }
}

/// The statistics of level `lv` before items: (hp_max, mp_max, attack, defence).
pub open spec fn base_stats(lv: int) -> StatBlock {
    (100 + (lv - 1) * 25, 100 + (lv - 1) * 25, 10 + (lv - 1) * 5, 10 + (lv - 1) * 5)
}

/// Levels whose base statistics fit in 32 bits.
pub open spec fn level_in_range(lv: int) -> bool {
    -85899344 <= lv <= 85899342
}

/// Whether the statistics of level `lv` fit in 32 bits.
pub fn level_is_in_range(lv: i32) -> (r: bool)
    ensures
        r == level_in_range(lv as int),
{
    -85899344 <= lv && lv <= 85899342
}

/// A character after being set to level `lv` with the given items: base
/// statistics, item effects, and every statistic limited to `[1, 999]`.
pub open spec fn leveled(s: CharacterStatus, lv: int, items: Seq<Item>) -> CharacterStatus {
    let b = apply_items(items, base_stats(lv));
    CharacterStatus {
        name: s.name,
        lv: lv as i32,
        exp: s.exp,
        hp_current: clamp(s.hp_current as int, 1, 999) as i32,
        hp_max: clamp(b.0, 1, 999) as i32,
        mp_current: clamp(s.mp_current as int, 1, 999) as i32,
        mp_max: clamp(b.1, 1, 999) as i32,
        attack: clamp(b.2, 1, 999) as i32,
        defence: clamp(b.3, 1, 999) as i32,
    }
}

/// A character whose hit and magic points are refilled.
pub open spec fn healed(s: CharacterStatus) -> CharacterStatus {
    CharacterStatus { hp_current: s.hp_max, mp_current: s.mp_max, ..s }
}

/// The experience after gaining `exp` points, limited to `[1, 999]`.
pub open spec fn exp_after(old_exp: int, exp: int) -> int {
    clamp(old_exp + exp, 1, 999)
}

/// A character after gaining `exp` experience points with the given items,
/// and whether the level changed.
pub open spec fn after_exp(s: CharacterStatus, exp: int, items: Seq<Item>) -> (CharacterStatus, bool) {
    let e = exp_after(s.exp as int, exp);
    let gained = CharacterStatus { exp: e as i32, ..s };
    let lv = level_for_exp(e);
    if s.lv != lv {
        (healed(leveled(gained, lv, items)), true)
    } else {
        (gained, false)
    }
}

impl CharacterStatus {
    /// Refills hit points and magic points.
    pub fn heal2max(&mut self)
        ensures
            *final(self) == healed(*old(self)),
    {
        self.hp_current = self.hp_max;
        self.mp_current = self.mp_max;
    }

    /// Sets the level and recomputes the statistics from it and the items carried.
    pub fn level_up(&mut self, new_level: i32, inventory: &Inventory)
        requires
            level_in_range(new_level as int),
        ensures
            *final(self) == leveled(*old(self), new_level as int, inventory.items@),
    {
        self.lv = new_level;
        let d: i32 = new_level - 1;
        assert(-2147483625 <= d * 25 <= 2147483525) by (nonlinear_arith)
            requires
                -85899345 <= d <= 85899341,
        ;
        let mut hp_max: i32 = 100 + d * 25;
        let mut mp_max: i32 = 100 + d * 25;
        let mut attack: i32 = 10 + d * 5;
        let mut defence: i32 = 10 + d * 5;
        let ghost items = inventory.items@;
        let n = inventory.items.len();
        let mut i: usize = 0;
        while i < n
            invariant
                n == items.len(),
                items == inventory.items@,
                0 <= i <= n,
                (hp_max as int, mp_max as int, attack as int, defence as int) == apply_items(
                    items.take(i as int),
                    base_stats(new_level as int),
                ),
            decreases n - i,
        {
            assert(items.take(i + 1).drop_last() =~= items.take(i as int));
            match inventory.items[i] {
                Item::IronBody | Item::IronArm | Item::IronLeg | Item::IronHead => {
                    hp_max = scale_single_exec(hp_max, THIRTEEN_TENTHS);
                },
                Item::HeroSword => {
                    attack = scale_single_exec(attack, FIVE_HALVES);
                },
                Item::WisdomRing => {
                    mp_max = scale_single_exec(mp_max, FIVE_HALVES);
                },
                Item::FairyShield => {
                    defence = scale_single_exec(defence, FIVE_HALVES);
                },
                _ => {},
            }
            i = i + 1;
        }
        assert(items.take(n as int) =~= items);
        self.attack = clamp_i32(attack, 1, 999);
        self.defence = clamp_i32(defence, 1, 999);
        self.hp_max = clamp_i32(hp_max, 1, 999);
        self.mp_max = clamp_i32(mp_max, 1, 999);
        self.hp_current = clamp_i32(self.hp_current, 1, 999);
        self.mp_current = clamp_i32(self.mp_current, 1, 999);
    }

    /// Gains experience; on reaching a new level, recomputes the statistics and
    /// heals fully. Returns whether the level changed.
    pub fn add_exp(&mut self, exp: i32, inventory: &Inventory) -> (r: bool)
        requires
            i32::MIN <= old(self).exp + exp <= i32::MAX,
        ensures
            (*final(self), r) == after_exp(*old(self), exp as int, inventory.items@),
    {
        self.exp = clamp_i32(self.exp + exp, 1, 999);
        let new_lv = level_of(self.exp);
        if self.lv != new_lv {
            self.level_up(new_lv, inventory);
            self.heal2max();
            return true;
        }
        false
    }
}

impl Default for CharacterStatus {
    /// A new player: level 1 with 100 hit and magic points and 10 attack and defence.
    fn default() -> (r: Self)
        ensures
            r.name@ == "You"@,
            r.lv == 1,
            r.exp == 0,
            r.hp_current == 100,
            r.hp_max == 100,
            r.mp_current == 100,
            r.mp_max == 100,
            r.attack == 10,
            r.defence == 10,
    {
        CharacterStatus {
            name: String::from_str("You"),
            lv: 1,
            exp: 0,
            hp_current: 100,
            hp_max: 100,
            mp_current: 100,
            mp_max: 100,
            attack: 10,
            defence: 10,
        }
    }
}

/// More experience never gives a lower level.
pub proof fn lemma_level_for_exp_monotone(e1: int, e2: int)
    requires
        e1 <= e2,
    ensures
        level_for_exp(e1) <= level_for_exp(e2),
{
    lemma_count_at_most_monotone(level_thresholds(), e1, e2);
}

proof fn lemma_count_at_most_monotone(s: Seq<int>, e1: int, e2: int)
    requires
        e1 <= e2,
    ensures
        count_at_most(s, e1) <= count_at_most(s, e2),
    decreases s.len(),
{
    if s.len() > 0 {
        lemma_count_at_most_monotone(s.drop_last(), e1, e2);
    }
}

proof fn lemma_count_at_most_bounds(s: Seq<int>, e: int)
    ensures
        count_at_most(s, e) <= s.len(),
        (forall|i: int| 0 <= i < s.len() ==> s[i] <= e) ==> count_at_most(s, e) == s.len(),
        (s.len() > 0 && s[0] <= e) ==> count_at_most(s, e) >= 1,
    decreases s.len(),
{
    if s.len() > 0 {
        lemma_count_at_most_bounds(s.drop_last(), e);
        if s.len() > 1 {
            assert(s.drop_last()[0] == s[0]);
        }
    }
}

/// Every amount of experience the game keeps, from 0 to 999, gives a level
/// from 1 to 32, and 999 points give the highest level.
pub proof fn lemma_level_for_exp_range(e: int)
    requires
        0 <= e <= 999,
    ensures
        1 <= level_for_exp(e) <= 32,
        e == 999 ==> level_for_exp(e) == 32,
{
    lemma_count_at_most_bounds(level_thresholds(), e);
    if e == 999 {
        assert(forall|i: int| 0 <= i < 32 ==> level_thresholds()[i] <= 999);
    }
}

/// Every armour piece (body, arm, leg or head) multiplies the maximum hit
/// points by 13/10 and leaves the other statistics alone: for hit points
/// from 0 to 2^21 the result is 13/10 of them rounded down, or, where single
/// precision falls just short of a whole number, one less.
pub proof fn lemma_armour_raises_hp(item: Item, s: StatBlock)
    requires
        item == Item::IronBody || item == Item::IronArm || item == Item::IronLeg || item == Item::IronHead,
        0 <= s.0 <= 0x20_0000,
    ensures
        (13 * s.0) / 10 - 1 <= item_effect(item, s).0 <= (13 * s.0) / 10,
        item_effect(item, s).1 == s.1,
        item_effect(item, s).2 == s.2,
        item_effect(item, s).3 == s.3,
{
    vstd::arithmetic::power2::lemma2_to64();
    let h = s.0 as nat;
    assert(round24(h) == h);
    let p = h * 10905190;
    lemma_round24_error(p);
    let r = round24(p);
    let t = r / 0x80_0000;
    let f = (13 * h) / 10;
    assert(t <= f && f - 1 <= t) by (nonlinear_arith)
        requires
            0 <= h <= 0x20_0000,
            p == h * 10905190,
            0x100_0000 * r <= 0x100_0000 * p + p,
            0x100_0000 * p <= 0x100_0000 * r + p,
            t == r / 0x80_0000,
            f == (13 * h) / 10,
    ;
}

/// After a level is set, every statistic lies in `[1, 999]`.
pub proof fn lemma_leveled_in_range(s: CharacterStatus, lv: int, items: Seq<Item>)
    ensures
        1 <= leveled(s, lv, items).hp_current <= 999,
        1 <= leveled(s, lv, items).hp_max <= 999,
        1 <= leveled(s, lv, items).mp_current <= 999,
        1 <= leveled(s, lv, items).mp_max <= 999,
        1 <= leveled(s, lv, items).attack <= 999,
        1 <= leveled(s, lv, items).defence <= 999,
{
}

/// Gaining experience keeps it in `[1, 999]`; a level change is reported
/// exactly when the level moves to the one the experience gives, and then the
/// character is fully healed; otherwise only the experience changes.
pub proof fn lemma_after_exp(s: CharacterStatus, exp: int, items: Seq<Item>)
    ensures
        1 <= after_exp(s, exp, items).0.exp <= 999,
        after_exp(s, exp, items).1 <==> s.lv != level_for_exp(exp_after(s.exp as int, exp)),
        after_exp(s, exp, items).1 ==> {
            &&& after_exp(s, exp, items).0.lv == level_for_exp(exp_after(s.exp as int, exp))
            &&& after_exp(s, exp, items).0.hp_current == after_exp(s, exp, items).0.hp_max
            &&& after_exp(s, exp, items).0.mp_current == after_exp(s, exp, items).0.mp_max
        },
        !after_exp(s, exp, items).1 ==> after_exp(s, exp, items).0 == (CharacterStatus {
            exp: exp_after(s.exp as int, exp) as i32,
            ..s
        }),
{
    lemma_level_for_exp_range(exp_after(s.exp as int, exp));
}

/// The line that describes an enemy in battle.
pub open spec fn enemy_text_of(s: CharacterStatus) -> Seq<char> {
    s.name@ + " Lv "@ + pad(int_text(s.lv as int), 2) + " HP "@ + pad(int_text(s.hp_current as int), 3) + " / "@
        + pad(int_text(s.hp_max as int), 3) + " AT "@ + pad(int_text(s.attack as int), 3) + " DF "@
        + pad(int_text(s.defence as int), 3)
}

/// The player's status window.
pub open spec fn status_text_of(s: CharacterStatus) -> Seq<char> {
    "Lv "@ + pad(int_text(s.lv as int), 2) + " Exp "@ + pad(int_text(s.exp as int), 3) + "\nHP "@
        + pad(int_text(s.hp_current as int), 3) + " / "@ + pad(int_text(s.hp_max as int), 3) + "\nMP "@
        + pad(int_text(s.mp_current as int), 3) + " / "@ + pad(int_text(s.mp_max as int), 3) + "\nAT "@
        + pad(int_text(s.attack as int), 3) + " DF "@ + pad(int_text(s.defence as int), 3) + "\n"@
}

impl CharacterStatus {
    /// The line that describes an enemy in battle: name, level, hit points,
    /// attack and defence.
    pub fn enemy_text(&self) -> (r: String)
        ensures
            r@ == enemy_text_of(*self),
    {
        let mut r = self.name.clone();
        r.append(" Lv ");
        push_int_padded(&mut r, self.lv, 2);
        r.append(" HP ");
        push_int_padded(&mut r, self.hp_current, 3);
        r.append(" / ");
        push_int_padded(&mut r, self.hp_max, 3);
        r.append(" AT ");
        push_int_padded(&mut r, self.attack, 3);
        r.append(" DF ");
        push_int_padded(&mut r, self.defence, 3);
        r
    }

    /// The player's status window: level and experience, hit points, magic
    /// points, attack and defence, one pair per line.
    pub fn display_text(&self) -> (r: String)
        ensures
            r@ == status_text_of(*self),
    {
        let mut r = String::from_str("Lv ");
        push_int_padded(&mut r, self.lv, 2);
        r.append(" Exp ");
        push_int_padded(&mut r, self.exp, 3);
        r.append("\nHP ");
        push_int_padded(&mut r, self.hp_current, 3);
        r.append(" / ");
        push_int_padded(&mut r, self.hp_max, 3);
        r.append("\nMP ");
        push_int_padded(&mut r, self.mp_current, 3);
        r.append(" / ");
        push_int_padded(&mut r, self.mp_max, 3);
        r.append("\nAT ");
        push_int_padded(&mut r, self.attack, 3);
        r.append(" DF ");
        push_int_padded(&mut r, self.defence, 3);
        r.append("\n");
        r
    }
}

/// How a skill is listed: a spell by its item, others by name.
pub open spec fn skill_text(skill: Skill) -> Seq<char> {
    match skill {
        Skill::Sword => "Sword"@,
        Skill::Spell(item) => crate::inventory::item_text(item),
        Skill::Arrow => "Arrow"@,
        Skill::Wind => "Wind"@,
        Skill::Death => "Death"@,
    }
}

impl Skill {
    /// How a skill is listed: a spell by its item, others by name.
    pub fn display_text(&self) -> (r: String)
        ensures
            r@ == skill_text(*self),
    {
        match self {
            Skill::Sword => String::from_str("Sword"),
            Skill::Spell(item) => item.display_text(),
            Skill::Arrow => String::from_str("Arrow"),
            Skill::Wind => String::from_str("Wind"),
            Skill::Death => String::from_str("Death"),
        }
    }
}

} // verus!

