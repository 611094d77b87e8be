//! Items, the skills they teach, and the player's inventory.
use vstd::prelude::*;
use crate::character_status::{skill_text, Skill};
use crate::text::{nat_text, push_nat};

verus! {

/// An item found in a town. Spells carry their level.
#[derive(Clone, Copy, PartialEq, Eq, Structural, Debug, Hash)]
pub enum Item {
    SpellHeal(u32),
    SpellFire(u32),
    SpellIce(u32),
    IronBody,
    IronArm,
    IronLeg,
    IronHead,
    HeroSword,
    WisdomRing,
    FairyShield,
}

/// The skill an item teaches: each spell teaches itself, other items none.
pub open spec fn item_skill(item: Item) -> Option<Skill> {
    match item {
        Item::SpellFire(lv) => Some(Skill::Spell(Item::SpellFire(lv))),
        Item::SpellHeal(lv) => Some(Skill::Spell(Item::SpellHeal(lv))),
        Item::SpellIce(lv) => Some(Skill::Spell(Item::SpellIce(lv))),
        _ => None,
    }
}

impl Item {
    /// The skill this item teaches, if it is a spell.
    pub fn can_use(&self) -> (r: Option<Skill>)
        ensures
            r == item_skill(*self),
    {
        match self {
            Item::SpellFire(lv) => Some(Skill::Spell(Item::SpellFire(*lv))),
            Item::SpellHeal(lv) => Some(Skill::Spell(Item::SpellHeal(*lv))),
            Item::SpellIce(lv) => Some(Skill::Spell(Item::SpellIce(*lv))),
            _ => None,
        }
    }
}

/// The items hidden in the towns of a map, one per town, in placement order.
pub open spec fn all_items() -> Seq<Item> {
    seq![
        Item::SpellHeal(1),
        Item::SpellHeal(2),
        Item::SpellHeal(3),
        Item::SpellFire(1),
        Item::SpellFire(2),
        Item::SpellFire(3),
        Item::SpellIce(1),
        Item::SpellIce(2),
        Item::SpellIce(3),
        Item::IronBody,
        Item::IronArm,
        Item::IronLeg,
        Item::IronHead,
        Item::HeroSword,
        Item::WisdomRing,
        Item::FairyShield,
    ]
}

/// The items to hide in the towns of a new map.
pub fn generate_items() -> (r: Vec<Item>)
    ensures
        r@ == all_items(),
{
    let r = vec![
        Item::SpellHeal(1),
        Item::SpellHeal(2),
        Item::SpellHeal(3),
        Item::SpellFire(1),
        Item::SpellFire(2),
        Item::SpellFire(3),
        Item::SpellIce(1),
        Item::SpellIce(2),
        Item::SpellIce(3),
        Item::IronBody,
        Item::IronArm,
        Item::IronLeg,
        Item::IronHead,
        Item::HeroSword,
        Item::WisdomRing,
        Item::FairyShield,
    ];
    assert(r@ =~= all_items());
    r
}

/// No item is hidden twice.
pub proof fn lemma_all_items_distinct()
    ensures
        forall|i: int, j: int|
            0 <= i < all_items().len() && 0 <= j < all_items().len() && i != j
                ==> all_items()[i] != all_items()[j],
{
}

/// What the player carries: the items found, the skills learned, and the
/// skill selected for the next attack.
pub struct Inventory {
    pub items: Vec<Item>,
    pub skills: Vec<Skill>,
    pub selected_skill_index: usize,
}

/// The skills an inventory holds after picking up `item`.
pub open spec fn skills_after(skills: Seq<Skill>, item: Item) -> Seq<Skill> {
    match item_skill(item) {
        Some(s) => skills.push(s),
        None => skills,
    }
}

/// The selection after moving the cursor one skill down the list.
pub open spec fn index_after_increment(index: int, len: int) -> int {
    if index + 1 > len - 1 {
        len - 1
    } else {
        index + 1
    }
}

/// The selection after moving the cursor one skill up the list.
pub open spec fn index_after_decrement(index: int, len: int) -> int {
    if index > 0 {
        if index - 1 > len - 1 {
            len - 1
        } else {
            index - 1
        }
    } else {
        index
    }
}

impl Inventory {
    /// The selection points at a skill.
    pub open spec fn wf(&self) -> bool {
        &&& self.skills.len() > 0
        &&& self.selected_skill_index < self.skills.len()
    }

    /// Picks up an item; a spell is also learned as a skill.
    pub fn add_item(&mut self, item: Item)
        ensures
            final(self).items@ == old(self).items@.push(item),
            final(self).skills@ == skills_after(old(self).skills@, item),
            final(self).selected_skill_index == old(self).selected_skill_index,
    {
        self.items.push(item);
        if let Some(skill) = item.can_use() {
            self.skills.push(skill);
        }
    }

    /// Moves the selection one skill down, stopping at the last skill.
    pub fn increment_index(&mut self)
        requires
            old(self).skills.len() > 0,
            old(self).selected_skill_index < usize::MAX,
        ensures
            final(self).selected_skill_index == index_after_increment(
                old(self).selected_skill_index as int,
                old(self).skills.len() as int,
            ),
            final(self).items@ == old(self).items@,
            final(self).skills@ == old(self).skills@,
    {
        let next = self.selected_skill_index + 1;
        let last = self.skills.len() - 1;
        self.selected_skill_index = if next > last { last } else { next };
    }

    /// Moves the selection one skill up, stopping at the first skill.
    pub fn decrement_index(&mut self)
        requires
            old(self).selected_skill_index > 0 ==> old(self).skills.len() > 0,
        ensures
            final(self).selected_skill_index == index_after_decrement(
                old(self).selected_skill_index as int,
                old(self).skills.len() as int,
            ),
            final(self).items@ == old(self).items@,
            final(self).skills@ == old(self).skills@,
    {
        if self.selected_skill_index > 0 {
            let prev = self.selected_skill_index - 1;
            let last = self.skills.len() - 1;
            self.selected_skill_index = if prev > last { last } else { prev };
        }
    }

    /// The selected skill.
    pub fn skill(&self) -> (r: Skill)
        requires
            self.selected_skill_index < self.skills.len(),
        ensures
            r == self.skills@[self.selected_skill_index as int],
    {
        self.skills[self.selected_skill_index]
    }
}

impl Default for Inventory {
    /// A new player carries nothing and knows only the sword.
    fn default() -> (r: Self)
        ensures
            r.items@ == Seq::<Item>::empty(),
            r.skills@ == seq![Skill::Sword],
            r.selected_skill_index == 0,
    {
        Inventory { items: Vec::new(), skills: vec![Skill::Sword], selected_skill_index: 0 }
    }
}

/// The selection always points at a skill: picking up items and moving the
/// cursor up or down keep it on the list.
pub proof fn lemma_selection_stays_valid(skills: Seq<Skill>, index: int, item: Item)
    requires
        skills.len() > 0,
        0 <= index < skills.len(),
    ensures
        0 <= index < skills_after(skills, item).len(),
        skills_after(skills, item).len() >= skills.len(),
        0 <= index_after_increment(index, skills.len() as int) < skills.len(),
        0 <= index_after_decrement(index, skills.len() as int) < skills.len(),
{
}

/// Moving the cursor down and back up returns to the same skill, unless the
/// cursor was already on the last skill; moving up and back down returns to
/// the same skill, unless it was already on the first.
pub proof fn lemma_cursor_moves_undo(len: int, index: int)
    requires
        0 <= index < len,
    ensures
        index < len - 1 ==> index_after_decrement(index_after_increment(index, len), len) == index,
        index > 0 ==> index_after_increment(index_after_decrement(index, len), len) == index,
        index == len - 1 ==> index_after_increment(index, len) == index,
        index == 0 ==> index_after_decrement(index, len) == index,
{
}

/// Picking up an item adds it to the items, and its spell, if any, to the
/// end of the skills; the earlier skills stay where they were.
pub proof fn lemma_skills_after_keeps_prefix(skills: Seq<Skill>, item: Item)
    ensures
        skills_after(skills, item).subrange(0, skills.len() as int) == skills,
        item_skill(item) is Some <==> skills_after(skills, item).len() == skills.len() + 1,
        item_skill(item) is Some ==> skills_after(skills, item).last() == item_skill(item).unwrap(),
{
    assert(skills_after(skills, item).subrange(0, skills.len() as int) =~= skills);
}

/// The name of an item, spells with their level in brackets.
pub open spec fn item_text(item: Item) -> Seq<char> {
    match item {
        Item::SpellHeal(lv) => "SpellHeal("@ + nat_text(lv as nat) + ")"@,
        Item::SpellFire(lv) => "SpellFire("@ + nat_text(lv as nat) + ")"@,
        Item::SpellIce(lv) => "SpellIce("@ + nat_text(lv as nat) + ")"@,
        Item::IronBody => "IronBody"@,
        Item::IronArm => "IronArm"@,
        Item::IronLeg => "IronLeg"@,
        Item::IronHead => "IronHead"@,
        Item::HeroSword => "HeroSword"@,
        Item::WisdomRing => "WisdomRing"@,
        Item::FairyShield => "FairyShield"@,
    }
}

impl Item {
    /// The name of this item, a spell with its level in brackets.
    pub fn display_text(&self) -> (r: String)
        ensures
            r@ == item_text(*self),
    {
        match self {
            Item::SpellHeal(lv) => {
                let mut r = String::from_str("SpellHeal(");
                push_nat(&mut r, *lv as u64);
                r.append(")");
                r
            },
            Item::SpellFire(lv) => {
                let mut r = String::from_str("SpellFire(");
                push_nat(&mut r, *lv as u64);
                r.append(")");
                r
            },
            Item::SpellIce(lv) => {
                let mut r = String::from_str("SpellIce(");
                push_nat(&mut r, *lv as u64);
                r.append(")");
                r
            },
            Item::IronBody => String::from_str("IronBody"),
            Item::IronArm => String::from_str("IronArm"),
            Item::IronLeg => String::from_str("IronLeg"),
            Item::IronHead => String::from_str("IronHead"),
            Item::HeroSword => String::from_str("HeroSword"),
            Item::WisdomRing => String::from_str("WisdomRing"),
            Item::FairyShield => String::from_str("FairyShield"),
        }
    }
}

/// The item lines of the inventory window: each item indented by two
/// spaces, one per line.
pub open spec fn item_lines(items: Seq<Item>) -> Seq<char>
    decreases items.len(),
{
    if items.len() == 0 {
        Seq::empty()
    } else if items.len() == 1 {
        "  "@ + item_text(items[0])
    } else {
        item_lines(items.drop_last()) + "\n"@ + "  "@ + item_text(items.last())
    }
}

/// The skill list of the battle window: the selected skill marked with `>`,
/// each on its own line.
pub open spec fn skill_lines(skills: Seq<Skill>, selected: int) -> Seq<char>
    decreases skills.len(),
{
    if skills.len() == 0 {
        Seq::empty()
    } else {
        let i = skills.len() - 1;
        skill_lines(skills.drop_last(), selected) + (if i == selected { "> "@ } else { "  "@ }) + skill_text(skills.last())
            + "\n"@
    }
}

impl Inventory {
    /// The inventory window: a heading and the items carried.
    pub fn display_text(&self) -> (r: String)
        ensures
            r@ == "Items:\n"@ + item_lines(self.items@),
    {
        let mut r = String::from_str("Items:\n");
        let ghost head = r@;
        let n = self.items.len();
        let mut i: usize = 0;
        while i < n
            invariant
                n == self.items@.len(),
                0 <= i <= n,
                head == "Items:\n"@,
                r@ == head + item_lines(self.items@.take(i as int)),
            decreases n - i,
        {
            proof {
                assert(self.items@.take(i + 1).drop_last() =~= self.items@.take(i as int));
            }
            if i > 0 {
                r.append("\n");
            }
            r.append("  ");
            let t = self.items[i].display_text();
            r.append(t.as_str());
            proof {
                let s1 = self.items@.take(i + 1);
                assert(s1.last() == self.items@[i as int]);
                if i == 0 {
                    assert(s1.len() == 1);
                    assert(item_lines(self.items@.take(0)) =~= Seq::<char>::empty());
                    assert(r@ =~= head + item_lines(s1));
                } else {
                    assert(r@ =~= head + item_lines(s1));
                }
            }
            i = i + 1;
        }
        assert(self.items@.take(n as int) =~= self.items@);
        r
    }

    /// The skill list of the battle window, the selected skill marked with `>`.
    pub fn skill_list(&self) -> (r: String)
        ensures
            r@ == skill_lines(self.skills@, self.selected_skill_index as int),
    {
        let mut r = String::new();
        let n = self.skills.len();
        let mut i: usize = 0;
        while i < n
            invariant
                n == self.skills@.len(),
                0 <= i <= n,
                r@ == skill_lines(self.skills@.take(i as int), self.selected_skill_index as int),
            decreases n - i,
        {
            proof {
                assert(self.skills@.take(i + 1).drop_last() =~= self.skills@.take(i as int));
            }
            if i == self.selected_skill_index {
                r.append("> ");
            } else {
                r.append("  ");
            }
            let t = self.skills[i].display_text();
            r.append(t.as_str());
            r.append("\n");
            proof {
                let s1 = self.skills@.take(i + 1);
                assert(s1.last() == self.skills@[i as int]);
                assert(r@ =~= skill_lines(s1, self.selected_skill_index as int));
            }
            i = i + 1;
        }
        assert(self.skills@.take(n as int) =~= self.skills@);
        r
    }
}

} // verus!
