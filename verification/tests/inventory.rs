use dq_like_rpg::character_status::Skill;
use dq_like_rpg::inventory::{generate_items, Inventory, Item};

#[test]
fn default_inventory() {
    let inv = Inventory::default();
    assert!(inv.items.is_empty());
    assert_eq!(inv.skills, vec![Skill::Sword]);
    assert_eq!(inv.selected_skill_index, 0);
    assert_eq!(inv.skill(), Skill::Sword);
}

#[test]
fn spells_become_skills() {
    assert_eq!(Item::SpellFire(2).can_use(), Some(Skill::Spell(Item::SpellFire(2))));
    assert_eq!(Item::SpellHeal(1).can_use(), Some(Skill::Spell(Item::SpellHeal(1))));
    assert_eq!(Item::SpellIce(3).can_use(), Some(Skill::Spell(Item::SpellIce(3))));
    assert_eq!(Item::IronBody.can_use(), None);
    let mut inv = Inventory::default();
    inv.add_item(Item::SpellFire(2));
    inv.add_item(Item::IronBody);
    assert_eq!(inv.items, vec![Item::SpellFire(2), Item::IronBody]);
    assert_eq!(inv.skills, vec![Skill::Sword, Skill::Spell(Item::SpellFire(2))]);
}

#[test]
fn cursor_moves_and_stops_at_ends() {
    let mut inv = Inventory::default();
    inv.add_item(Item::SpellFire(1));
    inv.add_item(Item::SpellHeal(1));
    inv.decrement_index();
    assert_eq!(inv.selected_skill_index, 0);
    inv.increment_index();
    inv.increment_index();
    assert_eq!(inv.selected_skill_index, 2);
    inv.increment_index();
    assert_eq!(inv.selected_skill_index, 2);
    assert_eq!(inv.skill(), Skill::Spell(Item::SpellHeal(1)));
    inv.decrement_index();
    assert_eq!(inv.selected_skill_index, 1);
    inv.increment_index();
    assert_eq!(inv.selected_skill_index, 2);
}

#[test]
fn cursor_moves_undo_each_other() {
    let mut inv = Inventory::default();
    for i in 1..5 {
        inv.add_item(Item::SpellFire(i % 4));
    }
    for start in 0..inv.skills.len() {
        inv.selected_skill_index = start;
        inv.increment_index();
        inv.decrement_index();
        if start < inv.skills.len() - 1 {
            assert_eq!(inv.selected_skill_index, start);
        }
    }
}

#[test]
fn the_items_of_a_map() {
    let items = generate_items();
    assert_eq!(items.len(), 16);
    assert_eq!(items[0], Item::SpellHeal(1));
    assert_eq!(items[15], Item::FairyShield);
    for i in 0..items.len() {
        for j in 0..items.len() {
            if i != j {
                assert_ne!(items[i], items[j]);
            }
        }
    }
}

#[test]
fn inventory_texts() {
    let mut inv = Inventory::default();
    assert_eq!(inv.display_text(), "Items:\n");
    inv.add_item(Item::SpellFire(2));
    inv.add_item(Item::IronBody);
    assert_eq!(inv.display_text(), "Items:\n  SpellFire(2)\n  IronBody");
    assert_eq!(inv.skill_list(), "> Sword\n  SpellFire(2)\n");
    inv.increment_index();
    assert_eq!(inv.skill_list(), "  Sword\n> SpellFire(2)\n");
    assert_eq!(Item::SpellHeal(12).display_text(), "SpellHeal(12)");
    assert_eq!(Item::FairyShield.display_text(), "FairyShield");
}
