use rpg_engine::item::{Equipment, Item, ItemSlot};

#[test]
fn new_item_copies_its_fields() {
    let item = Item::new("helm_01", "Iron Helm", ItemSlot::Head, "Helm_Iron");
    assert_eq!(item.id, "helm_01");
    assert_eq!(item.name, "Iron Helm");
    assert_eq!(item.slot, ItemSlot::Head);
    assert_eq!(item.layer_name, "Helm_Iron");
}

#[test]
fn new_equipment_is_empty() {
    let e = Equipment::new();
    assert!(e.head.is_none() && e.body.is_none() && e.hands.is_none());
    assert!(e.feet.is_none() && e.weapon.is_none() && e.addon.is_none());
    let d = Equipment::default();
    assert!(d.head.is_none() && d.addon.is_none());
}

#[test]
fn equip_returns_previous_item_of_that_slot() {
    let mut e = Equipment::new();
    assert!(e.equip(Item::new("a", "Sword", ItemSlot::Weapon, "Sword")).is_none());
    let old = e.equip(Item::new("b", "Axe", ItemSlot::Weapon, "Axe")).expect("sword was equipped");
    assert_eq!(old.id, "a");
    assert_eq!(e.weapon.as_ref().unwrap().id, "b");
    assert!(e.head.is_none());
}

#[test]
fn equip_then_unequip_gives_item_back_and_empties_slot() {
    let mut e = Equipment::new();
    e.equip(Item::new("boots", "Boots", ItemSlot::Feet, "Shoes"));
    e.equip(Item::new("gloves", "Gloves", ItemSlot::Hands, "Gloves"));
    let removed = e.unequip(ItemSlot::Feet).expect("boots are worn");
    assert_eq!(removed.id, "boots");
    assert!(e.feet.is_none());
    assert_eq!(e.hands.as_ref().unwrap().id, "gloves");
    assert!(e.unequip(ItemSlot::Feet).is_none());
}

#[test]
fn each_slot_holds_its_own_item() {
    let mut e = Equipment::new();
    let slots = [ItemSlot::Head, ItemSlot::Body, ItemSlot::Hands, ItemSlot::Feet, ItemSlot::Weapon, ItemSlot::Addon];
    for (i, s) in slots.iter().enumerate() {
        e.equip(Item::new(&format!("i{}", i), "x", *s, "x"));
    }
    assert_eq!(e.head.as_ref().unwrap().id, "i0");
    assert_eq!(e.body.as_ref().unwrap().id, "i1");
    assert_eq!(e.hands.as_ref().unwrap().id, "i2");
    assert_eq!(e.feet.as_ref().unwrap().id, "i3");
    assert_eq!(e.weapon.as_ref().unwrap().id, "i4");
    assert_eq!(e.addon.as_ref().unwrap().id, "i5");
}
