use vstd::prelude::*;

verus! {

/// The equipment slot an item occupies.
#[derive(Clone, Copy, Debug, PartialEq, Eq, Structural)]
pub enum ItemSlot {
    Head,
    Body,
    Hands,
    Feet,
    Weapon,
    Addon,
}

/// A piece of equipment; `layer_name` is the sprite layer drawn for it.
#[derive(Clone, Debug)]
pub struct Item {
    pub id: String,
    pub name: String,
    pub slot: ItemSlot,
    pub layer_name: String,
}

impl Item {
    /// Builds an item from borrowed strings.
    pub fn new(id: &str, name: &str, slot: ItemSlot, layer_name: &str) -> (item: Self)
        ensures
            item.id@ == id@,
            item.name@ == name@,
            item.slot == slot,
            item.layer_name@ == layer_name@,
    {
        Item { id: id.to_owned(), name: name.to_owned(), slot, layer_name: layer_name.to_owned() }
    }
}

/// What a character wears: at most one item per slot.
#[derive(Clone, Debug)]
pub struct Equipment {
    pub head: Option<Item>,
    pub body: Option<Item>,
    pub hands: Option<Item>,
    pub feet: Option<Item>,
    pub weapon: Option<Item>,
    pub addon: Option<Item>,
}

impl Equipment {
    /// The item worn in `slot`, if any.
    pub open spec fn slot_item(self, slot: ItemSlot) -> Option<Item> {
        match slot {
            ItemSlot::Head => self.head,
            ItemSlot::Body => self.body,
            ItemSlot::Hands => self.hands,
            ItemSlot::Feet => self.feet,
            ItemSlot::Weapon => self.weapon,
            ItemSlot::Addon => self.addon,
        }
    }

    /// This equipment with `slot` holding `content` and every other slot unchanged.
    pub open spec fn with_slot(self, slot: ItemSlot, content: Option<Item>) -> Equipment {
        match slot {
            ItemSlot::Head => Equipment { head: content, ..self },
            ItemSlot::Body => Equipment { body: content, ..self },
            ItemSlot::Hands => Equipment { hands: content, ..self },
            ItemSlot::Feet => Equipment { feet: content, ..self },
            ItemSlot::Weapon => Equipment { weapon: content, ..self },
            ItemSlot::Addon => Equipment { addon: content, ..self },
        }
    }

    /// Nothing is worn in any slot.
    pub open spec fn is_empty(self) -> bool {
        forall|s: ItemSlot| #[trigger] self.slot_item(s) is None
    }

    /// An empty set of equipment.
    pub fn new() -> (e: Self)
        ensures
            e.is_empty(),
    {
        Equipment { head: None, body: None, hands: None, feet: None, weapon: None, addon: None }
    }

    /// Puts `item` into its own slot and gives back what was there before.
    pub fn equip(&mut self, item: Item) -> (previous: Option<Item>)
        ensures
            previous == old(self).slot_item(item.slot),
            *final(self) == old(self).with_slot(item.slot, Some(item)),
    {
        match item.slot {
            ItemSlot::Head => {
                let previous = self.head.take();
                self.head = Some(item);
                previous
            },
            ItemSlot::Body => {
                let previous = self.body.take();
                self.body = Some(item);
                previous
            },
            ItemSlot::Hands => {
                let previous = self.hands.take();
                self.hands = Some(item);
                previous
            },
            ItemSlot::Feet => {
                let previous = self.feet.take();
                self.feet = Some(item);
                previous
            },
            ItemSlot::Weapon => {
                let previous = self.weapon.take();
                self.weapon = Some(item);
                previous
            },
            ItemSlot::Addon => {
                let previous = self.addon.take();
                self.addon = Some(item);
                previous
            },
        }
    }

    /// Empties `slot` and gives back what was there.
    pub fn unequip(&mut self, slot: ItemSlot) -> (removed: Option<Item>)
        ensures
            removed == old(self).slot_item(slot),
            *final(self) == old(self).with_slot(slot, None),
    {
        match slot {
            ItemSlot::Head => self.head.take(),
            ItemSlot::Body => self.body.take(),
            ItemSlot::Hands => self.hands.take(),
            ItemSlot::Feet => self.feet.take(),
            ItemSlot::Weapon => self.weapon.take(),
            ItemSlot::Addon => self.addon.take(),
        }
    }
}

impl Default for Equipment {
    fn default() -> (e: Self)
        ensures
            e.is_empty(),
    {
        Equipment::new()
    }
}

/// Filling a slot puts exactly the given content there and leaves every
/// other slot as it was.
pub proof fn lemma_with_slot(e: Equipment, slot: ItemSlot, content: Option<Item>)
    ensures
        e.with_slot(slot, content).slot_item(slot) == content,
        forall|s: ItemSlot| s != slot ==> #[trigger] e.with_slot(slot, content).slot_item(s) == e.slot_item(s),
{
}

/// Equipping an item and then emptying its slot hands the item back, and
/// the equipment ends as it was before the equip with that slot emptied.
pub proof fn lemma_equip_then_unequip(e: Equipment, item: Item)
    ensures
        e.with_slot(item.slot, Some(item)).slot_item(item.slot) == Some(item),
        e.with_slot(item.slot, Some(item)).with_slot(item.slot, None) == e.with_slot(item.slot, None),
        forall|s: ItemSlot| s != item.slot ==> #[trigger] e.with_slot(item.slot, Some(item)).with_slot(item.slot, None).slot_item(s) == e.slot_item(s),
{
}

/// Equipping twice into the same slot hands back the first item and keeps
/// only the second.
pub proof fn lemma_equip_twice(e: Equipment, first: Item, second: Item)
    requires
        first.slot == second.slot,
    ensures
        e.with_slot(first.slot, Some(first)).slot_item(second.slot) == Some(first),
        e.with_slot(first.slot, Some(first)).with_slot(second.slot, Some(second)) == e.with_slot(second.slot, Some(second)),
{
}

} // verus!
