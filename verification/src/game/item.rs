//! Items in a player's inventory.
use vstd::prelude::*;

verus! {

/// An item, by its id.
#[derive(Debug, Clone, Copy, PartialEq, Eq, Hash, Structural)]
pub struct Item(pub usize);

impl Item {
    /// The item in an inventory slot whose API value is `value`; values up to 0 mark an
    /// empty slot.
    pub fn try_from(value: i32) -> (r: Result<Item, ()>)
        ensures
            value <= 0 ==> r is Err,
            value > 0 ==> r == Ok::<Item, ()>(Item(value as usize)),
    {
        if value <= 0 {
            Err(())
        } else {
            Ok(Item(value as usize))
        }
    }

    /// The item that a trinket is.
    pub fn from_trinket(trinket: Trinket) -> (i: Item)
        ensures
            i.0 == trinket.0,
    {
        Item(trinket.0)
    }
}

/// The trinket slot's item, by its id (0 when the slot is empty).
#[derive(Debug, Clone, Copy, PartialEq, Eq, Structural)]
pub struct Trinket(pub usize);

/// The six item slots of a player.
#[derive(Debug, Clone, Copy)]
pub struct Inventory {
    pub items: [Option<Item>; 6],
}

impl Inventory {
    pub fn from_items(items: [Option<Item>; 6]) -> (inv: Inventory)
        ensures
            inv.items == items,
    {
        Inventory { items }
    }

    /// The slots in order.
    pub fn into_items(self) -> (items: [Option<Item>; 6])
        ensures
            items == self.items,
    {
        self.items
    }
}

/// The item of a slot whose API value is `value`.
pub open spec fn slot_item(value: i32) -> Option<Item> {
    if value > 0 {
        Some(Item(value as usize))
    } else {
        None
    }
}

/// The inventory of the six slot values that the API gives.
pub fn inventory_from_slots(slots: [i32; 6]) -> (inv: Inventory)
    ensures
        forall|i: int| 0 <= i < 6 ==> #[trigger] inv.items@[i] == slot_item(slots@[i]),
{
    let mut items: [Option<Item>; 6] = [None, None, None, None, None, None];
    let mut i: usize = 0;
    while i < 6
        invariant
            0 <= i <= 6,
            forall|j: int| 0 <= j < i ==> #[trigger] items@[j] == slot_item(slots@[j]),
        decreases 6 - i,
    {
        let item = match Item::try_from(slots[i]) {
            Ok(item) => Some(item),
            Err(_) => None,
        };
        items[i] = item;
        i = i + 1;
    }
    Inventory { items }
}

} // verus!
