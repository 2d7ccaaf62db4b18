use vstd::prelude::*;
use crate::creature::Rgb;
use crate::error::ErrorMessage;
use crate::geometry::Vec3i;
use crate::projectile::CollisionEvent;

verus! {

#[derive(Clone, Copy, Debug, PartialEq, Eq, Structural)]
pub enum ItemType {
    Sword,
    Shovel,
}

impl ItemType {
    /// Extent of the item's box, in millimetres.
    pub fn dimensions(&self) -> (r: Vec3i)
        ensures
            r == (Vec3i { x: 200, y: 1300, z: 200 }),
    {
        match self {
            ItemType::Sword => Vec3i { x: 200, y: 1300, z: 200 },
            ItemType::Shovel => Vec3i { x: 200, y: 1300, z: 200 },
        }
    }

    /// Display colour: purple for a sword, sea green for a shovel.
    pub fn color(&self) -> (r: Rgb)
        ensures
            r == (match *self {
                ItemType::Sword => Rgb { r: 128, g: 0, b: 255 },
                ItemType::Shovel => Rgb { r: 46, g: 139, b: 87 },
            }),
    {
        match self {
            ItemType::Sword => Rgb { r: 128, g: 0, b: 255 },
            ItemType::Shovel => Rgb { r: 46, g: 139, b: 87 },
        }
    }
}

/// Creature `.0` touched the pickable item `.1`.
#[derive(Clone, Copy, Debug, PartialEq, Eq, Structural)]
pub struct PickUpItemEvent(pub u64, pub u64);

/// Items a creature carries, in the order it picked them up.
pub struct Inventory(pub Vec<u64>);

/// The item a creature holds ready, if any.
#[derive(Clone, Copy, Debug, PartialEq, Eq, Structural)]
pub struct EquippedItem(pub Option<u64>);

impl Inventory {
    pub fn new() -> (r: Inventory)
        ensures
            r.0@ == Seq::<u64>::empty(),
    {
        Inventory(Vec::new())
    }

    /// Puts `item` at the end of the inventory.
    pub fn pick_up(&mut self, item: u64)
        ensures
            final(self).0@ == old(self).0@.push(item),
    {
        self.0.push(item);
    }
}

impl EquippedItem {
    /// Equips the first item of `inventory` unless an item is already
    /// equipped, which is kept. Fails, changing nothing, when the inventory
    /// is empty.
    pub fn equip_item_system(&mut self, inventory: &Inventory) -> (r: Result<(), ErrorMessage>)
        ensures
            inventory.0@.len() == 0 ==> r == Err::<(), ErrorMessage>(ErrorMessage::QueryEntity)
                && *final(self) == *old(self),
            inventory.0@.len() > 0 ==> r == Ok::<(), ErrorMessage>(()) && *final(self) == (
            match old(self).0 {
                Some(_) => *old(self),
                None => EquippedItem(Some(inventory.0@[0])),
            }),
    {
        if inventory.0.len() == 0 {
            return Err(ErrorMessage::QueryEntity);
        }
        if self.0.is_none() {
            self.0 = Some(inventory.0[0]);
        }
        Ok(())
    }
}

/// The pick-up that contact `ev` makes: when it begins between a pickable
/// item (the first entity checked first) and another entity, that entity
/// picks the item up.
pub open spec fn pick_up_contact(pickables: Seq<u64>, ev: CollisionEvent) -> Option<PickUpItemEvent> {
    match ev {
        CollisionEvent::Started(a, b) => if pickables.contains(a) {
            Some(PickUpItemEvent(b, a))
        } else if pickables.contains(b) {
            Some(PickUpItemEvent(a, b))
        } else {
            None
        },
        CollisionEvent::Stopped(_, _) => None,
    }
}

/// The pick-ups of the contacts `evs`, in order.
pub open spec fn pick_up_contacts(pickables: Seq<u64>, evs: Seq<CollisionEvent>) -> Seq<
    PickUpItemEvent,
>
    decreases evs.len(),
{
    if evs.len() == 0 {
        Seq::empty()
    } else {
        let es = pick_up_contacts(pickables, evs.drop_last());
        match pick_up_contact(pickables, evs.last()) {
            Some(e) => es.push(e),
            None => es,
        }
    }
}

fn is_pickable(pickables: &Vec<u64>, id: u64) -> (r: bool)
    ensures
        r == pickables@.contains(id),
{
    let mut i: usize = 0;
    while i < pickables.len()
        invariant
            0 <= i <= pickables@.len(),
            forall|j: int| 0 <= j < i ==> #[trigger] pickables@[j] != id,
        decreases pickables@.len() - i,
    {
        if pickables[i] == id {
            assert(pickables@[i as int] == id);
            return true;
        }
        i += 1;
    }
    false
}

/// Turns contacts reported by the physics host into pick-ups of the items
/// `pickables`.
pub fn dropped_items_collision_system(events: &Vec<CollisionEvent>, pickables: &Vec<u64>) -> (r: Vec<
    PickUpItemEvent,
>)
    ensures
        r@ == pick_up_contacts(pickables@, events@),
{
    let mut r: Vec<PickUpItemEvent> = Vec::new();
    let mut i: usize = 0;
    proof {
        assert(events@.subrange(0, 0) =~= Seq::<CollisionEvent>::empty());
        assert(r@ =~= Seq::<PickUpItemEvent>::empty());
    }
    while i < events.len()
        invariant
            0 <= i <= events@.len(),
            r@ == pick_up_contacts(pickables@, events@.subrange(0, i as int)),
        decreases events@.len() - i,
    {
        if let CollisionEvent::Started(a, b) = events[i] {
            if is_pickable(pickables, a) {
                r.push(PickUpItemEvent(b, a));
            } else if is_pickable(pickables, b) {
                r.push(PickUpItemEvent(a, b));
            }
        }
        proof {
            assert(events@.subrange(0, i + 1).drop_last() =~= events@.subrange(0, i as int));
            assert(events@.subrange(0, i + 1).last() == events@[i as int]);
        }
        i += 1;
    }
    proof {
        assert(events@.subrange(0, events@.len() as int) =~= events@);
    }
    r
}

} // verus!
