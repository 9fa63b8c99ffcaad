//! The entity store: slots that hold an entity each, named by ids that
//! carry the generation of the slot at the entity's creation, so that the
//! id of a removed entity never names a later occupant of its slot.

use vstd::prelude::*;
use crate::components::{EntityId, Hitbox, Weapon};
use crate::entities::Vehicle;
use crate::fixed::Vec2;
use crate::game_state::Input;

verus! {

/// What an entity consists of. Each part may be there or not; a system
/// works on the entities that have all the parts it asks for.
#[derive(Clone, Copy, Debug, PartialEq, Eq)]
pub struct Components {
    pub pos: Option<Vec2>,
    pub vel: Option<Vec2>,
    pub angle: Option<i64>,
    pub turn_rate: Option<i64>,
    /// The time at which the entity goes off by itself.
    pub time: Option<i64>,
    pub hitbox: Option<Hitbox>,
    pub vehicle: Option<Vehicle>,
    /// The weapon that fired this projectile.
    pub weapon: Option<Weapon>,
    /// The vehicle that fired this projectile.
    pub owner: Option<EntityId>,
    /// Whether this is a missile under a player's control.
    pub guided_missile: bool,
    pub input: Option<Input>,
}

impl Components {
    /// An entity without any part.
    pub open spec fn nothing() -> Components {
        Components {
            pos: None,
            vel: None,
            angle: None,
            turn_rate: None,
            time: None,
            hitbox: None,
            vehicle: None,
            weapon: None,
            owner: None,
            guided_missile: false,
            input: None,
        }
    }

    /// An entity without any part.
    pub fn new() -> (c: Components)
        ensures
            c == Self::nothing(),
    {
        Components {
            pos: None,
            vel: None,
            angle: None,
            turn_rate: None,
            time: None,
            hitbox: None,
            vehicle: None,
            weapon: None,
            owner: None,
            guided_missile: false,
            input: None,
        }
    }

    /// The parts of a projectile without a fuze.
    pub open spec fn spec_projectile(weapon: Weapon, pos: Vec2, vel: Vec2, owner: EntityId)
        -> Components {
        Components {
            weapon: Some(weapon),
            pos: Some(pos),
            vel: Some(vel),
            owner: Some(owner),
            ..Self::nothing()
        }
    }

    /// The parts of a projectile without a fuze.
    pub fn projectile(weapon: Weapon, pos: Vec2, vel: Vec2, owner: EntityId) -> (c: Components)
        ensures
            c == Self::spec_projectile(weapon, pos, vel, owner),
    {
        let mut c = Self::new();
        c.weapon = Some(weapon);
        c.pos = Some(pos);
        c.vel = Some(vel);
        c.owner = Some(owner);
        c
    }

    /// The parts of a vehicle at rest.
    pub open spec fn spec_vehicle(vehicle: Vehicle, pos: Vec2, angle: i64, hitbox: Hitbox)
        -> Components {
        Components {
            vehicle: Some(vehicle),
            pos: Some(pos),
            vel: Some(Vec2 { x: 0, y: 0 }),
            angle: Some(angle),
            turn_rate: Some(0i64),
            hitbox: Some(hitbox),
            ..Self::nothing()
        }
    }

    /// The parts of a vehicle at rest.
    pub fn vehicle(vehicle: Vehicle, pos: Vec2, angle: i64, hitbox: Hitbox) -> (c: Components)
        ensures
            c == Self::spec_vehicle(vehicle, pos, angle, hitbox),
    {
        let mut c = Self::new();
        c.vehicle = Some(vehicle);
        c.pos = Some(pos);
        c.vel = Some(Vec2 { x: 0, y: 0 });
        c.angle = Some(angle);
        c.turn_rate = Some(0);
        c.hitbox = Some(hitbox);
        c
    }
}

/// One slot of the store.
#[derive(Clone, Copy, Debug, PartialEq, Eq)]
pub struct Slot {
    /// How many entities have left this slot.
    pub generation: u32,
    /// The entity that lives here now, if any.
    pub entity: Option<Components>,
}

impl Slot {
    /// Whether a new entity can move in: the slot is empty and its
    /// generation can still grow.
    pub open spec fn free(self) -> bool {
        self.entity.is_none() && self.generation < u32::MAX
    }

    /// This slot after its occupant has left.
    pub open spec fn vacated(self) -> Slot {
        Slot {
            generation: if self.generation < u32::MAX {
                (self.generation + 1) as u32
            } else {
                self.generation
            },
            entity: None,
        }
    }
}

/// The first free slot at or after `from`, or the number of slots if
/// there is none.
pub open spec fn first_free(slots: Seq<Slot>, from: int) -> int
    decreases slots.len() - from,
{
    if from < 0 || from >= slots.len() {
        slots.len() as int
    } else if slots[from].free() {
        from
    } else {
        first_free(slots, from + 1)
    }
}

/// Whether `id` names an entity in `slots`.
pub open spec fn live(slots: Seq<Slot>, id: EntityId) -> bool {
    &&& id.slot < slots.len()
    &&& slots[id.slot as int].generation == id.generation
    &&& slots[id.slot as int].entity.is_some()
}

/// Whether `id` names a slot whose occupant of that generation has left
/// for good.
pub open spec fn gone(slots: Seq<Slot>, id: EntityId) -> bool {
    &&& id.slot < slots.len()
    &&& (id.generation < slots[id.slot as int].generation || (slots[id.slot as int].generation
        == u32::MAX && slots[id.slot as int].entity.is_none()))
}

/// The ids of the entities in the first `n` slots, in the order of the
/// slots.
pub open spec fn handles_of(slots: Seq<Slot>, n: int) -> Seq<EntityId>
    decreases n,
{
    if n <= 0 {
        Seq::empty()
    } else if slots[n - 1].entity.is_some() {
        handles_of(slots, n - 1).push(
            EntityId { slot: (n - 1) as usize, generation: slots[n - 1].generation },
        )
    } else {
        handles_of(slots, n - 1)
    }
}

/// The id under which the next entity will be created.
pub open spec fn next_id(slots: Seq<Slot>) -> EntityId {
    let i = first_free(slots, 0);
    EntityId {
        slot: i as usize,
        generation: if i < slots.len() {
            slots[i].generation
        } else {
            0
        },
    }
}

/// The slots after an entity with the parts `c` has been created.
pub open spec fn with_created(slots: Seq<Slot>, c: Components) -> Seq<Slot> {
    let i = first_free(slots, 0);
    if i < slots.len() {
        slots.update(i, Slot { generation: slots[i].generation, entity: Some(c) })
    } else {
        slots.push(Slot { generation: 0, entity: Some(c) })
    }
}

/// The slots after the entity `id`, if there is one, has been removed.
pub open spec fn with_removed(slots: Seq<Slot>, id: EntityId) -> Seq<Slot> {
    if live(slots, id) {
        slots.update(id.slot as int, slots[id.slot as int].vacated())
    } else {
        slots
    }
}

/// The slots after the parts of the entity `id`, if there is one, have
/// been replaced by `c`.
pub open spec fn with_replaced(slots: Seq<Slot>, id: EntityId, c: Components) -> Seq<Slot> {
    if live(slots, id) {
        slots.update(id.slot as int, Slot { generation: id.generation, entity: Some(c) })
    } else {
        slots
    }
}

/// The first free slot lies between `from` and the number of slots; if
/// it is a slot, it is free, and none of those before it is.
pub proof fn lemma_first_free(slots: Seq<Slot>, from: int)
    requires
        0 <= from <= slots.len(),
    ensures
        from <= first_free(slots, from) <= slots.len(),
        first_free(slots, from) < slots.len() ==> slots[first_free(slots, from)].free(),
        forall|k: int| from <= k < first_free(slots, from) ==> !slots[k].free(),
    decreases slots.len() - from,
{
    if from < slots.len() && !slots[from].free() {
        lemma_first_free(slots, from + 1);
    }
}

/// The store of all entities.
pub struct EntityStore {
    pub slots: Vec<Slot>,
}

impl View for EntityStore {
    type V = Seq<Slot>;

    open spec fn view(&self) -> Seq<Slot> {
        self.slots@
    }
}

impl EntityStore {
    /// A store without entities.
    pub fn new() -> (s: EntityStore)
        ensures
            s@ == Seq::<Slot>::empty(),
    {
        EntityStore { slots: Vec::new() }
    }

    /// The number of slots, occupied or not.
    pub fn len(&self) -> (n: usize)
        ensures
            n == self@.len(),
    {
        self.slots.len()
    }

    /// The id of the entity in slot `i`, if the slot is occupied.
    pub fn id_at(&self, i: usize) -> (r: Option<EntityId>)
        ensures
            r == if i < self@.len() && self@[i as int].entity.is_some() {
                Some(EntityId { slot: i, generation: self@[i as int].generation })
            } else {
                None
            },
    {
        if i < self.slots.len() && self.slots[i].entity.is_some() {
            Some(EntityId { slot: i, generation: self.slots[i].generation })
        } else {
            None
        }
    }

    /// The ids of all entities, in the order of their slots. With it a
    /// caller can walk over the entities and change the store on the way.
    pub fn iter_handles(&self) -> (r: Vec<EntityId>)
        ensures
            r@ == handles_of(self@, self@.len() as int),
    {
        let mut r: Vec<EntityId> = Vec::new();
        let n = self.slots.len();
        let mut i: usize = 0;
        while i < n
            invariant
                i <= n,
                n == self@.len(),
                r@ == handles_of(self@, i as int),
            decreases n - i,
        {
            let ghost before = r@;
            if self.slots[i].entity.is_some() {
                r.push(EntityId { slot: i, generation: self.slots[i].generation });
                assert(r@ =~= before.push(
                    EntityId { slot: i, generation: self@[i as int].generation },
                ));
            }
            i += 1;
        }
        r
    }

    /// Creates an entity with the parts `c` in the first free slot, or in
    /// a new slot if none is free.
    pub fn create(&mut self, c: Components) -> (id: EntityId)
        ensures
            id == next_id(old(self)@),
            final(self)@ == with_created(old(self)@, c),
            !live(old(self)@, id),
            !gone(old(self)@, id),
            live(final(self)@, id),
    {
        let mut i: usize = 0;
        while i < self.slots.len()
            invariant
                i <= self.slots.len(),
                *self == *old(self),
                first_free(self@, 0) == first_free(self@, i as int),
            decreases self.slots.len() - i,
        {
            let slot = self.slots[i];
            if slot.entity.is_none() && slot.generation < u32::MAX {
                self.slots[i] = Slot { generation: slot.generation, entity: Some(c) };
                return EntityId { slot: i, generation: slot.generation };
            }
            i += 1;
        }
        self.slots.push(Slot { generation: 0, entity: Some(c) });
        EntityId { slot: i, generation: 0 }
    }

    /// The parts of the entity `id`, or nothing if `id` names no entity.
    pub fn get(&self, id: EntityId) -> (r: Option<Components>)
        ensures
            r == if live(self@, id) {
                self@[id.slot as int].entity
            } else {
                None
            },
    {
        if id.slot < self.slots.len() && self.slots[id.slot].generation == id.generation {
            self.slots[id.slot].entity
        } else {
            None
        }
    }

    /// Replaces the parts of the entity `id`, and says whether `id`
    /// named an entity.
    pub fn replace(&mut self, id: EntityId, c: Components) -> (found: bool)
        ensures
            found == live(old(self)@, id),
            final(self)@ == with_replaced(old(self)@, id, c),
    {
        if id.slot < self.slots.len() && self.slots[id.slot].generation == id.generation
            && self.slots[id.slot].entity.is_some() {
            self.slots[id.slot] = Slot { generation: id.generation, entity: Some(c) };
            true
        } else {
            false
        }
    }

    /// Removes the entity `id` and returns its parts, or nothing if `id`
    /// names no entity. The slot's generation grows, so `id` names
    /// nothing from now on.
    pub fn remove(&mut self, id: EntityId) -> (r: Option<Components>)
        ensures
            r == if live(old(self)@, id) {
                old(self)@[id.slot as int].entity
            } else {
                None
            },
            final(self)@ == with_removed(old(self)@, id),
            !live(final(self)@, id),
    {
        if id.slot < self.slots.len() && self.slots[id.slot].generation == id.generation
            && self.slots[id.slot].entity.is_some() {
            let slot = self.slots[id.slot];
            let generation = if slot.generation < u32::MAX {
                slot.generation + 1
            } else {
                slot.generation
            };
            self.slots[id.slot] = Slot { generation, entity: None };
            slot.entity
        } else {
            None
        }
    }
}

/// An id that names nothing because its entity has left never names
/// anything again, whatever is created, replaced or removed afterwards;
/// and what is created or replaced disturbs no other entity.
pub proof fn lemma_store_steps(slots: Seq<Slot>, id: EntityId, other: EntityId, c: Components)
    ensures
        gone(slots, id) ==> !live(slots, id),
        gone(slots, id) ==> gone(with_created(slots, c), id),
        gone(slots, id) ==> gone(with_removed(slots, other), id),
        gone(slots, id) ==> gone(with_replaced(slots, other, c), id),
        live(slots, id) ==> gone(with_removed(slots, id), id),
        live(slots, id) ==> live(with_created(slots, c), id) && with_created(slots, c)[id.slot as int]
            == slots[id.slot as int],
        live(slots, id) && other != id ==> live(with_removed(slots, other), id) && with_removed(
            slots,
            other,
        )[id.slot as int] == slots[id.slot as int],
{
    lemma_first_free(slots, 0);
}

} // verus!
