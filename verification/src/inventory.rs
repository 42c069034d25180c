//! The player's inventory of collected parts, and the thresholds at which
//! the skeleton can grow into its next form.

use vstd::prelude::*;

use crate::creatures::{
    SceneModelState, TypeCreature, ARMS_NEEDED_FULL_BODY, BONES_NEEDED_FULL_BODY,
    BONES_NEEDED_HALF_BODY, CHEST_NEEDED_FULL_BODY, CHEST_NEEDED_HALF_BODY, LEGS_NEEDED_FULL_BODY,
    LEGS_NEEDED_HALF_BODY,
};

verus! {

pub const STARTING_NB_BONES: usize = 9;
pub const STARTING_NB_CHEST: usize = 0;
pub const STARTING_NB_ARM: usize = 0;
pub const STARTING_NB_LEG: usize = 0;

/// The kinds of item a slot can count; `Empty` marks an unused slot.
#[derive(Clone, Copy, Debug, PartialEq, Eq, Structural)]
pub enum ItemType {
    Empty,
    Chest,
    Leg,
    Bone,
    Arm,
}

impl Default for ItemType {
    fn default() -> (r: Self)
        ensures
            r == ItemType::Empty,
    {
        ItemType::Empty
    }
}

impl ItemType {
    /// The label this item kind carries in the inventory display.
    pub open spec fn spec_text(self) -> Seq<char> {
        match self {
            ItemType::Empty => ""@,
            ItemType::Bone => "Bone:"@,
            ItemType::Chest => "Chest:"@,
            ItemType::Arm => "Arm:"@,
            ItemType::Leg => "Leg:"@,
        }
    }

    pub fn get_text(&self) -> (r: String)
        ensures
            r@ == self.spec_text(),
    {
        match self {
            ItemType::Empty => String::from_str(""),
            ItemType::Bone => String::from_str("Bone:"),
            ItemType::Chest => String::from_str("Chest:"),
            ItemType::Arm => String::from_str("Arm:"),
            ItemType::Leg => String::from_str("Leg:"),
        }
    }
}

/// One inventory slot: an item kind and how many of it are held.
#[derive(Clone, Copy, Debug, PartialEq, Eq, Structural)]
pub struct InventoryEntry {
    pub item: ItemType,
    pub count: usize,
}

/// The player's inventory: four slots in fixed order — bones, arms, legs,
/// chests.
#[derive(Clone, Debug)]
pub struct Inventory {
    items: Vec<InventoryEntry>,
}

impl Inventory {
    pub closed spec fn items_seq(self) -> Seq<InventoryEntry> {
        self.items@
    }

    pub open spec fn wf(self) -> bool {
        &&& self.items_seq().len() == 4
    &&& self.items_seq()[0].item == ItemType::Bone
    &&& self.items_seq()[1].item == ItemType::Arm
    &&& self.items_seq()[2].item == ItemType::Leg
    &&& self.items_seq()[3].item == ItemType::Chest
    }

    pub open spec fn spec_bones(self) -> usize {
        self.items_seq()[0].count
    }

    pub open spec fn spec_arms(self) -> usize {
        self.items_seq()[1].count
    }

    pub open spec fn spec_legs(self) -> usize {
        self.items_seq()[2].count
    }

    pub open spec fn spec_chest(self) -> usize {
        self.items_seq()[3].count
    }

    pub fn add_bone(&mut self, count: usize)
        requires
            old(self).wf(),
            old(self).spec_bones() + count <= usize::MAX,
        ensures
            final(self).wf(),
            final(self).spec_bones() == old(self).spec_bones() + count,
            final(self).spec_arms() == old(self).spec_arms(),
            final(self).spec_legs() == old(self).spec_legs(),
            final(self).spec_chest() == old(self).spec_chest(),
    {
        let slot = vstd::std_specs::vec::vec_index_mut(&mut self.items, 0);
        slot.count = slot.count + count;
    }

    pub fn add_arms(&mut self, count: usize)
        requires
            old(self).wf(),
            old(self).spec_arms() + count <= usize::MAX,
        ensures
            final(self).wf(),
            final(self).spec_arms() == old(self).spec_arms() + count,
            final(self).spec_bones() == old(self).spec_bones(),
            final(self).spec_legs() == old(self).spec_legs(),
            final(self).spec_chest() == old(self).spec_chest(),
    {
        let slot = vstd::std_specs::vec::vec_index_mut(&mut self.items, 1);
        slot.count = slot.count + count;
    }

    pub fn add_legs(&mut self, count: usize)
        requires
            old(self).wf(),
            old(self).spec_legs() + count <= usize::MAX,
        ensures
            final(self).wf(),
            final(self).spec_legs() == old(self).spec_legs() + count,
            final(self).spec_bones() == old(self).spec_bones(),
            final(self).spec_arms() == old(self).spec_arms(),
            final(self).spec_chest() == old(self).spec_chest(),
    {
        let slot = vstd::std_specs::vec::vec_index_mut(&mut self.items, 2);
        slot.count = slot.count + count;
    }

    pub fn add_chest(&mut self, count: usize)
        requires
            old(self).wf(),
            old(self).spec_chest() + count <= usize::MAX,
        ensures
            final(self).wf(),
            final(self).spec_chest() == old(self).spec_chest() + count,
            final(self).spec_bones() == old(self).spec_bones(),
            final(self).spec_arms() == old(self).spec_arms(),
            final(self).spec_legs() == old(self).spec_legs(),
    {
        let slot = vstd::std_specs::vec::vec_index_mut(&mut self.items, 3);
        slot.count = slot.count + count;
    }

    pub fn number_of_bones(&self) -> (r: usize)
        requires
            self.wf(),
        ensures
            r == self.spec_bones(),
    {
        self.items[0].count
    }

    pub fn number_of_arms(&self) -> (r: usize)
        requires
            self.wf(),
        ensures
            r == self.spec_arms(),
    {
        self.items[1].count
    }

    pub fn number_of_legs(&self) -> (r: usize)
        requires
            self.wf(),
        ensures
            r == self.spec_legs(),
    {
        self.items[2].count
    }

    pub fn number_of_chest(&self) -> (r: usize)
        requires
            self.wf(),
        ensures
            r == self.spec_chest(),
    {
        self.items[3].count
    }

    /// Whether the inventory holds enough parts to grow into `type_creature`;
    /// only the half-body and full-body forms can be grown into.
    pub open spec fn spec_has_enough_to_upgrade(self, type_creature: TypeCreature) -> bool {
        if type_creature == TypeCreature::SkellyHalf {
            self.spec_bones() >= BONES_NEEDED_HALF_BODY && self.spec_chest()
                >= CHEST_NEEDED_HALF_BODY && self.spec_legs() >= LEGS_NEEDED_HALF_BODY
        } else if type_creature == TypeCreature::SkellyFullBody {
            self.spec_bones() >= BONES_NEEDED_FULL_BODY && self.spec_chest()
                >= CHEST_NEEDED_FULL_BODY && self.spec_arms() >= ARMS_NEEDED_FULL_BODY
                && self.spec_legs() >= LEGS_NEEDED_FULL_BODY
        } else {
            false
        }
    }

    pub fn has_enough_to_upgrade(&self, type_creature: TypeCreature) -> (r: bool)
        requires
            self.wf(),
        ensures
            r == self.spec_has_enough_to_upgrade(type_creature),
    {
        if !(type_creature == TypeCreature::SkellyHalf || type_creature
            == TypeCreature::SkellyFullBody) {
            return false;
        }

        let bones_count = self.number_of_bones();
        let chest_count = self.number_of_chest();
        let arms_count = self.number_of_arms();
        let legs_count = self.number_of_legs();

        if type_creature == TypeCreature::SkellyHalf {
            if bones_count >= BONES_NEEDED_HALF_BODY && chest_count >= CHEST_NEEDED_HALF_BODY
                && legs_count >= LEGS_NEEDED_HALF_BODY {
                return true;
            }
            return false;
        }

        if bones_count >= BONES_NEEDED_FULL_BODY && chest_count >= CHEST_NEEDED_FULL_BODY
            && arms_count >= ARMS_NEEDED_FULL_BODY && legs_count >= LEGS_NEEDED_FULL_BODY {
            return true;
        }
        false
    }
}

impl Default for Inventory {
    fn default() -> (inv: Self)
        ensures
            inv.wf(),
            inv.spec_bones() == STARTING_NB_BONES,
            inv.spec_arms() == STARTING_NB_ARM,
            inv.spec_legs() == STARTING_NB_LEG,
            inv.spec_chest() == STARTING_NB_CHEST,
    {
        let mut items: Vec<InventoryEntry> = Vec::new();
        items.push(InventoryEntry { item: ItemType::Bone, count: STARTING_NB_BONES });
        items.push(InventoryEntry { item: ItemType::Arm, count: STARTING_NB_ARM });
        items.push(InventoryEntry { item: ItemType::Leg, count: STARTING_NB_LEG });
        items.push(InventoryEntry { item: ItemType::Chest, count: STARTING_NB_CHEST });
        Inventory { items }
    }
}

/// Adds a picked-up part to its slot: chests, legs, bones and arms each go to
/// their counter, and any other archetype is not collectible.
pub fn update_inventory_on_pickup(inventory: &mut Inventory, type_creature: TypeCreature)
    requires
        old(inventory).wf(),
        type_creature == TypeCreature::Bone ==> old(inventory).spec_bones() < usize::MAX,
        type_creature == TypeCreature::Arm ==> old(inventory).spec_arms() < usize::MAX,
        type_creature == TypeCreature::Leg ==> old(inventory).spec_legs() < usize::MAX,
        type_creature == TypeCreature::Chest ==> old(inventory).spec_chest() < usize::MAX,
    ensures
        final(inventory).wf(),
        final(inventory).spec_bones() == old(inventory).spec_bones() + (if type_creature
            == TypeCreature::Bone {
            1int
        } else {
            0int
        }),
        final(inventory).spec_arms() == old(inventory).spec_arms() + (if type_creature
            == TypeCreature::Arm {
            1int
        } else {
            0int
        }),
        final(inventory).spec_legs() == old(inventory).spec_legs() + (if type_creature
            == TypeCreature::Leg {
            1int
        } else {
            0int
        }),
        final(inventory).spec_chest() == old(inventory).spec_chest() + (if type_creature
            == TypeCreature::Chest {
            1int
        } else {
            0int
        }),
{
    match type_creature {
        TypeCreature::Chest => inventory.add_chest(1),
        TypeCreature::Leg => inventory.add_legs(1),
        TypeCreature::Bone => inventory.add_bone(1),
        TypeCreature::Arm => inventory.add_arms(1),
        _ => {
        },
    }
}

/// The model state the game moves to once the inventory suffices: a head
/// grows into the half body, a half body into the full body, and the full
/// body is final.
pub open spec fn spec_next_model_state(inv: Inventory, state: SceneModelState) -> Option<
    SceneModelState,
> {
    match state {
        SceneModelState::FullBody => None,
        SceneModelState::HalfBody => if inv.spec_has_enough_to_upgrade(
            TypeCreature::SkellyFullBody,
        ) {
            Some(SceneModelState::FullBody)
        } else {
            None
        },
        SceneModelState::OnlyHead => if inv.spec_has_enough_to_upgrade(TypeCreature::SkellyHalf) {
            Some(SceneModelState::HalfBody)
        } else {
            None
        },
    }
}

/// Decides whether the collected parts trigger the next form of the player
/// model.
pub fn update_game_state_on_inventory(inventory: &Inventory, state: &SceneModelState) -> (r:
    Option<SceneModelState>)
    requires
        inventory.wf(),
    ensures
        r == spec_next_model_state(*inventory, *state),
{
    match state {
        SceneModelState::FullBody => None,
        SceneModelState::HalfBody => {
            if inventory.has_enough_to_upgrade(TypeCreature::SkellyFullBody) {
                Some(SceneModelState::FullBody)
            } else {
                None
            }
        },
        SceneModelState::OnlyHead => {
            if inventory.has_enough_to_upgrade(TypeCreature::SkellyHalf) {
                Some(SceneModelState::HalfBody)
            } else {
                None
            }
        },
    }
}

} // verus!
