use bone_collector::creatures::{SceneModelState, TypeCreature};
use bone_collector::directions::{map_vec3_to_direction, Direction, Vec3i};
use bone_collector::gate::{
    collision_with_chain_door, collision_with_chain_text, ChainTextAction, GateState,
};
use bone_collector::inventory::{
    update_game_state_on_inventory, update_inventory_on_pickup, Inventory, ItemType,
};

#[test]
fn inventory_starts_with_nine_bones() {
    let inv = Inventory::default();
    assert_eq!(inv.number_of_bones(), 9);
    assert_eq!(inv.number_of_arms(), 0);
    assert_eq!(inv.number_of_legs(), 0);
    assert_eq!(inv.number_of_chest(), 0);
}

#[test]
fn pickups_land_in_their_slot() {
    let mut inv = Inventory::default();
    update_inventory_on_pickup(&mut inv, TypeCreature::Bone);
    update_inventory_on_pickup(&mut inv, TypeCreature::Leg);
    update_inventory_on_pickup(&mut inv, TypeCreature::Leg);
    update_inventory_on_pickup(&mut inv, TypeCreature::Chest);
    update_inventory_on_pickup(&mut inv, TypeCreature::Arm);
    update_inventory_on_pickup(&mut inv, TypeCreature::SkellyFullBody);
    assert_eq!(inv.number_of_bones(), 10);
    assert_eq!(inv.number_of_legs(), 2);
    assert_eq!(inv.number_of_chest(), 1);
    assert_eq!(inv.number_of_arms(), 1);
}

#[test]
fn half_body_threshold_is_exact() {
    let mut inv = Inventory::default();
    assert!(!inv.has_enough_to_upgrade(TypeCreature::SkellyHalf));
    update_inventory_on_pickup(&mut inv, TypeCreature::Bone);
    update_inventory_on_pickup(&mut inv, TypeCreature::Chest);
    update_inventory_on_pickup(&mut inv, TypeCreature::Leg);
    assert!(!inv.has_enough_to_upgrade(TypeCreature::SkellyHalf));
    update_inventory_on_pickup(&mut inv, TypeCreature::Leg);
    assert!(inv.has_enough_to_upgrade(TypeCreature::SkellyHalf));
    assert!(!inv.has_enough_to_upgrade(TypeCreature::SkellyFullBody));
    assert!(!inv.has_enough_to_upgrade(TypeCreature::SkellyOnlyHead));
    assert!(!inv.has_enough_to_upgrade(TypeCreature::Bone));
}

#[test]
fn full_body_threshold_needs_arms() {
    let mut inv = Inventory::default();
    inv.add_bone(36);
    inv.add_chest(1);
    inv.add_legs(2);
    assert!(!inv.has_enough_to_upgrade(TypeCreature::SkellyFullBody));
    inv.add_arms(2);
    assert!(inv.has_enough_to_upgrade(TypeCreature::SkellyFullBody));
}

#[test]
fn model_state_advances_on_enough_parts() {
    let mut inv = Inventory::default();
    assert_eq!(update_game_state_on_inventory(&inv, &SceneModelState::OnlyHead), None);
    inv.add_bone(1);
    inv.add_chest(1);
    inv.add_legs(2);
    assert_eq!(
        update_game_state_on_inventory(&inv, &SceneModelState::OnlyHead),
        Some(SceneModelState::HalfBody)
    );
    assert_eq!(update_game_state_on_inventory(&inv, &SceneModelState::HalfBody), None);
    inv.add_bone(35);
    inv.add_arms(2);
    assert_eq!(
        update_game_state_on_inventory(&inv, &SceneModelState::HalfBody),
        Some(SceneModelState::FullBody)
    );
    assert_eq!(update_game_state_on_inventory(&inv, &SceneModelState::FullBody), None);
}

#[test]
fn item_labels() {
    assert_eq!(ItemType::Bone.get_text(), "Bone:");
    assert_eq!(ItemType::Chest.get_text(), "Chest:");
    assert_eq!(ItemType::Arm.get_text(), "Arm:");
    assert_eq!(ItemType::Leg.get_text(), "Leg:");
    assert_eq!(ItemType::Empty.get_text(), "");
    assert_eq!(ItemType::default(), ItemType::Empty);
}

#[test]
fn chain_text_only_before_full_body() {
    assert_eq!(
        collision_with_chain_text(&SceneModelState::OnlyHead, true, true),
        ChainTextAction::ShowHelp
    );
    assert_eq!(
        collision_with_chain_text(&SceneModelState::HalfBody, true, false),
        ChainTextAction::HideHelp
    );
    assert_eq!(
        collision_with_chain_text(&SceneModelState::FullBody, true, true),
        ChainTextAction::Nothing
    );
    assert_eq!(
        collision_with_chain_text(&SceneModelState::OnlyHead, false, true),
        ChainTextAction::Nothing
    );
}

#[test]
fn chain_opens_gate_only_for_full_body() {
    assert_eq!(
        collision_with_chain_door(&SceneModelState::FullBody, &GateState::Closed, true),
        Some(GateState::Opening)
    );
    assert_eq!(
        collision_with_chain_door(&SceneModelState::HalfBody, &GateState::Closed, true),
        None
    );
    assert_eq!(
        collision_with_chain_door(&SceneModelState::FullBody, &GateState::Opening, true),
        None
    );
    assert_eq!(
        collision_with_chain_door(&SceneModelState::FullBody, &GateState::Closed, false),
        None
    );
}

#[test]
fn directions_map_from_vectors() {
    assert_eq!(map_vec3_to_direction(Vec3i { x: 1, y: 0, z: 1 }), Ok(Direction::Up));
    assert_eq!(map_vec3_to_direction(Vec3i { x: 0, y: 0, z: 2 }), Ok(Direction::UpRight));
    assert_eq!(map_vec3_to_direction(Vec3i { x: -2, y: 0, z: 1 }), Ok(Direction::Right));
    assert_eq!(map_vec3_to_direction(Vec3i { x: -1, y: 0, z: 0 }), Ok(Direction::DownRight));
    assert_eq!(map_vec3_to_direction(Vec3i { x: -1, y: 0, z: -2 }), Ok(Direction::Down));
    assert_eq!(map_vec3_to_direction(Vec3i { x: 0, y: 0, z: -1 }), Ok(Direction::DownLeft));
    assert_eq!(map_vec3_to_direction(Vec3i { x: 2, y: 0, z: -1 }), Ok(Direction::Left));
    assert_eq!(map_vec3_to_direction(Vec3i { x: 1, y: 0, z: 0 }), Ok(Direction::UpLeft));
    assert_eq!(
        map_vec3_to_direction(Vec3i { x: 0, y: 0, z: 0 }),
        Err(String::from("vector_direction not equals to 1 or 2"))
    );
    assert_eq!(
        map_vec3_to_direction(Vec3i { x: 5, y: 0, z: 1 }),
        Err(String::from("vector_direction not equals to 1 or 2"))
    );
}

#[test]
fn direction_vectors_match_facings() {
    assert_eq!(Direction::Up.get_vec3(), Vec3i { x: 1, y: 0, z: 1 });
    assert_eq!(Direction::Down.get_vec3(), Vec3i { x: -1, y: 0, z: -1 });
    assert_eq!(Direction::Left.get_vec3(), Vec3i { x: 1, y: 0, z: -1 });
    assert_eq!(Direction::Right.get_vec3(), Vec3i { x: -1, y: 0, z: 1 });
}
