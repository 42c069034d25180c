use bone_collector::animations_handler::ChangeAnimation;
use bone_collector::creatures::{Creature, CurrentAnimationIndex, TypeCreature};
use bone_collector::directions::{Direction, Vec3i};
use bone_collector::skelly::{Skelly, SkellyAnimationId};

fn idle_creature(type_creature: TypeCreature) -> Creature {
    Creature {
        type_creature,
        direction: Direction::Up,
        direction_vec3: Vec3i { x: 0, y: 0, z: 0 },
        current_animation_index: CurrentAnimationIndex(SkellyAnimationId::Idle as usize),
        can_move: false,
    }
}

#[test]
fn test_can_move() {
    let mut creature = idle_creature(TypeCreature::SkellyFullBody);

    assert_eq!(true, Skelly::can_move(creature.current_animation_index.0 as usize));

    creature.current_animation_index = CurrentAnimationIndex(SkellyAnimationId::Spawn as usize);
    assert_eq!(false, Skelly::can_move(creature.current_animation_index.0 as usize));

    creature.current_animation_index =
        CurrentAnimationIndex(SkellyAnimationId::LookingAround as usize);
    assert_eq!(false, Skelly::can_move(creature.current_animation_index.0 as usize));
}

#[test]
fn can_move_exactly_idle_walk_run() {
    for index in 0..12usize {
        let expected = index == 1 || index == 5 || index == 6;
        assert_eq!(expected, Skelly::can_move(index));
    }
}

#[test]
fn transition_idle_is_terminal() {
    let mut events: Vec<ChangeAnimation> = Vec::new();
    Skelly::update_animation(7, SkellyAnimationId::Idle.as_index(), &mut events);
    assert!(events.is_empty());
}

#[test]
fn transition_walk_and_run_are_terminal() {
    let mut events: Vec<ChangeAnimation> = Vec::new();
    Skelly::update_animation(7, SkellyAnimationId::Walk.as_index(), &mut events);
    Skelly::update_animation(7, SkellyAnimationId::Run.as_index(), &mut events);
    assert!(events.is_empty());
}

#[test]
fn transition_looking_around_returns_to_idle() {
    let mut events: Vec<ChangeAnimation> = Vec::new();
    Skelly::update_animation(7, SkellyAnimationId::LookingAround.as_index(), &mut events);
    assert_eq!(events.len(), 1);
    assert_eq!(
        events[0],
        ChangeAnimation { target: 7, index: SkellyAnimationId::Idle.as_index(), repeat: true }
    );
}

#[test]
fn transition_spawn_looks_around_once() {
    let mut events: Vec<ChangeAnimation> = Vec::new();
    Skelly::update_animation(7, SkellyAnimationId::Spawn.as_index(), &mut events);
    assert_eq!(events.len(), 1);
    assert_eq!(
        events[0],
        ChangeAnimation {
            target: 7,
            index: SkellyAnimationId::LookingAround.as_index(),
            repeat: false
        }
    );
}

#[test]
fn transition_out_of_range_spawns() {
    let mut events: Vec<ChangeAnimation> = Vec::new();
    Skelly::update_animation(7, 11, &mut events);
    assert_eq!(events.len(), 1);
    assert_eq!(
        events[0],
        ChangeAnimation { target: 7, index: SkellyAnimationId::Spawn.as_index(), repeat: false }
    );

    let mut far: Vec<ChangeAnimation> = Vec::new();
    Skelly::update_animation(7, 999, &mut far);
    assert_eq!(far.len(), 1);
    assert_eq!(far[0].index, SkellyAnimationId::Spawn.as_index());
    assert!(!far[0].repeat);
}

#[test]
fn terminal_states_emit_nothing() {
    for id in [
        SkellyAnimationId::Attack,
        SkellyAnimationId::Yell,
        SkellyAnimationId::Fall,
        SkellyAnimationId::Hit,
        SkellyAnimationId::Die,
        SkellyAnimationId::Hanged,
    ] {
        let mut events: Vec<ChangeAnimation> = Vec::new();
        Skelly::update_animation(3, id.as_index(), &mut events);
        assert!(events.is_empty());
    }
}

#[test]
fn prop_archetypes_always_loop_index_zero() {
    let creature = idle_creature(TypeCreature::Bone);
    let mut events: Vec<ChangeAnimation> = Vec::new();
    creature.update_animation(9, SkellyAnimationId::Yell.as_index(), &mut events);
    assert_eq!(events, vec![ChangeAnimation { target: 9, index: 0, repeat: true }]);
}

#[test]
fn durations_match_the_clips() {
    assert_eq!(SkellyAnimationId::Spawn.get_duration_ms(), 1300);
    assert_eq!(SkellyAnimationId::Idle.get_duration_ms(), 1580);
    assert_eq!(SkellyAnimationId::LookingAround.get_duration_ms(), 3180);
    assert_eq!(SkellyAnimationId::Attack.get_duration_ms(), 2320);
    assert_eq!(SkellyAnimationId::Yell.get_duration_ms(), 1580);
    assert_eq!(SkellyAnimationId::Walk.get_duration_ms(), 980);
    assert_eq!(SkellyAnimationId::Run.get_duration_ms(), 780);
    assert_eq!(SkellyAnimationId::Fall.get_duration_ms(), 1100);
    assert_eq!(SkellyAnimationId::Hit.get_duration_ms(), 620);
    assert_eq!(SkellyAnimationId::Die.get_duration_ms(), 1060);
    assert_eq!(SkellyAnimationId::Hanged.get_duration_ms(), 1580);
    assert_eq!(SkellyAnimationId::Unset.get_duration_ms(), 0);
}

#[test]
fn index_round_trip() {
    for index in 0..12usize {
        let id = SkellyAnimationId::from(index);
        assert_eq!(id.as_index(), index);
    }
    assert_eq!(SkellyAnimationId::from(42), SkellyAnimationId::Unset);
    let current = CurrentAnimationIndex::from(SkellyAnimationId::Run);
    assert_eq!(current.get(), 6);
    assert!(current.equals_id(SkellyAnimationId::Run));
    assert!(!current.equals_id(SkellyAnimationId::Walk));
    assert_eq!(CurrentAnimationIndex::from(4usize).get(), 4);
}
