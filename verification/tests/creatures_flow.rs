use bone_collector::animations_handler::{
    AnimationEntityLink, AnimationHandler, AnimationStopWatch, ChangeAnimation, Countdown,
    CreatureInstance,
};
use bone_collector::creatures::{
    keyboard_control, update_player_model, Creature, CurrentAnimationIndex, KeyboardDecision,
    SceneModelState, TypeCreature,
};
use bone_collector::directions::{Direction, Vec3i};
use bone_collector::skelly::{setup_skelly, SkellyAnimationId};

fn creature(type_creature: TypeCreature, index: usize) -> Creature {
    Creature {
        type_creature,
        direction: Direction::Up,
        direction_vec3: Vec3i { x: 0, y: 0, z: 0 },
        current_animation_index: CurrentAnimationIndex(index),
        can_move: false,
    }
}

// The form-upgrade flow: the archetype swaps in the same tick as the manual
// override is set, and the next sweep raises the new archetype's starting
// transition even though the old countdown had not elapsed.
#[test]
fn form_upgrade_forces_transition_for_new_archetype() {
    let mut handler = AnimationHandler::new();
    handler.scene_handlers.0.push(setup_skelly(2, TypeCreature::SkellyHalf));
    handler.scene_handlers.0.push(setup_skelly(3, TypeCreature::SkellyOnlyHead));
    handler.creatures.push(CreatureInstance {
        entity: 7,
        creature: creature(TypeCreature::SkellyOnlyHead, 1),
        link: Some(AnimationEntityLink(99)),
    });
    handler.stopwatches.push(AnimationStopWatch {
        creature_entity_id: 7,
        index_animation: 1,
        time: Countdown { duration_ms: 1300, elapsed_ms: 100 },
        manual_termination: false,
    });

    update_player_model(&mut handler, 7, &SceneModelState::OnlyHead);

    let player = handler.creatures[0];
    assert_eq!(player.creature.type_creature, TypeCreature::SkellyHalf);
    assert_eq!(player.creature.current_animation_index.get(), 11);
    assert_eq!(player.link, None);
    assert!(handler.stopwatches[0].manual_termination);
    assert_eq!(handler.stopwatches[0].index_animation, 11);

    // the countdown (100 of 1300 ms elapsed) has not run out, yet the sweep
    // treats it as expired and raises the half body's starting transition
    handler.checker_animation_duration(10);
    assert_eq!(
        handler.events,
        vec![ChangeAnimation { target: 7, index: 0, repeat: false }]
    );
    assert!(!handler.stopwatches[0].manual_termination);
}

#[test]
fn downgrade_from_full_body_keeps_idle() {
    let mut handler = AnimationHandler::new();
    handler.creatures.push(CreatureInstance {
        entity: 7,
        creature: creature(TypeCreature::SkellyFullBody, 6),
        link: Some(AnimationEntityLink(99)),
    });
    update_player_model(&mut handler, 7, &SceneModelState::FullBody);
    let player = handler.creatures[0];
    assert_eq!(player.creature.type_creature, TypeCreature::SkellyOnlyHead);
    assert_eq!(player.creature.current_animation_index.get(), 1);
}

#[test]
fn halting_while_walking_returns_to_idle() {
    let c = creature(TypeCreature::SkellyFullBody, SkellyAnimationId::Walk.as_index());
    let r = keyboard_control(7, &c, Vec3i { x: 0, y: 0, z: 0 }, false);
    assert_eq!(
        r,
        KeyboardDecision::Halt {
            emit: Some(ChangeAnimation { target: 7, index: 1, repeat: true })
        }
    );
    let idle = creature(TypeCreature::SkellyFullBody, 1);
    let r2 = keyboard_control(7, &idle, Vec3i { x: 0, y: 0, z: 0 }, false);
    assert_eq!(r2, KeyboardDecision::Halt { emit: None });
}

#[test]
fn movement_is_blocked_outside_idle_walk_run() {
    let c = creature(TypeCreature::SkellyFullBody, SkellyAnimationId::Spawn.as_index());
    let r = keyboard_control(7, &c, Vec3i { x: 1, y: 0, z: 1 }, false);
    assert_eq!(r, KeyboardDecision::Blocked);
    let prop = creature(TypeCreature::Bone, 1);
    assert_eq!(
        keyboard_control(8, &prop, Vec3i { x: 1, y: 0, z: 1 }, false),
        KeyboardDecision::Blocked
    );
}

#[test]
fn walking_starts_the_walk_animation() {
    let c = creature(TypeCreature::SkellyFullBody, 1);
    let r = keyboard_control(7, &c, Vec3i { x: 1, y: 0, z: 1 }, false);
    assert_eq!(
        r,
        KeyboardDecision::Move {
            direction: Direction::Up,
            run: false,
            emit: Some(ChangeAnimation { target: 7, index: 5, repeat: true })
        }
    );
}

#[test]
fn shift_switches_walk_to_run_and_back() {
    let walking = creature(TypeCreature::SkellyHalf, 5);
    let r = keyboard_control(7, &walking, Vec3i { x: 0, y: 0, z: 2 }, true);
    assert_eq!(
        r,
        KeyboardDecision::Move {
            direction: Direction::UpRight,
            run: true,
            emit: Some(ChangeAnimation { target: 7, index: 6, repeat: true })
        }
    );
    let running = creature(TypeCreature::SkellyHalf, 6);
    let r2 = keyboard_control(7, &running, Vec3i { x: 0, y: 0, z: 2 }, true);
    assert_eq!(
        r2,
        KeyboardDecision::Move { direction: Direction::UpRight, run: true, emit: None }
    );
}

#[test]
fn head_moves_without_running_or_animating() {
    let head = creature(TypeCreature::SkellyOnlyHead, 1);
    let r = keyboard_control(7, &head, Vec3i { x: -1, y: 0, z: -1 }, true);
    assert_eq!(
        r,
        KeyboardDecision::Move { direction: Direction::Down, run: false, emit: None }
    );
}
