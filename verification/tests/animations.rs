use bone_collector::animations_handler::{
    get_top_parent, spawn_animation_stop_watch, AnimationEntityLink, AnimationHandler,
    AnimationStopWatch, ChangeAnimation, ClipRef, Countdown, CreatureInstance, DiscoveredSurface,
    HashMapAnimationClip, PlayCommand, INITIAL_STOPWATCH_DURATION_MS,
};
use bone_collector::creatures::{Creature, CurrentAnimationIndex, TypeCreature};
use bone_collector::directions::{Direction, Vec3i};
use bone_collector::skelly::{setup_skelly, Skelly, SkellyAnimationId};

fn creature(type_creature: TypeCreature, index: usize) -> Creature {
    Creature {
        type_creature,
        direction: Direction::Up,
        direction_vec3: Vec3i { x: 0, y: 0, z: 0 },
        current_animation_index: CurrentAnimationIndex(index),
        can_move: false,
    }
}

#[test]
fn countdown_ticks_and_saturates() {
    let mut c = Countdown::new(1000);
    assert!(!c.finished());
    c.tick(400);
    assert_eq!(c.elapsed_ms, 400);
    assert!(!c.finished());
    c.tick(599);
    assert_eq!(c.elapsed_ms, 999);
    c.tick(5000);
    assert_eq!(c.elapsed_ms, 1000);
    assert!(c.finished());
    c.reset();
    assert_eq!(c.elapsed_ms, 0);
    assert_eq!(c.duration_ms, 1000);
    c.restart(250);
    assert_eq!(c.duration_ms, 250);
    assert_eq!(c.elapsed_ms, 0);
}

#[test]
fn manual_override_is_consumed() {
    let mut w = AnimationStopWatch {
        creature_entity_id: 5,
        index_animation: 1,
        time: Countdown::new(1000),
        manual_termination: true,
    };
    assert!(w.manual_is_over());
    assert!(!w.manual_termination);
    assert!(!w.manual_is_over());
    w.tick(1000);
    assert!(w.manual_is_over());
}

#[test]
fn catalog_insert_and_get_pair() {
    let mut m = HashMapAnimationClip::new();
    assert!(m.get_pair(0).is_none());
    let clip = ClipRef { scene: 4, animation: 0 };
    assert_eq!(m.insert(0, 1300, clip), None);
    assert_eq!(m.get_pair(0), Some((1300, clip)));
    assert!(m.get_pair(1).is_none());
    let clip2 = ClipRef { scene: 4, animation: 9 };
    assert_eq!(m.insert(0, 900, clip2), Some((1300, clip)));
    assert_eq!(m.get_pair(0), Some((900, clip2)));
}

#[test]
fn resolve_registered_indices_round_trip() {
    let scene = setup_skelly(11, TypeCreature::SkellyFullBody);
    for index in 0..11usize {
        let (duration_ms, clip) = scene.vec_animations.resolve(index);
        assert!(duration_ms > 0);
        assert_eq!(clip, ClipRef { scene: 11, animation: index });
        assert_eq!(
            duration_ms,
            SkellyAnimationId::from(index).get_duration_ms()
        );
    }
    assert!(scene.vec_animations.get_pair(11).is_none());
    assert!(scene.activated);
    assert_eq!(scene.type_creature, TypeCreature::SkellyFullBody);
    assert_eq!(scene.creature_entity_id, None);
}

#[test]
fn top_parent_is_last_ancestor() {
    assert_eq!(get_top_parent(9, &vec![3, 8, 7]), 7);
    let none: Vec<u32> = Vec::new();
    assert_eq!(get_top_parent(9, &none), 9);
}

fn spawned_handler(skelly_id: u32) -> AnimationHandler {
    let mut handler = AnimationHandler::new();
    let mut add_events = Vec::new();
    let (creature, _scenes) = Skelly::spawn(skelly_id, 1, 2, 3, &mut add_events);
    for event in add_events {
        handler.add_animation(event);
    }
    handler.creatures.push(CreatureInstance { entity: skelly_id, creature, link: None });
    handler
}

#[test]
fn spawn_registers_three_scenes_and_one_stopwatch() {
    let handler = spawned_handler(7);
    assert_eq!(handler.scene_handlers.0.len(), 3);
    assert_eq!(handler.stopwatches.len(), 1);
    let watch = handler.stopwatches[0];
    assert_eq!(watch.creature_entity_id, 7);
    assert_eq!(watch.index_animation, 0);
    assert_eq!(watch.time.duration_ms, INITIAL_STOPWATCH_DURATION_MS);
    assert!(!watch.manual_termination);
    let creature = handler.creatures[0].creature;
    assert_eq!(creature.type_creature, TypeCreature::SkellyOnlyHead);
    assert_eq!(creature.current_animation_index.get(), 1);
}

// The first animation after a creature's playback surface links: one request
// for index 0, played once, resolved against the head catalog within the
// same tick.
#[test]
fn first_animation_plays_on_link() {
    let mut handler = spawned_handler(7);
    let discovered = vec![DiscoveredSurface { player: 99, ancestors: vec![42, 7] }];
    let newly = handler.link_animations(&discovered);
    assert_eq!(newly, vec![7]);
    assert_eq!(handler.creatures[0].link, Some(AnimationEntityLink(99)));
    handler.start_animation(&newly);
    assert_eq!(
        handler.events,
        vec![ChangeAnimation { target: 7, index: 0, repeat: false }]
    );
    handler.update_animation();
    assert!(handler.events.is_empty());
    assert_eq!(handler.plays.len(), 1);
    assert_eq!(
        handler.plays[0],
        PlayCommand { player: 99, clip: ClipRef { scene: 3, animation: 0 }, repeat: false }
    );
    // The head-only shim records Idle while playing the catalog's clip 0.
    assert_eq!(handler.creatures[0].creature.current_animation_index.get(), 1);
    let watch = handler.stopwatches[0];
    assert_eq!(watch.index_animation, 1);
    assert_eq!(watch.time.duration_ms, 1300);
    assert_eq!(watch.time.elapsed_ms, 0);
}

#[test]
fn second_surface_for_same_top_is_a_conflict() {
    let mut handler = spawned_handler(7);
    let first = vec![DiscoveredSurface { player: 99, ancestors: vec![7] }];
    let newly = handler.link_animations(&first);
    assert_eq!(newly, vec![7]);
    let second = vec![DiscoveredSurface { player: 100, ancestors: vec![7] }];
    let newly2 = handler.link_animations(&second);
    assert!(newly2.is_empty());
    assert_eq!(handler.creatures[0].link, Some(AnimationEntityLink(99)));
}

#[test]
fn dispatch_without_link_is_dropped() {
    let mut handler = spawned_handler(7);
    handler.events.push(ChangeAnimation { target: 7, index: 0, repeat: false });
    handler.update_animation();
    assert!(handler.plays.is_empty());
    assert_eq!(handler.creatures[0].creature.current_animation_index.get(), 1);
}

// Dispatching the same request twice resolves the same pair and resets the
// countdown both times: nothing accumulates.
#[test]
fn dispatch_twice_is_idempotent() {
    let mut handler = spawned_handler(7);
    let newly = handler.link_animations(&vec![DiscoveredSurface {
        player: 99,
        ancestors: vec![7],
    }]);
    handler.start_animation(&newly);
    handler.update_animation();
    let creature_after_one = handler.creatures[0];
    let watch_after_one = handler.stopwatches[0];
    let play_after_one = handler.plays[0];

    // let some time pass, then dispatch the identical request again
    handler.checker_animation_duration(700);
    handler.events.clear();
    handler.events.push(ChangeAnimation { target: 7, index: 0, repeat: false });
    handler.update_animation();

    assert_eq!(handler.creatures[0], creature_after_one);
    assert_eq!(handler.stopwatches[0], watch_after_one);
    assert_eq!(handler.plays.len(), 2);
    assert_eq!(handler.plays[1], play_after_one);
}

// A full-body skeleton whose Idle countdown (1.58 s) reaches zero raises no
// automatic transition: it stays in Idle until an external command arrives.
#[test]
fn idle_expiry_raises_nothing_for_full_body() {
    let mut handler = AnimationHandler::new();
    handler.scene_handlers.0.push(setup_skelly(1, TypeCreature::SkellyFullBody));
    handler.creatures.push(CreatureInstance {
        entity: 7,
        creature: creature(TypeCreature::SkellyFullBody, 1),
        link: Some(AnimationEntityLink(99)),
    });
    handler.stopwatches.push(AnimationStopWatch {
        creature_entity_id: 7,
        index_animation: 1,
        time: Countdown::new(1580),
        manual_termination: false,
    });
    handler.checker_animation_duration(1580);
    assert!(handler.events.is_empty());
    assert_eq!(handler.creatures[0].creature.current_animation_index.get(), 1);
    assert_eq!(handler.stopwatches[0].time.elapsed_ms, 0);
}

// A LookingAround countdown (3.18 s) reaching zero raises exactly one
// transition, to Idle with repeat.
#[test]
fn looking_around_expiry_raises_idle() {
    let mut handler = AnimationHandler::new();
    handler.scene_handlers.0.push(setup_skelly(1, TypeCreature::SkellyFullBody));
    handler.creatures.push(CreatureInstance {
        entity: 7,
        creature: creature(TypeCreature::SkellyFullBody, 2),
        link: Some(AnimationEntityLink(99)),
    });
    handler.stopwatches.push(AnimationStopWatch {
        creature_entity_id: 7,
        index_animation: 2,
        time: Countdown::new(3180),
        manual_termination: false,
    });
    handler.checker_animation_duration(3179);
    assert!(handler.events.is_empty());
    handler.checker_animation_duration(1);
    assert_eq!(
        handler.events,
        vec![ChangeAnimation { target: 7, index: 1, repeat: true }]
    );
}

#[test]
fn remove_animation_drops_first_matching_catalog() {
    let mut handler = spawned_handler(7);
    assert_eq!(handler.scene_handlers.0.len(), 3);
    handler.remove_animation(7);
    assert_eq!(handler.scene_handlers.0.len(), 2);
    handler.remove_animation(1234);
    assert_eq!(handler.scene_handlers.0.len(), 2);
}

#[test]
fn cleanup_creature_forgets_instance_and_watches() {
    let mut handler = spawned_handler(7);
    spawn_animation_stop_watch(8, 0, &mut handler.stopwatches);
    handler.creatures.push(CreatureInstance {
        entity: 8,
        creature: creature(TypeCreature::Bone, 0),
        link: None,
    });
    handler.cleanup_creature(7);
    assert_eq!(handler.creatures.len(), 1);
    assert_eq!(handler.creatures[0].entity, 8);
    assert_eq!(handler.stopwatches.len(), 1);
    assert_eq!(handler.stopwatches[0].creature_entity_id, 8);
}
