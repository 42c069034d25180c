//! Creature archetypes, the per-creature animation record, and the
//! archetype-level transition policy.

use vstd::prelude::*;

use crate::animations_handler::{
    find_creature, spec_creature_at, spec_has_creature, AnimationHandler, AnimationStopWatch,
    ChangeAnimation, CreatureInstance, SceneHandle,
};
use crate::directions::{spec_direction_of, Direction, Vec3i};
use crate::directions::map_vec3_to_direction_total;
use crate::skelly::{spec_can_move, spec_transition, Skelly, SkellyAnimationId};

verus! {

pub const BONES_NEEDED_HALF_BODY: usize = 10;
pub const CHEST_NEEDED_HALF_BODY: usize = 1;
pub const LEGS_NEEDED_HALF_BODY: usize = 2;

pub const BONES_NEEDED_FULL_BODY: usize = 45;
pub const CHEST_NEEDED_FULL_BODY: usize = 1;
pub const ARMS_NEEDED_FULL_BODY: usize = 2;
pub const LEGS_NEEDED_FULL_BODY: usize = 2;

/// The archetype of a creature: which animation catalog and transition policy
/// apply to it. The three skeleton forms drive the player model; the other
/// variants are prop-like collectible parts.
#[derive(Clone, Copy, Debug, PartialEq, Eq, Structural)]
pub enum TypeCreature {
    SkellyFullBody,
    SkellyOnlyHead,
    SkellyHalf,
    Chest,
    Head,
    Leg,
    Bone,
    Arm,
}

impl TypeCreature {
    /// The skeleton forms share the skeleton policy; every other archetype is
    /// a simple prop.
    pub open spec fn is_skelly(self) -> bool {
        self == TypeCreature::SkellyFullBody || self == TypeCreature::SkellyHalf
            || self == TypeCreature::SkellyOnlyHead
    }
}

/// The player model's growth state, as the game state machine tracks it.
#[derive(Clone, Copy, Debug, PartialEq, Eq, Hash, Structural)]
pub enum SceneModelState {
    FullBody,
    HalfBody,
    OnlyHead,
}

/// The index, in the creature's catalog, of the animation currently playing.
#[derive(Clone, Copy, Debug, PartialEq, Eq, Structural)]
pub struct CurrentAnimationIndex(pub usize);

impl CurrentAnimationIndex {
    pub fn get(&self) -> (r: usize)
        ensures
            r == self.0,
    {
        self.0
    }

    /// Whether this index is the catalog position of the given animation
    /// state.
    pub fn equals_id(&self, other: SkellyAnimationId) -> (r: bool)
        ensures
            r == (self.0 == other.spec_index()),
    {
        self.0 == other.as_index()
    }
}

impl From<usize> for CurrentAnimationIndex {
    fn from(a: usize) -> Self {
        CurrentAnimationIndex(a)
    }
}

impl vstd::std_specs::convert::FromSpecImpl<usize> for CurrentAnimationIndex {
    open spec fn obeys_from_spec() -> bool {
        true
    }

    open spec fn from_spec(a: usize) -> Self {
        CurrentAnimationIndex(a)
    }
}

/// One animated creature: its archetype, facing, and playback record.
#[derive(Clone, Copy, Debug, PartialEq, Eq, Structural)]
pub struct Creature {
    pub type_creature: TypeCreature,
    pub direction: Direction,
    pub direction_vec3: Vec3i,
    /// Index (in the creature's catalog) of the animation being played.
    pub current_animation_index: CurrentAnimationIndex,
    pub can_move: bool,
}

/// The three loaded skeleton scenes, in form order: full body, half body,
/// head only. Kept so that a form change can swap the player's model.
pub struct VecSkellyScenes(pub Vec<SceneHandle>);

/// The archetype-level transition policy: skeleton forms follow the skeleton
/// policy; prop archetypes always loop their single clip at index 0.
pub open spec fn spec_policy(tc: TypeCreature, index: usize) -> Option<(usize, bool)> {
    if tc.is_skelly() {
        match spec_transition(index) {
            Some(next) => Some((next.0.spec_index(), next.1)),
            None => None,
        }
    } else {
        Some((0usize, true))
    }
}

impl Creature {
    /// Queues the follow-up request for this creature once the animation at
    /// `index_animation` has finished, according to its archetype's policy.
    pub fn update_animation(&self, target: u32, index_animation: usize, events: &mut Vec<ChangeAnimation>)
        ensures
            match spec_policy(self.type_creature, index_animation) {
                Some(next) => final(events)@ == old(events)@.push(
                    (ChangeAnimation { target, index: next.0, repeat: next.1 }),
                ),
                None => final(events)@ == old(events)@,
            },
    {
        match self.type_creature {
            TypeCreature::SkellyFullBody | TypeCreature::SkellyHalf | TypeCreature::SkellyOnlyHead => {
                Skelly::update_animation(target, index_animation, events);
            }
            _ => {
                events.push(ChangeAnimation { target, index: 0, repeat: true });
            }
        }
    }
}

/// What the movement pass should do with the player this tick.
#[derive(Clone, Copy, Debug, PartialEq, Eq, Structural)]
pub enum KeyboardDecision {
    /// No direction is held: horizontal motion stops, and a walking or
    /// running skeleton is sent back to looping Idle.
    Halt { emit: Option<ChangeAnimation> },
    /// The current animation does not allow movement, or the creature is not
    /// player-driven: the input is ignored.
    Blocked,
    /// Move facing `direction`, running when `run`; `emit` carries the walk
    /// or run request when the playing animation has to change.
    Move { direction: Direction, run: bool, emit: Option<ChangeAnimation> },
}

/// The movement decision for the player: a zero input vector halts it (and
/// returns a walking or running skeleton to looping Idle); otherwise the
/// half- and full-body forms move only while their animation allows it, the
/// head-only form always moves but never runs and never re-animates, and
/// prop archetypes ignore input.
pub open spec fn spec_keyboard_control(
    entity: u32,
    c: Creature,
    vector_direction: Vec3i,
    shift_held: bool,
) -> KeyboardDecision {
    let run = c.type_creature != TypeCreature::SkellyOnlyHead && shift_held;
    if vector_direction == Vec3i::spec_zero() {
        KeyboardDecision::Halt {
            emit: if c.current_animation_index.0 == SkellyAnimationId::Walk.spec_index()
                || c.current_animation_index.0 == SkellyAnimationId::Run.spec_index() {
                Some(
                    ChangeAnimation {
                        target: entity,
                        index: SkellyAnimationId::Idle.spec_index(),
                        repeat: true,
                    },
                )
            } else {
                None
            },
        }
    } else if c.type_creature == TypeCreature::SkellyFullBody || c.type_creature
        == TypeCreature::SkellyHalf {
        if !spec_can_move(c.current_animation_index.0) {
            KeyboardDecision::Blocked
        } else {
            let moving = if run {
                SkellyAnimationId::Run
            } else {
                SkellyAnimationId::Walk
            };
            KeyboardDecision::Move {
                direction: spec_direction_of(vector_direction)->Some_0,
                run,
                emit: if moving.spec_index() == c.current_animation_index.0 {
                    None
                } else {
                    Some(
                        ChangeAnimation {
                            target: entity,
                            index: moving.spec_index(),
                            repeat: true,
                        },
                    )
                },
            }
        }
    } else if c.type_creature == TypeCreature::SkellyOnlyHead {
        KeyboardDecision::Move {
            direction: spec_direction_of(vector_direction)->Some_0,
            run: false,
            emit: None,
        }
    } else {
        KeyboardDecision::Blocked
    }
}

/// Decides what movement input does to the player this tick. The input
/// vector is a sum of the per-key unit vectors, so a nonzero one always maps
/// to a direction.
pub fn keyboard_control(
    entity: u32,
    creature: &Creature,
    vector_direction: Vec3i,
    shift_held: bool,
) -> (r: KeyboardDecision)
    requires
        vector_direction == Vec3i::spec_zero() || spec_direction_of(vector_direction) is Some,
    ensures
        r == spec_keyboard_control(entity, *creature, vector_direction, shift_held),
{
    let run = creature.type_creature != TypeCreature::SkellyOnlyHead && shift_held;
    if vector_direction.x == 0 && vector_direction.y == 0 && vector_direction.z == 0 {
        let walking = creature.current_animation_index.equals_id(SkellyAnimationId::Walk)
            || creature.current_animation_index.equals_id(SkellyAnimationId::Run);
        KeyboardDecision::Halt {
            emit: if walking {
                Some(
                    ChangeAnimation {
                        target: entity,
                        index: SkellyAnimationId::Idle.as_index(),
                        repeat: true,
                    },
                )
            } else {
                None
            },
        }
    } else {
        match creature.type_creature {
            TypeCreature::SkellyFullBody | TypeCreature::SkellyHalf => {
                if !Skelly::can_move(creature.current_animation_index.get()) {
                    KeyboardDecision::Blocked
                } else {
                    let direction = map_vec3_to_direction_total(vector_direction);
                    let moving = if run {
                        SkellyAnimationId::Run
                    } else {
                        SkellyAnimationId::Walk
                    };
                    let moving_index = moving.as_index();
                    KeyboardDecision::Move {
                        direction,
                        run,
                        emit: if moving_index == creature.current_animation_index.get() {
                            None
                        } else {
                            Some(
                                ChangeAnimation { target: entity, index: moving_index, repeat: true },
                            )
                        },
                    }
                }
            },
            TypeCreature::SkellyOnlyHead => {
                let direction = map_vec3_to_direction_total(vector_direction);
                KeyboardDecision::Move { direction, run: false, emit: None }
            },
            _ => KeyboardDecision::Blocked,
        }
    }
}

/// The form a completed upgrade (or downgrade) leaves the player in when the
/// model state machine exits `state`, and the animation index recorded with
/// it: a growing skeleton restarts its playback from the unset sentinel, so
/// the next sweep raises the spawn sequence; falling back to the head form
/// keeps Idle.
pub open spec fn spec_upgrade_form(state: SceneModelState) -> (TypeCreature, usize) {
    match state {
        SceneModelState::OnlyHead => (
            TypeCreature::SkellyHalf,
            SkellyAnimationId::Unset.spec_index(),
        ),
        SceneModelState::HalfBody => (
            TypeCreature::SkellyFullBody,
            SkellyAnimationId::Unset.spec_index(),
        ),
        SceneModelState::FullBody => (
            TypeCreature::SkellyOnlyHead,
            SkellyAnimationId::Idle.spec_index(),
        ),
    }
}

/// What the form change does to one stop watch: the player's watch records
/// the new index and is flagged for manual termination, so the next sweep
/// treats it as expired; every other watch is untouched.
pub open spec fn spec_watch_overridden(
    w: AnimationStopWatch,
    player: u32,
    idx: usize,
) -> AnimationStopWatch {
    if w.creature_entity_id == player {
        AnimationStopWatch { index_animation: idx, manual_termination: true, ..w }
    } else {
        w
    }
}

/// Swaps the player to the next form when the model state machine exits
/// `scene_state`: the creature takes the new archetype and animation index,
/// its playback link is dropped with the torn-down scene, and its stop watch
/// is flagged for manual termination so the new form's first animation is
/// raised on the next sweep.
pub fn update_player_model(
    handler: &mut AnimationHandler,
    player: u32,
    scene_state: &SceneModelState,
)
    requires
        old(handler).wf(),
    ensures
        final(handler).wf(),
        final(handler).scene_handlers.0@ == old(handler).scene_handlers.0@,
        final(handler).events@ == old(handler).events@,
        final(handler).plays@ == old(handler).plays@,
        ({
            let c0 = old(handler).creatures@;
            let tc = spec_upgrade_form(*scene_state).0;
            let idx = spec_upgrade_form(*scene_state).1;
            if spec_has_creature(c0, player) {
                let ci = spec_creature_at(c0, player);
                &&& final(handler).creatures@ == c0.update(
                    ci,
                    (CreatureInstance {
                        creature: Creature {
                            type_creature: tc,
                            current_animation_index: CurrentAnimationIndex(idx),
                            ..c0[ci].creature
                        },
                        link: None,
                        ..c0[ci]
                    }),
                )
                &&& final(handler).stopwatches@ == old(handler).stopwatches@.map_values(
                    |w: AnimationStopWatch| spec_watch_overridden(w, player, idx),
                )
            } else {
                &&& final(handler).creatures@ == c0
                &&& final(handler).stopwatches@ == old(handler).stopwatches@
            }
        }),
{
    let ghost m0 = handler.model();
    let ghost c0 = handler.creatures@;
    let new_type: TypeCreature;
    let idx: usize;
    match scene_state {
        SceneModelState::OnlyHead => {
            new_type = TypeCreature::SkellyHalf;
            idx = SkellyAnimationId::Unset.as_index();
        },
        SceneModelState::HalfBody => {
            new_type = TypeCreature::SkellyFullBody;
            idx = SkellyAnimationId::Unset.as_index();
        },
        SceneModelState::FullBody => {
            new_type = TypeCreature::SkellyOnlyHead;
            idx = SkellyAnimationId::Idle.as_index();
        },
    }
    match find_creature(&handler.creatures, player) {
        Some(ci) => {
            proof {
                assert(m0.creatures == c0);
                assert(spec_has_creature(c0, player));
                let cj = spec_creature_at(c0, player);
                assert(0 <= cj < c0.len() && c0[cj].entity == player);
                assert(m0.creatures[cj].entity == m0.creatures[ci as int].entity);
                assert(cj == ci as int);
            }
            let slot = vstd::std_specs::vec::vec_index_mut(&mut handler.creatures, ci);
            slot.creature.type_creature = new_type;
            slot.creature.current_animation_index = CurrentAnimationIndex(idx);
            slot.link = None;
            let ghost c1 = handler.creatures@;
            let ghost w0 = handler.stopwatches@;
            let wn = handler.stopwatches.len();
            for wi in 0..wn
                invariant
                    wn == handler.stopwatches@.len(),
                    w0.len() == wn,
                    handler.creatures@ == c1,
                    handler.scene_handlers.0@ == m0.scenes,
                    handler.events@ == m0.events,
                    handler.plays@ == m0.plays,
                    forall|j: int|
                        0 <= j < wi ==> handler.stopwatches@[j] == spec_watch_overridden(
                            w0[j],
                            player,
                            idx,
                        ),
                    forall|j: int| wi <= j < wn ==> handler.stopwatches@[j] == w0[j],
            {
                if handler.stopwatches[wi].creature_entity_id == player {
                    let w = vstd::std_specs::vec::vec_index_mut(&mut handler.stopwatches, wi);
                    w.index_animation = idx;
                    w.manual_termination = true;
                }
            }
            proof {
                assert(m0.watches == w0);
                assert(handler.stopwatches@ =~= w0.map_values(
                    |w: AnimationStopWatch| spec_watch_overridden(w, player, idx),
                ));
                let w1 = handler.stopwatches@;
                assert forall|a: int, b: int|
                    0 <= a < b < w1.len() implies (#[trigger] w1[a]).creature_entity_id != (
                #[trigger] w1[b]).creature_entity_id by {
                    assert(m0.watches[a].creature_entity_id != m0.watches[b].creature_entity_id);
                    assert(w1[a].creature_entity_id == w0[a].creature_entity_id);
                    assert(w1[b].creature_entity_id == w0[b].creature_entity_id);
                }
                assert forall|i: int| 0 <= i < w1.len() implies (#[trigger] w1[i]).wf() by {
                    assert(m0.watches[i].wf());
                }
                assert forall|a: int, b: int|
                    0 <= a < b < c1.len() implies (#[trigger] c1[a]).entity != (
                #[trigger] c1[b]).entity by {
                    assert(m0.creatures[a].entity != m0.creatures[b].entity);
                }
                assert(handler.wf());
            }
        },
        None => {
        },
    }
}

} // verus!
