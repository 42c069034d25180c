//! The skeleton's animation states, their durations, and the transition
//! policy that picks the next animation when the current one finishes.

use vstd::prelude::*;

use crate::animations_handler::{AddAnimation, ChangeAnimation, ClipRef, HashMapAnimationClip, SceneHandle};
use crate::creatures::{Creature, CurrentAnimationIndex, TypeCreature, VecSkellyScenes};
use crate::directions::Direction;

verus! {

/// The animation states of the skeleton's catalogs, in catalog order.
/// `Unset` is the sentinel for an out-of-range or not-yet-set index.
#[derive(Clone, Copy, Debug, PartialEq, Eq, Hash, Structural)]
pub enum SkellyAnimationId {
    Spawn,
    Idle,
    LookingAround,
    Attack,
    Yell,
    Walk,
    Run,
    Fall,
    Hit,
    Die,
    Hanged,
    Unset,
}

pub const SKELLY_ANIM_DURATION_SPAWN_MS: u64 = 1300;
pub const SKELLY_ANIM_DURATION_IDLE_MS: u64 = 1580;
pub const SKELLY_ANIM_DURATION_LOOKING_AROUND_MS: u64 = 3180;
pub const SKELLY_ANIM_DURATION_ATTACK_MS: u64 = 2320;
pub const SKELLY_ANIM_DURATION_YELL_MS: u64 = 1580;
pub const SKELLY_ANIM_DURATION_WALK_MS: u64 = 980;
pub const SKELLY_ANIM_DURATION_RUN_MS: u64 = 780;
pub const SKELLY_ANIM_DURATION_FALL_MS: u64 = 1100;
pub const SKELLY_ANIM_DURATION_HIT_MS: u64 = 620;
pub const SKELLY_ANIM_DURATION_DIE_MS: u64 = 1060;
pub const SKELLY_ANIM_DURATION_HANGED_MS: u64 = 1580;

/// The animation state a catalog index stands for; indices past the catalog
/// map to the `Unset` sentinel.
pub open spec fn spec_anim_from_index(u: usize) -> SkellyAnimationId {
    if u == 0 {
        SkellyAnimationId::Spawn
    } else if u == 1 {
        SkellyAnimationId::Idle
    } else if u == 2 {
        SkellyAnimationId::LookingAround
    } else if u == 3 {
        SkellyAnimationId::Attack
    } else if u == 4 {
        SkellyAnimationId::Yell
    } else if u == 5 {
        SkellyAnimationId::Walk
    } else if u == 6 {
        SkellyAnimationId::Run
    } else if u == 7 {
        SkellyAnimationId::Fall
    } else if u == 8 {
        SkellyAnimationId::Hit
    } else if u == 9 {
        SkellyAnimationId::Die
    } else if u == 10 {
        SkellyAnimationId::Hanged
    } else {
        SkellyAnimationId::Unset
    }
}

impl From<usize> for SkellyAnimationId {
    fn from(u: usize) -> Self {
        match u {
            0 => SkellyAnimationId::Spawn,
            1 => SkellyAnimationId::Idle,
            2 => SkellyAnimationId::LookingAround,
            3 => SkellyAnimationId::Attack,
            4 => SkellyAnimationId::Yell,
            5 => SkellyAnimationId::Walk,
            6 => SkellyAnimationId::Run,
            7 => SkellyAnimationId::Fall,
            8 => SkellyAnimationId::Hit,
            9 => SkellyAnimationId::Die,
            10 => SkellyAnimationId::Hanged,
            _ => SkellyAnimationId::Unset,
        }
    }
}

impl vstd::std_specs::convert::FromSpecImpl<usize> for SkellyAnimationId {
    open spec fn obeys_from_spec() -> bool {
        true
    }

    open spec fn from_spec(u: usize) -> Self {
        spec_anim_from_index(u)
    }
}

impl From<SkellyAnimationId> for CurrentAnimationIndex {
    fn from(id: SkellyAnimationId) -> Self {
        CurrentAnimationIndex(id.as_index())
    }
}

impl vstd::std_specs::convert::FromSpecImpl<SkellyAnimationId> for CurrentAnimationIndex {
    open spec fn obeys_from_spec() -> bool {
        true
    }

    open spec fn from_spec(id: SkellyAnimationId) -> Self {
        CurrentAnimationIndex(id.spec_index())
    }
}

impl SkellyAnimationId {
    /// The position of this animation state in the skeleton catalogs.
    pub open spec fn spec_index(self) -> usize {
        match self {
            SkellyAnimationId::Spawn => 0usize,
            SkellyAnimationId::Idle => 1usize,
            SkellyAnimationId::LookingAround => 2usize,
            SkellyAnimationId::Attack => 3usize,
            SkellyAnimationId::Yell => 4usize,
            SkellyAnimationId::Walk => 5usize,
            SkellyAnimationId::Run => 6usize,
            SkellyAnimationId::Fall => 7usize,
            SkellyAnimationId::Hit => 8usize,
            SkellyAnimationId::Die => 9usize,
            SkellyAnimationId::Hanged => 10usize,
            SkellyAnimationId::Unset => 11usize,
        }
    }

    pub fn as_index(&self) -> (r: usize)
        ensures
            r == self.spec_index(),
    {
        match self {
            SkellyAnimationId::Spawn => 0,
            SkellyAnimationId::Idle => 1,
            SkellyAnimationId::LookingAround => 2,
            SkellyAnimationId::Attack => 3,
            SkellyAnimationId::Yell => 4,
            SkellyAnimationId::Walk => 5,
            SkellyAnimationId::Run => 6,
            SkellyAnimationId::Fall => 7,
            SkellyAnimationId::Hit => 8,
            SkellyAnimationId::Die => 9,
            SkellyAnimationId::Hanged => 10,
            SkellyAnimationId::Unset => 11,
        }
    }

    /// How long this animation plays, in milliseconds; the `Unset` sentinel
    /// has no clip and no duration.
    pub open spec fn spec_duration_ms(self) -> u64 {
        match self {
            SkellyAnimationId::Spawn => SKELLY_ANIM_DURATION_SPAWN_MS,
            SkellyAnimationId::Idle => SKELLY_ANIM_DURATION_IDLE_MS,
            SkellyAnimationId::LookingAround => SKELLY_ANIM_DURATION_LOOKING_AROUND_MS,
            SkellyAnimationId::Attack => SKELLY_ANIM_DURATION_ATTACK_MS,
            SkellyAnimationId::Yell => SKELLY_ANIM_DURATION_YELL_MS,
            SkellyAnimationId::Walk => SKELLY_ANIM_DURATION_WALK_MS,
            SkellyAnimationId::Run => SKELLY_ANIM_DURATION_RUN_MS,
            SkellyAnimationId::Fall => SKELLY_ANIM_DURATION_FALL_MS,
            SkellyAnimationId::Hit => SKELLY_ANIM_DURATION_HIT_MS,
            SkellyAnimationId::Die => SKELLY_ANIM_DURATION_DIE_MS,
            SkellyAnimationId::Hanged => SKELLY_ANIM_DURATION_HANGED_MS,
            SkellyAnimationId::Unset => 0u64,
        }
    }

    pub fn get_duration_ms(&self) -> (r: u64)
        ensures
            r == self.spec_duration_ms(),
    {
        match self {
            SkellyAnimationId::Spawn => SKELLY_ANIM_DURATION_SPAWN_MS,
            SkellyAnimationId::Idle => SKELLY_ANIM_DURATION_IDLE_MS,
            SkellyAnimationId::LookingAround => SKELLY_ANIM_DURATION_LOOKING_AROUND_MS,
            SkellyAnimationId::Attack => SKELLY_ANIM_DURATION_ATTACK_MS,
            SkellyAnimationId::Yell => SKELLY_ANIM_DURATION_YELL_MS,
            SkellyAnimationId::Walk => SKELLY_ANIM_DURATION_WALK_MS,
            SkellyAnimationId::Run => SKELLY_ANIM_DURATION_RUN_MS,
            SkellyAnimationId::Fall => SKELLY_ANIM_DURATION_FALL_MS,
            SkellyAnimationId::Hit => SKELLY_ANIM_DURATION_HIT_MS,
            SkellyAnimationId::Die => SKELLY_ANIM_DURATION_DIE_MS,
            SkellyAnimationId::Hanged => SKELLY_ANIM_DURATION_HANGED_MS,
            SkellyAnimationId::Unset => 0,
        }
    }
}

/// The skeleton player character; its associated functions are the skeleton's
/// transition policy.
pub struct Skelly;

/// The automatic transition the skeleton policy takes when the animation at
/// `index` finishes: the next animation and its repeat flag, or `None` when
/// the finished state is steady (`Idle`, `Walk`, `Run` await the next external
/// command) or terminal (`Attack`, `Yell`, `Fall`, `Hit`, `Die`, `Hanged`).
pub open spec fn spec_transition(index: usize) -> Option<(SkellyAnimationId, bool)> {
    match spec_anim_from_index(index) {
        SkellyAnimationId::LookingAround => Some((SkellyAnimationId::Idle, true)),
        SkellyAnimationId::Spawn => Some((SkellyAnimationId::LookingAround, false)),
        SkellyAnimationId::Unset => Some((SkellyAnimationId::Spawn, false)),
        _ => None,
    }
}

/// True when the animation at `index` lets the player move: exactly `Idle`,
/// `Walk` and `Run`.
pub open spec fn spec_can_move(index: usize) -> bool {
    spec_anim_from_index(index) == SkellyAnimationId::Idle
        || spec_anim_from_index(index) == SkellyAnimationId::Walk
        || spec_anim_from_index(index) == SkellyAnimationId::Run
}

impl Skelly {
    /// The skeleton's transition policy: receives the index of the animation
    /// that just finished and queues the follow-up request, if the policy
    /// defines one.
    pub fn update_animation(target: u32, index_animation: usize, events: &mut Vec<ChangeAnimation>)
        ensures
            match spec_transition(index_animation) {
                Some(next) => final(events)@ == old(events)@.push(
                    (ChangeAnimation { target, index: next.0.spec_index(), repeat: next.1 }),
                ),
                None => final(events)@ == old(events)@,
            },
    {
        let new_animation: SkellyAnimationId;
        let repeat: bool;

        match SkellyAnimationId::from(index_animation) {
            SkellyAnimationId::LookingAround => {
                new_animation = SkellyAnimationId::Idle;
                repeat = true;
            }
            SkellyAnimationId::Spawn => {
                new_animation = SkellyAnimationId::LookingAround;
                repeat = false;
            }
            SkellyAnimationId::Unset => {
                new_animation = SkellyAnimationId::Spawn;
                repeat = false;
            }
            _ => {
                return;
            }
        }

        events.push(ChangeAnimation { target, index: new_animation.as_index(), repeat });
    }

    /// Returns true when the animation at `index` is Idle, Walk or Run.
    pub fn can_move(animation_index: usize) -> (r: bool)
        ensures
            r == spec_can_move(animation_index),
    {
        matches!(
            SkellyAnimationId::from(animation_index),
            SkellyAnimationId::Idle | SkellyAnimationId::Walk | SkellyAnimationId::Run
        )
    }
}

/// Movement is allowed exactly while Idle, Walk or Run plays: `spec_can_move`
/// holds for an index precisely when it is one of those three catalog
/// positions, whatever the archetype that reuses the predicate.
pub proof fn lemma_can_move_iff(index: usize)
    ensures
        spec_can_move(index) <==> (index == SkellyAnimationId::Idle.spec_index()
            || index == SkellyAnimationId::Walk.spec_index()
            || index == SkellyAnimationId::Run.spec_index()),
{
}

/// A catalog as `setup_skelly` builds it: the eleven skeleton animations,
/// each registered under its catalog index with its playback duration and the
/// clip at the same position inside the scene asset.
pub open spec fn spec_is_skelly_catalog(m: HashMapAnimationClip, handle: u64) -> bool {
    &&& m.wf()
    &&& m.positive_durations()
    &&& forall|i: usize|
        i <= 10 ==> #[trigger] m.spec_get(i) == Some(
            (spec_anim_from_index(i).spec_duration_ms(), ClipRef { scene: handle, animation: i }),
        )
    &&& forall|i: usize| i > 10 ==> #[trigger] m.spec_get(i) is None
}

/// A scene handle as the skeleton spawner registers it.
pub open spec fn spec_is_skelly_scene(
    sh: SceneHandle,
    handle: u64,
    tc: TypeCreature,
    owner: Option<u32>,
) -> bool {
    &&& sh.handle == handle
    &&& spec_is_skelly_catalog(sh.vec_animations, handle)
    &&& sh.creature_entity_id == owner
    &&& sh.type_creature == tc
    &&& sh.activated
}

/// Builds the animation catalog of one skeleton scene asset: the eleven
/// animations in catalog order, each with its duration and clip reference.
pub fn setup_skelly(handle: u64, type_creature: TypeCreature) -> (sh: SceneHandle)
    ensures
        spec_is_skelly_scene(sh, handle, type_creature, None),
{
    let mut hm_animations = HashMapAnimationClip::new();
    for i in 0..11usize
        invariant
            hm_animations.wf(),
            hm_animations.positive_durations(),
            forall|j: usize|
                j < i ==> #[trigger] hm_animations.spec_get(j) == Some(
                    (
                        spec_anim_from_index(j).spec_duration_ms(),
                        ClipRef { scene: handle, animation: j },
                    ),
                ),
            forall|j: usize| j >= i ==> #[trigger] hm_animations.spec_get(j) is None,
    {
        let id = SkellyAnimationId::from(i);
        proof {
            assert(id == spec_anim_from_index(i));
            assert(id.spec_duration_ms() > 0);
        }
        hm_animations.insert(i, id.get_duration_ms(), ClipRef { scene: handle, animation: i });
    }
    SceneHandle {
        handle,
        vec_animations: hm_animations,
        creature_entity_id: None,
        type_creature,
        activated: true,
    }
}

/// One skeleton scene assigned to the spawned creature.
fn skelly_scene_for(handle: u64, type_creature: TypeCreature, skelly_id: u32) -> (sh: SceneHandle)
    ensures
        spec_is_skelly_scene(sh, handle, type_creature, Some(skelly_id)),
{
    let mut sh = setup_skelly(handle, type_creature);
    sh.creature_entity_id = Some(skelly_id);
    sh
}

impl Skelly {
    /// Spawns the player skeleton: builds the three scene catalogs (full
    /// body, half body, head only), requests their registration — the head
    /// scene, the starting form, also starts animating and gets the play back
    /// stop watch — and returns the creature record in its starting form
    /// together with the three scenes for later form changes.
    pub fn spawn(
        skelly_id: u32,
        full_body_handle: u64,
        half_body_handle: u64,
        head_handle: u64,
        event_writer: &mut Vec<AddAnimation>,
    ) -> (r: (Creature, VecSkellyScenes))
        ensures
            r.0 == (Creature {
                type_creature: TypeCreature::SkellyOnlyHead,
                direction: Direction::Up,
                direction_vec3: Direction::Up.spec_vec3(),
                current_animation_index: CurrentAnimationIndex(
                    SkellyAnimationId::Idle.spec_index(),
                ),
                can_move: false,
            }),
            r.1.0@.len() == 3,
            spec_is_skelly_scene(
                r.1.0@[0],
                full_body_handle,
                TypeCreature::SkellyFullBody,
                Some(skelly_id),
            ),
            spec_is_skelly_scene(
                r.1.0@[1],
                half_body_handle,
                TypeCreature::SkellyHalf,
                Some(skelly_id),
            ),
            spec_is_skelly_scene(
                r.1.0@[2],
                head_handle,
                TypeCreature::SkellyOnlyHead,
                Some(skelly_id),
            ),
            final(event_writer)@.len() == old(event_writer)@.len() + 3,
            forall|j: int|
                0 <= j < old(event_writer)@.len() ==> final(event_writer)@[j] == old(
                    event_writer,
                )@[j],
            ({
                let k = old(event_writer)@.len() as int;
                &&& spec_is_skelly_scene(
                    final(event_writer)@[k].scene_handler,
                    head_handle,
                    TypeCreature::SkellyOnlyHead,
                    Some(skelly_id),
                )
                &&& final(event_writer)@[k].target == Some(skelly_id)
                &&& final(event_writer)@[k].start_animation
                &&& spec_is_skelly_scene(
                    final(event_writer)@[k + 1].scene_handler,
                    half_body_handle,
                    TypeCreature::SkellyHalf,
                    Some(skelly_id),
                )
                &&& final(event_writer)@[k + 1].target == Some(skelly_id)
                &&& !final(event_writer)@[k + 1].start_animation
                &&& spec_is_skelly_scene(
                    final(event_writer)@[k + 2].scene_handler,
                    full_body_handle,
                    TypeCreature::SkellyFullBody,
                    Some(skelly_id),
                )
                &&& final(event_writer)@[k + 2].target == Some(skelly_id)
                &&& !final(event_writer)@[k + 2].start_animation
            }),
    {
        let full_body_scene_handle = skelly_scene_for(
            full_body_handle,
            TypeCreature::SkellyFullBody,
            skelly_id,
        );
        let half_scene_handle = skelly_scene_for(
            half_body_handle,
            TypeCreature::SkellyHalf,
            skelly_id,
        );
        let head_scene_handle = skelly_scene_for(
            head_handle,
            TypeCreature::SkellyOnlyHead,
            skelly_id,
        );

        let event_head = skelly_scene_for(head_handle, TypeCreature::SkellyOnlyHead, skelly_id);
        event_writer.push(
            AddAnimation {
                scene_handler: event_head,
                target: Some(skelly_id),
                start_animation: true,
            },
        );
        let event_half = skelly_scene_for(half_body_handle, TypeCreature::SkellyHalf, skelly_id);
        event_writer.push(
            AddAnimation {
                scene_handler: event_half,
                target: Some(skelly_id),
                start_animation: false,
            },
        );
        let event_full = skelly_scene_for(
            full_body_handle,
            TypeCreature::SkellyFullBody,
            skelly_id,
        );
        event_writer.push(
            AddAnimation {
                scene_handler: event_full,
                target: Some(skelly_id),
                start_animation: false,
            },
        );

        let creature = Creature {
            type_creature: TypeCreature::SkellyOnlyHead,
            direction: Direction::Up,
            direction_vec3: Direction::Up.get_vec3(),
            current_animation_index: CurrentAnimationIndex(SkellyAnimationId::Idle.as_index()),
            can_move: false,
        };
        let mut scenes: Vec<SceneHandle> = Vec::new();
        scenes.push(full_body_scene_handle);
        scenes.push(half_scene_handle);
        scenes.push(head_scene_handle);
        (creature, VecSkellyScenes(scenes))
    }
}

} // verus!
