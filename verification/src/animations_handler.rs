//! The animation coordination subsystem: transition events, per-creature
//! countdowns, per-scene animation catalogs, and the dispatcher that turns a
//! transition request into a concrete play instruction for the host engine's
//! playback surface.

use vstd::prelude::*;

use crate::creatures::{spec_policy, Creature, CurrentAnimationIndex, TypeCreature};
use crate::skelly::SkellyAnimationId;

verus! {

/// A reference to one animation clip inside a loaded scene asset: the scene's
/// opaque handle and the clip's position within that scene.
#[derive(Clone, Copy, Debug, PartialEq, Eq, Structural)]
pub struct ClipRef {
    pub scene: u64,
    pub animation: usize,
}

/// A transition request: play the animation at `index` on the creature whose
/// top-level entity is `target`.
#[derive(Clone, Copy, Debug, PartialEq, Eq, Structural)]
pub struct ChangeAnimation {
    pub target: u32,
    pub index: usize,
    pub repeat: bool,
}

/// An instruction to the playback surface: play `clip` on the animation
/// player entity `player`, looping when `repeat` is set.
#[derive(Clone, Copy, Debug, PartialEq, Eq, Structural)]
pub struct PlayCommand {
    pub player: u32,
    pub clip: ClipRef,
    pub repeat: bool,
}

/// A countdown over the remaining playback time of one animation, in
/// milliseconds. Ticking saturates at the duration; the countdown is finished
/// once the elapsed time has reached it.
#[derive(Clone, Copy, Debug, PartialEq, Eq, Structural)]
pub struct Countdown {
    pub duration_ms: u64,
    pub elapsed_ms: u64,
}

impl Countdown {
    pub open spec fn wf(self) -> bool {
        self.elapsed_ms <= self.duration_ms
    }

    pub open spec fn spec_finished(self) -> bool {
        self.elapsed_ms >= self.duration_ms
    }

    /// The countdown after `delta_ms` more milliseconds have passed.
    pub open spec fn spec_ticked(self, delta_ms: u64) -> Countdown {
        if self.elapsed_ms + delta_ms >= self.duration_ms {
            Countdown { elapsed_ms: self.duration_ms, ..self }
        } else {
            Countdown { elapsed_ms: (self.elapsed_ms + delta_ms) as u64, ..self }
        }
    }

    pub fn new(duration_ms: u64) -> (c: Countdown)
        ensures
            c == (Countdown { duration_ms, elapsed_ms: 0u64 }),
    {
        Countdown { duration_ms, elapsed_ms: 0 }
    }

    pub fn tick(&mut self, delta_ms: u64)
        requires
            old(self).wf(),
        ensures
            *final(self) == old(self).spec_ticked(delta_ms),
            final(self).wf(),
    {
        if delta_ms >= self.duration_ms - self.elapsed_ms {
            self.elapsed_ms = self.duration_ms;
        } else {
            self.elapsed_ms = self.elapsed_ms + delta_ms;
        }
    }

    pub fn finished(&self) -> (r: bool)
        ensures
            r == self.spec_finished(),
    {
        self.elapsed_ms >= self.duration_ms
    }

    /// Starts the countdown over with a new duration.
    pub fn restart(&mut self, duration_ms: u64)
        ensures
            *final(self) == (Countdown { duration_ms, elapsed_ms: 0u64 }),
    {
        self.duration_ms = duration_ms;
        self.elapsed_ms = 0;
    }

    pub fn reset(&mut self)
        ensures
            *final(self) == (Countdown { duration_ms: old(self).duration_ms, elapsed_ms: 0u64 }),
    {
        self.elapsed_ms = 0;
    }
}

/// The playback record of one creature instance: which animation index is
/// playing, how much of it remains, and whether an external actor has forced
/// the countdown to be treated as expired on the next sweep.
#[derive(Clone, Copy, Debug, PartialEq, Eq, Structural)]
pub struct AnimationStopWatch {
    /// Id of the creature's top-level entity.
    pub creature_entity_id: u32,
    pub index_animation: usize,
    pub time: Countdown,
    pub manual_termination: bool,
}

impl AnimationStopWatch {
    pub open spec fn wf(self) -> bool {
        self.time.wf()
    }

    pub fn reset_timer(&mut self)
        ensures
            *final(self) == (AnimationStopWatch {
                time: Countdown { duration_ms: old(self).time.duration_ms, elapsed_ms: 0u64 },
                ..*old(self)
            }),
    {
        self.time.reset();
    }

    /// Whether the current animation is over, either because its countdown has
    /// finished or because the manual-override flag was set; the flag is
    /// consumed by the check.
    pub fn manual_is_over(&mut self) -> (over: bool)
        ensures
            over == (old(self).manual_termination || old(self).time.spec_finished()),
            *final(self) == (AnimationStopWatch { manual_termination: false, ..*old(self) }),
    {
        if self.manual_termination {
            self.manual_termination = false;
            true
        } else {
            self.time.finished()
        }
    }

    pub fn tick(&mut self, delta_ms: u64)
        requires
            old(self).wf(),
        ensures
            *final(self) == (AnimationStopWatch { time: old(self).time.spec_ticked(delta_ms), ..*old(self) }),
            final(self).wf(),
    {
        self.time.tick(delta_ms);
    }
}

/// One registered animation: its catalog index, playback duration and clip.
#[derive(Clone, Copy, Debug, PartialEq, Eq, Structural)]
pub struct ClipEntry {
    pub index: usize,
    pub duration_ms: u64,
    pub clip: ClipRef,
}

/// The first registered `(duration, clip)` pair for `ind` in a run of catalog
/// entries.
pub open spec fn spec_lookup(s: Seq<ClipEntry>, ind: usize) -> Option<(u64, ClipRef)>
    decreases s.len(),
{
    if s.len() == 0 {
        None
    } else if s[0].index == ind {
        Some((s[0].duration_ms, s[0].clip))
    } else {
        spec_lookup(s.drop_first(), ind)
    }
}

/// A catalog for one scene asset: the table from animation index to
/// (playback duration in milliseconds, clip reference). Filled at creature
/// setup, read by the dispatcher.
#[derive(Clone, Debug)]
pub struct HashMapAnimationClip {
    entries: Vec<ClipEntry>,
}

impl HashMapAnimationClip {
    /// The registered entries, in insertion order.
    pub closed spec fn entries_seq(self) -> Seq<ClipEntry> {
        self.entries@
    }

    /// Each index is registered at most once.
    pub open spec fn wf(self) -> bool {
        forall|i: int, j: int|
            0 <= i < j < self.entries_seq().len() ==> self.entries_seq()[i].index
                != self.entries_seq()[j].index
    }

    /// The registered pair for `ind`, if any.
    pub open spec fn spec_get(self, ind: usize) -> Option<(u64, ClipRef)> {
        spec_lookup(self.entries_seq(), ind)
    }

    pub open spec fn contains_index(self, ind: usize) -> bool {
        self.spec_get(ind) is Some
    }

    /// Every registered animation has a strictly positive duration.
    pub open spec fn positive_durations(self) -> bool {
        forall|i: int|
            0 <= i < self.entries_seq().len() ==> #[trigger] self.entries_seq()[i].duration_ms > 0
    }

    pub fn new() -> (m: Self)
        ensures
            m.entries_seq() == Seq::<ClipEntry>::empty(),
            m.wf(),
            forall|ind: usize| !(#[trigger] m.contains_index(ind)),
    {
        let m = HashMapAnimationClip { entries: Vec::new() };
        proof {
            assert(forall|ind: usize| spec_lookup(m.entries@, ind) is None);
        }
        m
    }

    pub fn get_pair(&self, ind: usize) -> (r: Option<(u64, ClipRef)>)
        ensures
            r == self.spec_get(ind),
    {
        let n = self.entries.len();
        proof {
            assert(self.entries@.skip(0) =~= self.entries@);
        }
        for i in 0..n
            invariant
                n == self.entries.len(),
                spec_lookup(self.entries@.skip(i as int), ind) == self.spec_get(ind),
        {
            let e = self.entries[i];
            proof {
                assert(self.entries@.skip(i as int)[0] == self.entries@[i as int]);
                assert(self.entries@.skip(i as int).drop_first() =~= self.entries@.skip(
                    i as int + 1,
                ));
            }
            if e.index == ind {
                return Some((e.duration_ms, e.clip));
            }
        }
        proof {
            assert(self.entries@.skip(n as int) =~= Seq::<ClipEntry>::empty());
        }
        None
    }

    /// Registers `(duration, clip)` under `k`, replacing and returning any
    /// earlier registration for that index.
    pub fn insert(&mut self, k: usize, duration_ms: u64, clip: ClipRef) -> (prev: Option<
        (u64, ClipRef),
    >)
        requires
            old(self).wf(),
        ensures
            final(self).wf(),
            prev == old(self).spec_get(k),
            final(self).spec_get(k) == Some((duration_ms, clip)),
            forall|k2: usize|
                k2 != k ==> #[trigger] final(self).spec_get(k2) == old(self).spec_get(k2),
            old(self).positive_durations() && duration_ms > 0 ==> final(self).positive_durations(),
    {
        let entry = ClipEntry { index: k, duration_ms, clip };
        let ghost s0 = self.entries@;
        let n = self.entries.len();
        for i in 0..n
            invariant
                n == self.entries.len(),
                self.entries@ == s0,
                s0 == old(self).entries_seq(),
                old(self).wf(),
                entry == (ClipEntry { index: k, duration_ms, clip }),
                forall|j: int| 0 <= j < i ==> s0[j].index != k,
        {
            if self.entries[i].index == k {
                let prev_entry = self.entries[i];
                proof {
                    lemma_lookup_found_at(s0, i as int, k);
                    lemma_lookup_update(s0, i as int, entry, k);
                }
                let slot = vstd::std_specs::vec::vec_index_mut(&mut self.entries, i);
                *slot = entry;
                proof {
                    let s1 = s0.update(i as int, entry);
                    assert(self.entries@ == s1);
                    assert forall|a: int, b: int|
                        0 <= a < b < s1.len() implies s1[a].index != s1[b].index by {
                        assert(s0[a].index != s0[b].index);
                    }
                    assert(old(self).positive_durations() && duration_ms > 0
                        ==> self.positive_durations()) by {
                        if old(self).positive_durations() && duration_ms > 0 {
                            assert(forall|j: int|
                                0 <= j < s1.len() && j != i ==> s1[j] == s0[j]);
                        }
                    }
                }
                return Some((prev_entry.duration_ms, prev_entry.clip));
            }
        }
        self.entries.push(entry);
        proof {
            lemma_no_entry_lookup_none(s0, k);
            lemma_lookup_push(s0, entry);
            let s1 = s0.push(entry);
            assert(self.entries@ == s1);
            assert forall|a: int, b: int|
                0 <= a < b < s1.len() implies s1[a].index != s1[b].index by {
                if b == s1.len() - 1 {
                    assert(s1[a] == s0[a]);
                } else {
                    assert(s0[a].index != s0[b].index);
                }
            }
            assert(old(self).positive_durations() && duration_ms > 0
                ==> self.positive_durations()) by {
                if old(self).positive_durations() && duration_ms > 0 {
                    assert(forall|j: int| 0 <= j < s0.len() ==> s1[j] == s0[j]);
                }
            }
        }
        None
    }

    /// Resolves a registered animation index to its playback duration and
    /// clip reference.
    pub fn resolve(&self, ind: usize) -> (r: (u64, ClipRef))
        requires
            self.contains_index(ind),
        ensures
            Some(r) == self.spec_get(ind),
            self.positive_durations() ==> r.0 > 0,
    {
        proof {
            lemma_lookup_some_is_entry(self.entries_seq(), ind);
        }
        self.get_pair(ind).unwrap()
    }
}

/// A found lookup returns the pair of some entry registered under that index.
pub proof fn lemma_lookup_some_is_entry(s: Seq<ClipEntry>, ind: usize)
    requires
        spec_lookup(s, ind) is Some,
    ensures
        exists|i: int|
            0 <= i < s.len() && s[i].index == ind && spec_lookup(s, ind) == Some(
                (#[trigger] s[i].duration_ms, s[i].clip),
            ),
    decreases s.len(),
{
    if s.len() > 0 && s[0].index != ind {
        lemma_lookup_some_is_entry(s.drop_first(), ind);
        let i = choose|i: int|
            0 <= i < s.drop_first().len() && s.drop_first()[i].index == ind && spec_lookup(
                s.drop_first(),
                ind,
            ) == Some((#[trigger] s.drop_first()[i].duration_ms, s.drop_first()[i].clip));
        assert(s[i + 1] == s.drop_first()[i]);
    }
}

/// A lookup for an index no entry carries misses.
pub proof fn lemma_no_entry_lookup_none(s: Seq<ClipEntry>, k: usize)
    requires
        forall|i: int| 0 <= i < s.len() ==> s[i].index != k,
    ensures
        spec_lookup(s, k) is None,
    decreases s.len(),
{
    if s.len() > 0 {
        assert(forall|i: int| 0 <= i < s.drop_first().len() ==> s.drop_first()[i] == s[i + 1]);
        lemma_no_entry_lookup_none(s.drop_first(), k);
    }
}

/// Looking up the index of an entry at `i` succeeds when no earlier entry
/// shadows it.
pub proof fn lemma_lookup_found_at(s: Seq<ClipEntry>, i: int, k: usize)
    requires
        0 <= i < s.len(),
        s[i].index == k,
        forall|j: int| 0 <= j < i ==> s[j].index != k,
    ensures
        spec_lookup(s, k) == Some((s[i].duration_ms, s[i].clip)),
    decreases i,
{
    if i > 0 {
        assert(s.drop_first()[i - 1] == s[i]);
        assert(forall|j: int| 0 <= j < i - 1 ==> s.drop_first()[j] == s[j + 1]);
        lemma_lookup_found_at(s.drop_first(), i - 1, k);
    }
}

/// Replacing the entry at `i` with one that keeps its index changes only that
/// index's lookup.
pub proof fn lemma_lookup_update(s: Seq<ClipEntry>, i: int, e: ClipEntry, k: usize)
    requires
        0 <= i < s.len(),
        s[i].index == k,
        e.index == k,
        forall|j: int| 0 <= j < i ==> s[j].index != k,
    ensures
        spec_lookup(s.update(i, e), k) == Some((e.duration_ms, e.clip)),
        forall|k2: usize| k2 != k ==> spec_lookup(s.update(i, e), k2) == spec_lookup(s, k2),
    decreases i,
{
    let t = s.update(i, e);
    if i == 0 {
        assert(t[0] == e);
        assert(t.drop_first() =~= s.drop_first());
        assert forall|k2: usize| k2 != k implies spec_lookup(t, k2) == spec_lookup(s, k2) by {
            assert(spec_lookup(t, k2) == spec_lookup(t.drop_first(), k2));
            assert(spec_lookup(s, k2) == spec_lookup(s.drop_first(), k2));
        }
    } else {
        assert(t[0] == s[0]);
        assert(t.drop_first() =~= s.drop_first().update(i - 1, e));
        assert(s.drop_first()[i - 1] == s[i]);
        assert(forall|j: int| 0 <= j < i - 1 ==> s.drop_first()[j] == s[j + 1]);
        lemma_lookup_update(s.drop_first(), i - 1, e, k);
        assert(t[0].index != k);
        assert(spec_lookup(t, k) == spec_lookup(t.drop_first(), k));
        assert forall|k2: usize| k2 != k implies spec_lookup(t, k2) == spec_lookup(s, k2) by {
            if s[0].index == k2 {
                assert(spec_lookup(t, k2) == Some((s[0].duration_ms, s[0].clip)));
                assert(spec_lookup(s, k2) == Some((s[0].duration_ms, s[0].clip)));
            } else {
                assert(spec_lookup(t, k2) == spec_lookup(t.drop_first(), k2));
                assert(spec_lookup(s, k2) == spec_lookup(s.drop_first(), k2));
            }
        }
    }
}

/// What a lookup finds after an entry is appended: every earlier hit stays,
/// and earlier misses are served by the new entry when its index matches.
pub open spec fn spec_lookup_after_push(s: Seq<ClipEntry>, e: ClipEntry, k2: usize) -> Option<
    (u64, ClipRef),
> {
    if spec_lookup(s, k2) is Some {
        spec_lookup(s, k2)
    } else if k2 == e.index {
        Some((e.duration_ms, e.clip))
    } else {
        None
    }
}

/// Appending an entry serves lookups that missed before and leaves every hit
/// untouched.
pub proof fn lemma_lookup_push(s: Seq<ClipEntry>, e: ClipEntry)
    ensures
        forall|k2: usize| #[trigger] spec_lookup(s.push(e), k2) == spec_lookup_after_push(s, e, k2),
    decreases s.len(),
{
    let t = s.push(e);
    if s.len() == 0 {
        assert forall|k2: usize| #[trigger] spec_lookup(t, k2) == spec_lookup_after_push(
            s,
            e,
            k2,
        ) by {
            assert(t[0] == e);
            if k2 != e.index {
                assert(t.drop_first() =~= Seq::<ClipEntry>::empty());
                assert(spec_lookup(t, k2) == spec_lookup(t.drop_first(), k2));
            }
        }
    } else {
        lemma_lookup_push(s.drop_first(), e);
        assert forall|k2: usize| #[trigger] spec_lookup(t, k2) == spec_lookup_after_push(
            s,
            e,
            k2,
        ) by {
            assert(t[0] == s[0]);
            assert(t.drop_first() =~= s.drop_first().push(e));
            if s[0].index == k2 {
                assert(spec_lookup(t, k2) == Some((s[0].duration_ms, s[0].clip)));
                assert(spec_lookup(s, k2) == Some((s[0].duration_ms, s[0].clip)));
            } else {
                assert(spec_lookup(t, k2) == spec_lookup(t.drop_first(), k2));
                assert(spec_lookup(s, k2) == spec_lookup(s.drop_first(), k2));
                assert(spec_lookup(t.drop_first(), k2) == spec_lookup_after_push(
                    s.drop_first(),
                    e,
                    k2,
                ));
            }
        }
    }
}

/// Round trip through a catalog: every registered index resolves to the pair
/// that was registered for it, and — in a catalog whose registered durations
/// are all positive — to a duration strictly greater than zero.
pub proof fn lemma_resolve_round_trip(m: HashMapAnimationClip, ind: usize)
    requires
        m.positive_durations(),
        m.contains_index(ind),
    ensures
        m.spec_get(ind)->Some_0.0 > 0,
{
    lemma_lookup_some_is_entry(m.entries_seq(), ind);
}

/// A handle to one loaded scene asset together with its animation catalog,
/// the creature instance it belongs to, and whether this catalog is the live
/// one for its archetype.
#[derive(Clone, Debug)]
pub struct SceneHandle {
    /// Opaque handle of the scene asset.
    pub handle: u64,
    /// The scene's animation catalog.
    pub vec_animations: HashMapAnimationClip,
    /// Id of the entity containing the scene.
    pub creature_entity_id: Option<u32>,
    /// Type of the creature; creatures of one type share clips and scenes.
    pub type_creature: TypeCreature,
    /// Whether this catalog is the live one among several for one entity.
    pub activated: bool,
}

/// The registry of every loaded scene's animation catalog.
#[derive(Clone, Debug)]
pub struct VecSceneHandle(pub Vec<SceneHandle>);

impl Default for VecSceneHandle {
    fn default() -> (v: Self)
        ensures
            v.0@ == Seq::<SceneHandle>::empty(),
    {
        VecSceneHandle(Vec::new())
    }
}

/// Request to register a scene's animation catalog; when `start_animation` is
/// set, the target creature also receives its playback stop watch.
#[derive(Clone, Debug)]
pub struct AddAnimation {
    pub scene_handler: SceneHandle,
    pub target: Option<u32>,
    pub start_animation: bool,
}

/// Request to drop the catalog registered for a despawned creature.
#[derive(Clone, Copy, Debug, PartialEq, Eq, Structural)]
pub struct RemoveAnimation {
    pub entity_id: u32,
}

/// The association from a creature's top-level entity to the animation player
/// entity found inside its spawned scene subtree.
#[derive(Clone, Copy, Debug, PartialEq, Eq, Structural)]
pub struct AnimationEntityLink(pub u32);

impl AnimationEntityLink {
    pub fn get(&self) -> (r: u32)
        ensures
            r == self.0,
    {
        self.0
    }
}

/// One creature instance as the coordination subsystem sees it: its top-level
/// entity, its animation record, and the link to its playback surface once
/// one has been discovered.
#[derive(Clone, Copy, Debug, PartialEq, Eq, Structural)]
pub struct CreatureInstance {
    pub entity: u32,
    pub creature: Creature,
    pub link: Option<AnimationEntityLink>,
}

/// A playback surface discovered this tick, together with the chain of its
/// ancestors in the spawned scene hierarchy, bottom-up; the creature's
/// top-level entity is the last ancestor.
#[derive(Clone, Debug)]
pub struct DiscoveredSurface {
    pub player: u32,
    pub ancestors: Vec<u32>,
}

/// The whole animation coordination state: the catalog registry, the animated
/// creatures with their links, their stop watches, the queued transition
/// requests, and the play instructions already issued to the playback
/// surface.
#[derive(Debug)]
pub struct AnimationHandler {
    pub scene_handlers: VecSceneHandle,
    pub creatures: Vec<CreatureInstance>,
    pub stopwatches: Vec<AnimationStopWatch>,
    pub events: Vec<ChangeAnimation>,
    pub plays: Vec<PlayCommand>,
}

/// The mathematical state of the subsystem, over which the tick phases are
/// specified.
pub ghost struct Model {
    pub scenes: Seq<SceneHandle>,
    pub creatures: Seq<CreatureInstance>,
    pub watches: Seq<AnimationStopWatch>,
    pub events: Seq<ChangeAnimation>,
    pub plays: Seq<PlayCommand>,
}

pub open spec fn spec_has_creature(s: Seq<CreatureInstance>, target: u32) -> bool {
    exists|i: int| 0 <= i < s.len() && (#[trigger] s[i]).entity == target
}

pub open spec fn spec_creature_at(s: Seq<CreatureInstance>, target: u32) -> int {
    choose|i: int| 0 <= i < s.len() && (#[trigger] s[i]).entity == target
}

pub open spec fn spec_has_activated(s: Seq<SceneHandle>, tc: TypeCreature) -> bool {
    exists|i: int| 0 <= i < s.len() && (#[trigger] s[i]).activated && s[i].type_creature == tc
}

pub open spec fn spec_activated_at(s: Seq<SceneHandle>, tc: TypeCreature) -> int {
    choose|i: int| 0 <= i < s.len() && (#[trigger] s[i]).activated && s[i].type_creature == tc
}

pub open spec fn spec_has_watch(s: Seq<AnimationStopWatch>, id: u32) -> bool {
    exists|i: int| 0 <= i < s.len() && (#[trigger] s[i]).creature_entity_id == id
}

/// The catalog index the dispatcher resolves for a request: full-body
/// creatures play the requested index; every other archetype falls back to
/// its single clip at index 0.
pub open spec fn spec_catalog_key(tc: TypeCreature, index: usize) -> usize {
    if tc == TypeCreature::SkellyFullBody {
        index
    } else {
        0usize
    }
}

/// The animation index the dispatcher records for a request: full-body
/// creatures record the requested index; every other archetype records Idle,
/// the steady state its policy keeps it in.
pub open spec fn spec_effective_index(tc: TypeCreature, index: usize) -> usize {
    if tc == TypeCreature::SkellyFullBody {
        index
    } else {
        SkellyAnimationId::Idle.spec_index()
    }
}

/// What dispatching a request for `target` does to one stop watch: a watch of
/// the target records the new index and restarts its countdown at the
/// resolved duration; every other watch is untouched.
pub open spec fn spec_watch_dispatched(
    w: AnimationStopWatch,
    target: u32,
    idx: usize,
    duration_ms: u64,
) -> AnimationStopWatch {
    if w.creature_entity_id == target {
        AnimationStopWatch {
            index_animation: idx,
            time: Countdown { duration_ms, elapsed_ms: 0u64 },
            ..w
        }
    } else {
        w
    }
}

impl Model {
    pub open spec fn unique_entities(self) -> bool {
        forall|i: int, j: int|
            0 <= i < j < self.creatures.len() ==> (#[trigger] self.creatures[i]).entity != (
            #[trigger] self.creatures[j]).entity
    }

    pub open spec fn unique_watches(self) -> bool {
        forall|i: int, j: int|
            0 <= i < j < self.watches.len() ==> (#[trigger] self.watches[i]).creature_entity_id
                != (#[trigger] self.watches[j]).creature_entity_id
    }

    pub open spec fn watches_wf(self) -> bool {
        forall|i: int| 0 <= i < self.watches.len() ==> (#[trigger] self.watches[i]).wf()
    }

    /// At most one catalog per archetype is activated at a time.
    pub open spec fn unique_activated(self) -> bool {
        forall|i: int, j: int|
            0 <= i < j < self.scenes.len() ==> !((#[trigger] self.scenes[i]).activated && (
            #[trigger] self.scenes[j]).activated && self.scenes[i].type_creature
                == self.scenes[j].type_creature)
    }

    pub open spec fn catalogs_wf(self) -> bool {
        forall|i: int| 0 <= i < self.scenes.len() ==> (#[trigger] self.scenes[i]).vec_animations.wf()
    }

    pub open spec fn wf(self) -> bool {
        self.unique_entities() && self.unique_watches() && self.watches_wf()
            && self.unique_activated() && self.catalogs_wf()
    }

    /// Whether `target` names a creature whose playback surface has been
    /// linked, so that a transition request for it can be dispatched.
    pub open spec fn linked(self, target: u32) -> bool {
        spec_has_creature(self.creatures, target) && self.creatures[spec_creature_at(
            self.creatures,
            target,
        )].link is Some
    }

    pub open spec fn target_type(self, target: u32) -> TypeCreature {
        self.creatures[spec_creature_at(self.creatures, target)].creature.type_creature
    }

    /// The catalog lookup the dispatcher makes for `e`, when it finds a
    /// linked creature and a live catalog for its archetype.
    pub open spec fn resolution(self, e: ChangeAnimation) -> Option<(u64, ClipRef)> {
        self.scenes[spec_activated_at(self.scenes, self.target_type(e.target))].vec_animations
            .spec_get(spec_catalog_key(self.target_type(e.target), e.index))
    }

    /// A missing catalog entry for a dispatched request is malformed static
    /// configuration, which the dispatcher does not tolerate.
    pub open spec fn dispatch_resolves(self, e: ChangeAnimation) -> bool {
        self.linked(e.target) && spec_has_activated(self.scenes, self.target_type(e.target))
            ==> self.resolution(e) is Some
    }

    /// Whether dispatching `e` reaches a resolution, so that a play
    /// instruction is issued.
    pub open spec fn dispatch_fires(self, e: ChangeAnimation) -> bool {
        self.linked(e.target) && spec_has_activated(self.scenes, self.target_type(e.target))
            && self.resolution(e) is Some
    }

    /// What dispatching one transition request does: nothing without a link
    /// or a live catalog; otherwise the resolved clip is played, the
    /// creature's current index is recorded, and the creature's stop watch
    /// restarts at the resolved duration.
    pub open spec fn spec_dispatch(self, e: ChangeAnimation) -> Model {
        if !self.linked(e.target) {
            self
        } else {
            let ci = spec_creature_at(self.creatures, e.target);
            let tc = self.creatures[ci].creature.type_creature;
            if !spec_has_activated(self.scenes, tc) {
                self
            } else {
                match self.resolution(e) {
                    Option::None => self,
                    Option::Some(pair) => {
                        let idx = spec_effective_index(tc, e.index);
                        Model {
                            creatures: self.creatures.update(
                                ci,
                                CreatureInstance {
                                    creature: Creature {
                                        current_animation_index: CurrentAnimationIndex(idx),
                                        ..self.creatures[ci].creature
                                    },
                                    ..self.creatures[ci]
                                },
                            ),
                            watches: self.watches.map_values(
                                |w: AnimationStopWatch|
                                    spec_watch_dispatched(w, e.target, idx, pair.0),
                            ),
                            plays: self.plays.push(
                                PlayCommand {
                                    player: self.creatures[ci].link->Some_0.0,
                                    clip: pair.1,
                                    repeat: e.repeat,
                                },
                            ),
                            ..self
                        }
                    },
                }
            }
        }
    }
}

impl AnimationHandler {
    pub open spec fn model(self) -> Model {
        Model {
            scenes: self.scene_handlers.0@,
            creatures: self.creatures@,
            watches: self.stopwatches@,
            events: self.events@,
            plays: self.plays@,
        }
    }

    pub open spec fn wf(self) -> bool {
        self.model().wf()
    }

    /// An empty subsystem, before any scene has loaded.
    pub fn new() -> (h: AnimationHandler)
        ensures
            h.model() == (Model {
                scenes: Seq::<SceneHandle>::empty(),
                creatures: Seq::<CreatureInstance>::empty(),
                watches: Seq::<AnimationStopWatch>::empty(),
                events: Seq::<ChangeAnimation>::empty(),
                plays: Seq::<PlayCommand>::empty(),
            }),
            h.wf(),
    {
        AnimationHandler {
            scene_handlers: VecSceneHandle(Vec::new()),
            creatures: Vec::new(),
            stopwatches: Vec::new(),
            events: Vec::new(),
            plays: Vec::new(),
        }
    }
}

/// First creature instance for `target` that already has a playback link.
fn find_linked_creature(creatures: &Vec<CreatureInstance>, target: u32) -> (r: Option<usize>)
    ensures
        match r {
            Some(i) => i < creatures@.len() && creatures@[i as int].entity == target
                && creatures@[i as int].link is Some,
            None => forall|j: int|
                0 <= j < creatures@.len() ==> !((#[trigger] creatures@[j]).entity == target
                    && creatures@[j].link is Some),
        },
{
    let n = creatures.len();
    for i in 0..n
        invariant
            n == creatures@.len(),
            forall|j: int|
                0 <= j < i ==> !((#[trigger] creatures@[j]).entity == target && creatures@[j].link
                    is Some),
    {
        if creatures[i].entity == target && creatures[i].link.is_some() {
            return Some(i);
        }
    }
    None
}

/// First creature instance for `target`, linked or not.
pub(crate) fn find_creature(creatures: &Vec<CreatureInstance>, target: u32) -> (r: Option<usize>)
    ensures
        match r {
            Some(i) => i < creatures@.len() && creatures@[i as int].entity == target,
            None => !spec_has_creature(creatures@, target),
        },
{
    let n = creatures.len();
    for i in 0..n
        invariant
            n == creatures@.len(),
            forall|j: int| 0 <= j < i ==> (#[trigger] creatures@[j]).entity != target,
    {
        if creatures[i].entity == target {
            return Some(i);
        }
    }
    None
}

/// First activated catalog for the archetype.
fn find_activated_handle(handles: &Vec<SceneHandle>, tc: TypeCreature) -> (r: Option<usize>)
    ensures
        match r {
            Some(i) => i < handles@.len() && handles@[i as int].activated
                && handles@[i as int].type_creature == tc,
            None => !spec_has_activated(handles@, tc),
        },
{
    let n = handles.len();
    for i in 0..n
        invariant
            n == handles@.len(),
            forall|j: int|
                0 <= j < i ==> !((#[trigger] handles@[j]).activated && handles@[j].type_creature
                    == tc),
    {
        if handles[i].activated && handles[i].type_creature == tc {
            return Some(i);
        }
    }
    None
}

impl AnimationHandler {
    /// Dispatches one transition request against the live catalogs: resolves
    /// the (duration, clip) pair for the target's archetype, issues the play
    /// instruction, records the creature's new animation index, and restarts
    /// the creature's stop watch at the resolved duration. A request for a
    /// creature that is not yet linked, or whose archetype has no live
    /// catalog, is dropped.
    pub fn dispatch(&mut self, e: &ChangeAnimation)
        requires
            old(self).wf(),
            old(self).model().dispatch_resolves(*e),
        ensures
            final(self).wf(),
            final(self).model() == old(self).model().spec_dispatch(*e),
    {
        let ghost m0 = self.model();
        let target = e.target;
        match find_linked_creature(&self.creatures, target) {
            None => {
                proof {
                    if spec_has_creature(m0.creatures, target) {
                        let cj = spec_creature_at(m0.creatures, target);
                        assert(0 <= cj < m0.creatures.len() && m0.creatures[cj].entity == target);
                    }
                    assert(!m0.linked(target));
                }
            },
            Some(ci) => {
                proof {
                    assert(spec_has_creature(m0.creatures, target));
                    let cj = spec_creature_at(m0.creatures, target);
                    assert(0 <= cj < m0.creatures.len() && m0.creatures[cj].entity == target);
                    assert(cj == ci as int);
                    assert(m0.linked(target));
                }
                let tc = self.creatures[ci].creature.type_creature;
                let link_player = self.creatures[ci].link.unwrap().get();
                match find_activated_handle(&self.scene_handlers.0, tc) {
                    None => {
                        proof {
                            assert(m0.spec_dispatch(*e) == m0);
                        }
                    },
                    Some(si) => {
                        proof {
                            assert(spec_has_activated(m0.scenes, tc));
                            let sj = spec_activated_at(m0.scenes, tc);
                            assert(0 <= sj < m0.scenes.len() && m0.scenes[sj].activated
                                && m0.scenes[sj].type_creature == tc);
                            assert(sj == si as int);
                            assert(m0.target_type(target) == tc);
                            assert(m0.resolution(*e) is Some);
                        }
                        let key = if tc == TypeCreature::SkellyFullBody {
                            e.index
                        } else {
                            0
                        };
                        proof {
                            assert(key == spec_catalog_key(tc, e.index));
                            assert(m0.scenes[si as int].vec_animations.contains_index(key));
                        }
                        let pair = self.scene_handlers.0[si].vec_animations.resolve(key);
                        let duration_ms = pair.0;
                        let clip = pair.1;
                        let idx = if tc == TypeCreature::SkellyFullBody {
                            e.index
                        } else {
                            SkellyAnimationId::Idle.as_index()
                        };
                        proof {
                            assert(idx == spec_effective_index(tc, e.index));
                        }
                        let slot = vstd::std_specs::vec::vec_index_mut(&mut self.creatures, ci);
                        slot.creature.current_animation_index = CurrentAnimationIndex(idx);
                        self.plays.push(PlayCommand { player: link_player, clip, repeat: e.repeat });
                        let ghost c1 = m0.creatures.update(
                            ci as int,
                            CreatureInstance {
                                creature: Creature {
                                    current_animation_index: CurrentAnimationIndex(idx),
                                    ..m0.creatures[ci as int].creature
                                },
                                ..m0.creatures[ci as int]
                            },
                        );
                        let ghost p1 = m0.plays.push(
                            PlayCommand { player: link_player, clip, repeat: e.repeat },
                        );
                        let ghost w0 = m0.watches;
                        let wn = self.stopwatches.len();
                        for wi in 0..wn
                            invariant
                                wn == self.stopwatches@.len(),
                                w0.len() == wn,
                                self.scene_handlers.0@ == m0.scenes,
                                self.creatures@ == c1,
                                self.events@ == m0.events,
                                self.plays@ == p1,
                                forall|j: int|
                                    0 <= j < wi ==> self.stopwatches@[j] == spec_watch_dispatched(
                                        w0[j],
                                        target,
                                        idx,
                                        duration_ms,
                                    ),
                                forall|j: int| wi <= j < wn ==> self.stopwatches@[j] == w0[j],
                        {
                            if self.stopwatches[wi].creature_entity_id == target {
                                let w = vstd::std_specs::vec::vec_index_mut(
                                    &mut self.stopwatches,
                                    wi,
                                );
                                w.index_animation = idx;
                                w.time.restart(duration_ms);
                            }
                        }
                        proof {
                            let m1 = m0.spec_dispatch(*e);
                            assert(self.stopwatches@ =~= w0.map_values(
                                |w: AnimationStopWatch|
                                    spec_watch_dispatched(w, target, idx, duration_ms),
                            ));
                            assert(m0.resolution(*e) == Some((duration_ms, clip)));
                            assert(m0.creatures[ci as int].link->Some_0.0 == link_player);
                            assert(self.model() == m1);
                            assert forall|a: int, b: int|
                                0 <= a < b < c1.len() implies (#[trigger] c1[a]).entity != (
                            #[trigger] c1[b]).entity by {
                                assert(m0.creatures[a].entity != m0.creatures[b].entity);
                            }
                            let w1 = self.stopwatches@;
                            assert forall|a: int, b: int|
                                0 <= a < b < w1.len() implies (
                            #[trigger] w1[a]).creature_entity_id != (
                            #[trigger] w1[b]).creature_entity_id by {
                                assert(w1[a].creature_entity_id == w0[a].creature_entity_id);
                                assert(w1[b].creature_entity_id == w0[b].creature_entity_id);
                                assert(w0[a].creature_entity_id != w0[b].creature_entity_id);
                            }
                            assert forall|i: int| 0 <= i < w1.len() implies (
                            #[trigger] w1[i]).wf() by {
                                assert(w0[i].wf());
                            }
                            assert(self.wf());
                        }
                    },
                }
            },
        }
    }
}

/// Whether this watch counts as expired on a sweep that advances it by
/// `delta_ms`: either its manual-override flag is set, or its ticked
/// countdown has finished.
pub open spec fn spec_watch_over(w: AnimationStopWatch, delta_ms: u64) -> bool {
    w.manual_termination || w.time.spec_ticked(delta_ms).spec_finished()
}

/// One watch after a sweep: an expired watch has its countdown reset while it
/// waits for the dispatcher; any other is simply advanced. The sweep always
/// consumes the manual-override flag.
pub open spec fn spec_watch_checked(w: AnimationStopWatch, delta_ms: u64) -> AnimationStopWatch {
    if spec_watch_over(w, delta_ms) {
        AnimationStopWatch {
            time: Countdown { duration_ms: w.time.duration_ms, elapsed_ms: 0u64 },
            manual_termination: false,
            ..w
        }
    } else {
        AnimationStopWatch { time: w.time.spec_ticked(delta_ms), manual_termination: false, ..w }
    }
}

/// The requests a creature's policy emits when the animation at `index`
/// finishes.
pub open spec fn spec_policy_events(tc: TypeCreature, target: u32, index: usize) -> Seq<
    ChangeAnimation,
> {
    match spec_policy(tc, index) {
        Option::Some(next) => seq![ChangeAnimation { target, index: next.0, repeat: next.1 }],
        Option::None => Seq::empty(),
    }
}

/// The transition requests a sweep raises, in watch order: one per expired
/// watch whose creature exists and whose policy defines a follow-up.
pub open spec fn spec_checker_events(
    creatures: Seq<CreatureInstance>,
    watches: Seq<AnimationStopWatch>,
    delta_ms: u64,
) -> Seq<ChangeAnimation>
    decreases watches.len(),
{
    if watches.len() == 0 {
        Seq::empty()
    } else {
        let w = watches[0];
        let head = if spec_watch_over(w, delta_ms) && spec_has_creature(
            creatures,
            w.creature_entity_id,
        ) {
            spec_policy_events(
                creatures[spec_creature_at(creatures, w.creature_entity_id)].creature.type_creature,
                w.creature_entity_id,
                w.index_animation,
            )
        } else {
            Seq::empty()
        };
        head + spec_checker_events(creatures, watches.drop_first(), delta_ms)
    }
}

impl AnimationHandler {
    /// The late-phase sweep: advances every stop watch, and for each that has
    /// expired — naturally or by manual override — resets it and queues the
    /// follow-up request that the creature's transition policy picks for the
    /// animation that just finished. Requests queued here are consumed by the
    /// next tick's dispatch phase, never within the same sweep.
    pub fn checker_animation_duration(&mut self, delta_ms: u64)
        requires
            old(self).wf(),
        ensures
            final(self).wf(),
            final(self).stopwatches@ == old(self).stopwatches@.map_values(
                |w: AnimationStopWatch| spec_watch_checked(w, delta_ms),
            ),
            final(self).events@ == old(self).events@ + spec_checker_events(
                old(self).creatures@,
                old(self).stopwatches@,
                delta_ms,
            ),
            final(self).creatures@ == old(self).creatures@,
            final(self).scene_handlers.0@ == old(self).scene_handlers.0@,
            final(self).plays@ == old(self).plays@,
    {
        let ghost c0 = self.creatures@;
        let ghost w0 = self.stopwatches@;
        let ghost e0 = self.events@;
        let ghost s0 = self.scene_handlers.0@;
        let ghost p0 = self.plays@;
        proof {
            assert(w0.skip(0) =~= w0);
            assert(old(self).model().watches == w0);
            assert(old(self).model().creatures == c0);
            assert forall|j: int| 0 <= j < w0.len() implies (#[trigger] w0[j]).wf() by {
                assert(old(self).model().watches[j].wf());
            }
            assert forall|i: int, j: int|
                0 <= i < j < c0.len() implies (#[trigger] c0[i]).entity != (
            #[trigger] c0[j]).entity by {
                assert(old(self).model().creatures[i].entity != old(
                    self,
                ).model().creatures[j].entity);
            }
        }
        let wn = self.stopwatches.len();
        for wi in 0..wn
            invariant
                wn == self.stopwatches@.len(),
                w0.len() == wn,
                self.creatures@ == c0,
                self.scene_handlers.0@ == s0,
                self.plays@ == p0,
                forall|i: int, j: int|
                    0 <= i < j < c0.len() ==> (#[trigger] c0[i]).entity != (
                    #[trigger] c0[j]).entity,
                forall|j: int| 0 <= j < wn ==> (#[trigger] w0[j]).wf(),
                forall|j: int|
                    0 <= j < wi ==> self.stopwatches@[j] == spec_watch_checked(w0[j], delta_ms),
                forall|j: int| wi <= j < wn ==> self.stopwatches@[j] == w0[j],
                e0 + spec_checker_events(c0, w0, delta_ms) == self.events@ + spec_checker_events(
                    c0,
                    w0.skip(wi as int),
                    delta_ms,
                ),
        {
            let ghost e_pre = self.events@;
            let w = vstd::std_specs::vec::vec_index_mut(&mut self.stopwatches, wi);
            w.tick(delta_ms);
            let over = w.manual_is_over();
            if over {
                w.reset_timer();
            }
            let target = self.stopwatches[wi].creature_entity_id;
            let index_animation = self.stopwatches[wi].index_animation;
            proof {
                assert(over == spec_watch_over(w0[wi as int], delta_ms));
                assert(self.stopwatches@[wi as int] == spec_watch_checked(w0[wi as int], delta_ms));
                assert(target == w0[wi as int].creature_entity_id);
                assert(index_animation == w0[wi as int].index_animation);
                assert(w0.skip(wi as int)[0] == w0[wi as int]);
                assert(w0.skip(wi as int).drop_first() =~= w0.skip(wi as int + 1));
            }
            if over {
                match find_creature(&self.creatures, target) {
                    Some(ci) => {
                        proof {
                            assert(spec_has_creature(c0, target));
                            let cj = spec_creature_at(c0, target);
                            assert(0 <= cj < c0.len() && c0[cj].entity == target);
                            assert(cj == ci as int);
                        }
                        let c = self.creatures[ci].creature;
                        c.update_animation(target, index_animation, &mut self.events);
                        proof {
                            assert(self.events@ =~= e_pre + spec_policy_events(
                                c0[ci as int].creature.type_creature,
                                target,
                                index_animation,
                            ));
                        }
                    },
                    None => {
                        proof {
                            assert(self.events@ =~= e_pre + Seq::<ChangeAnimation>::empty());
                        }
                    },
                }
            } else {
                proof {
                    assert(self.events@ =~= e_pre + Seq::<ChangeAnimation>::empty());
                }
            }
            proof {
                let emitted = spec_checker_events(c0, w0.skip(wi as int), delta_ms);
                let rest = spec_checker_events(c0, w0.skip(wi as int + 1), delta_ms);
                assert(self.events@ + rest =~= e_pre + emitted);
                assert(e0 + spec_checker_events(c0, w0, delta_ms) == self.events@
                    + spec_checker_events(c0, w0.skip(wi as int + 1), delta_ms));
            }
        }
        proof {
            assert(w0.skip(wn as int) =~= Seq::<AnimationStopWatch>::empty());
            assert(self.events@ + Seq::<ChangeAnimation>::empty() =~= self.events@);
            assert(self.stopwatches@ =~= w0.map_values(
                |w: AnimationStopWatch| spec_watch_checked(w, delta_ms),
            ));
            let w1 = self.stopwatches@;
            assert(old(self).model().watches == w0);
            assert forall|a: int, b: int|
                0 <= a < b < w1.len() implies (#[trigger] w1[a]).creature_entity_id != (
            #[trigger] w1[b]).creature_entity_id by {
                assert(old(self).model().watches[a].creature_entity_id != old(
                    self,
                ).model().watches[b].creature_entity_id);
                assert(w1[a].creature_entity_id == w0[a].creature_entity_id);
                assert(w1[b].creature_entity_id == w0[b].creature_entity_id);
            }
            assert forall|i: int| 0 <= i < w1.len() implies (#[trigger] w1[i]).wf() by {
                assert(old(self).model().watches[i].wf());
            }
            assert(self.wf());
        }
    }
}

/// The state of the subsystem after a run of transition requests has been
/// dispatched in order.
pub open spec fn spec_run_events(m: Model, evs: Seq<ChangeAnimation>) -> Model
    decreases evs.len(),
{
    if evs.len() == 0 {
        m
    } else {
        spec_run_events(m.spec_dispatch(evs[0]), evs.drop_first())
    }
}

/// Every request in the run resolves against the state it is dispatched in.
pub open spec fn spec_run_events_ok(m: Model, evs: Seq<ChangeAnimation>) -> bool
    decreases evs.len(),
{
    if evs.len() == 0 {
        true
    } else {
        m.dispatch_resolves(evs[0]) && spec_run_events_ok(m.spec_dispatch(evs[0]), evs.drop_first())
    }
}

impl AnimationHandler {
    /// The main-phase event pass: consumes every queued transition request in
    /// order and dispatches each against the live catalogs, then leaves the
    /// queue empty. Requests queued while this runs in a sweep are handled on
    /// the next tick.
    pub fn update_animation(&mut self)
        requires
            old(self).wf(),
            spec_run_events_ok(old(self).model(), old(self).events@),
        ensures
            final(self).wf(),
            final(self).model() == (Model {
                events: Seq::<ChangeAnimation>::empty(),
                ..spec_run_events(old(self).model(), old(self).events@)
            }),
    {
        let ghost m0 = self.model();
        let ghost evs = self.events@;
        proof {
            assert(evs.skip(0) =~= evs);
        }
        let n = self.events.len();
        for i in 0..n
            invariant
                self.wf(),
                n == self.events@.len(),
                self.events@ == evs,
                spec_run_events(m0, evs) == spec_run_events(self.model(), evs.skip(i as int)),
                spec_run_events_ok(self.model(), evs.skip(i as int)),
        {
            let e = self.events[i];
            proof {
                assert(evs.skip(i as int)[0] == e);
                assert(evs.skip(i as int).drop_first() =~= evs.skip(i as int + 1));
            }
            let ghost m_pre = self.model();
            self.dispatch(&e);
            proof {
                assert(self.model() == m_pre.spec_dispatch(e));
                assert(spec_run_events(m_pre, evs.skip(i as int)) == spec_run_events(
                    self.model(),
                    evs.skip(i as int + 1),
                ));
            }
        }
        proof {
            assert(evs.skip(n as int) =~= Seq::<ChangeAnimation>::empty());
        }
        let ghost m_done = self.model();
        self.events.clear();
        proof {
            assert(spec_run_events(m0, evs) == m_done);
            assert(self.model() == (Model { events: Seq::<ChangeAnimation>::empty(), ..m_done }));
        }
    }
}

/// The topmost ancestor of a discovered playback surface, or the surface's
/// own entity when it has no parent.
pub open spec fn spec_top_of(d: DiscoveredSurface) -> u32 {
    if d.ancestors@.len() == 0 {
        d.player
    } else {
        d.ancestors@.last()
    }
}

/// Walks the parent chain up to the topmost ancestor; an entity without
/// parents is its own top.
pub fn get_top_parent(curr_entity: u32, ancestors: &Vec<u32>) -> (r: u32)
    ensures
        r == (if ancestors@.len() == 0 {
            curr_entity
        } else {
            ancestors@.last()
        }),
{
    let mut curr: u32 = curr_entity;
    let n = ancestors.len();
    for i in 0..n
        invariant
            n == ancestors@.len(),
            curr == (if i == 0 {
                curr_entity
            } else {
                ancestors@[i as int - 1]
            }),
    {
        curr = ancestors[i];
    }
    curr
}

/// What linking one discovered surface does: the creature at the surface's
/// topmost ancestor gains the link, unless it already has one — a
/// configuration conflict that keeps the first link — or no creature owns
/// that entity. The flag says whether a new link was recorded.
pub open spec fn spec_link_step(creatures: Seq<CreatureInstance>, top: u32, player: u32) -> (
    Seq<CreatureInstance>,
    bool,
) {
    if spec_has_creature(creatures, top) {
        let ci = spec_creature_at(creatures, top);
        if creatures[ci].link is Some {
            (creatures, false)
        } else {
            (
                creatures.update(
                    ci,
                    CreatureInstance { link: Some(AnimationEntityLink(player)), ..creatures[ci] },
                ),
                true,
            )
        }
    } else {
        (creatures, false)
    }
}

/// The creatures after every discovered surface has been linked in order,
/// together with the creature entities that were newly linked.
pub open spec fn spec_link_all(
    creatures: Seq<CreatureInstance>,
    discovered: Seq<DiscoveredSurface>,
) -> (Seq<CreatureInstance>, Seq<u32>)
    decreases discovered.len(),
{
    if discovered.len() == 0 {
        (creatures, Seq::empty())
    } else {
        let d = discovered[0];
        let step = spec_link_step(creatures, spec_top_of(d), d.player);
        let rest = spec_link_all(step.0, discovered.drop_first());
        (
            rest.0,
            (if step.1 {
                seq![spec_top_of(d)]
            } else {
                Seq::<u32>::empty()
            }) + rest.1,
        )
    }
}

impl AnimationHandler {
    /// The early phase's linking pass: for every playback surface discovered
    /// this tick, walks its ancestry to the creature's top-level entity and
    /// records the association there. A top that is already linked is a
    /// configuration conflict: the first link is kept and the discovery is
    /// skipped. Returns the creature entities that were newly linked.
    pub fn link_animations(&mut self, discovered: &Vec<DiscoveredSurface>) -> (newly: Vec<u32>)
        requires
            old(self).wf(),
        ensures
            final(self).wf(),
            final(self).creatures@ == spec_link_all(old(self).creatures@, discovered@).0,
            newly@ == spec_link_all(old(self).creatures@, discovered@).1,
            final(self).scene_handlers.0@ == old(self).scene_handlers.0@,
            final(self).stopwatches@ == old(self).stopwatches@,
            final(self).events@ == old(self).events@,
            final(self).plays@ == old(self).plays@,
    {
        let ghost c0 = self.creatures@;
        let ghost d0 = discovered@;
        let ghost w0 = self.stopwatches@;
        let ghost s0 = self.scene_handlers.0@;
        let ghost e0 = self.events@;
        let ghost p0 = self.plays@;
        let mut newly: Vec<u32> = Vec::new();
        proof {
            assert(d0.skip(0) =~= d0);
            assert(old(self).model().creatures == c0);
            assert(old(self).model().watches == w0);
            assert forall|i: int, j: int|
                0 <= i < j < c0.len() implies (#[trigger] c0[i]).entity != (
            #[trigger] c0[j]).entity by {
                assert(old(self).model().creatures[i].entity != old(
                    self,
                ).model().creatures[j].entity);
            }
        }
        let dn = discovered.len();
        for di in 0..dn
            invariant
                dn == discovered@.len(),
                discovered@ == d0,
                self.scene_handlers.0@ == s0,
                self.stopwatches@ == w0,
                self.events@ == e0,
                self.plays@ == p0,
                self.creatures@.len() == c0.len(),
                forall|j: int|
                    0 <= j < c0.len() ==> (#[trigger] self.creatures@[j]).entity == c0[j].entity
                        && self.creatures@[j].creature == c0[j].creature,
                forall|i: int, j: int|
                    0 <= i < j < c0.len() ==> (#[trigger] c0[i]).entity != (
                    #[trigger] c0[j]).entity,
                spec_link_all(c0, d0).0 == spec_link_all(self.creatures@, d0.skip(di as int)).0,
                spec_link_all(c0, d0).1 == newly@ + spec_link_all(
                    self.creatures@,
                    d0.skip(di as int),
                ).1,
        {
            let ghost c_pre = self.creatures@;
            let d_player = discovered[di].player;
            let top = get_top_parent(d_player, &discovered[di].ancestors);
            proof {
                assert(d0.skip(di as int)[0] == d0[di as int]);
                assert(d0.skip(di as int).drop_first() =~= d0.skip(di as int + 1));
                assert(top == spec_top_of(d0[di as int]));
            }
            let ghost step = spec_link_step(c_pre, spec_top_of(d0[di as int]), d_player);
            match find_creature(&self.creatures, top) {
                Some(ci) => {
                    proof {
                        assert(spec_has_creature(c_pre, top));
                        let cj = spec_creature_at(c_pre, top);
                        assert(0 <= cj < c_pre.len() && c_pre[cj].entity == top);
                        assert(cj == ci as int);
                    }
                    if self.creatures[ci].link.is_some() {
                        proof {
                            assert(step == (c_pre, false));
                            assert(Seq::<u32>::empty() + spec_link_all(
                                self.creatures@,
                                d0.skip(di as int + 1),
                            ).1 =~= spec_link_all(self.creatures@, d0.skip(di as int + 1)).1);
                        }
                    } else {
                        let slot = vstd::std_specs::vec::vec_index_mut(&mut self.creatures, ci);
                        slot.link = Some(AnimationEntityLink(d_player));
                        newly.push(top);
                        proof {
                            assert(self.creatures@ == step.0);
                            assert(newly@.drop_last() + (seq![top] + spec_link_all(
                                self.creatures@,
                                d0.skip(di as int + 1),
                            ).1) =~= newly@ + spec_link_all(
                                self.creatures@,
                                d0.skip(di as int + 1),
                            ).1);
                        }
                    }
                },
                None => {
                    proof {
                        assert(step == (c_pre, false));
                        assert(Seq::<u32>::empty() + spec_link_all(
                            self.creatures@,
                            d0.skip(di as int + 1),
                        ).1 =~= spec_link_all(self.creatures@, d0.skip(di as int + 1)).1);
                    }
                },
            }
        }
        proof {
            assert(d0.skip(dn as int) =~= Seq::<DiscoveredSurface>::empty());
            assert(newly@ + Seq::<u32>::empty() =~= newly@);
            let c1 = self.creatures@;
            assert forall|i: int, j: int|
                0 <= i < j < c1.len() implies (#[trigger] c1[i]).entity != (
            #[trigger] c1[j]).entity by {
                assert(c1[i].entity == c0[i].entity);
                assert(c1[j].entity == c0[j].entity);
            }
            assert forall|i: int| 0 <= i < w0.len() implies (#[trigger] w0[i]).wf() by {
                assert(old(self).model().watches[i].wf());
            }
            assert(self.wf());
        }
        newly
    }

    /// Fires the first animation of every creature whose playback surface was
    /// linked this tick: one request for catalog index 0, played once.
    pub fn start_animation(&mut self, newly: &Vec<u32>)
        requires
            old(self).wf(),
        ensures
            final(self).wf(),
            final(self).events@ == old(self).events@ + newly@.map_values(
                |t: u32| ChangeAnimation { target: t, index: 0usize, repeat: false },
            ),
            final(self).creatures@ == old(self).creatures@,
            final(self).scene_handlers.0@ == old(self).scene_handlers.0@,
            final(self).stopwatches@ == old(self).stopwatches@,
            final(self).plays@ == old(self).plays@,
    {
        let ghost e0 = self.events@;
        let ghost m0 = self.model();
        let n = newly.len();
        for i in 0..n
            invariant
                n == newly@.len(),
                self.model() == (Model { events: self.events@, ..m0 }),
                self.events@.len() == e0.len() + i,
                forall|j: int| 0 <= j < e0.len() ==> self.events@[j] == e0[j],
                forall|j: int|
                    0 <= j < i ==> self.events@[e0.len() + j] == (ChangeAnimation {
                        target: newly@[j],
                        index: 0usize,
                        repeat: false,
                    }),
        {
            self.events.push(ChangeAnimation { target: newly[i], index: 0, repeat: false });
        }
        proof {
            assert(self.events@ =~= e0 + newly@.map_values(
                |t: u32| ChangeAnimation { target: t, index: 0usize, repeat: false },
            ));
            assert(self.model().creatures == m0.creatures);
            assert(self.model().watches == m0.watches);
            assert(old(self).model() == m0);
            assert(self.wf());
        }
    }
}

/// How long a fresh stop watch runs before its first natural expiry; the
/// first dispatched animation restarts it with a real duration well before
/// that.
pub const INITIAL_STOPWATCH_DURATION_MS: u64 = 1000000;

/// Creates the stop watch that keeps the playing time of a creature's current
/// animation.
pub fn spawn_animation_stop_watch(
    creature_entity_id: u32,
    index_animation: usize,
    stopwatches: &mut Vec<AnimationStopWatch>,
)
    ensures
        final(stopwatches)@ == old(stopwatches)@.push(
            (AnimationStopWatch {
                creature_entity_id,
                index_animation,
                time: Countdown { duration_ms: INITIAL_STOPWATCH_DURATION_MS, elapsed_ms: 0u64 },
                manual_termination: false,
            }),
        ),
{
    stopwatches.push(
        AnimationStopWatch {
            creature_entity_id,
            index_animation,
            time: Countdown::new(INITIAL_STOPWATCH_DURATION_MS),
            manual_termination: false,
        },
    );
}

impl AnimationHandler {
    /// Registers a newly loaded scene's catalog and, when the creature starts
    /// animating right away, gives it its stop watch. A catalog may arrive
    /// activated only while no other catalog for its archetype is live, and a
    /// creature owns at most one stop watch.
    pub fn add_animation(&mut self, event: AddAnimation)
        requires
            old(self).wf(),
            event.scene_handler.vec_animations.wf(),
            event.scene_handler.activated ==> !spec_has_activated(
                old(self).scene_handlers.0@,
                event.scene_handler.type_creature,
            ),
            event.start_animation ==> event.target is Some && !spec_has_watch(
                old(self).stopwatches@,
                event.target->Some_0,
            ),
        ensures
            final(self).wf(),
            final(self).scene_handlers.0@ == old(self).scene_handlers.0@.push(
                event.scene_handler,
            ),
            final(self).stopwatches@ == (if event.start_animation {
                old(self).stopwatches@.push(
                    (AnimationStopWatch {
                        creature_entity_id: event.target->Some_0,
                        index_animation: 0usize,
                        time: Countdown {
                            duration_ms: INITIAL_STOPWATCH_DURATION_MS,
                            elapsed_ms: 0u64,
                        },
                        manual_termination: false,
                    }),
                )
            } else {
                old(self).stopwatches@
            }),
            final(self).creatures@ == old(self).creatures@,
            final(self).events@ == old(self).events@,
            final(self).plays@ == old(self).plays@,
    {
        let ghost m0 = self.model();
        let AddAnimation { scene_handler, target, start_animation } = event;
        let ghost s0 = self.scene_handlers.0@;
        let ghost w0 = self.stopwatches@;
        self.scene_handlers.0.push(scene_handler);
        if start_animation {
            let t = target.unwrap();
            spawn_animation_stop_watch(t, 0, &mut self.stopwatches);
        }
        proof {
            let s1 = self.scene_handlers.0@;
            let w1 = self.stopwatches@;
            assert(m0.scenes == s0);
            assert(m0.watches == w0);
            assert(m0.creatures == self.creatures@);
            assert forall|i: int, j: int|
                0 <= i < j < s1.len() implies !((#[trigger] s1[i]).activated && (
            #[trigger] s1[j]).activated && s1[i].type_creature == s1[j].type_creature) by {
                if j < s1.len() - 1 {
                    assert(!(m0.scenes[i].activated && m0.scenes[j].activated
                        && m0.scenes[i].type_creature == m0.scenes[j].type_creature));
                } else {
                    assert(s1[j] == event.scene_handler);
                    if s1[i].activated && s1[j].activated && s1[i].type_creature
                        == s1[j].type_creature {
                        assert(spec_has_activated(s0, event.scene_handler.type_creature));
                    }
                }
            }
            assert forall|i: int| 0 <= i < s1.len() implies (
            #[trigger] s1[i]).vec_animations.wf() by {
                if i < s1.len() - 1 {
                    assert(m0.scenes[i].vec_animations.wf());
                }
            }
            assert forall|i: int, j: int|
                0 <= i < j < w1.len() implies (#[trigger] w1[i]).creature_entity_id != (
            #[trigger] w1[j]).creature_entity_id by {
                if j < w0.len() {
                    assert(m0.watches[i].creature_entity_id != m0.watches[j].creature_entity_id);
                } else {
                    if w1[i].creature_entity_id == w1[j].creature_entity_id {
                        assert(spec_has_watch(w0, event.target->Some_0));
                    }
                }
            }
            assert forall|i: int| 0 <= i < w1.len() implies (#[trigger] w1[i]).wf() by {
                if i < w0.len() {
                    assert(m0.watches[i].wf());
                }
            }
            assert forall|i: int, j: int|
                0 <= i < j < self.creatures@.len() implies (
            #[trigger] self.creatures@[i]).entity != (#[trigger] self.creatures@[j]).entity by {
                assert(m0.creatures[i].entity != m0.creatures[j].entity);
            }
            assert(self.wf());
        }
    }
}

/// Position of the first catalog registered for the creature `id`, if any.
pub open spec fn spec_first_handle_for(s: Seq<SceneHandle>, id: u32) -> Option<int>
    decreases s.len(),
{
    if s.len() == 0 {
        None
    } else if s[0].creature_entity_id == Some(id) {
        Some(0)
    } else {
        match spec_first_handle_for(s.drop_first(), id) {
            Some(j) => Some(j + 1),
            None => None,
        }
    }
}

/// An entry for `id` at `i`, with none earlier, is the first one.
proof fn lemma_first_handle_at(s: Seq<SceneHandle>, i: int, id: u32)
    requires
        0 <= i < s.len(),
        s[i].creature_entity_id == Some(id),
        forall|j: int| 0 <= j < i ==> s[j].creature_entity_id != Some(id),
    ensures
        spec_first_handle_for(s, id) == Some(i),
    decreases i,
{
    if i > 0 {
        assert(s.drop_first()[i - 1] == s[i]);
        assert(forall|j: int| 0 <= j < i - 1 ==> s.drop_first()[j] == s[j + 1]);
        lemma_first_handle_at(s.drop_first(), i - 1, id);
    }
}

/// With no entry for `id` there is no first one.
proof fn lemma_first_handle_none(s: Seq<SceneHandle>, id: u32)
    requires
        forall|j: int| 0 <= j < s.len() ==> s[j].creature_entity_id != Some(id),
    ensures
        spec_first_handle_for(s, id) is None,
    decreases s.len(),
{
    if s.len() > 0 {
        assert(forall|j: int| 0 <= j < s.drop_first().len() ==> s.drop_first()[j] == s[j + 1]);
        lemma_first_handle_none(s.drop_first(), id);
    }
}

impl AnimationHandler {
    /// Drops the first catalog registered for a despawned creature, swapping
    /// the last catalog into its place; a request for an unknown creature
    /// changes nothing.
    pub fn remove_animation(&mut self, entity_id: u32)
        requires
            old(self).wf(),
        ensures
            final(self).wf(),
            final(self).scene_handlers.0@ == (match spec_first_handle_for(
                old(self).scene_handlers.0@,
                entity_id,
            ) {
                Some(j) => old(self).scene_handlers.0@.update(
                    j,
                    old(self).scene_handlers.0@.last(),
                ).drop_last(),
                None => old(self).scene_handlers.0@,
            }),
            final(self).creatures@ == old(self).creatures@,
            final(self).stopwatches@ == old(self).stopwatches@,
            final(self).events@ == old(self).events@,
            final(self).plays@ == old(self).plays@,
    {
        let ghost m0 = self.model();
        let ghost s0 = self.scene_handlers.0@;
        let n = self.scene_handlers.0.len();
        for i in 0..n
            invariant
                n == self.scene_handlers.0@.len(),
                self.scene_handlers.0@ == s0,
                self.model() == m0,
                m0 == old(self).model(),
                s0 == old(self).scene_handlers.0@,
                m0.wf(),
                forall|j: int| 0 <= j < i ==> s0[j].creature_entity_id != Some(entity_id),
        {
            let matches_id = match self.scene_handlers.0[i].creature_entity_id {
                Some(id) => id == entity_id,
                None => false,
            };
            if matches_id {
                proof {
                    lemma_first_handle_at(s0, i as int, entity_id);
                }
                self.scene_handlers.0.swap_remove(i);
                proof {
                    let s1 = self.scene_handlers.0@;
                    assert(s1 == s0.update(i as int, s0.last()).drop_last());
                    assert(m0.scenes == s0);
                    assert(m0.unique_activated());
                    assert(m0.catalogs_wf());
                    assert(self.creatures@ == m0.creatures);
                    assert(self.stopwatches@ == m0.watches);
                    assert(m0.unique_entities());
                    assert(m0.unique_watches());
                    assert(m0.watches_wf());
                    assert(self.model().creatures == m0.creatures);
                    assert(self.model().watches == m0.watches);
                    assert(self.model().unique_entities());
                    assert(self.model().unique_watches());
                    assert(self.model().watches_wf());
                    assert forall|a: int, b: int|
                        0 <= a < b < s1.len() implies !((#[trigger] s1[a]).activated && (
                    #[trigger] s1[b]).activated && s1[a].type_creature == s1[b].type_creature) by {
                        let oa: int = if a == i {
                            s0.len() - 1
                        } else {
                            a
                        };
                        let ob: int = if b == i {
                            s0.len() - 1
                        } else {
                            b
                        };
                        assert(s1[a] == s0[oa] && s1[b] == s0[ob]);
                        if oa < ob {
                            assert(!(m0.scenes[oa].activated && m0.scenes[ob].activated
                                && m0.scenes[oa].type_creature == m0.scenes[ob].type_creature));
                        } else {
                            assert(!(m0.scenes[ob].activated && m0.scenes[oa].activated
                                && m0.scenes[ob].type_creature == m0.scenes[oa].type_creature));
                        }
                    }
                    assert forall|a: int| 0 <= a < s1.len() implies (
                    #[trigger] s1[a]).vec_animations.wf() by {
                        if a == i {
                            assert(m0.scenes[s0.len() - 1].vec_animations.wf());
                        } else {
                            assert(m0.scenes[a].vec_animations.wf());
                        }
                    }
                    assert(self.wf());
                }
                return ;
            }
        }
        proof {
            lemma_first_handle_none(s0, entity_id);
        }
    }
}

/// Every element a filter keeps comes from the filtered run.
proof fn lemma_filtered_elements_from<A>(s: Seq<A>, pred: spec_fn(A) -> bool)
    ensures
        forall|i: int| 0 <= i < s.filter(pred).len() ==> s.contains(#[trigger] s.filter(pred)[i]),
    decreases s.len(),
{
    reveal(Seq::filter);
    if s.len() > 0 {
        let rest = s.drop_last();
        lemma_filtered_elements_from(rest, pred);
        let f = s.filter(pred);
        let frest = rest.filter(pred);
        assert forall|i: int| 0 <= i < f.len() implies s.contains(#[trigger] f[i]) by {
            if pred(s.last()) && i == f.len() - 1 {
                assert(f[i] == s.last());
                assert(s[s.len() - 1] == s.last());
            } else {
                assert(f[i] == frest[i]);
                assert(rest.contains(frest[i]));
                let k = choose|k: int| 0 <= k < rest.len() && rest[k] == frest[i];
                assert(s[k] == frest[i]);
            }
        }
    }
}

/// Filtering keeps keys pairwise distinct when they were distinct to begin
/// with.
proof fn lemma_filter_keeps_distinct_keys<A>(
    s: Seq<A>,
    pred: spec_fn(A) -> bool,
    key: spec_fn(A) -> u32,
)
    requires
        forall|i: int, j: int| 0 <= i < j < s.len() ==> key(s[i]) != key(s[j]),
    ensures
        forall|i: int, j: int|
            0 <= i < j < s.filter(pred).len() ==> key(s.filter(pred)[i]) != key(s.filter(pred)[j]),
    decreases s.len(),
{
    reveal(Seq::filter);
    if s.len() > 0 {
        let rest = s.drop_last();
        assert(forall|i: int| 0 <= i < rest.len() ==> rest[i] == s[i]);
        lemma_filter_keeps_distinct_keys(rest, pred, key);
        lemma_filtered_elements_from(rest, pred);
        let f = s.filter(pred);
        let frest = rest.filter(pred);
        assert forall|i: int, j: int|
            0 <= i < j < f.len() implies key(f[i]) != key(f[j]) by {
            if pred(s.last()) && j == f.len() - 1 {
                assert(f[i] == frest[i]);
                assert(f[j] == s.last());
                assert(rest.contains(frest[i]));
                let k = choose|k: int| 0 <= k < rest.len() && rest[k] == frest[i];
                assert(key(s[k]) != key(s[s.len() - 1]));
            } else {
                assert(f[i] == frest[i]);
                assert(f[j] == frest[j]);
            }
        }
    }
}

impl AnimationHandler {
    /// Forgets a despawned creature: its instance and every stop watch that
    /// kept time for it are dropped.
    pub fn cleanup_creature(&mut self, entity: u32)
        requires
            old(self).wf(),
        ensures
            final(self).wf(),
            final(self).creatures@ == old(self).creatures@.filter(
                |c: CreatureInstance| c.entity != entity,
            ),
            final(self).stopwatches@ == old(self).stopwatches@.filter(
                |w: AnimationStopWatch| w.creature_entity_id != entity,
            ),
            final(self).scene_handlers.0@ == old(self).scene_handlers.0@,
            final(self).events@ == old(self).events@,
            final(self).plays@ == old(self).plays@,
    {
        let ghost m0 = self.model();
        let ghost c0 = self.creatures@;
        let ghost w0 = self.stopwatches@;
        let ghost cpred = |c: CreatureInstance| c.entity != entity;
        let ghost wpred = |w: AnimationStopWatch| w.creature_entity_id != entity;
        proof {
            reveal(Seq::filter);
        }
        let mut kept_creatures: Vec<CreatureInstance> = Vec::new();
        let cn = self.creatures.len();
        proof {
            assert(c0.take(0) =~= Seq::<CreatureInstance>::empty());
        }
        for i in 0..cn
            invariant
                cn == self.creatures@.len(),
                self.creatures@ == c0,
                kept_creatures@ == c0.take(i as int).filter(cpred),
                cpred == (|c: CreatureInstance| c.entity != entity),
        {
            proof {
                reveal(Seq::filter);
                assert(c0.take(i as int + 1).drop_last() =~= c0.take(i as int));
                assert(c0.take(i as int + 1).last() == c0[i as int]);
            }
            if self.creatures[i].entity != entity {
                kept_creatures.push(self.creatures[i]);
            }
        }
        proof {
            assert(c0.take(cn as int) =~= c0);
        }
        self.creatures = kept_creatures;
        let mut kept_watches: Vec<AnimationStopWatch> = Vec::new();
        let wn = self.stopwatches.len();
        proof {
            assert(w0.take(0) =~= Seq::<AnimationStopWatch>::empty());
        }
        for i in 0..wn
            invariant
                wn == self.stopwatches@.len(),
                self.stopwatches@ == w0,
                kept_watches@ == w0.take(i as int).filter(wpred),
                wpred == (|w: AnimationStopWatch| w.creature_entity_id != entity),
        {
            proof {
                reveal(Seq::filter);
                assert(w0.take(i as int + 1).drop_last() =~= w0.take(i as int));
                assert(w0.take(i as int + 1).last() == w0[i as int]);
            }
            if self.stopwatches[i].creature_entity_id != entity {
                kept_watches.push(self.stopwatches[i]);
            }
        }
        proof {
            assert(w0.take(wn as int) =~= w0);
        }
        self.stopwatches = kept_watches;
        proof {
            assert(m0.creatures == c0);
            assert(m0.watches == w0);
            lemma_filter_keeps_distinct_keys(c0, cpred, |c: CreatureInstance| c.entity);
            lemma_filter_keeps_distinct_keys(
                w0,
                wpred,
                |w: AnimationStopWatch| w.creature_entity_id,
            );
            let c1 = self.creatures@;
            let w1 = self.stopwatches@;
            assert forall|i: int, j: int|
                0 <= i < j < c1.len() implies (#[trigger] c1[i]).entity != (
            #[trigger] c1[j]).entity by {
                let k = |c: CreatureInstance| c.entity;
                assert(k(c0.filter(cpred)[i]) != k(c0.filter(cpred)[j]));
            }
            assert forall|i: int, j: int|
                0 <= i < j < w1.len() implies (#[trigger] w1[i]).creature_entity_id != (
            #[trigger] w1[j]).creature_entity_id by {
                let k = |w: AnimationStopWatch| w.creature_entity_id;
                assert(k(w0.filter(wpred)[i]) != k(w0.filter(wpred)[j]));
            }
            lemma_filtered_elements_from(w0, wpred);
            assert forall|i: int| 0 <= i < w1.len() implies (#[trigger] w1[i]).wf() by {
                assert(w0.contains(w1[i]));
                let k = choose|k: int| 0 <= k < w0.len() && w0[k] == w1[i];
                assert(m0.watches[k].wf());
            }
            assert(self.wf());
        }
    }
}

/// Dispatching the same transition request twice in a row is idempotent up to
/// the repeated play instruction: the second dispatch resolves the same
/// (duration, clip) pair, leaves every creature's record as the first left
/// it, and restarts the countdown to the same freshly reset value — nothing
/// accumulates.
pub proof fn lemma_dispatch_idempotent(m: Model, e: ChangeAnimation)
    requires
        m.wf(),
    ensures
        m.spec_dispatch(e).spec_dispatch(e).creatures == m.spec_dispatch(e).creatures,
        m.spec_dispatch(e).spec_dispatch(e).watches == m.spec_dispatch(e).watches,
        m.dispatch_fires(e) ==> m.spec_dispatch(e).spec_dispatch(e).plays == m.spec_dispatch(
            e,
        ).plays.push(m.spec_dispatch(e).plays.last()),
        !m.dispatch_fires(e) ==> m.spec_dispatch(e).spec_dispatch(e) == m.spec_dispatch(e),
{
    let m1 = m.spec_dispatch(e);
    let m2 = m1.spec_dispatch(e);
    if !m.linked(e.target) {
        assert(m1 == m);
    } else {
        let ci = spec_creature_at(m.creatures, e.target);
        assert(0 <= ci < m.creatures.len() && m.creatures[ci].entity == e.target);
        let tc = m.creatures[ci].creature.type_creature;
        if !spec_has_activated(m.scenes, tc) {
            assert(m1 == m);
        } else {
            match m.resolution(e) {
                Option::None => {
                    assert(m1 == m);
                },
                Option::Some(pair) => {
                    let idx = spec_effective_index(tc, e.index);
                    assert(m1.creatures.len() == m.creatures.len());
                    assert forall|i: int, j: int|
                        0 <= i < j < m1.creatures.len() implies (
                    #[trigger] m1.creatures[i]).entity != (#[trigger] m1.creatures[j]).entity by {
                        assert(m.creatures[i].entity != m.creatures[j].entity);
                    }
                    assert(m1.creatures[ci].entity == e.target);
                    assert(spec_has_creature(m1.creatures, e.target));
                    let cj = spec_creature_at(m1.creatures, e.target);
                    assert(0 <= cj < m1.creatures.len() && m1.creatures[cj].entity == e.target);
                    assert(cj == ci);
                    assert(m1.linked(e.target));
                    assert(m1.scenes == m.scenes);
                    assert(m1.target_type(e.target) == tc);
                    assert(m1.resolution(e) == m.resolution(e));
                    let c1 = m1.creatures;
                    let c2 = m2.creatures;
                    assert(c2 =~= c1);
                    assert(m2.watches =~= m1.watches) by {
                        assert forall|i: int|
                            0 <= i < m1.watches.len() implies m2.watches[i] == m1.watches[i] by {
                            assert(m1.watches[i] == spec_watch_dispatched(
                                m.watches[i],
                                e.target,
                                idx,
                                pair.0,
                            ));
                        }
                    }
                    assert(m2.plays == m1.plays.push(m1.plays.last()));
                },
            }
        }
    }
}

} // verus!
