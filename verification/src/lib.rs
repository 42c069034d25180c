//! BoneCollector's animation state coordination library.
//!
//! A skeleton creature grows from a head into a half body and then a full
//! body while it explores a map. This crate holds the logic that decides what
//! each creature does next: the per-archetype animation catalogs, the playback
//! countdowns, the transition policy that picks the next animation when one
//! finishes, and the dispatcher that resolves a transition request into a
//! concrete play instruction. The host engine (windowing, scene graph, physics,
//! asset loading) stays outside; it exchanges plain values with this crate.

pub mod animations_handler;
pub mod creatures;
pub mod directions;
pub mod gate;
pub mod inventory;
pub mod skelly;
