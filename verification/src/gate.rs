//! The chained gate that keeps the skeleton in until it has grown arms.

use vstd::prelude::*;

use crate::creatures::SceneModelState;

verus! {

/// Closed until the full-body skeleton tugs at the chain, then sinking
/// open, then gone.
#[derive(Clone, Copy, Debug, PartialEq, Eq, Hash, Structural)]
pub enum GateState {
    Closed,
    Opening,
    Opened,
}

/// What the hint text over the chain should do after a collision event.
#[derive(Clone, Copy, Debug, PartialEq, Eq, Structural)]
pub enum ChainTextAction {
    ShowHelp,
    HideHelp,
    Nothing,
}

/// Decides the hint text shown while the skeleton still lacks arms: brushing
/// the chain shows it, leaving the chain hides it, and the full body needs no
/// hint.
pub fn collision_with_chain_text(
    scene_state: &SceneModelState,
    involves_chain: bool,
    started: bool,
) -> (r: ChainTextAction)
    ensures
        r == (if *scene_state == SceneModelState::FullBody || !involves_chain {
            ChainTextAction::Nothing
        } else if started {
            ChainTextAction::ShowHelp
        } else {
            ChainTextAction::HideHelp
        }),
{
    if *scene_state == SceneModelState::FullBody || !involves_chain {
        ChainTextAction::Nothing
    } else if started {
        ChainTextAction::ShowHelp
    } else {
        ChainTextAction::HideHelp
    }
}

/// Decides whether a collision with the chain begins the opening: only the
/// full-body skeleton manages it, and only from the closed state.
pub fn collision_with_chain_door(
    scene_state: &SceneModelState,
    gate_state: &GateState,
    chain_hit: bool,
) -> (r: Option<GateState>)
    ensures
        r == (if *scene_state == SceneModelState::FullBody && *gate_state == GateState::Closed
            && chain_hit {
            Some(GateState::Opening)
        } else {
            None
        }),
{
    if *scene_state == SceneModelState::FullBody && *gate_state == GateState::Closed && chain_hit {
        Some(GateState::Opening)
    } else {
        None
    }
}

} // verus!
