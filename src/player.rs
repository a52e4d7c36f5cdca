//! Where the player appears when a level has been loaded.

use vstd::prelude::*;
use crate::scalar::Scalar;
use crate::descriptor::SerialVec3;
use crate::scene::{Scene, spawn_marker_at};
use crate::lifecycle::{LevelLoadedEvent, LevelRemovedEvent};

verus! {

/// The bit pattern of the single-precision 0.5.
pub const HALF_BITS: u32 = 0x3f00_0000;

/// Where the player appears when the spawn marker cannot be resolved: (0, 0.5, 0).
pub open spec fn default_spawn() -> SerialVec3 {
    SerialVec3 { x: Scalar { bits: 0 }, y: Scalar { bits: HALF_BITS }, z: Scalar { bits: 0 } }
}

pub fn fallback_spawn() -> (r: SerialVec3)
    ensures
        r == default_spawn(),
{
    SerialVec3 { x: Scalar::zero(), y: Scalar::from_bits(HALF_BITS), z: Scalar::zero() }
}

/// Decides whether to create the player this tick, and where: only when no
/// player exists and a level was loaded, at that level's spawn marker, or at
/// the default position if the marker no longer resolves.
pub fn add_player(
    player_exists: bool,
    loaded: Option<LevelLoadedEvent>,
    scene: &Scene,
) -> (r: Option<SerialVec3>)
    ensures
        r is Some <==> !player_exists && loaded is Some,
        r is Some ==> r->Some_0 == match spawn_marker_at(
            scene@.objects,
            loaded->Some_0.entities.spawn,
        ) {
            Some(p) => p,
            None => default_spawn(),
        },
{
    if player_exists {
        return None;
    }
    match loaded {
        None => None,
        Some(event) => match scene.spawn_position(event.entities.spawn) {
            Some(p) => Some(p),
            None => Some(fallback_spawn()),
        },
    }
}

/// The player is removed whenever the level is.
pub fn remove_player(removed: Option<LevelRemovedEvent>) -> (r: bool)
    ensures
        r == removed is Some,
{
    removed.is_some()
}

} // verus!
