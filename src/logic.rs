//! The death-trigger rule: touching a death object sends the player back to
//! the spawn marker, at rest.

use vstd::prelude::*;
use crate::scalar::Scalar;
use crate::descriptor::SerialVec3;
use crate::scene::{Scene, SceneView, Entity, is_death_entity};

verus! {

/// A collision notification from the physics engine.
#[derive(Clone, Copy, Debug, PartialEq, Eq, Structural)]
pub enum CollisionEvent {
    Started(Entity, Entity),
    Stopped(Entity, Entity),
}

/// The parts of the player's rigid body that the rule resets.
#[derive(Clone, Copy, Debug, PartialEq, Eq, Structural)]
pub struct PlayerBody {
    pub translation: SerialVec3,
    pub linvel: SerialVec3,
    pub angvel: SerialVec3,
}

/// The vector whose three components are positive zero.
pub open spec fn zero_vec() -> SerialVec3 {
    SerialVec3 { x: Scalar { bits: 0 }, y: Scalar { bits: 0 }, z: Scalar { bits: 0 } }
}

pub fn zero_vec3() -> (r: SerialVec3)
    ensures
        r == zero_vec(),
{
    SerialVec3 { x: Scalar::zero(), y: Scalar::zero(), z: Scalar::zero() }
}

/// `e` is the start of a contact between the player and a death object.
pub open spec fn kills(s: SceneView, player: Entity, e: CollisionEvent) -> bool {
    match e {
        CollisionEvent::Started(a, b) => (a == player || b == player) && (is_death_entity(s, a)
            || is_death_entity(s, b)),
        CollisionEvent::Stopped(_, _) => false,
    }
}

/// The rule applies this tick: a spawn marker is live and some event kills the player.
pub open spec fn death_applies(s: SceneView, player: Entity, events: Seq<CollisionEvent>) -> bool {
    s.live is Some && exists|i: int| 0 <= i < events.len() && kills(s, player, #[trigger] events[i])
}

/// The player's body after the rule applied: at the spawn marker, at rest.
pub open spec fn respawned(s: SceneView) -> PlayerBody {
    PlayerBody { translation: s.live->Some_0.spawn.pos, linvel: zero_vec(), angvel: zero_vec() }
}

/// Applies the death rule for one tick's collision events. When it applies, the
/// player is moved to the spawn marker with zero linear and angular velocity;
/// one reset is enough, so the remaining events do not matter. Without a live
/// spawn marker nothing happens. All of the tick's events are drained.
pub fn player_death(
    player: Entity,
    body: &mut PlayerBody,
    events: &mut Vec<CollisionEvent>,
    scene: &Scene,
) -> (r: bool)
    requires
        scene@.wf(),
    ensures
        r == death_applies(scene@, player, old(events)@),
        r ==> *final(body) == respawned(scene@),
        !r ==> *final(body) == *old(body),
        final(events)@.len() == 0,
{
    let r = first_death(player, body, events, scene);
    events.clear();
    r
}

fn first_death(
    player: Entity,
    body: &mut PlayerBody,
    events: &Vec<CollisionEvent>,
    scene: &Scene,
) -> (r: bool)
    requires
        scene@.wf(),
    ensures
        r == death_applies(scene@, player, events@),
        r ==> *final(body) == respawned(scene@),
        !r ==> *final(body) == *old(body),
{
    let spawn = match scene.current_spawn() {
        Some(p) => p,
        None => return false,
    };
    let mut i: usize = 0;
    while i < events.len()
        invariant
            i <= events@.len(),
            *body == *old(body),
            scene@.live is Some,
            spawn == scene@.live->Some_0.spawn.pos,
            forall|j: int| 0 <= j < i ==> !kills(scene@, player, #[trigger] events@[j]),
        decreases events@.len() - i,
    {
        if let CollisionEvent::Started(a, b) = events[i] {
            if a == player || b == player {
                if scene.is_death_object(a) || scene.is_death_object(b) {
                    body.translation = spawn;
                    body.linvel = zero_vec3();
                    body.angvel = zero_vec3();
                    assert(kills(scene@, player, events@[i as int]));
                    return true;
                }
            }
        }
        i = i + 1;
    }
    false
}

} // verus!
