//! The level lifecycle: which level is wanted, which one was last acted upon,
//! and the two steps that run once per tick to bring the scene in line.
//!
//! `remove_level` tears the level down when the wanted handle goes from some
//! level to none, once per such edge. `build_level_on_load` rebuilds the scene
//! when the asset of the wanted handle reports that it finished loading; a
//! notification for any other handle is stale and changes nothing. The old
//! generation is always torn down before the new one is built.

use vstd::prelude::*;
use crate::descriptor::SerialLevel;
use crate::scene::{Scene, LevelPertinentEntities, entity_at, spawn_id, plan};

verus! {

/// Handle of a level asset.
#[derive(Clone, Copy, Debug, PartialEq, Eq, Structural, Hash)]
pub struct LevelHandle {
    pub id: u64,
}

/// The level that the menu wants loaded; `None` while in the menu.
#[derive(Clone, Copy, Debug, PartialEq, Eq, Structural)]
pub struct LevelState {
    pub handle: Option<LevelHandle>,
}

/// The handle that the lifecycle last acted upon.
#[derive(Clone, Copy, Debug, PartialEq, Eq, Structural)]
pub struct LevelStateOld {
    pub handle: Option<LevelHandle>,
}

/// A change notification from the asset store.
#[derive(Clone, Copy, Debug, PartialEq, Eq, Structural)]
pub enum AssetEvent {
    Added { id: LevelHandle },
    Modified { id: LevelHandle },
    Removed { id: LevelHandle },
    /// The asset and everything it depends on are loaded: its content is available.
    LoadedWithDependencies { id: LevelHandle },
}

/// Published when the level's objects have been removed.
#[derive(Clone, Copy, Debug, PartialEq, Eq, Structural)]
pub struct LevelRemovedEvent;

/// Published when a level has been built, with the entities the player needs.
#[derive(Clone, Copy, Debug, PartialEq, Eq, Structural)]
pub struct LevelLoadedEvent {
    pub entities: LevelPertinentEntities,
}

impl LevelState {
    pub fn new() -> (r: LevelState)
        ensures
            r.handle is None,
    {
        LevelState { handle: None }
    }
}

impl LevelStateOld {
    pub fn new() -> (r: LevelStateOld)
        ensures
            r.handle is None,
    {
        LevelStateOld { handle: None }
    }
}

/// The level was wanted when last acted upon, and is not wanted now.
pub open spec fn removal_fires(state: LevelState, old: LevelStateOld) -> bool {
    state.handle is None && old.handle is Some
}

/// The shadow state after the removal step.
pub open spec fn old_after_removal(state: LevelState, old: LevelStateOld) -> LevelStateOld {
    if removal_fires(state, old) {
        LevelStateOld { handle: None }
    } else {
        old
    }
}

/// `e` reports that the asset `h` finished loading.
pub open spec fn reports_loaded(e: AssetEvent, h: LevelHandle) -> bool {
    e == (AssetEvent::LoadedWithDependencies { id: h })
}

/// Some notification of this tick reports that the wanted level finished loading.
pub open spec fn load_requested(state: LevelState, events: Seq<AssetEvent>) -> bool {
    match state.handle {
        Some(h) => exists|i: int| 0 <= i < events.len() && reports_loaded(#[trigger] events[i], h),
        None => false,
    }
}

/// The build step rebuilds the scene: the wanted level finished loading and
/// its content is there.
pub open spec fn load_fires(state: LevelState, events: Seq<AssetEvent>, available: bool) -> bool {
    load_requested(state, events) && available
}

/// The shadow state after the build step.
pub open spec fn old_after_load(
    state: LevelState,
    old: LevelStateOld,
    events: Seq<AssetEvent>,
    available: bool,
) -> LevelStateOld {
    if load_fires(state, events, available) {
        LevelStateOld { handle: state.handle }
    } else {
        old
    }
}

/// Removes every level object when the wanted level has gone from some to none.
/// Re-observing `None` afterwards does nothing.
pub fn remove_level(
    level_state: &LevelState,
    level_state_old: &mut LevelStateOld,
    scene: &mut Scene,
) -> (r: Option<LevelRemovedEvent>)
    requires
        old(scene)@.wf(),
    ensures
        final(scene)@.wf(),
        *final(level_state_old) == old_after_removal(*level_state, *old(level_state_old)),
        removal_fires(*level_state, *old(level_state_old)) ==> r is Some && final(scene)@.objects.len()
            == 0 && final(scene)@.live is None && final(scene)@.next_id == old(scene)@.next_id,
        !removal_fires(*level_state, *old(level_state_old)) ==> r is None && *final(scene)
            == *old(scene),
{
    if level_state.handle.is_none() && level_state_old.handle.is_some() {
        level_state_old.handle = None;
        let _removed = scene.despawn_level();
        Some(LevelRemovedEvent)
    } else {
        None
    }
}

/// Builds the wanted level once its asset reports that it finished loading,
/// tearing down whatever level objects are still live first. `level` is the
/// loaded content of the wanted handle, if it is available. A notification for
/// a handle other than the wanted one is ignored; several for the wanted one
/// rebuild once. All of the tick's notifications are drained.
pub fn build_level_on_load(
    level_state: &LevelState,
    level_state_old: &mut LevelStateOld,
    events: &mut Vec<AssetEvent>,
    level: Option<&SerialLevel>,
    scene: &mut Scene,
) -> (r: Option<LevelLoadedEvent>)
    requires
        old(scene)@.wf(),
        match level {
            Some(l) => old(scene)@.next_id + l@.entity_count() <= u64::MAX,
            None => true,
        },
    ensures
        final(scene)@.wf(),
        final(events)@.len() == 0,
        *final(level_state_old) == old_after_load(
            *level_state,
            *old(level_state_old),
            old(events)@,
            level is Some,
        ),
        load_fires(*level_state, old(events)@, level is Some) ==> {
            let lv = level->Some_0@;
            let base = old(scene)@.next_id as int;
            &&& r == Some(
                LevelLoadedEvent {
                    entities: LevelPertinentEntities { spawn: entity_at(spawn_id(lv, base)) },
                },
            )
            &&& final(scene)@.live == Some(lv)
            &&& final(scene)@.objects == plan(lv, base)
            &&& final(scene)@.generation == old(scene)@.next_id
            &&& final(scene)@.next_id == base + lv.entity_count()
        },
        !load_fires(*level_state, old(events)@, level is Some) ==> r is None && *final(scene)
            == *old(scene),
{
    let r = first_load(level_state, level_state_old, events, level, scene);
    events.clear();
    r
}

fn first_load(
    level_state: &LevelState,
    level_state_old: &mut LevelStateOld,
    events: &Vec<AssetEvent>,
    level: Option<&SerialLevel>,
    scene: &mut Scene,
) -> (r: Option<LevelLoadedEvent>)
    requires
        old(scene)@.wf(),
        match level {
            Some(l) => old(scene)@.next_id + l@.entity_count() <= u64::MAX,
            None => true,
        },
    ensures
        final(scene)@.wf(),
        *final(level_state_old) == old_after_load(
            *level_state,
            *old(level_state_old),
            events@,
            level is Some,
        ),
        load_fires(*level_state, events@, level is Some) ==> {
            let lv = level->Some_0@;
            let base = old(scene)@.next_id as int;
            &&& r == Some(
                LevelLoadedEvent {
                    entities: LevelPertinentEntities { spawn: entity_at(spawn_id(lv, base)) },
                },
            )
            &&& final(scene)@.live == Some(lv)
            &&& final(scene)@.objects == plan(lv, base)
            &&& final(scene)@.generation == old(scene)@.next_id
            &&& final(scene)@.next_id == base + lv.entity_count()
        },
        !load_fires(*level_state, events@, level is Some) ==> r is None && *final(scene)
            == *old(scene),
{
    let h = match level_state.handle {
        Some(h) => h,
        None => return None,
    };
    let content = match level {
        Some(l) => l,
        None => return None,
    };
    let mut i: usize = 0;
    while i < events.len()
        invariant
            i <= events@.len(),
            forall|j: int| 0 <= j < i ==> !reports_loaded(#[trigger] events@[j], h),
            *scene == *old(scene),
            *level_state_old == *old(level_state_old),
            level == Some(content),
            level_state.handle == Some(h),
            scene@.wf(),
            scene@.next_id + content@.entity_count() <= u64::MAX,
        decreases events@.len() - i,
    {
        let e = events[i];
        if e == (AssetEvent::LoadedWithDependencies { id: h }) {
            let _removed = scene.despawn_level();
            level_state_old.handle = Some(h);
            let entities = content.spawn(scene);
            return Some(LevelLoadedEvent { entities });
        }
        i = i + 1;
    }
    None
}

/// The handle that a notification is about.
pub open spec fn event_handle(e: AssetEvent) -> LevelHandle {
    match e {
        AssetEvent::Added { id } => id,
        AssetEvent::Modified { id } => id,
        AssetEvent::Removed { id } => id,
        AssetEvent::LoadedWithDependencies { id } => id,
    }
}

/// The shadow state after one tick, removal step then build step, while no
/// level is wanted.
pub open spec fn unset_tick(old: LevelStateOld, events: Seq<AssetEvent>, available: bool) -> LevelStateOld {
    let state = LevelState { handle: None };
    old_after_load(state, old_after_removal(state, old), events, available)
}

/// How many removal events a run of ticks emits while no level is wanted;
/// each tick brings its notifications and whether content is available.
pub open spec fn removals_while_unset(
    old: LevelStateOld,
    ticks: Seq<(Seq<AssetEvent>, bool)>,
) -> nat
    decreases ticks.len(),
{
    if ticks.len() == 0 {
        0
    } else {
        (if removal_fires(LevelState { handle: None }, old) {
            1nat
        } else {
            0nat
        }) + removals_while_unset(unset_tick(old, ticks[0].0, ticks[0].1), ticks.drop_first())
    }
}

/// Removal is edge-triggered: however many ticks observe no wanted level, with
/// whatever notifications, the removal event is emitted at most once, and not
/// at all if nothing was loaded when they began.
pub proof fn lemma_removal_edge_triggered(old: LevelStateOld, ticks: Seq<(Seq<AssetEvent>, bool)>)
    ensures
        removals_while_unset(old, ticks) <= 1,
        old.handle is None ==> removals_while_unset(old, ticks) == 0,
    decreases ticks.len(),
{
    if ticks.len() > 0 {
        let next = unset_tick(old, ticks[0].0, ticks[0].1);
        assert(next.handle is None);
        lemma_removal_edge_triggered(next, ticks.drop_first());
    }
}

/// A notification for a superseded handle is ignored: when the wanted level is
/// `b` and every notification of the tick is about another handle `a`, the
/// build step does not fire, so it leaves the scene and the shadow state as they
/// were.
pub proof fn lemma_stale_notification_ignored(
    a: LevelHandle,
    b: LevelHandle,
    old: LevelStateOld,
    events: Seq<AssetEvent>,
    available: bool,
)
    requires
        a != b,
        forall|i: int| 0 <= i < events.len() ==> event_handle(#[trigger] events[i]) == a,
    ensures
        !load_fires(LevelState { handle: Some(b) }, events, available),
        old_after_load(LevelState { handle: Some(b) }, old, events, available) == old,
{
    assert forall|i: int| 0 <= i < events.len() implies !reports_loaded(#[trigger] events[i], b) by {
        assert(event_handle(events[i]) == a);
    }
}

} // verus!
