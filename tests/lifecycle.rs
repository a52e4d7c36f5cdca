use platformer_levels::descriptor::{
    SerialAxis, SerialCube, SerialDeathPlane, SerialLevel, SerialPlane, SerialRotation, SerialSpawnPoint, SerialVec3,
};
use platformer_levels::lifecycle::{
    build_level_on_load, remove_level, AssetEvent, LevelHandle, LevelState, LevelStateOld,
};
use platformer_levels::logic::{player_death, CollisionEvent, PlayerBody};
use platformer_levels::player::{add_player, fallback_spawn, remove_player};
use platformer_levels::scalar::Scalar;
use platformer_levels::scene::{ChildKind, Entity, ObjectKind, Scene};
use platformer_levels::util::ResultExt;

fn num(v: f32) -> Scalar {
    Scalar::from_bits(v.to_bits())
}

fn vec3(x: f32, y: f32, z: f32) -> SerialVec3 {
    SerialVec3 { x: num(x), y: num(y), z: num(z) }
}

fn scenario_level() -> SerialLevel {
    SerialLevel {
        spawn: SerialSpawnPoint { pos: vec3(0.0, 0.5, 0.0) },
        cubes: vec![SerialCube { pos: vec3(0.0, 0.5, -2.0), rotations: vec![], size: num(1.0) }],
        planes: vec![],
        death_planes: vec![],
    }
}

fn full_level() -> SerialLevel {
    SerialLevel {
        spawn: SerialSpawnPoint { pos: vec3(0.0, 0.5, 0.0) },
        cubes: vec![SerialCube {
            pos: vec3(0.0, 3.0, 0.0),
            rotations: vec![
                SerialRotation { axis: SerialAxis::Y, angle: num(90.0) },
                SerialRotation { axis: SerialAxis::X, angle: num(90.0) },
            ],
            size: num(1.0),
        }],
        planes: vec![SerialPlane { pos: vec3(0.0, 0.0, 0.0), rotations: vec![], size: num(4.0), size2: None }],
        death_planes: vec![SerialDeathPlane { pos: vec3(0.0, -10.0, 0.0), size: num(100.0) }],
    }
}

fn loaded(h: u64) -> Vec<AssetEvent> {
    vec![AssetEvent::LoadedWithDependencies { id: LevelHandle { id: h } }]
}

fn wanting(h: Option<u64>) -> LevelState {
    LevelState { handle: h.map(|id| LevelHandle { id }) }
}

fn still() -> PlayerBody {
    PlayerBody { translation: vec3(3.0, -20.0, 1.0), linvel: vec3(0.0, -9.0, 2.0), angvel: vec3(1.0, 1.0, 1.0) }
}

#[test]
fn scenario_instantiates_cube_and_spawn_marker() {
    let mut scene = Scene::new();
    let entities = scenario_level().spawn(&mut scene);
    assert_eq!(scene.len(), 2);
    let objects = scene.objects();
    assert!(matches!(objects[0].kind, ObjectKind::Cube { .. }));
    assert!(matches!(objects[1].kind, ObjectKind::SpawnPoint { .. }));
    assert_eq!(entities.spawn, objects[1].entity);
    assert_eq!(scene.spawn_position(entities.spawn), Some(vec3(0.0, 0.5, 0.0)));
    assert_eq!(scene.current_spawn(), Some(vec3(0.0, 0.5, 0.0)));
}

#[test]
fn instantiation_keeps_rotation_order_and_square_plane() {
    let mut scene = Scene::new();
    let entities = full_level().spawn(&mut scene);
    let objects = scene.objects();
    assert_eq!(objects.len(), 4);
    match &objects[0].kind {
        ObjectKind::Cube { rotations, size, .. } => {
            assert_eq!(rotations[0], SerialRotation { axis: SerialAxis::Y, angle: num(90.0) });
            assert_eq!(rotations[1], SerialRotation { axis: SerialAxis::X, angle: num(90.0) });
            assert_eq!(*size, num(1.0));
        }
        other => panic!("expected a cube, got {:?}", other),
    }
    assert!(matches!(objects[1].kind, ObjectKind::Plane { .. }));
    assert_eq!(objects[1].children.len(), 2);
    assert_eq!(objects[1].children[0].kind, ChildKind::Quad { width: num(4.0), depth: num(4.0) });
    assert_eq!(objects[1].children[1].kind, ChildKind::Collider { width: num(4.0), depth: num(4.0) });
    assert_eq!(objects[2].kind, ObjectKind::DeathVolume { top: vec3(0.0, -10.0, 0.0), size: num(100.0) });
    assert_eq!(objects[3].entity, entities.spawn);
    assert_eq!(entities.spawn, Entity { id: 5 });
    for o in objects.iter() {
        assert_eq!(o.generation, 0);
    }
    assert!(scene.is_death_object(objects[2].entity));
    assert!(!scene.is_death_object(objects[0].entity));
}

#[test]
fn load_reload_unload_keeps_one_generation() {
    let mut scene = Scene::new();
    let mut old = LevelStateOld::new();
    let state = wanting(Some(7));
    let level = full_level();

    let first = build_level_on_load(&state, &mut old, &mut loaded(7), Some(&level), &mut scene).unwrap();
    assert_eq!(scene.len(), 4);
    assert_eq!(old.handle, Some(LevelHandle { id: 7 }));

    // a second load of the same asset replaces the first generation
    let second = build_level_on_load(&state, &mut old, &mut loaded(7), Some(&level), &mut scene).unwrap();
    assert_eq!(scene.len(), 4);
    let generation = scene.objects()[0].generation;
    assert_eq!(generation, 6);
    for o in scene.objects().iter() {
        assert_eq!(o.generation, generation);
    }
    assert_ne!(first.entities.spawn, second.entities.spawn);
    assert_eq!(scene.spawn_position(first.entities.spawn), None);
    assert_eq!(scene.spawn_position(second.entities.spawn), Some(vec3(0.0, 0.5, 0.0)));

    // several notifications in one tick rebuild once
    let mut events = loaded(7);
    events.extend(loaded(7));
    build_level_on_load(&state, &mut old, &mut events, Some(&level), &mut scene).unwrap();
    assert!(events.is_empty());
    assert_eq!(scene.len(), 4);
    assert_eq!(scene.objects()[0].generation, 12);

    let unset = wanting(None);
    assert!(remove_level(&unset, &mut old, &mut scene).is_some());
    assert_eq!(scene.len(), 0);
    assert_eq!(scene.current_spawn(), None);
}

#[test]
fn removal_is_emitted_once() {
    let mut scene = Scene::new();
    let mut old = LevelStateOld::new();
    build_level_on_load(&wanting(Some(1)), &mut old, &mut loaded(1), Some(&scenario_level()), &mut scene).unwrap();
    let unset = wanting(None);
    assert!(remove_level(&unset, &mut old, &mut scene).is_some());
    for _ in 0..5 {
        assert!(remove_level(&unset, &mut old, &mut scene).is_none());
        assert!(build_level_on_load(&unset, &mut old, &mut loaded(1), Some(&scenario_level()), &mut scene).is_none());
    }
    assert_eq!(scene.len(), 0);
}

#[test]
fn nothing_to_remove_before_any_load() {
    let mut scene = Scene::new();
    let mut old = LevelStateOld::new();
    assert!(remove_level(&LevelState::new(), &mut old, &mut scene).is_none());
    assert_eq!(old.handle, None);
}

#[test]
fn stale_notification_is_ignored() {
    let mut scene = Scene::new();
    let mut old = LevelStateOld::new();
    // the menu wanted level 1, then level 2; level 1 finishes loading late
    let state = wanting(Some(2));
    let mut events = vec![
        AssetEvent::Added { id: LevelHandle { id: 1 } },
        AssetEvent::LoadedWithDependencies { id: LevelHandle { id: 1 } },
    ];
    assert!(build_level_on_load(&state, &mut old, &mut events, Some(&scenario_level()), &mut scene).is_none());
    assert_eq!(scene.len(), 0);
    assert_eq!(old.handle, None);
    // level 2's own notification builds it
    assert!(build_level_on_load(&state, &mut old, &mut loaded(2), Some(&full_level()), &mut scene).is_some());
    assert_eq!(scene.len(), 4);
    assert_eq!(old.handle, Some(LevelHandle { id: 2 }));
}

#[test]
fn load_waits_for_content_and_for_completion() {
    let mut scene = Scene::new();
    let mut old = LevelStateOld::new();
    let state = wanting(Some(3));
    assert!(build_level_on_load(&state, &mut old, &mut loaded(3), None, &mut scene).is_none());
    let mut modified = vec![AssetEvent::Modified { id: LevelHandle { id: 3 } }];
    assert!(build_level_on_load(&state, &mut old, &mut modified, Some(&full_level()), &mut scene).is_none());
    assert_eq!(scene.len(), 0);
    assert_eq!(old.handle, None);
}

#[test]
fn death_plane_sends_player_back_to_spawn() {
    let mut scene = Scene::new();
    let level = SerialLevel {
        spawn: SerialSpawnPoint { pos: vec3(0.0, 0.5, 0.0) },
        cubes: vec![],
        planes: vec![],
        death_planes: vec![SerialDeathPlane { pos: vec3(0.0, -5.0, 0.0), size: num(10.0) }],
    };
    level.spawn(&mut scene);
    let death = scene.objects()[0].entity;
    let player = Entity { id: 1000 };
    let mut body = still();
    let mut events = vec![CollisionEvent::Started(death, player)];
    assert!(player_death(player, &mut body, &mut events, &scene));
    assert_eq!(body.translation, vec3(0.0, 0.5, 0.0));
    assert_eq!(body.linvel, vec3(0.0, 0.0, 0.0));
    assert_eq!(body.angvel, vec3(0.0, 0.0, 0.0));
    assert_eq!(body.linvel.x.to_bits(), 0);
}

#[test]
fn harmless_contacts_do_not_reset_player() {
    let mut scene = Scene::new();
    let entities = full_level().spawn(&mut scene);
    let cube = scene.objects()[0].entity;
    let death = scene.objects()[2].entity;
    let player = Entity { id: 1000 };
    let mut body = still();
    let mut events = vec![
        CollisionEvent::Started(cube, player),
        CollisionEvent::Stopped(death, player),
        CollisionEvent::Started(death, cube),
        CollisionEvent::Started(entities.spawn, player),
    ];
    assert!(!player_death(player, &mut body, &mut events, &scene));
    assert_eq!(body, still());
    assert!(events.is_empty());
}

#[test]
fn no_reset_without_spawn_marker() {
    let scene = Scene::new();
    let player = Entity { id: 1 };
    let mut body = still();
    let mut events = vec![CollisionEvent::Started(Entity { id: 0 }, player)];
    assert!(!player_death(player, &mut body, &mut events, &scene));
    assert_eq!(body, still());
}

#[test]
fn player_spawns_at_marker_or_default() {
    let mut scene = Scene::new();
    let mut old = LevelStateOld::new();
    let event = build_level_on_load(&wanting(Some(1)), &mut old, &mut loaded(1), Some(&full_level()), &mut scene);
    assert_eq!(add_player(false, event, &scene), Some(vec3(0.0, 0.5, 0.0)));
    assert_eq!(add_player(true, event, &scene), None);
    assert_eq!(add_player(false, None, &scene), None);

    let mut moved = full_level();
    moved.spawn.pos = vec3(1.0, 2.0, 3.0);
    let event2 = build_level_on_load(&wanting(Some(1)), &mut old, &mut loaded(1), Some(&moved), &mut scene);
    assert_eq!(add_player(false, event2, &scene), Some(vec3(1.0, 2.0, 3.0)));
    // the first event's marker is gone: the default position is used
    assert_eq!(add_player(false, event, &scene), Some(vec3(0.0, 0.5, 0.0)));
    assert_eq!(fallback_spawn(), vec3(0.0, 0.5, 0.0));
}

#[test]
fn player_is_removed_with_level() {
    let mut scene = Scene::new();
    let mut old = LevelStateOld { handle: Some(LevelHandle { id: 4 }) };
    let removed = remove_level(&LevelState::new(), &mut old, &mut scene);
    assert!(remove_player(removed));
    assert!(!remove_player(None));
}

#[test]
fn report_takes_ok_value() {
    let r: Result<u32, String> = Ok(5);
    assert_eq!(r.report(), 5);
}

#[test]
fn handles_left_for_instantiation() {
    let mut scene = Scene::new();
    assert!(full_level().fits_in(&scene));
    full_level().spawn(&mut scene);
    assert_eq!(scene.next_id(), 6);
    assert!(scenario_level().fits_in(&scene));
}
