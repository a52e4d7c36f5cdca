//! The live scene as an explicit registry of level-owned entities.
//!
//! Every entity that instantiating a level creates is recorded here, under the
//! generation (one instantiation pass) that created it. Entity handles are never
//! reused, so a handle of a removed generation never resolves again. Whoever
//! renders and simulates the scene mirrors this registry: it builds what
//! `SerialLevel::spawn` adds and destroys what `Scene::despawn_level` removes.

use vstd::prelude::*;
use crate::scalar::Scalar;
use crate::descriptor::{
    SerialVec3, SerialRotation, SerialLevel, SerialPlane, LevelView, CubeView, PlaneView,
    SerialDeathPlane,
};

verus! {

/// A handle to a scene entity.
#[derive(Clone, Copy, Debug, PartialEq, Eq, Structural, Hash)]
pub struct Entity {
    pub id: u64,
}

/// What a top-level level object is, with the values needed to build it.
#[derive(Clone, Debug, PartialEq, Eq)]
pub enum ObjectKind {
    /// A dynamic rigid body with a box collider of edge `size`, at `pos`,
    /// rotated by `rotations` composed in the order given.
    Cube { pos: SerialVec3, rotations: Vec<SerialRotation>, size: Scalar },
    /// A fixed body at `pos`, rotated like a cube; its quad and collider are children.
    Plane { pos: SerialVec3, rotations: Vec<SerialRotation> },
    /// A fixed sensor cube of edge `size` whose top face is at `top`; a death object.
    DeathVolume { top: SerialVec3, size: Scalar },
    /// The player spawn marker.
    SpawnPoint { pos: SerialVec3 },
}

/// What a child of a plane is.
#[derive(Clone, Copy, Debug, PartialEq, Eq, Structural)]
pub enum ChildKind {
    /// The visible quad, `width` by `depth`.
    Quad { width: Scalar, depth: Scalar },
    /// A box collider `width` by `depth`, 0.1 thick on each side of a centre
    /// 0.1 below the quad.
    Collider { width: Scalar, depth: Scalar },
}

#[derive(Clone, Copy, Debug, PartialEq, Eq, Structural)]
pub struct ChildObject {
    pub entity: Entity,
    pub kind: ChildKind,
}

/// A top-level level object and its children.
#[derive(Clone, Debug, PartialEq, Eq)]
pub struct SceneObject {
    pub entity: Entity,
    pub generation: u64,
    pub kind: ObjectKind,
    pub children: Vec<ChildObject>,
}

pub ghost enum KindView {
    Cube { pos: SerialVec3, rotations: Seq<SerialRotation>, size: Scalar },
    Plane { pos: SerialVec3, rotations: Seq<SerialRotation> },
    DeathVolume { top: SerialVec3, size: Scalar },
    SpawnPoint { pos: SerialVec3 },
}

pub ghost struct ObjectView {
    pub entity: Entity,
    pub generation: u64,
    pub kind: KindView,
    pub children: Seq<ChildObject>,
}

impl View for ObjectKind {
    type V = KindView;

    open spec fn view(&self) -> KindView {
        match self {
            ObjectKind::Cube { pos, rotations, size } => KindView::Cube {
                pos: *pos,
                rotations: rotations@,
                size: *size,
            },
            ObjectKind::Plane { pos, rotations } => KindView::Plane {
                pos: *pos,
                rotations: rotations@,
            },
            ObjectKind::DeathVolume { top, size } => KindView::DeathVolume { top: *top, size: *size },
            ObjectKind::SpawnPoint { pos } => KindView::SpawnPoint { pos: *pos },
        }
    }
}

impl View for SceneObject {
    type V = ObjectView;

    open spec fn view(&self) -> ObjectView {
        ObjectView {
            entity: self.entity,
            generation: self.generation,
            kind: self.kind@,
            children: self.children@,
        }
    }
}

/// The entities that the rest of the game needs from a fresh instantiation.
#[derive(Clone, Copy, Debug, PartialEq, Eq, Structural)]
pub struct LevelPertinentEntities {
    pub spawn: Entity,
}

impl LevelView {
    /// How many entities one instantiation creates: a plane has two children.
    pub open spec fn entity_count(self) -> nat {
        self.cubes.len() + 3 * self.planes.len() + self.death_planes.len() + 1
    }
}

pub open spec fn entity_at(id: int) -> Entity {
    Entity { id: id as u64 }
}

pub open spec fn cube_object(c: CubeView, id: int, generation: u64) -> ObjectView {
    ObjectView {
        entity: entity_at(id),
        generation,
        kind: KindView::Cube { pos: c.pos, rotations: c.rotations, size: c.size },
        children: seq![],
    }
}

pub open spec fn plane_object(p: PlaneView, id: int, generation: u64) -> ObjectView {
    ObjectView {
        entity: entity_at(id),
        generation,
        kind: KindView::Plane { pos: p.pos, rotations: p.rotations },
        children: seq![
            ChildObject {
                entity: entity_at(id + 1),
                kind: ChildKind::Quad { width: p.size, depth: p.depth() },
            },
            ChildObject {
                entity: entity_at(id + 2),
                kind: ChildKind::Collider { width: p.size, depth: p.depth() },
            },
        ],
    }
}

pub open spec fn death_object(d: SerialDeathPlane, id: int, generation: u64) -> ObjectView {
    ObjectView {
        entity: entity_at(id),
        generation,
        kind: KindView::DeathVolume { top: d.pos, size: d.size },
        children: seq![],
    }
}

pub open spec fn spawn_object(lv: LevelView, id: int, generation: u64) -> ObjectView {
    ObjectView {
        entity: entity_at(id),
        generation,
        kind: KindView::SpawnPoint { pos: lv.spawn.pos },
        children: seq![],
    }
}

/// Handle of the spawn marker when the generation's handles start at `base`.
pub open spec fn spawn_id(lv: LevelView, base: int) -> int {
    base + lv.cubes.len() + 3 * lv.planes.len() + lv.death_planes.len()
}

/// The `i`-th top-level object of an instantiation whose handles start at
/// `base`: the cubes, then the planes, then the death planes, then the spawn
/// marker, each in descriptor order. The generation is named by `base`.
pub open spec fn planned_object(lv: LevelView, base: int, i: int) -> ObjectView {
    let nc = lv.cubes.len() as int;
    let np = lv.planes.len() as int;
    let nd = lv.death_planes.len() as int;
    let g = base as u64;
    if i < nc {
        cube_object(lv.cubes[i], base + i, g)
    } else if i < nc + np {
        plane_object(lv.planes[i - nc], base + nc + 3 * (i - nc), g)
    } else if i < nc + np + nd {
        death_object(lv.death_planes[i - nc - np], base + nc + 3 * np + (i - nc - np), g)
    } else {
        spawn_object(lv, spawn_id(lv, base), g)
    }
}

/// The top-level objects of one instantiation of `lv`.
pub open spec fn plan(lv: LevelView, base: int) -> Seq<ObjectView> {
    Seq::new(lv.object_count(), |i: int| planned_object(lv, base, i))
}

/// The position of the first object that is the spawn marker `e`.
pub open spec fn spawn_marker_at(objs: Seq<ObjectView>, e: Entity) -> Option<SerialVec3>
    decreases objs.len(),
{
    if objs.len() == 0 {
        None
    } else {
        match objs[0].kind {
            KindView::SpawnPoint { pos } => if objs[0].entity == e {
                Some(pos)
            } else {
                spawn_marker_at(objs.drop_first(), e)
            },
            _ => spawn_marker_at(objs.drop_first(), e),
        }
    }
}

/// `e` is a live death object of the scene.
pub open spec fn is_death_entity(s: SceneView, e: Entity) -> bool {
    exists|i: int|
        0 <= i < s.objects.len() && (#[trigger] s.objects[i]).entity == e
            && s.objects[i].kind is DeathVolume
}

/// The registry of level-owned entities.
pub struct Scene {
    objects: Vec<SceneObject>,
    next_id: u64,
    generation: u64,
    live: Ghost<Option<LevelView>>,
}

pub ghost struct SceneView {
    /// The live top-level objects.
    pub objects: Seq<ObjectView>,
    /// The first handle not handed out yet.
    pub next_id: u64,
    /// The generation of the live objects, or of the last ones if none are live.
    pub generation: u64,
    /// The level that the live objects were built from.
    pub live: Option<LevelView>,
}

impl SceneView {
    /// The live objects are exactly zero or one instantiation of one level.
    pub open spec fn wf(self) -> bool {
        match self.live {
            None => self.objects.len() == 0,
            Some(lv) => self.objects == plan(lv, self.generation as int) && self.generation
                + lv.entity_count() <= self.next_id,
        }
    }
}

impl View for Scene {
    type V = SceneView;

    closed spec fn view(&self) -> SceneView {
        SceneView {
            objects: self.objects@.map_values(|o: SceneObject| o@),
            next_id: self.next_id,
            generation: self.generation,
            live: self.live@,
        }
    }
}

fn copy_rotations(v: &Vec<SerialRotation>) -> (r: Vec<SerialRotation>)
    ensures
        r@ == v@,
{
    let mut r: Vec<SerialRotation> = Vec::new();
    let mut i: usize = 0;
    while i < v.len()
        invariant
            i <= v@.len(),
            r@ == v@.take(i as int),
        decreases v@.len() - i,
    {
        r.push(v[i]);
        i = i + 1;
        assert(r@ =~= v@.take(i as int));
    }
    assert(v@.take(v@.len() as int) =~= v@);
    r
}

impl Scene {
    /// An empty scene.
    pub fn new() -> (r: Scene)
        ensures
            r@.wf(),
            r@.objects.len() == 0,
            r@.live is None,
            r@.next_id == 0,
    {
        let r = Scene { objects: Vec::new(), next_id: 0, generation: 0, live: Ghost(None) };
        assert(r@.objects =~= Seq::<ObjectView>::empty());
        r
    }

    /// The live top-level objects.
    pub fn objects(&self) -> (r: &Vec<SceneObject>)
        ensures
            r@.map_values(|o: SceneObject| o@) == self@.objects,
    {
        &self.objects
    }

    /// The first handle not handed out yet.
    pub fn next_id(&self) -> (r: u64)
        ensures
            r == self@.next_id,
    {
        self.next_id
    }

    /// How many top-level objects are live.
    pub fn len(&self) -> (r: usize)
        ensures
            r == self@.objects.len(),
    {
        self.objects.len()
    }

    /// The position of the live generation's spawn marker, if a level is live.
    pub fn current_spawn(&self) -> (r: Option<SerialVec3>)
        requires
            self@.wf(),
        ensures
            r == match self@.live {
                None => None,
                Some(lv) => Some(lv.spawn.pos),
            },
    {
        let n = self.objects.len();
        assert(self@.objects.len() == n);
        if n == 0 {
            return None;
        }
        proof {
            let lv = self@.live->Some_0;
            assert(self@.objects == plan(lv, self.generation as int));
            assert(n == lv.object_count());
            assert(self@.objects[n - 1] == planned_object(lv, self.generation as int, n - 1));
            assert(self@.objects[n - 1] == self.objects@[n - 1]@);
        }
        match &self.objects[n - 1].kind {
            ObjectKind::SpawnPoint { pos } => Some(*pos),
            _ => None,
        }
    }

    /// Where the spawn marker `e` stands, if `e` is a live spawn marker.
    pub fn spawn_position(&self, e: Entity) -> (r: Option<SerialVec3>)
        ensures
            r == spawn_marker_at(self@.objects, e),
    {
        let ghost objs = self@.objects;
        let n = self.objects.len();
        let mut i: usize = 0;
        assert(objs.subrange(0, n as int) =~= objs);
        while i < n
            invariant
                n == objs.len(),
                objs == self@.objects,
                i <= n,
                spawn_marker_at(objs, e) == spawn_marker_at(objs.subrange(i as int, n as int), e),
            decreases n - i,
        {
            let o = &self.objects[i];
            assert(objs[i as int] == o@);
            assert(objs.subrange(i as int, n as int)[0] == objs[i as int]);
            if o.entity == e {
                if let ObjectKind::SpawnPoint { pos } = &o.kind {
                    return Some(*pos);
                }
            }
            assert(objs.subrange(i as int, n as int).drop_first() =~= objs.subrange(
                i + 1,
                n as int,
            ));
            i = i + 1;
        }
        None
    }

    /// Whether `e` is a live death object.
    pub fn is_death_object(&self, e: Entity) -> (r: bool)
        ensures
            r == is_death_entity(self@, e),
    {
        let mut i: usize = 0;
        while i < self.objects.len()
            invariant
                i <= self@.objects.len(),
                self@.objects.len() == self.objects@.len(),
                forall|j: int|
                    0 <= j < i ==> !((#[trigger] self@.objects[j]).entity == e
                        && self@.objects[j].kind is DeathVolume),
            decreases self.objects@.len() - i,
        {
            let o = &self.objects[i];
            assert(self@.objects[i as int] == o@);
            if o.entity == e {
                if let ObjectKind::DeathVolume { .. } = &o.kind {
                    return true;
                }
            }
            i = i + 1;
        }
        false
    }

    /// Removes every level-owned entity, children included, and hands back the
    /// top-level handles that were removed.
    pub fn despawn_level(&mut self) -> (r: Vec<Entity>)
        requires
            old(self)@.wf(),
        ensures
            final(self)@.wf(),
            final(self)@.objects.len() == 0,
            final(self)@.live is None,
            final(self)@.next_id == old(self)@.next_id,
            final(self)@.generation == old(self)@.generation,
            r@ == old(self)@.objects.map_values(|o: ObjectView| o.entity),
    {
        let mut r: Vec<Entity> = Vec::new();
        let mut i: usize = 0;
        while i < self.objects.len()
            invariant
                i <= self.objects@.len(),
                r@ =~= self@.objects.take(i as int).map_values(|o: ObjectView| o.entity),
            decreases self.objects@.len() - i,
        {
            r.push(self.objects[i].entity);
            i = i + 1;
            assert(r@ =~= self@.objects.take(i as int).map_values(|o: ObjectView| o.entity));
        }
        assert(self@.objects.take(self@.objects.len() as int) =~= self@.objects);
        self.objects = Vec::new();
        self.live = Ghost(None);
        assert(self@.objects =~= Seq::<ObjectView>::empty());
        r
    }
}

impl SerialLevel {
    /// Whether the scene has handles left for one more instantiation of the level.
    pub fn fits_in(&self, scene: &Scene) -> (r: bool)
        ensures
            r == (scene@.next_id + self@.entity_count() <= u64::MAX),
    {
        let total: u128 = scene.next_id() as u128 + self.cubes.len() as u128 + 3 * (
        self.planes.len() as u128) + self.death_planes.len() as u128 + 1;
        total <= u64::MAX as u128
    }

    /// Instantiates the level into an empty scene as a new generation: one
    /// object per cube, plane and death plane, and the spawn marker, laid out
    /// as `plan` says. The new generation is named by its first handle.
    pub fn spawn(&self, scene: &mut Scene) -> (r: LevelPertinentEntities)
        requires
            old(scene)@.wf(),
            old(scene)@.objects.len() == 0,
            old(scene)@.next_id + self@.entity_count() <= u64::MAX,
        ensures
            final(scene)@.wf(),
            final(scene)@.live == Some(self@),
            final(scene)@.generation == old(scene)@.next_id,
            final(scene)@.objects == plan(self@, old(scene)@.next_id as int),
            final(scene)@.next_id == old(scene)@.next_id + self@.entity_count(),
            r.spawn == entity_at(spawn_id(self@, old(scene)@.next_id as int)),
    {
        let ghost lv = self@;
        let base = scene.next_id;
        let ghost b = base as int;
        let ghost nc = lv.cubes.len() as int;
        let ghost np = lv.planes.len() as int;
        let ghost nd = lv.death_planes.len() as int;
        assert(scene.objects@.len() == 0) by {
            assert(scene@.objects.len() == scene.objects@.len());
        }
        let mut id: u64 = base;
        let mut k: usize = 0;
        while k < self.cubes.len()
            invariant
                lv == self@,
                b == base,
                nc == lv.cubes.len(),
                np == lv.planes.len(),
                nd == lv.death_planes.len(),
                base + lv.entity_count() <= u64::MAX,
                scene.next_id == base,
                k <= nc,
                id == base + k,
                scene.objects@.len() == k,
                forall|j: int|
                    0 <= j < scene.objects@.len() ==> #[trigger] scene.objects@[j]@
                        == planned_object(lv, b, j),
            decreases nc - k,
        {
            let c = &self.cubes[k];
            let o = SceneObject {
                entity: Entity { id },
                generation: base,
                kind: ObjectKind::Cube { pos: c.pos, rotations: copy_rotations(&c.rotations), size: c.size },
                children: Vec::new(),
            };
            assert(o.children@ =~= Seq::<ChildObject>::empty());
            assert(o@ == planned_object(lv, b, k as int));
            scene.objects.push(o);
            id = id + 1;
            k = k + 1;
        }
        let mut k: usize = 0;
        while k < self.planes.len()
            invariant
                lv == self@,
                b == base,
                nc == lv.cubes.len(),
                np == lv.planes.len(),
                nd == lv.death_planes.len(),
                base + lv.entity_count() <= u64::MAX,
                scene.next_id == base,
                k <= np,
                id == base + nc + 3 * k,
                scene.objects@.len() == nc + k,
                forall|j: int|
                    0 <= j < scene.objects@.len() ==> #[trigger] scene.objects@[j]@
                        == planned_object(lv, b, j),
            decreases np - k,
        {
            let p: &SerialPlane = &self.planes[k];
            let depth = p.depth();
            let mut children: Vec<ChildObject> = Vec::new();
            children.push(
                ChildObject { entity: Entity { id: id + 1 }, kind: ChildKind::Quad { width: p.size, depth } },
            );
            children.push(
                ChildObject {
                    entity: Entity { id: id + 2 },
                    kind: ChildKind::Collider { width: p.size, depth },
                },
            );
            let o = SceneObject {
                entity: Entity { id },
                generation: base,
                kind: ObjectKind::Plane { pos: p.pos, rotations: copy_rotations(&p.rotations) },
                children,
            };
            assert(o.children@ =~= plane_object(lv.planes[k as int], id as int, base).children);
            assert(o@ == planned_object(lv, b, nc + k));
            scene.objects.push(o);
            id = id + 3;
            k = k + 1;
        }
        let mut k: usize = 0;
        while k < self.death_planes.len()
            invariant
                lv == self@,
                b == base,
                nc == lv.cubes.len(),
                np == lv.planes.len(),
                nd == lv.death_planes.len(),
                base + lv.entity_count() <= u64::MAX,
                scene.next_id == base,
                k <= nd,
                id == base + nc + 3 * np + k,
                scene.objects@.len() == nc + np + k,
                forall|j: int|
                    0 <= j < scene.objects@.len() ==> #[trigger] scene.objects@[j]@
                        == planned_object(lv, b, j),
            decreases nd - k,
        {
            let d = self.death_planes[k];
            let o = SceneObject {
                entity: Entity { id },
                generation: base,
                kind: ObjectKind::DeathVolume { top: d.pos, size: d.size },
                children: Vec::new(),
            };
            assert(o.children@ =~= Seq::<ChildObject>::empty());
            assert(o@ == planned_object(lv, b, nc + np + k));
            scene.objects.push(o);
            id = id + 1;
            k = k + 1;
        }
        let o = SceneObject {
            entity: Entity { id },
            generation: base,
            kind: ObjectKind::SpawnPoint { pos: self.spawn.pos },
            children: Vec::new(),
        };
        assert(o.children@ =~= Seq::<ChildObject>::empty());
        assert(o@ == planned_object(lv, b, nc + np + nd));
        scene.objects.push(o);
        scene.next_id = id + 1;
        scene.generation = base;
        scene.live = Ghost(Some(lv));
        assert(scene@.objects =~= plan(lv, b));
        LevelPertinentEntities { spawn: Entity { id } }
    }
}

/// At most one generation is live: a well-formed scene holds either no level
/// objects, or exactly the top-level objects of one instantiation of one level
/// (one per cube, plane and death plane, and the spawn marker), all tagged with
/// the same generation. Every step that changes the scene keeps it well formed,
/// so this holds between ticks after any sequence of loads, reloads and unloads.
pub proof fn lemma_single_generation(s: SceneView)
    requires
        s.wf(),
    ensures
        match s.live {
            None => s.objects.len() == 0,
            Some(lv) => {
                &&& s.objects.len() == lv.object_count()
                &&& forall|i: int| 0 <= i < s.objects.len() ==> (#[trigger] s.objects[i]).generation == s.generation
            },
        },
{
    if let Some(lv) = s.live {
        assert forall|i: int| 0 <= i < s.objects.len() implies (#[trigger] s.objects[i]).generation
            == s.generation by {
            assert(s.objects[i] == planned_object(lv, s.generation as int, i));
        }
    }
}

proof fn lemma_marker_is_last(objs: Seq<ObjectView>, e: Entity, pos: SerialVec3)
    requires
        objs.len() > 0,
        objs.last().entity == e,
        objs.last().kind == (KindView::SpawnPoint { pos }),
        forall|i: int| 0 <= i < objs.len() - 1 ==> !((#[trigger] objs[i]).kind is SpawnPoint),
    ensures
        spawn_marker_at(objs, e) == Some(pos),
    decreases objs.len(),
{
    if objs.len() > 1 {
        let rest = objs.drop_first();
        assert forall|i: int| 0 <= i < rest.len() - 1 implies !((#[trigger] rest[i]).kind is SpawnPoint) by {
            assert(rest[i] == objs[i + 1]);
        }
        assert(!(objs[0].kind is SpawnPoint));
        lemma_marker_is_last(rest, e, pos);
    }
}

/// The spawn handle of a fresh instantiation resolves to its spawn marker,
/// at the level's spawn position.
pub proof fn lemma_spawn_resolves(lv: LevelView, base: int)
    ensures
        spawn_marker_at(plan(lv, base), entity_at(spawn_id(lv, base))) == Some(lv.spawn.pos),
{
    let objs = plan(lv, base);
    let n = lv.object_count() as int;
    assert(objs.last() == planned_object(lv, base, n - 1));
    assert forall|i: int| 0 <= i < objs.len() - 1 implies !((#[trigger] objs[i]).kind is SpawnPoint) by {
        assert(objs[i] == planned_object(lv, base, i));
    }
    lemma_marker_is_last(objs, entity_at(spawn_id(lv, base)), lv.spawn.pos);
}

/// An instantiated cube carries the authored rotation steps in the authored
/// order; they are composed as one product in that order, never reordered.
pub proof fn lemma_cube_rotations_in_order(lv: LevelView, base: int, i: int)
    requires
        0 <= i < lv.cubes.len(),
    ensures
        plan(lv, base)[i].kind == (KindView::Cube {
            pos: lv.cubes[i].pos,
            rotations: lv.cubes[i].rotations,
            size: lv.cubes[i].size,
        }),
{
}

/// A plane without a second size gets a square quad and collider: both are
/// `size` by `size`.
pub proof fn lemma_square_plane_footprint(lv: LevelView, base: int, j: int)
    requires
        0 <= j < lv.planes.len(),
        lv.planes[j].size2 is None,
    ensures
        ({
            let o = plan(lv, base)[lv.cubes.len() + j];
            let s = lv.planes[j].size;
            &&& o.kind is Plane
            &&& o.children.len() == 2
            &&& o.children[0].kind == (ChildKind::Quad { width: s, depth: s })
            &&& o.children[1].kind == (ChildKind::Collider { width: s, depth: s })
        }),
{
}

} // verus!
