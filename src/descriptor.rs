//! The level descriptor: the immutable, validated description of a level.

use vstd::prelude::*;
use crate::scalar::Scalar;

verus! {

/// A position or offset.
#[derive(Clone, Copy, Debug, PartialEq, Eq, Structural)]
pub struct SerialVec3 {
    pub x: Scalar,
    pub y: Scalar,
    pub z: Scalar,
}

/// The axis of one rotation step.
#[derive(Clone, Copy, Debug, PartialEq, Eq, Structural)]
pub enum SerialAxis {
    X,
    Y,
    Z,
}

/// One rotation step: an angle in degrees about an axis.
#[derive(Clone, Copy, Debug, PartialEq, Eq, Structural)]
pub struct SerialRotation {
    pub axis: SerialAxis,
    pub angle: Scalar,
}

/// Where the player enters the level.
#[derive(Clone, Copy, Debug, PartialEq, Eq, Structural)]
pub struct SerialSpawnPoint {
    pub pos: SerialVec3,
}

/// A cubic sensor volume whose top face is at `pos`; touching it kills the player.
#[derive(Clone, Copy, Debug, PartialEq, Eq, Structural)]
pub struct SerialDeathPlane {
    pub pos: SerialVec3,
    pub size: Scalar,
}

/// A dynamic cube of edge `size`, rotated by `rotations` in the order given.
#[derive(Clone, Debug, PartialEq, Eq)]
pub struct SerialCube {
    pub pos: SerialVec3,
    pub rotations: Vec<SerialRotation>,
    pub size: Scalar,
}

/// A fixed rectangular floor of `size` by `size2` (square when `size2` is absent).
#[derive(Clone, Debug, PartialEq, Eq)]
pub struct SerialPlane {
    pub pos: SerialVec3,
    pub rotations: Vec<SerialRotation>,
    pub size: Scalar,
    pub size2: Option<Scalar>,
}

/// A whole level: one spawn point and any number of cubes, planes and death planes.
#[derive(Clone, Debug, PartialEq, Eq)]
pub struct SerialLevel {
    pub spawn: SerialSpawnPoint,
    pub cubes: Vec<SerialCube>,
    pub planes: Vec<SerialPlane>,
    pub death_planes: Vec<SerialDeathPlane>,
}

pub ghost struct CubeView {
    pub pos: SerialVec3,
    pub rotations: Seq<SerialRotation>,
    pub size: Scalar,
}

pub ghost struct PlaneView {
    pub pos: SerialVec3,
    pub rotations: Seq<SerialRotation>,
    pub size: Scalar,
    pub size2: Option<Scalar>,
}

pub ghost struct LevelView {
    pub spawn: SerialSpawnPoint,
    pub cubes: Seq<CubeView>,
    pub planes: Seq<PlaneView>,
    pub death_planes: Seq<SerialDeathPlane>,
}

impl View for SerialCube {
    type V = CubeView;

    open spec fn view(&self) -> CubeView {
        CubeView { pos: self.pos, rotations: self.rotations@, size: self.size }
    }
}

impl View for SerialPlane {
    type V = PlaneView;

    open spec fn view(&self) -> PlaneView {
        PlaneView { pos: self.pos, rotations: self.rotations@, size: self.size, size2: self.size2 }
    }
}

impl View for SerialLevel {
    type V = LevelView;

    open spec fn view(&self) -> LevelView {
        LevelView {
            spawn: self.spawn,
            cubes: self.cubes@.map_values(|c: SerialCube| c@),
            planes: self.planes@.map_values(|p: SerialPlane| p@),
            death_planes: self.death_planes@,
        }
    }
}

impl PlaneView {
    /// The second side: `size2` when given, else `size`.
    pub open spec fn depth(self) -> Scalar {
        match self.size2 {
            Some(d) => d,
            None => self.size,
        }
    }
}

impl SerialPlane {
    /// The second side of the plane; a plane without one is square.
    pub fn depth(&self) -> (r: Scalar)
        ensures
            r == self@.depth(),
    {
        match self.size2 {
            Some(d) => d,
            None => self.size,
        }
    }

    /// Width and depth of the plane's quad and collider.
    pub fn footprint(&self) -> (r: (Scalar, Scalar))
        ensures
            r == (self.size, self@.depth()),
    {
        (self.size, self.depth())
    }
}

impl LevelView {
    /// How many top-level objects one instantiation of the level creates.
    pub open spec fn object_count(self) -> nat {
        1 + self.cubes.len() + self.planes.len() + self.death_planes.len()
    }
}

} // verus!
