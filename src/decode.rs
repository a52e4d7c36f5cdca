//! Decoding a level from a KDL node tree.
//!
//! The root holds exactly one `spawn` node and any number of `cube`, `plane`
//! and `death_plane` nodes. Each of these has a `pos` child with three numbers;
//! cubes and planes may have `rot` children, each with an axis (`"X"`, `"Y"` or
//! `"Z"`) and an angle in degrees. Sizes are positional arguments: one for a
//! cube or a death plane, one or two for a plane, none for the spawn point.
//! Properties are never accepted, and every number must be finite.
//!
//! When a tree breaks several rules, the fault reported is the first one met
//! in document order; within a node, properties are looked at first, then the
//! number of arguments, then the arguments, then the children.

use vstd::prelude::*;
use crate::scalar::Scalar;
use crate::document::{Span, Literal, Value, Node, text_is};
use crate::descriptor::{
    SerialVec3, SerialAxis, SerialRotation, SerialSpawnPoint, SerialCube, SerialPlane,
    SerialDeathPlane, SerialLevel, CubeView, PlaneView, LevelView,
};

verus! {

/// What is wrong with a level document.
#[derive(Clone, Copy, Debug, PartialEq, Eq, Structural)]
pub enum DecodeErrorKind {
    /// A node whose name is not allowed where it stands.
    UnexpectedNode,
    /// A second `spawn` in the level, or a second `pos` in an object.
    DuplicateNode,
    /// The level has no `spawn` node.
    MissingSpawn,
    /// An object has no `pos` child.
    MissingPosition,
    /// A node has fewer positional arguments than it needs.
    MissingArgument,
    /// A node has more positional arguments than it takes.
    UnexpectedArgument,
    /// A node carries a `name=value` property.
    UnexpectedProperty,
    /// An argument that should be a number is not one.
    ExpectedNumber,
    /// A number is infinite or NaN.
    NonFiniteNumber,
    /// A rotation axis that is not the string `"X"`, `"Y"` or `"Z"`.
    UnknownAxis,
}

/// A decoding fault and the part of the source text it is about.
#[derive(Clone, Copy, Debug, PartialEq, Eq, Structural)]
pub struct DecodeError {
    pub kind: DecodeErrorKind,
    pub span: Span,
}

pub open spec fn fault(kind: DecodeErrorKind, span: Span) -> DecodeError {
    DecodeError { kind, span }
}

pub open spec fn named(n: Node, name: Seq<char>) -> bool {
    n.name@ == name
}

pub open spec fn number_result(v: Value) -> Result<Scalar, DecodeError> {
    match v.literal {
        Literal::Number(s) => if s.finite() {
            Ok(s)
        } else {
            Err(fault(DecodeErrorKind::NonFiniteNumber, v.span))
        },
        _ => Err(fault(DecodeErrorKind::ExpectedNumber, v.span)),
    }
}

pub open spec fn numbers_result(vs: Seq<Value>) -> Result<Seq<Scalar>, DecodeError>
    decreases vs.len(),
{
    if vs.len() == 0 {
        Ok(seq![])
    } else {
        match numbers_result(vs.drop_last()) {
            Err(e) => Err(e),
            Ok(ns) => match number_result(vs.last()) {
                Ok(n) => Ok(ns.push(n)),
                Err(e) => Err(e),
            },
        }
    }
}

pub open spec fn axis_result(v: Value) -> Result<SerialAxis, DecodeError> {
    match v.literal {
        Literal::Str(s) => if s@ == "X"@ {
            Ok(SerialAxis::X)
        } else if s@ == "Y"@ {
            Ok(SerialAxis::Y)
        } else if s@ == "Z"@ {
            Ok(SerialAxis::Z)
        } else {
            Err(fault(DecodeErrorKind::UnknownAxis, v.span))
        },
        _ => Err(fault(DecodeErrorKind::UnknownAxis, v.span)),
    }
}

/// The fault, if any, in a node's properties and argument count.
pub open spec fn shape_fault(n: Node, min: nat, max: nat) -> Option<DecodeError> {
    if n.properties@.len() > 0 {
        Some(fault(DecodeErrorKind::UnexpectedProperty, n.properties@[0].span))
    } else if n.arguments@.len() < min {
        Some(fault(DecodeErrorKind::MissingArgument, n.span))
    } else if n.arguments@.len() > max {
        Some(fault(DecodeErrorKind::UnexpectedArgument, n.arguments@[max as int].span))
    } else {
        None
    }
}

/// The fault, if any, of a node that must have no children.
pub open spec fn leaf_fault(n: Node) -> Option<DecodeError> {
    if n.children@.len() > 0 {
        Some(fault(DecodeErrorKind::UnexpectedNode, n.children@[0].span))
    } else {
        None
    }
}

/// A `pos` node: three numbers.
pub open spec fn pos_result(n: Node) -> Result<SerialVec3, DecodeError> {
    match shape_fault(n, 3, 3) {
        Some(e) => Err(e),
        None => match numbers_result(n.arguments@) {
            Err(e) => Err(e),
            Ok(ns) => match leaf_fault(n) {
                Some(e) => Err(e),
                None => Ok(SerialVec3 { x: ns[0], y: ns[1], z: ns[2] }),
            },
        },
    }
}

/// A `rot` node: an axis and an angle.
pub open spec fn rot_result(n: Node) -> Result<SerialRotation, DecodeError> {
    match shape_fault(n, 2, 2) {
        Some(e) => Err(e),
        None => match axis_result(n.arguments@[0]) {
            Err(e) => Err(e),
            Ok(axis) => match number_result(n.arguments@[1]) {
                Err(e) => Err(e),
                Ok(angle) => match leaf_fault(n) {
                    Some(e) => Err(e),
                    None => Ok(SerialRotation { axis, angle }),
                },
            },
        },
    }
}

/// The children of an object: the position seen so far and the rotations in order.
pub open spec fn children_result(cs: Seq<Node>, allow_rot: bool) -> Result<
    (Option<SerialVec3>, Seq<SerialRotation>),
    DecodeError,
>
    decreases cs.len(),
{
    if cs.len() == 0 {
        Ok((None, seq![]))
    } else {
        match children_result(cs.drop_last(), allow_rot) {
            Err(e) => Err(e),
            Ok((pos, rots)) => {
                let c = cs.last();
                if named(c, "pos"@) {
                    if pos is Some {
                        Err(fault(DecodeErrorKind::DuplicateNode, c.span))
                    } else {
                        match pos_result(c) {
                            Ok(p) => Ok((Some(p), rots)),
                            Err(e) => Err(e),
                        }
                    }
                } else if allow_rot && named(c, "rot"@) {
                    match rot_result(c) {
                        Ok(r) => Ok((pos, rots.push(r))),
                        Err(e) => Err(e),
                    }
                } else {
                    Err(fault(DecodeErrorKind::UnexpectedNode, c.span))
                }
            },
        }
    }
}

/// An object node: its position, rotations and sizes.
pub open spec fn body_result(n: Node, min: nat, max: nat, allow_rot: bool) -> Result<
    (SerialVec3, Seq<SerialRotation>, Seq<Scalar>),
    DecodeError,
> {
    match shape_fault(n, min, max) {
        Some(e) => Err(e),
        None => match numbers_result(n.arguments@) {
            Err(e) => Err(e),
            Ok(ns) => match children_result(n.children@, allow_rot) {
                Err(e) => Err(e),
                Ok((None, _)) => Err(fault(DecodeErrorKind::MissingPosition, n.span)),
                Ok((Some(p), rots)) => Ok((p, rots, ns)),
            },
        },
    }
}

pub open spec fn spawn_result(n: Node) -> Result<SerialSpawnPoint, DecodeError> {
    match body_result(n, 0, 0, false) {
        Err(e) => Err(e),
        Ok((p, _, _)) => Ok(SerialSpawnPoint { pos: p }),
    }
}

pub open spec fn cube_result(n: Node) -> Result<CubeView, DecodeError> {
    match body_result(n, 1, 1, true) {
        Err(e) => Err(e),
        Ok((p, rots, ns)) => Ok(CubeView { pos: p, rotations: rots, size: ns[0] }),
    }
}

pub open spec fn plane_result(n: Node) -> Result<PlaneView, DecodeError> {
    match body_result(n, 1, 2, true) {
        Err(e) => Err(e),
        Ok((p, rots, ns)) => Ok(
            PlaneView {
                pos: p,
                rotations: rots,
                size: ns[0],
                size2: if ns.len() == 2 {
                    Some(ns[1])
                } else {
                    None
                },
            },
        ),
    }
}

pub open spec fn death_plane_result(n: Node) -> Result<SerialDeathPlane, DecodeError> {
    match body_result(n, 1, 1, false) {
        Err(e) => Err(e),
        Ok((p, _, ns)) => Ok(SerialDeathPlane { pos: p, size: ns[0] }),
    }
}

/// What the root nodes have given so far.
pub ghost struct RootParts {
    pub spawn: Option<SerialSpawnPoint>,
    pub cubes: Seq<CubeView>,
    pub planes: Seq<PlaneView>,
    pub death_planes: Seq<SerialDeathPlane>,
}

pub open spec fn root_result(nodes: Seq<Node>) -> Result<RootParts, DecodeError>
    decreases nodes.len(),
{
    if nodes.len() == 0 {
        Ok(RootParts { spawn: None, cubes: seq![], planes: seq![], death_planes: seq![] })
    } else {
        match root_result(nodes.drop_last()) {
            Err(e) => Err(e),
            Ok(acc) => {
                let n = nodes.last();
                if named(n, "spawn"@) {
                    if acc.spawn is Some {
                        Err(fault(DecodeErrorKind::DuplicateNode, n.span))
                    } else {
                        match spawn_result(n) {
                            Err(e) => Err(e),
                            Ok(s) => Ok(
                                RootParts {
                                    spawn: Some(s),
                                    cubes: acc.cubes,
                                    planes: acc.planes,
                                    death_planes: acc.death_planes,
                                },
                            ),
                        }
                    }
                } else if named(n, "cube"@) {
                    match cube_result(n) {
                        Err(e) => Err(e),
                        Ok(c) => Ok(
                            RootParts {
                                spawn: acc.spawn,
                                cubes: acc.cubes.push(c),
                                planes: acc.planes,
                                death_planes: acc.death_planes,
                            },
                        ),
                    }
                } else if named(n, "plane"@) {
                    match plane_result(n) {
                        Err(e) => Err(e),
                        Ok(p) => Ok(
                            RootParts {
                                spawn: acc.spawn,
                                cubes: acc.cubes,
                                planes: acc.planes.push(p),
                                death_planes: acc.death_planes,
                            },
                        ),
                    }
                } else if named(n, "death_plane"@) {
                    match death_plane_result(n) {
                        Err(e) => Err(e),
                        Ok(d) => Ok(
                            RootParts {
                                spawn: acc.spawn,
                                cubes: acc.cubes,
                                planes: acc.planes,
                                death_planes: acc.death_planes.push(d),
                            },
                        ),
                    }
                } else {
                    Err(fault(DecodeErrorKind::UnexpectedNode, n.span))
                }
            },
        }
    }
}

/// The level that a document's root nodes describe, or the first fault in it.
/// A document without a `spawn` node is reported at the start of the text.
pub open spec fn level_result(nodes: Seq<Node>) -> Result<LevelView, DecodeError> {
    match root_result(nodes) {
        Err(e) => Err(e),
        Ok(acc) => match acc.spawn {
            None => Err(fault(DecodeErrorKind::MissingSpawn, Span { start: 0, end: 0 })),
            Some(s) => Ok(
                LevelView {
                    spawn: s,
                    cubes: acc.cubes,
                    planes: acc.planes,
                    death_planes: acc.death_planes,
                },
            ),
        },
    }
}

fn decode_number(v: &Value) -> (r: Result<Scalar, DecodeError>)
    ensures
        r == number_result(*v),
{
    match &v.literal {
        Literal::Number(s) => if s.is_finite() {
            Ok(*s)
        } else {
            Err(DecodeError { kind: DecodeErrorKind::NonFiniteNumber, span: v.span })
        },
        _ => Err(DecodeError { kind: DecodeErrorKind::ExpectedNumber, span: v.span }),
    }
}

fn decode_numbers(vs: &Vec<Value>) -> (r: Result<Vec<Scalar>, DecodeError>)
    ensures
        match r {
            Ok(ns) => numbers_result(vs@) == Ok::<Seq<Scalar>, DecodeError>(ns@) && ns@.len()
                == vs@.len(),
            Err(e) => numbers_result(vs@) == Err::<Seq<Scalar>, DecodeError>(e),
        },
{
    let mut ns: Vec<Scalar> = Vec::new();
    let mut i: usize = 0;
    while i < vs.len()
        invariant
            i <= vs@.len(),
            ns@.len() == i,
            numbers_result(vs@.take(i as int)) == Ok::<Seq<Scalar>, DecodeError>(ns@),
        decreases vs@.len() - i,
    {
        assert(vs@.take(i + 1).drop_last() =~= vs@.take(i as int));
        match decode_number(&vs[i]) {
            Ok(n) => ns.push(n),
            Err(e) => {
                proof {
                    lemma_numbers_err_extends(vs@, i as int + 1, e);
                }
                return Err(e);
            },
        }
        i = i + 1;
    }
    assert(vs@.take(vs@.len() as int) =~= vs@);
    Ok(ns)
}

/// A fault among the first `k` values is the fault of the whole sequence.
proof fn lemma_numbers_err_extends(vs: Seq<Value>, k: int, e: DecodeError)
    requires
        0 <= k <= vs.len(),
        numbers_result(vs.take(k)) == Err::<Seq<Scalar>, DecodeError>(e),
    ensures
        numbers_result(vs) == Err::<Seq<Scalar>, DecodeError>(e),
    decreases vs.len() - k,
{
    if k < vs.len() {
        assert(vs.take(k + 1).drop_last() =~= vs.take(k));
        lemma_numbers_err_extends(vs, k + 1, e);
    } else {
        assert(vs.take(k) =~= vs);
    }
}

fn decode_axis(v: &Value) -> (r: Result<SerialAxis, DecodeError>)
    ensures
        r == axis_result(*v),
{
    match &v.literal {
        Literal::Str(s) => if text_is(s, "X") {
            Ok(SerialAxis::X)
        } else if text_is(s, "Y") {
            Ok(SerialAxis::Y)
        } else if text_is(s, "Z") {
            Ok(SerialAxis::Z)
        } else {
            Err(DecodeError { kind: DecodeErrorKind::UnknownAxis, span: v.span })
        },
        _ => Err(DecodeError { kind: DecodeErrorKind::UnknownAxis, span: v.span }),
    }
}

fn check_shape(n: &Node, min: usize, max: usize) -> (r: Option<DecodeError>)
    ensures
        r == shape_fault(*n, min as nat, max as nat),
{
    if n.properties.len() > 0 {
        Some(DecodeError { kind: DecodeErrorKind::UnexpectedProperty, span: n.properties[0].span })
    } else if n.arguments.len() < min {
        Some(DecodeError { kind: DecodeErrorKind::MissingArgument, span: n.span })
    } else if n.arguments.len() > max {
        Some(DecodeError { kind: DecodeErrorKind::UnexpectedArgument, span: n.arguments[max].span })
    } else {
        None
    }
}

fn check_leaf(n: &Node) -> (r: Option<DecodeError>)
    ensures
        r == leaf_fault(*n),
{
    if n.children.len() > 0 {
        Some(DecodeError { kind: DecodeErrorKind::UnexpectedNode, span: n.children[0].span })
    } else {
        None
    }
}

fn decode_pos(n: &Node) -> (r: Result<SerialVec3, DecodeError>)
    ensures
        r == pos_result(*n),
{
    if let Some(e) = check_shape(n, 3, 3) {
        return Err(e);
    }
    let ns = match decode_numbers(&n.arguments) {
        Ok(ns) => ns,
        Err(e) => return Err(e),
    };
    if let Some(e) = check_leaf(n) {
        return Err(e);
    }
    Ok(SerialVec3 { x: ns[0], y: ns[1], z: ns[2] })
}

fn decode_rot(n: &Node) -> (r: Result<SerialRotation, DecodeError>)
    ensures
        r == rot_result(*n),
{
    if let Some(e) = check_shape(n, 2, 2) {
        return Err(e);
    }
    let axis = match decode_axis(&n.arguments[0]) {
        Ok(a) => a,
        Err(e) => return Err(e),
    };
    let angle = match decode_number(&n.arguments[1]) {
        Ok(a) => a,
        Err(e) => return Err(e),
    };
    if let Some(e) = check_leaf(n) {
        return Err(e);
    }
    Ok(SerialRotation { axis, angle })
}

/// A fault among the first `k` children is the fault of all of them.
proof fn lemma_children_err_extends(cs: Seq<Node>, allow_rot: bool, k: int, e: DecodeError)
    requires
        0 <= k <= cs.len(),
        children_result(cs.take(k), allow_rot) == Err::<
            (Option<SerialVec3>, Seq<SerialRotation>),
            DecodeError,
        >(e),
    ensures
        children_result(cs, allow_rot) == Err::<
            (Option<SerialVec3>, Seq<SerialRotation>),
            DecodeError,
        >(e),
    decreases cs.len() - k,
{
    if k < cs.len() {
        assert(cs.take(k + 1).drop_last() =~= cs.take(k));
        lemma_children_err_extends(cs, allow_rot, k + 1, e);
    } else {
        assert(cs.take(k) =~= cs);
    }
}

fn decode_children(cs: &Vec<Node>, allow_rot: bool) -> (r: Result<
    (Option<SerialVec3>, Vec<SerialRotation>),
    DecodeError,
>)
    ensures
        match r {
            Ok((pos, rots)) => children_result(cs@, allow_rot) == Ok::<
                (Option<SerialVec3>, Seq<SerialRotation>),
                DecodeError,
            >((pos, rots@)),
            Err(e) => children_result(cs@, allow_rot) == Err::<
                (Option<SerialVec3>, Seq<SerialRotation>),
                DecodeError,
            >(e),
        },
{
    let mut pos: Option<SerialVec3> = None;
    let mut rots: Vec<SerialRotation> = Vec::new();
    let mut i: usize = 0;
    while i < cs.len()
        invariant
            i <= cs@.len(),
            children_result(cs@.take(i as int), allow_rot) == Ok::<
                (Option<SerialVec3>, Seq<SerialRotation>),
                DecodeError,
            >((pos, rots@)),
        decreases cs@.len() - i,
    {
        assert(cs@.take(i + 1).drop_last() =~= cs@.take(i as int));
        let c = &cs[i];
        let step: Result<(), DecodeError> = if text_is(&c.name, "pos") {
            if pos.is_some() {
                Err(DecodeError { kind: DecodeErrorKind::DuplicateNode, span: c.span })
            } else {
                match decode_pos(c) {
                    Ok(p) => {
                        pos = Some(p);
                        Ok(())
                    },
                    Err(e) => Err(e),
                }
            }
        } else if allow_rot && text_is(&c.name, "rot") {
            match decode_rot(c) {
                Ok(rot) => {
                    rots.push(rot);
                    Ok(())
                },
                Err(e) => Err(e),
            }
        } else {
            Err(DecodeError { kind: DecodeErrorKind::UnexpectedNode, span: c.span })
        };
        if let Err(e) = step {
            proof {
                lemma_children_err_extends(cs@, allow_rot, i as int + 1, e);
            }
            return Err(e);
        }
        i = i + 1;
    }
    assert(cs@.take(cs@.len() as int) =~= cs@);
    Ok((pos, rots))
}

fn decode_body(n: &Node, min: usize, max: usize, allow_rot: bool) -> (r: Result<
    (SerialVec3, Vec<SerialRotation>, Vec<Scalar>),
    DecodeError,
>)
    ensures
        match r {
            Ok((p, rots, ns)) => body_result(*n, min as nat, max as nat, allow_rot) == Ok::<
                (SerialVec3, Seq<SerialRotation>, Seq<Scalar>),
                DecodeError,
            >((p, rots@, ns@)) && min <= ns@.len() <= max,
            Err(e) => body_result(*n, min as nat, max as nat, allow_rot) == Err::<
                (SerialVec3, Seq<SerialRotation>, Seq<Scalar>),
                DecodeError,
            >(e),
        },
{
    if let Some(e) = check_shape(n, min, max) {
        return Err(e);
    }
    let ns = match decode_numbers(&n.arguments) {
        Ok(ns) => ns,
        Err(e) => return Err(e),
    };
    match decode_children(&n.children, allow_rot) {
        Err(e) => Err(e),
        Ok((None, _)) => Err(DecodeError { kind: DecodeErrorKind::MissingPosition, span: n.span }),
        Ok((Some(p), rots)) => Ok((p, rots, ns)),
    }
}

fn decode_spawn(n: &Node) -> (r: Result<SerialSpawnPoint, DecodeError>)
    ensures
        r == spawn_result(*n),
{
    match decode_body(n, 0, 0, false) {
        Err(e) => Err(e),
        Ok((p, _, _)) => Ok(SerialSpawnPoint { pos: p }),
    }
}

fn decode_cube(n: &Node) -> (r: Result<SerialCube, DecodeError>)
    ensures
        match r {
            Ok(c) => cube_result(*n) == Ok::<CubeView, DecodeError>(c@),
            Err(e) => cube_result(*n) == Err::<CubeView, DecodeError>(e),
        },
{
    match decode_body(n, 1, 1, true) {
        Err(e) => Err(e),
        Ok((p, rots, ns)) => Ok(SerialCube { pos: p, rotations: rots, size: ns[0] }),
    }
}

fn decode_plane(n: &Node) -> (r: Result<SerialPlane, DecodeError>)
    ensures
        match r {
            Ok(p) => plane_result(*n) == Ok::<PlaneView, DecodeError>(p@),
            Err(e) => plane_result(*n) == Err::<PlaneView, DecodeError>(e),
        },
{
    match decode_body(n, 1, 2, true) {
        Err(e) => Err(e),
        Ok((p, rots, ns)) => {
            let size2 = if ns.len() == 2 {
                Some(ns[1])
            } else {
                None
            };
            Ok(SerialPlane { pos: p, rotations: rots, size: ns[0], size2 })
        },
    }
}

fn decode_death_plane(n: &Node) -> (r: Result<SerialDeathPlane, DecodeError>)
    ensures
        r == death_plane_result(*n),
{
    match decode_body(n, 1, 1, false) {
        Err(e) => Err(e),
        Ok((p, _, ns)) => Ok(SerialDeathPlane { pos: p, size: ns[0] }),
    }
}

/// A fault among the first `k` root nodes is the fault of the whole document.
proof fn lemma_root_err_extends(nodes: Seq<Node>, k: int, e: DecodeError)
    requires
        0 <= k <= nodes.len(),
        root_result(nodes.take(k)) == Err::<RootParts, DecodeError>(e),
    ensures
        root_result(nodes) == Err::<RootParts, DecodeError>(e),
    decreases nodes.len() - k,
{
    if k < nodes.len() {
        assert(nodes.take(k + 1).drop_last() =~= nodes.take(k));
        lemma_root_err_extends(nodes, k + 1, e);
    } else {
        assert(nodes.take(k) =~= nodes);
    }
}

/// Decodes a level from the root nodes of its document.
pub fn decode_level(nodes: &Vec<Node>) -> (r: Result<SerialLevel, DecodeError>)
    ensures
        match r {
            Ok(level) => level_result(nodes@) == Ok::<LevelView, DecodeError>(level@),
            Err(e) => level_result(nodes@) == Err::<LevelView, DecodeError>(e),
        },
{
    let mut spawn: Option<SerialSpawnPoint> = None;
    let mut cubes: Vec<SerialCube> = Vec::new();
    let mut planes: Vec<SerialPlane> = Vec::new();
    let mut death_planes: Vec<SerialDeathPlane> = Vec::new();
    let mut i: usize = 0;
    assert(cubes@.map_values(|c: SerialCube| c@) =~= Seq::<CubeView>::empty());
    assert(planes@.map_values(|p: SerialPlane| p@) =~= Seq::<PlaneView>::empty());
    while i < nodes.len()
        invariant
            i <= nodes@.len(),
            root_result(nodes@.take(i as int)) == Ok::<RootParts, DecodeError>(
                RootParts {
                    spawn,
                    cubes: cubes@.map_values(|c: SerialCube| c@),
                    planes: planes@.map_values(|p: SerialPlane| p@),
                    death_planes: death_planes@,
                },
            ),
        decreases nodes@.len() - i,
    {
        assert(nodes@.take(i + 1).drop_last() =~= nodes@.take(i as int));
        let n = &nodes[i];
        let ghost cubes0 = cubes@;
        let ghost planes0 = planes@;
        let step: Result<(), DecodeError> = if text_is(&n.name, "spawn") {
            if spawn.is_some() {
                Err(DecodeError { kind: DecodeErrorKind::DuplicateNode, span: n.span })
            } else {
                match decode_spawn(n) {
                    Ok(s) => {
                        spawn = Some(s);
                        Ok(())
                    },
                    Err(e) => Err(e),
                }
            }
        } else if text_is(&n.name, "cube") {
            match decode_cube(n) {
                Ok(c) => {
                    cubes.push(c);
                    assert(cubes@.map_values(|c: SerialCube| c@) =~= cubes0.map_values(
                        |c: SerialCube| c@,
                    ).push(c@));
                    Ok(())
                },
                Err(e) => Err(e),
            }
        } else if text_is(&n.name, "plane") {
            match decode_plane(n) {
                Ok(p) => {
                    planes.push(p);
                    assert(planes@.map_values(|p: SerialPlane| p@) =~= planes0.map_values(
                        |p: SerialPlane| p@,
                    ).push(p@));
                    Ok(())
                },
                Err(e) => Err(e),
            }
        } else if text_is(&n.name, "death_plane") {
            match decode_death_plane(n) {
                Ok(d) => {
                    death_planes.push(d);
                    Ok(())
                },
                Err(e) => Err(e),
            }
        } else {
            Err(DecodeError { kind: DecodeErrorKind::UnexpectedNode, span: n.span })
        };
        if let Err(e) = step {
            proof {
                lemma_root_err_extends(nodes@, i as int + 1, e);
            }
            return Err(e);
        }
        i = i + 1;
    }
    assert(nodes@.take(nodes@.len() as int) =~= nodes@);
    match spawn {
        None => Err(DecodeError { kind: DecodeErrorKind::MissingSpawn, span: Span::new(0, 0) }),
        Some(s) => Ok(SerialLevel { spawn: s, cubes, planes, death_planes }),
    }
}

} // verus!
