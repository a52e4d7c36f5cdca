use platformer_levels::decode::{decode_level, DecodeErrorKind};
use platformer_levels::descriptor::{SerialAxis, SerialLevel, SerialPlane, SerialRotation, SerialVec3};
use platformer_levels::document::{Literal, Node, Property, Span, Value};
use platformer_levels::scalar::Scalar;

fn num(v: f32) -> Scalar {
    Scalar::from_bits(v.to_bits())
}

fn number(v: f32, at: usize) -> Value {
    Value { literal: Literal::Number(num(v)), span: Span::new(at, at + 1) }
}

fn text(s: &str, at: usize) -> Value {
    Value { literal: Literal::Str(s.to_string()), span: Span::new(at, at + 1) }
}

fn node(name: &str, at: usize, args: Vec<Value>, children: Vec<Node>) -> Node {
    let mut n = Node::new(name.to_string(), Span::new(at, at + 10));
    for a in args {
        n.push_argument(a);
    }
    for c in children {
        n.push_child(c);
    }
    n
}

fn pos(x: f32, y: f32, z: f32, at: usize) -> Node {
    node("pos", at, vec![number(x, at + 1), number(y, at + 2), number(z, at + 3)], vec![])
}

fn rot(axis: &str, angle: f32, at: usize) -> Node {
    node("rot", at, vec![text(axis, at + 1), number(angle, at + 2)], vec![])
}

fn vec3(x: f32, y: f32, z: f32) -> SerialVec3 {
    SerialVec3 { x: num(x), y: num(y), z: num(z) }
}

fn spawn_at(x: f32, y: f32, z: f32) -> Node {
    node("spawn", 0, vec![], vec![pos(x, y, z, 5)])
}

#[test]
fn spawn_and_cube_scenario() {
    let doc = vec![
        spawn_at(0.0, 0.5, 0.0),
        node("cube", 20, vec![number(1.0, 25)], vec![pos(0.0, 0.5, -2.0, 30)]),
    ];
    let level = decode_level(&doc).unwrap();
    assert_eq!(level.spawn.pos, vec3(0.0, 0.5, 0.0));
    assert_eq!(level.cubes.len(), 1);
    assert_eq!(level.cubes[0].pos, vec3(0.0, 0.5, -2.0));
    assert_eq!(level.cubes[0].size, num(1.0));
    assert!(level.cubes[0].rotations.is_empty());
    assert!(level.planes.is_empty());
    assert!(level.death_planes.is_empty());
}

#[test]
fn objects_keep_document_order_and_rotation_order() {
    let doc = vec![
        node("cube", 0, vec![number(1.0, 1)], vec![pos(1.0, 0.0, 0.0, 2), rot("Y", 90.0, 6), rot("X", 90.0, 9)]),
        node("death_plane", 40, vec![number(8.0, 41)], vec![pos(0.0, -5.0, 0.0, 42)]),
        spawn_at(0.0, 1.0, 0.0),
        node("cube", 60, vec![number(2.0, 61)], vec![pos(2.0, 0.0, 0.0, 62)]),
        node("plane", 80, vec![number(4.0, 81), number(2.0, 82)], vec![rot("Z", 45.0, 83), pos(0.0, 0.0, 0.0, 86)]),
    ];
    let level = decode_level(&doc).unwrap();
    assert_eq!(level.cubes.len(), 2);
    assert_eq!(level.cubes[0].size, num(1.0));
    assert_eq!(level.cubes[1].size, num(2.0));
    assert_eq!(
        level.cubes[0].rotations,
        vec![
            SerialRotation { axis: SerialAxis::Y, angle: num(90.0) },
            SerialRotation { axis: SerialAxis::X, angle: num(90.0) },
        ]
    );
    assert_eq!(level.planes.len(), 1);
    assert_eq!(level.planes[0].size2, Some(num(2.0)));
    assert_eq!(level.planes[0].rotations, vec![SerialRotation { axis: SerialAxis::Z, angle: num(45.0) }]);
    assert_eq!(level.death_planes.len(), 1);
    assert_eq!(level.death_planes[0].pos, vec3(0.0, -5.0, 0.0));
    assert_eq!(level.spawn.pos, vec3(0.0, 1.0, 0.0));
}

#[test]
fn plane_without_second_size_is_square() {
    let doc = vec![spawn_at(0.0, 0.0, 0.0), node("plane", 20, vec![number(4.0, 21)], vec![pos(0.0, 0.0, 0.0, 22)])];
    let level: SerialLevel = decode_level(&doc).unwrap();
    let plane: &SerialPlane = &level.planes[0];
    assert_eq!(plane.size2, None);
    assert_eq!(plane.depth(), num(4.0));
    assert_eq!(plane.footprint(), (num(4.0), num(4.0)));
}

#[test]
fn plane_with_second_size_is_rectangular() {
    let plane = SerialPlane { pos: vec3(0.0, 0.0, 0.0), rotations: vec![], size: num(4.0), size2: Some(num(2.5)) };
    assert_eq!(plane.footprint(), (num(4.0), num(2.5)));
}

#[test]
fn empty_document_misses_spawn() {
    let err = decode_level(&vec![]).unwrap_err();
    assert_eq!(err.kind, DecodeErrorKind::MissingSpawn);
    assert_eq!(err.span, Span::new(0, 0));
}

#[test]
fn second_spawn_is_duplicate() {
    let mut second = spawn_at(1.0, 1.0, 1.0);
    second.span = Span::new(50, 60);
    let err = decode_level(&vec![spawn_at(0.0, 0.0, 0.0), second]).unwrap_err();
    assert_eq!(err.kind, DecodeErrorKind::DuplicateNode);
    assert_eq!(err.span, Span::new(50, 60));
}

#[test]
fn second_pos_is_duplicate() {
    let doc = vec![node("spawn", 0, vec![], vec![pos(0.0, 0.0, 0.0, 5), pos(1.0, 1.0, 1.0, 20)])];
    let err = decode_level(&doc).unwrap_err();
    assert_eq!(err.kind, DecodeErrorKind::DuplicateNode);
    assert_eq!(err.span, Span::new(20, 30));
}

#[test]
fn unknown_root_node_is_unexpected() {
    let doc = vec![spawn_at(0.0, 0.0, 0.0), node("sphere", 40, vec![number(1.0, 41)], vec![])];
    let err = decode_level(&doc).unwrap_err();
    assert_eq!(err.kind, DecodeErrorKind::UnexpectedNode);
    assert_eq!(err.span, Span::new(40, 50));
}

#[test]
fn rotation_on_death_plane_is_unexpected() {
    let doc = vec![
        spawn_at(0.0, 0.0, 0.0),
        node("death_plane", 40, vec![number(1.0, 41)], vec![pos(0.0, 0.0, 0.0, 42), rot("X", 10.0, 60)]),
    ];
    let err = decode_level(&doc).unwrap_err();
    assert_eq!(err.kind, DecodeErrorKind::UnexpectedNode);
    assert_eq!(err.span, Span::new(60, 70));
}

#[test]
fn cube_without_pos_misses_position() {
    let doc = vec![spawn_at(0.0, 0.0, 0.0), node("cube", 40, vec![number(1.0, 41)], vec![rot("X", 1.0, 45)])];
    let err = decode_level(&doc).unwrap_err();
    assert_eq!(err.kind, DecodeErrorKind::MissingPosition);
    assert_eq!(err.span, Span::new(40, 50));
}

#[test]
fn cube_without_size_misses_argument() {
    let doc = vec![spawn_at(0.0, 0.0, 0.0), node("cube", 40, vec![], vec![pos(0.0, 0.0, 0.0, 45)])];
    let err = decode_level(&doc).unwrap_err();
    assert_eq!(err.kind, DecodeErrorKind::MissingArgument);
    assert_eq!(err.span, Span::new(40, 50));
}

#[test]
fn plane_with_three_sizes_has_unexpected_argument() {
    let doc = vec![
        spawn_at(0.0, 0.0, 0.0),
        node("plane", 40, vec![number(1.0, 41), number(2.0, 42), number(3.0, 43)], vec![pos(0.0, 0.0, 0.0, 45)]),
    ];
    let err = decode_level(&doc).unwrap_err();
    assert_eq!(err.kind, DecodeErrorKind::UnexpectedArgument);
    assert_eq!(err.span, Span::new(43, 44));
}

#[test]
fn property_is_unexpected() {
    let mut cube = node("cube", 40, vec![number(1.0, 41)], vec![pos(0.0, 0.0, 0.0, 45)]);
    cube.push_property(Property { name: "size".to_string(), value: number(1.0, 48), span: Span::new(43, 49) });
    let err = decode_level(&vec![spawn_at(0.0, 0.0, 0.0), cube]).unwrap_err();
    assert_eq!(err.kind, DecodeErrorKind::UnexpectedProperty);
    assert_eq!(err.span, Span::new(43, 49));
}

#[test]
fn string_size_is_not_a_number() {
    let doc = vec![spawn_at(0.0, 0.0, 0.0), node("cube", 40, vec![text("big", 41)], vec![pos(0.0, 0.0, 0.0, 45)])];
    let err = decode_level(&doc).unwrap_err();
    assert_eq!(err.kind, DecodeErrorKind::ExpectedNumber);
    assert_eq!(err.span, Span::new(41, 42));
}

#[test]
fn infinite_and_nan_numbers_are_refused() {
    let doc = vec![node("spawn", 0, vec![], vec![pos(0.0, f32::INFINITY, 0.0, 5)])];
    let err = decode_level(&doc).unwrap_err();
    assert_eq!(err.kind, DecodeErrorKind::NonFiniteNumber);
    assert_eq!(err.span, Span::new(7, 8));

    let doc = vec![spawn_at(0.0, 0.0, 0.0), node("cube", 40, vec![number(f32::NAN, 41)], vec![pos(0.0, 0.0, 0.0, 45)])];
    let err = decode_level(&doc).unwrap_err();
    assert_eq!(err.kind, DecodeErrorKind::NonFiniteNumber);
    assert_eq!(err.span, Span::new(41, 42));
}

#[test]
fn lowercase_axis_is_unknown() {
    let doc = vec![
        spawn_at(0.0, 0.0, 0.0),
        node("cube", 40, vec![number(1.0, 41)], vec![pos(0.0, 0.0, 0.0, 45), rot("x", 90.0, 60)]),
    ];
    let err = decode_level(&doc).unwrap_err();
    assert_eq!(err.kind, DecodeErrorKind::UnknownAxis);
    assert_eq!(err.span, Span::new(61, 62));
}

#[test]
fn first_fault_in_document_order_is_reported() {
    let doc = vec![
        node("cube", 0, vec![text("a", 1)], vec![]),
        node("sphere", 40, vec![], vec![]),
    ];
    let err = decode_level(&doc).unwrap_err();
    assert_eq!(err.kind, DecodeErrorKind::ExpectedNumber);
    assert_eq!(err.span, Span::new(1, 2));
}

#[test]
fn finite_bits() {
    assert!(num(1.5).is_finite());
    assert!(num(-0.0).is_finite());
    assert!(num(f32::MAX).is_finite());
    assert!(!num(f32::INFINITY).is_finite());
    assert!(!num(f32::NEG_INFINITY).is_finite());
    assert!(!num(f32::NAN).is_finite());
    assert_eq!(Scalar::zero().to_bits(), 0);
}
