use cube_gen::{frame, resolve, Axis, Direction, Frame, Point, Rotation, Vector};

fn up() -> Vector {
    Vector { x: 0, y: 0, z: 1 }
}

fn as_vector(p: Point) -> Vector {
    Vector { x: p.x as i64, y: p.y as i64, z: p.z as i64 }
}

#[test]
fn resolve_takes_up_onto_each_axis_normal() {
    let all = [
        Direction::PosX,
        Direction::NegX,
        Direction::PosY,
        Direction::NegY,
        Direction::PosZ,
        Direction::NegZ,
    ];
    for d in all {
        let n = d.vector();
        let r = resolve(n);
        assert_eq!(r.apply(up()), as_vector(n), "normal {:?}", d);
    }
}

#[test]
fn resolve_table_entries() {
    assert_eq!(resolve(Point::new(0, 0, 1)), Rotation { axis: Axis::Z, quarter_turns: 0 });
    assert_eq!(resolve(Point::new(0, 0, -1)), Rotation { axis: Axis::X, quarter_turns: 2 });
    assert_eq!(resolve(Point::new(0, 1, 0)), Rotation { axis: Axis::X, quarter_turns: -1 });
    assert_eq!(resolve(Point::new(0, -1, 0)), Rotation { axis: Axis::X, quarter_turns: 1 });
    assert_eq!(resolve(Point::new(1, 0, 0)), Rotation { axis: Axis::Y, quarter_turns: 1 });
    assert_eq!(resolve(Point::new(-1, 0, 0)), Rotation { axis: Axis::Y, quarter_turns: -1 });
}

#[test]
fn resolve_degrees_for_kernel() {
    assert_eq!(resolve(Point::new(0, -1, 0)).degrees(), 90);
    assert_eq!(resolve(Point::new(0, 1, 0)).degrees(), -90);
    assert_eq!(resolve(Point::new(0, 0, -1)).degrees(), 180);
}

#[test]
fn resolve_other_vector_gives_no_turn() {
    let r = resolve(Point::new(1, 1, 0));
    assert_eq!(r.degrees(), 0);
    let v = Vector { x: 3, y: -4, z: 5 };
    assert_eq!(r.apply(v), v);
    assert_eq!(resolve(Point::new(0, 0, 2)).apply(v), v);
}

#[test]
fn rotation_apply_quarter_turns() {
    let v = Vector { x: 1, y: 2, z: 3 };
    let about_x = Rotation { axis: Axis::X, quarter_turns: 1 };
    assert_eq!(about_x.apply(v), Vector { x: 1, y: -3, z: 2 });
    let about_y = Rotation { axis: Axis::Y, quarter_turns: 1 };
    assert_eq!(about_y.apply(v), Vector { x: 3, y: 2, z: -1 });
    let about_z = Rotation { axis: Axis::Z, quarter_turns: -3 };
    assert_eq!(about_z.apply(v), Vector { x: -2, y: 1, z: 3 });
    let half = Rotation { axis: Axis::Z, quarter_turns: 2 };
    assert_eq!(half.apply(v), Vector { x: -1, y: -2, z: 3 });
}

#[test]
fn direction_from_vector() {
    assert_eq!(Direction::from_vector(Point::new(0, -1, 0)), Some(Direction::NegY));
    assert_eq!(Direction::from_vector(Point::new(0, 0, 0)), None);
    assert_eq!(Direction::from_vector(Point::new(1, 0, 1)), None);
    assert_eq!(Direction::PosZ.vector(), Point::new(0, 0, 1));
}

fn frame_turn(f: &Frame, v: Vector) -> Vector {
    let (x, y, z) = (as_vector(f.x.vector()), as_vector(f.y.vector()), as_vector(f.z.vector()));
    Vector {
        x: v.x * x.x + v.y * y.x + v.z * z.x,
        y: v.x * x.y + v.y * y.y + v.z * z.y,
        z: v.x * x.z + v.y * y.z + v.z * z.z,
    }
}

#[test]
fn frame_from_normal_and_up() {
    let f = frame(Point::new(0, -1, 0), Point::new(0, 0, 1)).unwrap();
    assert_eq!(f, Frame { x: Direction::PosX, y: Direction::PosZ, z: Direction::NegY });
    assert_eq!(frame_turn(&f, up()), Vector { x: 0, y: -1, z: 0 });
    let g = frame(Point::new(1, 0, 0), Point::new(0, 1, 0)).unwrap();
    assert_eq!(g, Frame { x: Direction::NegZ, y: Direction::PosY, z: Direction::PosX });
}

#[test]
fn frame_rejects_parallel_or_off_axis() {
    assert_eq!(frame(Point::new(0, 0, 1), Point::new(0, 0, -1)), None);
    assert_eq!(frame(Point::new(0, 0, 1), Point::new(0, 0, 1)), None);
    assert_eq!(frame(Point::new(0, 0, 2), Point::new(0, 1, 0)), None);
    assert_eq!(frame(Point::new(0, 0, 1), Point::new(1, 1, 0)), None);
}

#[test]
fn table_rotation_matches_frame() {
    let cases = [
        (Direction::PosZ, Direction::PosY),
        (Direction::NegZ, Direction::NegY),
        (Direction::PosY, Direction::NegZ),
        (Direction::NegY, Direction::PosZ),
        (Direction::PosX, Direction::PosY),
        (Direction::NegX, Direction::PosY),
    ];
    let v = Vector { x: 2, y: -3, z: 5 };
    for (normal, up_hint) in cases {
        let f = frame(normal.vector(), up_hint.vector()).unwrap();
        assert_eq!(frame_turn(&f, v), resolve(normal.vector()).apply(v), "normal {:?}", normal);
    }
}
