use vstd::prelude::*;
use crate::geometry::{Direction, Point, Vector};

verus! {

/// A coordinate axis, about which a rotation turns.
#[derive(Clone, Copy, Debug, PartialEq, Eq, Structural)]
pub enum Axis {
    X,
    Y,
    Z,
}

/// A rotation by a whole number of quarter turns about one coordinate axis.
///
/// Angles follow the right-hand rule: a positive turn is counterclockwise
/// when seen from the positive end of the axis, so a quarter turn about X
/// takes +Y to +Z.
#[derive(Clone, Copy, Debug, PartialEq, Eq, Structural)]
pub struct Rotation {
    pub axis: Axis,
    pub quarter_turns: i8,
}

pub open spec fn cos_q(q: int) -> int {
    let k = q % 4;
    if k == 0 {
        1
    } else if k == 2 {
        -1
    } else {
        0
    }
}

pub open spec fn sin_q(q: int) -> int {
    let k = q % 4;
    if k == 1 {
        1
    } else if k == 3 {
        -1
    } else {
        0
    }
}

/// The coordinates of a vector, as mathematical integers.
pub open spec fn coords(v: Vector) -> (int, int, int) {
    (v.x as int, v.y as int, v.z as int)
}

/// The coordinates of a point, as mathematical integers.
pub open spec fn point_coords(p: Point) -> (int, int, int) {
    (p.x as int, p.y as int, p.z as int)
}

/// The unit vector along +Z: the axis along which flat content is extruded.
pub open spec fn up_axis() -> (int, int, int) {
    (0, 0, 1)
}

pub open spec fn dot(a: (int, int, int), b: (int, int, int)) -> int {
    a.0 * b.0 + a.1 * b.1 + a.2 * b.2
}

pub open spec fn cross(a: (int, int, int), b: (int, int, int)) -> (int, int, int) {
    (a.1 * b.2 - a.2 * b.1, a.2 * b.0 - a.0 * b.2, a.0 * b.1 - a.1 * b.0)
}

/// Every coordinate of `v` lies within `b` of zero.
pub open spec fn within(v: (int, int, int), b: int) -> bool {
    -b <= v.0 <= b && -b <= v.1 <= b && -b <= v.2 <= b
}

impl Rotation {
    /// The image of `v` under the rotation.
    pub open spec fn turned(self, v: (int, int, int)) -> (int, int, int) {
        let c = cos_q(self.quarter_turns as int);
        let s = sin_q(self.quarter_turns as int);
        match self.axis {
            Axis::X => (v.0, c * v.1 - s * v.2, s * v.1 + c * v.2),
            Axis::Y => (c * v.0 + s * v.2, v.1, c * v.2 - s * v.0),
            Axis::Z => (c * v.0 - s * v.1, s * v.0 + c * v.1, v.2),
        }
    }

    pub open spec fn is_identity(self) -> bool {
        self.quarter_turns as int % 4 == 0
    }

    /// The turn in degrees, as the kernel's rotation takes it.
    pub fn degrees(&self) -> (r: i32)
        ensures
            r == 90 * self.quarter_turns,
    {
        90 * (self.quarter_turns as i32)
    }

    /// The rotation applied to `v`.
    pub fn apply(&self, v: Vector) -> (r: Vector)
        requires
            v.x > i64::MIN,
            v.y > i64::MIN,
            v.z > i64::MIN,
        ensures
            coords(r) == self.turned(coords(v)),
    {
        let k: i8 = self.quarter_turns % 4;
        let k: i8 = if k < 0 { k + 4 } else { k };
        assert(k as int == self.quarter_turns as int % 4);
        proof {
            lemma_unit_products();
            lemma_quarter_values(self.quarter_turns as int);
        }
        // (a, b) turned counterclockwise by k quarter turns in its plane
        let (a, b) = match self.axis {
            Axis::X => (v.y, v.z),
            Axis::Y => (v.z, v.x),
            Axis::Z => (v.x, v.y),
        };
        let (a2, b2) = if k == 0 {
            (a, b)
        } else if k == 1 {
            (-b, a)
        } else if k == 2 {
            (-a, -b)
        } else {
            (b, -a)
        };
        match self.axis {
            Axis::X => Vector { x: v.x, y: a2, z: b2 },
            Axis::Y => Vector { x: b2, y: v.y, z: a2 },
            Axis::Z => Vector { x: a2, y: b2, z: v.z },
        }
    }
}

/// The rotation that swings content extruded along +Z onto the face normal `d`.
pub open spec fn table(d: Direction) -> Rotation {
    match d {
        Direction::PosZ => Rotation { axis: Axis::Z, quarter_turns: 0 },
        Direction::NegZ => Rotation { axis: Axis::X, quarter_turns: 2 },
        Direction::PosY => Rotation { axis: Axis::X, quarter_turns: -1i8 },
        Direction::NegY => Rotation { axis: Axis::X, quarter_turns: 1 },
        Direction::PosX => Rotation { axis: Axis::Y, quarter_turns: 1 },
        Direction::NegX => Rotation { axis: Axis::Y, quarter_turns: -1i8 },
    }
}

/// What `resolve` gives for a face normal: the table's entry for an
/// axis-aligned unit normal, no turn at all for any other vector.
pub open spec fn resolved(normal: Point) -> Rotation {
    match Direction::direction_of(normal) {
        Some(d) => table(d),
        None => Rotation { axis: Axis::Z, quarter_turns: 0 },
    }
}

/// The rotation that turns content authored flat, extruded along +Z, so
/// that its extrusion axis lies along the face normal `normal`.
///
/// For each of the six axis-aligned unit normals the rotation takes +Z
/// exactly onto the normal. Any other vector gets no turn.
pub fn resolve(normal: Point) -> (r: Rotation)
    ensures
        r == resolved(normal),
        Direction::is_vector(normal) ==> r.turned(up_axis()) == point_coords(normal),
        !Direction::is_vector(normal) ==> r.is_identity(),
{
    match Direction::from_vector(normal) {
        Some(Direction::PosZ) => Rotation { axis: Axis::Z, quarter_turns: 0 },
        Some(Direction::NegZ) => Rotation { axis: Axis::X, quarter_turns: 2 },
        Some(Direction::PosY) => Rotation { axis: Axis::X, quarter_turns: -1 },
        Some(Direction::NegY) => Rotation { axis: Axis::X, quarter_turns: 1 },
        Some(Direction::PosX) => Rotation { axis: Axis::Y, quarter_turns: 1 },
        Some(Direction::NegX) => Rotation { axis: Axis::Y, quarter_turns: -1 },
        None => Rotation { axis: Axis::Z, quarter_turns: 0 },
    }
}

/// An orientation given by where it takes each coordinate axis of flat
/// content: +X onto `x`, +Y onto `y` and the extrusion axis +Z onto `z`.
#[derive(Clone, Copy, Debug, PartialEq, Eq, Structural)]
pub struct Frame {
    pub x: Direction,
    pub y: Direction,
    pub z: Direction,
}

impl Frame {
    /// The image of `v` under the orientation.
    pub open spec fn turned(self, v: (int, int, int)) -> (int, int, int) {
        let (x, y, z) = (
            point_coords(self.x.spec_vector()),
            point_coords(self.y.spec_vector()),
            point_coords(self.z.spec_vector()),
        );
        (
            v.0 * x.0 + v.1 * y.0 + v.2 * z.0,
            v.0 * x.1 + v.1 * y.1 + v.2 * z.1,
            v.0 * x.2 + v.1 * y.2 + v.2 * z.2,
        )
    }

    /// The three images are perpendicular and right-handed, so the frame is
    /// a rotation.
    pub open spec fn is_rotation(self) -> bool {
        let (x, y, z) = (
            point_coords(self.x.spec_vector()),
            point_coords(self.y.spec_vector()),
            point_coords(self.z.spec_vector()),
        );
        dot(y, z) == 0 && x == cross(y, z)
    }
}

/// The point with the coordinates `c`.
pub open spec fn to_point(c: (int, int, int)) -> Point {
    Point { x: c.0 as i32, y: c.1 as i32, z: c.2 as i32 }
}

/// What `frame` gives for a normal and an up hint.
pub open spec fn framed(normal: Point, up: Point) -> Option<Frame> {
    match (Direction::direction_of(normal), Direction::direction_of(up)) {
        (Some(z), Some(y)) => if dot(point_coords(normal), point_coords(up)) == 0 {
            match Direction::direction_of(to_point(cross(point_coords(up), point_coords(normal)))) {
                Some(x) => Some(Frame { x, y, z }),
                None => None,
            }
        } else {
            None
        },
        _ => None,
    }
}

/// The orientation that lays content onto a face with normal `normal`,
/// reading upright along `up`: the extrusion axis goes onto the normal, the
/// content's +Y onto the up hint and its +X onto their cross product.
///
/// Both must be axis-aligned unit vectors, perpendicular to each other;
/// otherwise there is no such orientation on the grid and the result is
/// `None`.
pub fn frame(normal: Point, up: Point) -> (r: Option<Frame>)
    ensures
        r == framed(normal, up),
        r is Some <==> Direction::is_vector(normal) && Direction::is_vector(up) && dot(
            point_coords(normal),
            point_coords(up),
        ) == 0,
        r matches Some(f) ==> {
            &&& f.z.spec_vector() == normal
            &&& f.y.spec_vector() == up
            &&& point_coords(f.x.spec_vector()) == cross(point_coords(up), point_coords(normal))
            &&& f.is_rotation()
            &&& f.turned(up_axis()) == point_coords(normal)
        },
{
    let z = match Direction::from_vector(normal) {
        Some(d) => d,
        None => return None,
    };
    let y = match Direction::from_vector(up) {
        Some(d) => d,
        None => return None,
    };
    let (n, u) = (z.vector(), y.vector());
    proof {
        lemma_unit_products();
    }
    assert(-1 <= n.x <= 1 && -1 <= n.y <= 1 && -1 <= n.z <= 1);
    assert(-1 <= u.x <= 1 && -1 <= u.y <= 1 && -1 <= u.z <= 1);
    if n.x * u.x + n.y * u.y + n.z * u.z != 0 {
        return None;
    }
    let c = Point::new(u.y * n.z - u.z * n.y, u.z * n.x - u.x * n.z, u.x * n.y - u.y * n.x);
    assert(Direction::is_vector(c)) by {
        assert(c == Direction::PosX.spec_vector() || c == Direction::NegX.spec_vector()
            || c == Direction::PosY.spec_vector() || c == Direction::NegY.spec_vector()
            || c == Direction::PosZ.spec_vector() || c == Direction::NegZ.spec_vector());
    }
    let x = match Direction::from_vector(c) {
        Some(d) => d,
        None => return None,
    };
    assert(point_coords(c) == cross(point_coords(up), point_coords(normal)));
    let f = Frame { x, y, z };
    Some(f)
}

/// Where the table's rotation for `d` takes the content's +Y axis.
pub open spec fn table_up(d: Direction) -> Direction {
    match d {
        Direction::PosZ => Direction::PosY,
        Direction::NegZ => Direction::NegY,
        Direction::PosY => Direction::NegZ,
        Direction::NegY => Direction::PosZ,
        Direction::PosX => Direction::PosY,
        Direction::NegX => Direction::PosY,
    }
}

/// Products with a coordinate of a unit axis vector, on either side.
proof fn lemma_unit_products()
    ensures
        forall|k: int, t: int|
            #![trigger k * t]
            (k == 0 ==> k * t == 0) && (k == 1 ==> k * t == t) && (k == -1 ==> k * t == -t) && (t == 0
                ==> k * t == 0) && (t == 1 ==> k * t == k) && (t == -1 ==> k * t == -k),
{
    assert forall|k: int, t: int|
        #![trigger k * t]
        (k == 0 ==> k * t == 0) && (k == 1 ==> k * t == t) && (k == -1 ==> k * t == -t) && (t == 0
            ==> k * t == 0) && (t == 1 ==> k * t == k) && (t == -1 ==> k * t == -k) by {
        if k == -1 {
            assert(k * t == -t) by (nonlinear_arith)
                requires
                    k == -1,
            ;
        }
        if t == -1 {
            assert(k * t == -k) by (nonlinear_arith)
                requires
                    t == -1,
            ;
        }
    }
}

/// The cosine and sine of each quarter turn.
proof fn lemma_quarter_values(q: int)
    ensures
        q % 4 == 0 ==> cos_q(q) == 1 && sin_q(q) == 0,
        q % 4 == 1 ==> cos_q(q) == 0 && sin_q(q) == 1,
        q % 4 == 2 ==> cos_q(q) == -1 && sin_q(q) == 0,
        q % 4 == 3 ==> cos_q(q) == 0 && sin_q(q) == -1,
        0 <= q % 4 < 4,
{
}

/// A quarter-turn rotation only swaps and negates coordinates, so it keeps
/// any bound on them.
pub proof fn lemma_turn_within(r: Rotation, v: (int, int, int), b: int)
    requires
        within(v, b),
    ensures
        within(r.turned(v), b),
{
    lemma_unit_products();
    lemma_quarter_values(r.quarter_turns as int);
}

/// Turning a difference is the difference of the turned vectors.
pub proof fn lemma_turn_linear(r: Rotation, a: (int, int, int), b: (int, int, int))
    ensures
        r.turned((a.0 - b.0, a.1 - b.1, a.2 - b.2)) == ({
            let ta = r.turned(a);
            let tb = r.turned(b);
            (ta.0 - tb.0, ta.1 - tb.1, ta.2 - tb.2)
        }),
{
    lemma_unit_products();
    lemma_quarter_values(r.quarter_turns as int);
}

/// The rotation that `resolve` gives for an axis-aligned normal is the
/// table's entry for it.
pub proof fn lemma_resolved_table(d: Direction)
    ensures
        resolved(d.spec_vector()) == table(d),
{
}

/// Under the table's rotation for `d`, the component of a turned vector
/// along the normal of `d` is the vector's original height along +Z.
pub proof fn lemma_table_height(d: Direction, v: (int, int, int))
    ensures
        dot(point_coords(d.spec_vector()), table(d).turned(v)) == v.2,
{
    lemma_unit_products();
    lemma_quarter_values(table(d).quarter_turns as int);
}

/// The fixed table is a special case of the frame construction: for each
/// axis-aligned normal, the table's rotation turns every vector exactly as
/// the frame built from that normal and the up hint `table_up(d)` does.
pub proof fn lemma_table_is_frame(d: Direction, v: (int, int, int))
    ensures
        framed(d.spec_vector(), table_up(d).spec_vector()) is Some,
        framed(d.spec_vector(), table_up(d).spec_vector())->Some_0.turned(v) == table(d).turned(v),
{
    let n = d.spec_vector();
    let u = table_up(d).spec_vector();
    let c = cross(point_coords(u), point_coords(n));
    lemma_unit_products();
    lemma_quarter_values(table(d).quarter_turns as int);
    let side = match d {
        Direction::PosX => Direction::NegZ,
        Direction::NegX => Direction::PosZ,
        _ => Direction::PosX,
    };
    assert(point_coords(side.spec_vector()) == c);
    let f = Frame { x: side, y: table_up(d), z: d };
    assert(framed(n, u) == Some(f));
    let r = table(d);
    match d {
        Direction::PosX => assert(f.turned(v) == r.turned(v)),
        Direction::NegX => assert(f.turned(v) == r.turned(v)),
        Direction::PosY => assert(f.turned(v) == r.turned(v)),
        Direction::NegY => assert(f.turned(v) == r.turned(v)),
        Direction::PosZ => assert(f.turned(v) == r.turned(v)),
        Direction::NegZ => assert(f.turned(v) == r.turned(v)),
    }
}

} // verus!
