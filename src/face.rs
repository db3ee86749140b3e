use vstd::prelude::*;
use vstd::arithmetic::div_mod::{lemma_div_is_ordered, lemma_div_multiples_vanish, lemma_hoist_over_denominator};
use crate::geometry::{Direction, Point};
use crate::orientation::Axis;

verus! {

/// One face of a solid as the kernel lists it: its vertices and the normal
/// of its plane.
#[derive(Clone, Debug)]
pub struct Face {
    pub vertices: Vec<Point>,
    pub normal: Point,
}

/// Where a face is and where it points.
#[derive(Clone, Copy, Debug, PartialEq, Eq, Structural)]
pub struct FaceInfo {
    pub normal: Point,
    pub centroid: Point,
}

#[derive(Clone, Copy, Debug, PartialEq, Eq, Structural)]
pub enum LocateError {
    /// The index is past the end of the solid's face list.
    NotFound,
    /// The face has no vertices, so it has no centroid.
    NoVertices,
}

pub open spec fn coord(p: Point, a: Axis) -> int {
    match a {
        Axis::X => p.x as int,
        Axis::Y => p.y as int,
        Axis::Z => p.z as int,
    }
}

/// The sum of one coordinate over a run of vertices.
pub open spec fn coord_sum(vs: Seq<Point>, a: Axis) -> int
    decreases vs.len(),
{
    if vs.len() == 0 {
        0
    } else {
        coord_sum(vs.drop_last(), a) + coord(vs.last(), a)
    }
}

/// The arithmetic mean of one coordinate over the vertices, rounded down to
/// the grid.
pub open spec fn coord_mean(vs: Seq<Point>, a: Axis) -> int {
    coord_sum(vs, a) / (vs.len() as int)
}

/// The unweighted mean of the vertices.
pub open spec fn centroid_of(vs: Seq<Point>) -> (int, int, int) {
    (coord_mean(vs, Axis::X), coord_mean(vs, Axis::Y), coord_mean(vs, Axis::Z))
}

/// What `locate` gives for face `index` of `faces`.
pub open spec fn face_info(faces: Seq<Face>, index: int) -> Result<FaceInfo, LocateError> {
    if index < 0 || index >= faces.len() {
        Err(LocateError::NotFound)
    } else if faces[index].vertices@.len() == 0 {
        Err(LocateError::NoVertices)
    } else {
        let c = centroid_of(faces[index].vertices@);
        Ok(FaceInfo {
            normal: faces[index].normal,
            centroid: Point { x: c.0 as i32, y: c.1 as i32, z: c.2 as i32 },
        })
    }
}

pub open spec fn shift() -> int {
    0x8000_0000
}

proof fn lemma_mean_in_range(acc: int, n: int, s: int)
    requires
        n > 0,
        acc == s + n * shift(),
        0 <= acc <= n * (2 * shift() - 1),
    ensures
        acc / n == s / n + shift(),
        0 <= acc / n <= 2 * shift() - 1,
{
    lemma_hoist_over_denominator(s, shift(), n as nat);
    lemma_div_is_ordered(acc, n * (2 * shift() - 1), n);
    lemma_div_multiples_vanish(2 * shift() - 1, n);
    lemma_div_is_ordered(0, acc, n);
}

/// The outward normal and the centroid of face `index` of a solid's face
/// list.
///
/// The centroid is the unweighted mean of the face's vertices. An index is
/// meaningful only for the face list it was taken from: once the solid is
/// cut or joined its faces are listed anew.
pub fn locate(faces: &[Face], index: usize) -> (r: Result<FaceInfo, LocateError>)
    ensures
        r == face_info(faces@, index as int),
        r is Ok ==> (r->Ok_0.centroid.x as int, r->Ok_0.centroid.y as int, r->Ok_0.centroid.z as int)
            == centroid_of(faces@[index as int].vertices@),
{
    if index >= faces.len() {
        return Err(LocateError::NotFound);
    }
    let face = &faces[index];
    let n = face.vertices.len();
    if n == 0 {
        return Err(LocateError::NoVertices);
    }
    let ghost vs = face.vertices@;
    let mut sx: u128 = 0;
    let mut sy: u128 = 0;
    let mut sz: u128 = 0;
    let mut i: usize = 0;
    while i < n
        invariant
            n == vs.len(),
            vs == face.vertices@,
            i <= n,
            sx == coord_sum(vs.take(i as int), Axis::X) + i * shift(),
            sy == coord_sum(vs.take(i as int), Axis::Y) + i * shift(),
            sz == coord_sum(vs.take(i as int), Axis::Z) + i * shift(),
            sx <= i * (2 * shift() - 1),
            sy <= i * (2 * shift() - 1),
            sz <= i * (2 * shift() - 1),
        decreases n - i,
    {
        let p = face.vertices[i];
        assert((i + 1) * (2 * shift() - 1) == i * (2 * shift() - 1) + (2 * shift() - 1)
            && (i + 1) * (2 * shift() - 1) <= 0x1_0000_0000_0000_0000 * 0x1_0000_0000) by (nonlinear_arith)
            requires
                i < n,
                n <= usize::MAX,
                shift() == 0x8000_0000,
        ;
        assert(vs.take(i + 1).drop_last() == vs.take(i as int));
        sx = sx + (p.x as i64 + 0x8000_0000) as u128;
        sy = sy + (p.y as i64 + 0x8000_0000) as u128;
        sz = sz + (p.z as i64 + 0x8000_0000) as u128;
        i = i + 1;
    }
    assert(vs.take(n as int) == vs);
    proof {
        lemma_mean_in_range(sx as int, n as int, coord_sum(vs, Axis::X));
        lemma_mean_in_range(sy as int, n as int, coord_sum(vs, Axis::Y));
        lemma_mean_in_range(sz as int, n as int, coord_sum(vs, Axis::Z));
    }
    let mx = ((sx / (n as u128)) as i64 - 0x8000_0000) as i32;
    let my = ((sy / (n as u128)) as i64 - 0x8000_0000) as i32;
    let mz = ((sz / (n as u128)) as i64 - 0x8000_0000) as i32;
    Ok(FaceInfo { normal: face.normal, centroid: Point { x: mx, y: my, z: mz } })
}

/// Locating a face does not change the solid: asked twice for the same face
/// of the same face list, `locate` answers the same.
pub proof fn lemma_locate_repeatable(
    faces: Seq<Face>,
    index: int,
    first: Result<FaceInfo, LocateError>,
    second: Result<FaceInfo, LocateError>,
)
    requires
        first == face_info(faces, index),
        second == face_info(faces, index),
    ensures
        first == second,
{
}

/// The four corners of the face of the cube `[0, side]^3` whose outward
/// normal is `d`, going round the face.
pub open spec fn box_corners(side: i32, d: Direction) -> Seq<Point> {
    let (o, l) = (0i32, side);
    match d {
        Direction::NegX => seq![
            Point { x: o, y: o, z: o },
            Point { x: o, y: o, z: l },
            Point { x: o, y: l, z: l },
            Point { x: o, y: l, z: o },
        ],
        Direction::PosX => seq![
            Point { x: l, y: o, z: o },
            Point { x: l, y: l, z: o },
            Point { x: l, y: l, z: l },
            Point { x: l, y: o, z: l },
        ],
        Direction::NegY => seq![
            Point { x: o, y: o, z: o },
            Point { x: l, y: o, z: o },
            Point { x: l, y: o, z: l },
            Point { x: o, y: o, z: l },
        ],
        Direction::PosY => seq![
            Point { x: o, y: l, z: o },
            Point { x: o, y: l, z: l },
            Point { x: l, y: l, z: l },
            Point { x: l, y: l, z: o },
        ],
        Direction::NegZ => seq![
            Point { x: o, y: o, z: o },
            Point { x: o, y: l, z: o },
            Point { x: l, y: l, z: o },
            Point { x: l, y: o, z: o },
        ],
        Direction::PosZ => seq![
            Point { x: o, y: o, z: l },
            Point { x: l, y: o, z: l },
            Point { x: l, y: l, z: l },
            Point { x: o, y: l, z: l },
        ],
    }
}

/// The middle of the face of the cube `[0, side]^3` whose outward normal is
/// `d`, rounded down to the grid.
pub open spec fn box_face_centre(side: i32, d: Direction) -> Point {
    let (l, h) = (side, (side / 2) as i32);
    match d {
        Direction::NegX => Point { x: 0, y: h, z: h },
        Direction::PosX => Point { x: l, y: h, z: h },
        Direction::NegY => Point { x: h, y: 0, z: h },
        Direction::PosY => Point { x: h, y: l, z: h },
        Direction::NegZ => Point { x: h, y: h, z: 0 },
        Direction::PosZ => Point { x: h, y: h, z: l },
    }
}

/// On a face of a cube, `locate` gives an axis-aligned unit normal and, for
/// centroid, the mean of the face's corners: the middle of the face.
pub proof fn lemma_box_face(faces: Seq<Face>, index: int, side: i32, d: Direction)
    requires
        side >= 0,
        0 <= index < faces.len(),
        faces[index].vertices@ == box_corners(side, d),
        faces[index].normal == d.spec_vector(),
    ensures
        face_info(faces, index) == Ok::<FaceInfo, LocateError>(
            FaceInfo { normal: d.spec_vector(), centroid: box_face_centre(side, d) },
        ),
        Direction::is_vector(face_info(faces, index)->Ok_0.normal),
{
    let vs = box_corners(side, d);
    reveal_with_fuel(coord_sum, 5);
    assert(vs.drop_last().drop_last().drop_last().drop_last() =~= Seq::<Point>::empty());
    let l = side as int;
    assert((2 * l) / 4 == l / 2);
    assert((4 * l) / 4 == l);
    assert(0int / 4 == 0);
}

} // verus!
