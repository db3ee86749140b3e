use vstd::prelude::*;

verus! {

/// A point or a vector with integer coordinates.
#[derive(Clone, Copy, Debug, PartialEq, Eq, Structural)]
pub struct Point {
    pub x: i32,
    pub y: i32,
    pub z: i32,
}

impl Point {
    pub fn new(x: i32, y: i32, z: i32) -> (r: Point)
        ensures
            r == (Point { x, y, z }),
    {
        Point { x, y, z }
    }
}

/// A vector with wide integer coordinates: a translation, or a point of
/// content after it was turned.
#[derive(Clone, Copy, Debug, PartialEq, Eq, Structural)]
pub struct Vector {
    pub x: i64,
    pub y: i64,
    pub z: i64,
}

/// One of the six axis-aligned unit vectors: the outward normals of the faces
/// of a box.
#[derive(Clone, Copy, Debug, PartialEq, Eq, Structural)]
pub enum Direction {
    PosX,
    NegX,
    PosY,
    NegY,
    PosZ,
    NegZ,
}

impl Direction {
    pub open spec fn spec_vector(self) -> Point {
        match self {
            Direction::PosX => Point { x: 1, y: 0, z: 0 },
            Direction::NegX => Point { x: -1i32, y: 0, z: 0 },
            Direction::PosY => Point { x: 0, y: 1, z: 0 },
            Direction::NegY => Point { x: 0, y: -1i32, z: 0 },
            Direction::PosZ => Point { x: 0, y: 0, z: 1 },
            Direction::NegZ => Point { x: 0, y: 0, z: -1i32 },
        }
    }

    /// The unit vector itself.
    pub fn vector(&self) -> (r: Point)
        ensures
            r == self.spec_vector(),
    {
        match self {
            Direction::PosX => Point { x: 1, y: 0, z: 0 },
            Direction::NegX => Point { x: -1, y: 0, z: 0 },
            Direction::PosY => Point { x: 0, y: 1, z: 0 },
            Direction::NegY => Point { x: 0, y: -1, z: 0 },
            Direction::PosZ => Point { x: 0, y: 0, z: 1 },
            Direction::NegZ => Point { x: 0, y: 0, z: -1 },
        }
    }

    pub open spec fn is_vector(v: Point) -> bool {
        exists|d: Direction| d.spec_vector() == v
    }

    /// The direction whose unit vector is exactly `v`, if there is one.
    pub open spec fn direction_of(v: Point) -> Option<Direction> {
        if v == (Point { x: 1, y: 0, z: 0 }) {
            Some(Direction::PosX)
        } else if v == (Point { x: -1i32, y: 0, z: 0 }) {
            Some(Direction::NegX)
        } else if v == (Point { x: 0, y: 1, z: 0 }) {
            Some(Direction::PosY)
        } else if v == (Point { x: 0, y: -1i32, z: 0 }) {
            Some(Direction::NegY)
        } else if v == (Point { x: 0, y: 0, z: 1 }) {
            Some(Direction::PosZ)
        } else if v == (Point { x: 0, y: 0, z: -1i32 }) {
            Some(Direction::NegZ)
        } else {
            None
        }
    }

    /// The direction whose unit vector is exactly `v`, if there is one.
    pub fn from_vector(v: Point) -> (r: Option<Direction>)
        ensures
            r == Direction::direction_of(v),
            match r {
                Some(d) => d.spec_vector() == v,
                None => !Direction::is_vector(v),
            },
    {
        if v.x == 1 && v.y == 0 && v.z == 0 {
            Some(Direction::PosX)
        } else if v.x == -1 && v.y == 0 && v.z == 0 {
            Some(Direction::NegX)
        } else if v.x == 0 && v.y == 1 && v.z == 0 {
            Some(Direction::PosY)
        } else if v.x == 0 && v.y == -1 && v.z == 0 {
            Some(Direction::NegY)
        } else if v.x == 0 && v.y == 0 && v.z == 1 {
            Some(Direction::PosZ)
        } else if v.x == 0 && v.y == 0 && v.z == -1 {
            Some(Direction::NegZ)
        } else {
            None
        }
    }
}

} // verus!
