use vstd::prelude::*;
use crate::geometry::{Direction, Point, Vector};
use crate::orientation::{
    coords, dot, lemma_resolved_table, lemma_table_height, lemma_turn_linear, lemma_turn_within,
    point_coords, resolve, resolved, table, Rotation,
};

verus! {

/// The bounding rectangle of a flat outline, in the outline's own plane.
#[derive(Clone, Copy, Debug, PartialEq, Eq, Structural)]
pub struct Outline {
    pub min_x: i32,
    pub min_y: i32,
    pub max_x: i32,
    pub max_y: i32,
}

/// How a label is cut out of text: the nominal height of its glyphs, how far
/// it stands out of the face, and how deep it sinks below the face.
#[derive(Clone, Copy, Debug, PartialEq, Eq, Structural)]
pub struct DecalStyle {
    pub text_height: u32,
    pub extrusion: u32,
    pub sink: u32,
}

/// How a flat outline becomes a decal on a face: extruded by `thickness`
/// along +Z, then turned by `rotation`, then moved by `translation`.
#[derive(Clone, Copy, Debug, PartialEq, Eq, Structural)]
pub struct DecalPlan {
    pub thickness: u64,
    pub rotation: Rotation,
    pub translation: Vector,
}

/// One operation of the kernel on the decal solid.
#[derive(Clone, Copy, Debug, PartialEq, Eq, Structural)]
pub enum DecalOp {
    Extrude(u64),
    Rotate(Rotation),
    Translate(Vector),
}

pub open spec fn add3(a: (int, int, int), b: (int, int, int)) -> (int, int, int) {
    (a.0 + b.0, a.1 + b.1, a.2 + b.2)
}

pub open spec fn sub3(a: (int, int, int), b: (int, int, int)) -> (int, int, int) {
    (a.0 - b.0, a.1 - b.1, a.2 - b.2)
}

/// The point of the extruded content that is to land on the face centroid:
/// the middle of the outline (rounded down to the grid), at the height where
/// the face surface will cross the decal.
pub open spec fn content_anchor(outline: Outline, style: DecalStyle) -> (int, int, int) {
    (
        (outline.min_x + outline.max_x) / 2,
        (outline.min_y + outline.max_y) / 2,
        style.sink as int,
    )
}

impl DecalPlan {
    /// Where the plan takes a point of the extruded content.
    pub open spec fn placed(self, p: (int, int, int)) -> (int, int, int) {
        add3(self.rotation.turned(p), coords(self.translation))
    }
}

/// The plan that `build_decal` makes.
pub open spec fn decal_plan(outline: Outline, anchor: Point, normal: Point, style: DecalStyle) -> DecalPlan {
    let rotation = resolved(normal);
    let t = sub3(point_coords(anchor), rotation.turned(content_anchor(outline, style)));
    DecalPlan {
        thickness: (style.extrusion + style.sink) as u64,
        rotation,
        translation: Vector { x: t.0 as i64, y: t.1 as i64, z: t.2 as i64 },
    }
}

/// `v` rounded down to even, halved.
fn half_floor(v: i64) -> (r: i64)
    requires
        v > i64::MIN,
    ensures
        r == v / 2,
{
    if v >= 0 {
        v / 2
    } else {
        (v - 1) / 2
    }
}

/// Plans the decal for a face with centroid `anchor` and outward normal
/// `normal`.
///
/// The outline is extruded first, by the style's extrusion plus its sink, so
/// that what is turned and moved is a solid. It is turned so that its
/// extrusion axis lies along the normal, and moved so that the middle of the
/// outline sits on the centroid with the decal's base `sink` below the face.
pub fn build_decal(outline: Outline, anchor: Point, normal: Point, style: DecalStyle) -> (r: DecalPlan)
    ensures
        r == decal_plan(outline, anchor, normal, style),
        r.thickness == style.extrusion + style.sink,
        r.rotation == resolved(normal),
        r.placed(content_anchor(outline, style)) == point_coords(anchor),
{
    let rotation = resolve(normal);
    let c = Vector {
        x: half_floor(outline.min_x as i64 + outline.max_x as i64),
        y: half_floor(outline.min_y as i64 + outline.max_y as i64),
        z: style.sink as i64,
    };
    proof {
        lemma_turn_within(rotation, coords(c), 0x1_0000_0000);
    }
    let rc = rotation.apply(c);
    let translation = Vector {
        x: anchor.x as i64 - rc.x,
        y: anchor.y as i64 - rc.y,
        z: anchor.z as i64 - rc.z,
    };
    DecalPlan { thickness: style.extrusion as u64 + style.sink as u64, rotation, translation }
}

/// A decal planned for an axis-aligned face overlaps the solid by exactly
/// the style's sink: a point of the extruded content at height `p.2` above
/// the outline's plane lands `p.2 - sink` above the face, measured along the
/// face normal. The decal's base (height 0) is `sink` deep inside the solid
/// and its top (height `thickness`) stands `extrusion` out of it.
pub proof fn lemma_decal_sinks(
    outline: Outline,
    anchor: Point,
    d: Direction,
    style: DecalStyle,
    p: (int, int, int),
)
    ensures
        ({
            let plan = decal_plan(outline, anchor, d.spec_vector(), style);
            dot(point_coords(d.spec_vector()), sub3(plan.placed(p), point_coords(anchor)))
        }) == p.2 - style.sink,
        ({
            let plan = decal_plan(outline, anchor, d.spec_vector(), style);
            dot(point_coords(d.spec_vector()), sub3(plan.placed((p.0, p.1, plan.thickness as int)), point_coords(anchor)))
        }) == style.extrusion,
{
    let n = d.spec_vector();
    let plan = decal_plan(outline, anchor, n, style);
    let c = content_anchor(outline, style);
    let r = plan.rotation;
    lemma_resolved_table(d);
    assert(r == table(d));
    lemma_turn_within(r, c, 0x1_0000_0000);
    assert(coords(plan.translation) == sub3(point_coords(anchor), r.turned(c)));
    assert forall|v: (int, int, int)| #[trigger] plan.placed(v) == add3(sub3(point_coords(anchor), r.turned(c)), r.turned(v)) by {}
    let top = (p.0, p.1, plan.thickness as int);
    lemma_turn_linear(r, p, c);
    lemma_turn_linear(r, top, c);
    assert(sub3(plan.placed(p), point_coords(anchor)) == r.turned(sub3(p, c)));
    assert(sub3(plan.placed(top), point_coords(anchor)) == r.turned(sub3(top, c)));
    lemma_table_height(d, sub3(p, c));
    lemma_table_height(d, sub3(top, c));
}

impl DecalPlan {
    /// The plan as the kernel is to carry it out, in order: the extrusion
    /// comes before any turn or move, since the kernel leaves flat shapes
    /// where they are.
    pub fn ops(&self) -> (r: Vec<DecalOp>)
        ensures
            r@ == seq![
                DecalOp::Extrude(self.thickness),
                DecalOp::Rotate(self.rotation),
                DecalOp::Translate(self.translation),
            ],
    {
        vec![
            DecalOp::Extrude(self.thickness),
            DecalOp::Rotate(self.rotation),
            DecalOp::Translate(self.translation),
        ]
    }
}

} // verus!
