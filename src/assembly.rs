use vstd::prelude::*;
use crate::decal::{build_decal, decal_plan, DecalPlan, DecalStyle, Outline};
use crate::face::{face_info, locate, Face, LocateError};

verus! {

/// The fewest sides a tube may have and still be a solid.
pub const MIN_SEGMENTS: u32 = 3;

/// The largest infill period, in thousandths.
pub const MAX_PERIOD: u32 = 2000;

/// The largest infill iso-value, in thousandths.
pub const MAX_ISO_VALUE: u32 = 1000;

/// Gyroid infill of the finished block. A resolution of zero asks for none;
/// the period and the iso-value are in thousandths.
#[derive(Clone, Copy, Debug, PartialEq, Eq, Structural)]
pub struct Infill {
    pub resolution: u64,
    pub period: u32,
    pub iso_value: u32,
}

/// One calibration block: a cube of side `side`, bored through by a tube of
/// diameter `tube_diameter` (none when zero) with `segments` sides, and
/// labelled on face `label_face` of the plain cube.
#[derive(Clone, Copy, Debug, PartialEq, Eq, Structural)]
pub struct CubeSpec {
    pub side: u32,
    pub tube_diameter: u64,
    pub segments: u32,
    pub label_face: usize,
    pub infill: Infill,
}

#[derive(Clone, Copy, Debug, PartialEq, Eq, Structural)]
pub enum ConfigError {
    /// The tube has fewer than three sides.
    TooFewSegments,
    /// The infill period is above two.
    PeriodOutOfRange,
    /// The infill iso-value is above one.
    IsoValueOutOfRange,
}

/// How far a block has come.
#[derive(Clone, Copy, Debug, PartialEq, Eq, Structural)]
pub enum Stage {
    Blank,
    Labeled,
    Bored,
    Infilled,
    Done,
}

/// One request to the solid-modelling kernel.
#[derive(Clone, Copy, Debug, PartialEq, Eq, Structural)]
pub enum Action {
    /// Build the cube of this side.
    Block { side: u32 },
    /// Set the label on this face of the cube as it was built, and fuse it.
    Label { face_index: usize },
    /// Cut away a cylinder of this diameter and height, with this many sides,
    /// standing on the block's base on its vertical centre axis.
    Bore { diameter: u64, height: u32, segments: u32 },
    /// Replace the block's interior by gyroid infill.
    Fill { infill: Infill },
    /// Hand the finished block over for export.
    Export,
}

/// The error that `check` gives, if any.
pub open spec fn config_error(spec: CubeSpec) -> Option<ConfigError> {
    if spec.segments < MIN_SEGMENTS {
        Some(ConfigError::TooFewSegments)
    } else if spec.infill.period > MAX_PERIOD {
        Some(ConfigError::PeriodOutOfRange)
    } else if spec.infill.iso_value > MAX_ISO_VALUE {
        Some(ConfigError::IsoValueOutOfRange)
    } else {
        None
    }
}

/// Checks a block's configuration before anything is built.
pub fn check(spec: &CubeSpec) -> (r: Result<(), ConfigError>)
    ensures
        r is Ok <==> config_error(*spec) is None,
        r is Err ==> config_error(*spec) == Some(r->Err_0),
{
    if spec.segments < MIN_SEGMENTS {
        Err(ConfigError::TooFewSegments)
    } else if spec.infill.period > MAX_PERIOD {
        Err(ConfigError::PeriodOutOfRange)
    } else if spec.infill.iso_value > MAX_ISO_VALUE {
        Err(ConfigError::IsoValueOutOfRange)
    } else {
        Ok(())
    }
}

/// The actions that take a block from `stage` to the next stage, and that
/// stage. Labelling comes first, while the face indices are those of the
/// plain cube; boring and infill come after it and are skipped when not
/// asked for.
pub open spec fn transition(stage: Stage, spec: CubeSpec) -> (Stage, Seq<Action>) {
    match stage {
        Stage::Blank => (
            Stage::Labeled,
            seq![Action::Block { side: spec.side }, Action::Label { face_index: spec.label_face }],
        ),
        Stage::Labeled => (
            Stage::Bored,
            if spec.tube_diameter > 0 {
                seq![Action::Bore { diameter: spec.tube_diameter, height: spec.side, segments: spec.segments }]
            } else {
                seq![]
            },
        ),
        Stage::Bored => (
            Stage::Infilled,
            if spec.infill.resolution > 0 {
                seq![Action::Fill { infill: spec.infill }]
            } else {
                seq![]
            },
        ),
        Stage::Infilled => (Stage::Done, seq![Action::Export]),
        Stage::Done => (Stage::Done, seq![]),
    }
}

/// Every action from `stage` on, up to the end.
pub open spec fn actions_from(stage: Stage, spec: CubeSpec) -> Seq<Action>
    decreases stage_rank(stage),
{
    if stage == Stage::Done {
        seq![]
    } else {
        let (next, acts) = transition(stage, spec);
        acts + actions_from(next, spec)
    }
}

pub open spec fn stage_rank(stage: Stage) -> nat {
    match stage {
        Stage::Blank => 4,
        Stage::Labeled => 3,
        Stage::Bored => 2,
        Stage::Infilled => 1,
        Stage::Done => 0,
    }
}

/// One step of a block's assembly.
pub fn advance(stage: Stage, spec: &CubeSpec) -> (r: (Stage, Vec<Action>))
    ensures
        (r.0, r.1@) == transition(stage, *spec),
{
    match stage {
        Stage::Blank => (
            Stage::Labeled,
            vec![Action::Block { side: spec.side }, Action::Label { face_index: spec.label_face }],
        ),
        Stage::Labeled => {
            let acts = if spec.tube_diameter > 0 {
                vec![Action::Bore { diameter: spec.tube_diameter, height: spec.side, segments: spec.segments }]
            } else {
                Vec::new()
            };
            (Stage::Bored, acts)
        },
        Stage::Bored => {
            let acts = if spec.infill.resolution > 0 {
                vec![Action::Fill { infill: spec.infill }]
            } else {
                Vec::new()
            };
            (Stage::Infilled, acts)
        },
        Stage::Infilled => (Stage::Done, vec![Action::Export]),
        Stage::Done => (Stage::Done, Vec::new()),
    }
}

/// Checks the configuration, then lists every request to the kernel that
/// builds the block, in order.
pub fn plan(spec: &CubeSpec) -> (r: Result<Vec<Action>, ConfigError>)
    ensures
        r is Ok <==> config_error(*spec) is None,
        r is Err ==> config_error(*spec) == Some(r->Err_0),
        r is Ok ==> r->Ok_0@ == actions_from(Stage::Blank, *spec),
{
    match check(spec) {
        Err(e) => Err(e),
        Ok(()) => {
            let mut out: Vec<Action> = Vec::new();
            let mut stage = Stage::Blank;
            while stage != Stage::Done
                invariant
                    out@ + actions_from(stage, *spec) == actions_from(Stage::Blank, *spec),
                decreases stage_rank(stage),
            {
                let (next, mut acts) = advance(stage, spec);
                let ghost before = out@;
                let ghost step = acts@;
                out.append(&mut acts);
                assert(out@ + actions_from(next, *spec) == before + (step + actions_from(next, *spec)));
                stage = next;
            }
            Ok(out)
        },
    }
}

/// A block is labelled before anything is cut from it: the plan builds the
/// cube, labels it, and never builds or labels again.
pub proof fn lemma_label_first(spec: CubeSpec)
    ensures
        actions_from(Stage::Blank, spec).len() >= 3,
        actions_from(Stage::Blank, spec)[0] == (Action::Block { side: spec.side }),
        actions_from(Stage::Blank, spec)[1] == (Action::Label { face_index: spec.label_face }),
        forall|i: int|
            2 <= i < actions_from(Stage::Blank, spec).len() ==> {
                let a = #[trigger] actions_from(Stage::Blank, spec)[i];
                !(a is Block) && !(a is Label)
            },
{
    reveal_with_fuel(actions_from, 6);
}

/// Boring does not move the label: two blocks that differ only in their
/// tube are labelled by the same requests on the same plain cube, and each
/// label is set before its block is bored. With `label_decal` computing the
/// label from the plain cube's faces alone, the label's geometry is the same
/// whether or not the block is bored.
pub proof fn lemma_bore_leaves_label(a: CubeSpec, b: CubeSpec)
    requires
        a.side == b.side,
        a.segments == b.segments,
        a.label_face == b.label_face,
        a.infill == b.infill,
    ensures
        actions_from(Stage::Blank, a).take(2) == actions_from(Stage::Blank, b).take(2),
        forall|i: int|
            0 <= i < actions_from(Stage::Blank, a).len() && (#[trigger] actions_from(Stage::Blank, a)[i] is Bore) ==> i > 1,
        forall|i: int|
            0 <= i < actions_from(Stage::Blank, b).len() && (#[trigger] actions_from(Stage::Blank, b)[i] is Bore) ==> i > 1,
{
    lemma_label_first(a);
    lemma_label_first(b);
    assert(actions_from(Stage::Blank, a).take(2) =~= actions_from(Stage::Blank, b).take(2));
}

/// Locates face `face_index` of the plain cube's faces and plans the label
/// decal for it.
pub fn label_decal(
    faces: &[Face],
    face_index: usize,
    outline: Outline,
    style: DecalStyle,
) -> (r: Result<DecalPlan, LocateError>)
    ensures
        r == match face_info(faces@, face_index as int) {
            Ok(info) => Ok(decal_plan(outline, info.centroid, info.normal, style)),
            Err(e) => Err(e),
        },
{
    match locate(faces, face_index) {
        Ok(info) => Ok(build_decal(outline, info.centroid, info.normal, style)),
        Err(e) => Err(e),
    }
}

/// The tube diameter of each block of a run: `count` blocks, starting at
/// `min_diameter` and growing by `step` from one block to the next.
pub fn tube_diameters(min_diameter: u32, step: u32, count: u32) -> (r: Vec<u64>)
    ensures
        r@.len() == count,
        forall|i: int| 0 <= i < count ==> r@[i] == min_diameter + i * step,
{
    let mut out: Vec<u64> = Vec::new();
    let mut d: u64 = min_diameter as u64;
    let mut i: u32 = 0;
    while i < count
        invariant
            i <= count,
            out@.len() == i,
            d == min_diameter + i * step,
            forall|j: int| 0 <= j < i ==> out@[j] == min_diameter + j * step,
        decreases count - i,
    {
        out.push(d);
        assert(d + step <= u32::MAX + u32::MAX * u32::MAX) by (nonlinear_arith)
            requires
                d == min_diameter + i * step,
                i < count,
                count <= u32::MAX,
                min_diameter <= u32::MAX,
                step <= u32::MAX,
        ;
        assert(min_diameter + (i + 1) * step == d + step) by (nonlinear_arith)
            requires
                d == min_diameter + i * step,
        ;
        d = d + step as u64;
        i = i + 1;
    }
    out
}

} // verus!
