//! Calibration blocks: a cube with an optional axial tube and a label set on
//! one of its faces.
//!
//! The solid-modelling kernel works in floating point and stays with the
//! command-line tool. This library holds the decisions that drive it, over
//! integer coordinates (the tool uses micrometres): which rotation turns flat
//! content onto a face, where a face is and where it points, how a label is
//! extruded, turned and placed, and in which order a block is built.
mod geometry;
mod orientation;
mod face;
mod decal;
mod assembly;
mod text;

pub use geometry::{Direction, Point, Vector};
pub use assembly::{
    advance, check, label_decal, plan, tube_diameters, Action, ConfigError, CubeSpec, Infill, Stage,
    MAX_ISO_VALUE, MAX_PERIOD, MIN_SEGMENTS,
};
pub use decal::{build_decal, DecalOp, DecalPlan, DecalStyle, Outline};
pub use face::{locate, Face, FaceInfo, LocateError};
pub use orientation::{frame, resolve, Axis, Frame, Rotation};
pub use text::{decimal_text, export_name, label_text};
