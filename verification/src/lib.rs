//! Drawing for Plotters on an HTML5 canvas, as a verified plan of canvas
//! operations: every drawing request is turned into the exact sequence of
//! `CanvasRenderingContext2d` calls that renders it.
pub mod call_laws;
pub mod color;
pub mod error;
pub mod geometry;
pub mod laws;
pub mod ops;
pub mod plan;
pub mod run;
pub mod text;

pub use error::CanvasError;
