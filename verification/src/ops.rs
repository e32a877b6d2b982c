//! The operations of a 2D canvas context that drawing is made of.
use vstd::prelude::*;
use crate::geometry::HalfCoord;

verus! {

/// One call on a `CanvasRenderingContext2d`, with its arguments. `T` is the
/// type of its text arguments: `String` for the calls that are made, and
/// `Seq<char>` for their view.
#[derive(Debug, PartialEq, Eq)]
pub enum CanvasCommand<T> {
    /// `fillStyle = T`
    SetFillStyle(T),
    /// `strokeStyle = T`
    SetStrokeStyle(T),
    /// `lineWidth = w`
    SetLineWidth(u32),
    /// `fillRect(x, y, width, height)`, in pixels
    FillRect(i32, i32, i32, i32),
    /// `strokeRect(x, y, width, height)`, in pixels
    StrokeRect(i32, i32, i32, i32),
    /// `beginPath()`
    BeginPath,
    /// `moveTo(x, y)`, in half pixels
    MoveTo(HalfCoord),
    /// `lineTo(x, y)`, in half pixels
    LineTo(HalfCoord),
    /// `closePath()`
    ClosePath,
    /// `stroke()`
    Stroke,
    /// `fill()`
    Fill,
    /// `arc(x, y, radius, 0, 2π)`: a whole circle, in pixels
    FullArc(i32, i32, u32),
    /// `save()`
    Save,
    /// `restore()`
    Restore,
    /// `translate(x, y)`, in pixels
    Translate(i32, i32),
    /// `rotate(d × π / 180)`: a clockwise turn by `d` degrees
    Rotate(u32),
    /// `textBaseline = T`
    SetTextBaseline(T),
    /// `textAlign = T`
    SetTextAlign(T),
    /// `font = T`
    SetFont(T),
    /// `fillText(T, x, y)`, in pixels
    FillText(T, i32, i32),
}

/// A canvas call as it is made.
pub type CanvasOp = CanvasCommand<String>;

/// A canvas call as the contracts speak of it.
pub type OpView = CanvasCommand<Seq<char>>;

impl View for CanvasCommand<String> {
    type V = CanvasCommand<Seq<char>>;

    open spec fn view(&self) -> CanvasCommand<Seq<char>> {
        match self {
            CanvasCommand::SetFillStyle(s) => CanvasCommand::SetFillStyle(s@),
            CanvasCommand::SetStrokeStyle(s) => CanvasCommand::SetStrokeStyle(s@),
            CanvasCommand::SetLineWidth(w) => CanvasCommand::SetLineWidth(*w),
            CanvasCommand::FillRect(x, y, w, h) => CanvasCommand::FillRect(*x, *y, *w, *h),
            CanvasCommand::StrokeRect(x, y, w, h) => CanvasCommand::StrokeRect(*x, *y, *w, *h),
            CanvasCommand::BeginPath => CanvasCommand::BeginPath,
            CanvasCommand::MoveTo(p) => CanvasCommand::MoveTo(*p),
            CanvasCommand::LineTo(p) => CanvasCommand::LineTo(*p),
            CanvasCommand::ClosePath => CanvasCommand::ClosePath,
            CanvasCommand::Stroke => CanvasCommand::Stroke,
            CanvasCommand::Fill => CanvasCommand::Fill,
            CanvasCommand::FullArc(x, y, r) => CanvasCommand::FullArc(*x, *y, *r),
            CanvasCommand::Save => CanvasCommand::Save,
            CanvasCommand::Restore => CanvasCommand::Restore,
            CanvasCommand::Translate(x, y) => CanvasCommand::Translate(*x, *y),
            CanvasCommand::Rotate(d) => CanvasCommand::Rotate(*d),
            CanvasCommand::SetTextBaseline(s) => CanvasCommand::SetTextBaseline(s@),
            CanvasCommand::SetTextAlign(s) => CanvasCommand::SetTextAlign(s@),
            CanvasCommand::SetFont(s) => CanvasCommand::SetFont(s@),
            CanvasCommand::FillText(s, x, y) => CanvasCommand::FillText(s@, *x, *y),
        }
    }
}

/// The view of a list of canvas calls.
pub open spec fn ops_view(ops: Seq<CanvasOp>) -> Seq<OpView> {
    ops.map_values(|op: CanvasOp| op@)
}

} // verus!
