//! Drawing requests turned into the canvas calls that render them.
//!
//! Each function here returns, for one drawing request, the exact list of
//! calls on the canvas context that draws it, in the order they are made.
//! A request whose colour is fully transparent draws nothing.
use vstd::prelude::*;
use crate::color::{CanvasColor, css_color, make_canvas_color};
use crate::geometry::{BackendCoord, fine_hor_ver_lines, halves, snapped_line, to_half, to_halves};
use crate::ops::{CanvasCommand, CanvasOp, OpView, ops_view};
use crate::text::{
    TextRotation, TextStyle, align_text, baseline_text, degrees, font_string, font_text,
    rotation_degrees, text_align, text_baseline,
};

verus! {

/// The colour and line width that shapes are drawn with.
pub struct ShapeStyle {
    pub color: CanvasColor,
    pub stroke_width: u32,
}

/// Setting the fill style to a colour.
pub open spec fn fill_style_ops(color: CanvasColor) -> Seq<OpView> {
    seq![CanvasCommand::SetFillStyle(css_color(color))]
}

/// Setting the stroke style and the line width of a shape style.
pub open spec fn line_style_ops(style: ShapeStyle) -> Seq<OpView> {
    seq![
        CanvasCommand::SetStrokeStyle(css_color(style.color)),
        CanvasCommand::SetLineWidth(style.stroke_width),
    ]
}

/// Moving to a pixel point.
pub open spec fn move_to(p: BackendCoord) -> OpView {
    CanvasCommand::MoveTo(to_half(halves(p)))
}

/// Drawing a line to a pixel point.
pub open spec fn line_to(p: BackendCoord) -> OpView {
    CanvasCommand::LineTo(to_half(halves(p)))
}

/// Lines to each of `points`, in order.
pub open spec fn lines_to(points: Seq<BackendCoord>) -> Seq<OpView> {
    points.map_values(|p: BackendCoord| line_to(p))
}

/// The calls that draw one pixel.
pub open spec fn pixel_plan(point: BackendCoord, color: CanvasColor) -> Seq<OpView> {
    if color.transparent {
        seq![]
    } else {
        fill_style_ops(color) + seq![CanvasCommand::FillRect(point.0, point.1, 1, 1)]
    }
}

/// The calls that draw a line segment, its ends moved as `snapped_line` says.
pub open spec fn line_plan(from: BackendCoord, to: BackendCoord, style: ShapeStyle) -> Seq<OpView> {
    if style.color.transparent {
        seq![]
    } else {
        let (a, b) = snapped_line(from, to);
        line_style_ops(style) + seq![
            CanvasCommand::BeginPath,
            CanvasCommand::MoveTo(to_half(a)),
            CanvasCommand::LineTo(to_half(b)),
            CanvasCommand::Stroke,
        ]
    }
}

/// The difference `b - a` as an `i32` takes it, wrapped around on overflow.
pub open spec fn wrapped_diff(b: i32, a: i32) -> i32 {
    if b - a > i32::MAX {
        (b - a - 0x1_0000_0000) as i32
    } else if b - a < i32::MIN {
        (b - a + 0x1_0000_0000) as i32
    } else {
        (b - a) as i32
    }
}

/// The calls that draw a rectangle, filled or outlined.
pub open spec fn rect_plan(
    upper_left: BackendCoord,
    bottom_right: BackendCoord,
    style: ShapeStyle,
    fill: bool,
) -> Seq<OpView> {
    let w = wrapped_diff(bottom_right.0, upper_left.0);
    let h = wrapped_diff(bottom_right.1, upper_left.1);
    if style.color.transparent {
        seq![]
    } else if fill {
        fill_style_ops(style.color) + seq![CanvasCommand::FillRect(upper_left.0, upper_left.1, w, h)]
    } else {
        line_style_ops(style) + seq![CanvasCommand::StrokeRect(upper_left.0, upper_left.1, w, h)]
    }
}

/// The calls that trace `points` after setting the style in `style_ops`:
/// nothing where there are no points, else the style, a move to the first
/// point and lines to the others.
pub open spec fn trace_ops(points: Seq<BackendCoord>, style_ops: Seq<OpView>) -> Seq<OpView> {
    if points.len() == 0 {
        seq![]
    } else {
        style_ops + seq![move_to(points[0])] + lines_to(points.skip(1))
    }
}

/// The calls that draw a polyline through `points`.
pub open spec fn path_plan(points: Seq<BackendCoord>, style: ShapeStyle) -> Seq<OpView> {
    if style.color.transparent {
        seq![]
    } else {
        seq![CanvasCommand::BeginPath] + trace_ops(points, line_style_ops(style)) + seq![
            CanvasCommand::Stroke,
        ]
    }
}

/// The calls that fill the polygon with corners `points`.
pub open spec fn polygon_plan(points: Seq<BackendCoord>, style: ShapeStyle) -> Seq<OpView> {
    if style.color.transparent {
        seq![]
    } else {
        seq![CanvasCommand::BeginPath] + (if points.len() == 0 {
            seq![]
        } else {
            trace_ops(points, fill_style_ops(style.color)) + seq![CanvasCommand::ClosePath]
        }) + seq![CanvasCommand::Fill]
    }
}

/// The calls that draw a circle, filled or outlined.
pub open spec fn circle_plan(
    center: BackendCoord,
    radius: u32,
    style: ShapeStyle,
    fill: bool,
) -> Seq<OpView> {
    if style.color.transparent {
        seq![]
    } else {
        (if fill {
            fill_style_ops(style.color)
        } else {
            line_style_ops(style)
        }) + seq![CanvasCommand::BeginPath, CanvasCommand::FullArc(center.0, center.1, radius)]
            + (if fill {
            seq![CanvasCommand::Fill]
        } else {
            seq![CanvasCommand::Stroke]
        })
    }
}

/// Whether a text is turned.
pub open spec fn is_rotated(r: TextRotation) -> bool {
    r != TextRotation::Rotate0
}

/// The calls that draw `text` anchored at `pos`: a turned text is drawn in a
/// saved context state that is moved to `pos` and turned, at the new origin,
/// and the state is restored after it.
pub open spec fn text_plan(text: Seq<char>, style: TextStyle, pos: BackendCoord) -> Seq<OpView> {
    let rotated = is_rotated(style.rotation);
    let (x, y) = if rotated {
        (0i32, 0i32)
    } else {
        pos
    };
    if style.color.transparent {
        seq![]
    } else {
        (if rotated {
            seq![
                CanvasCommand::Save,
                CanvasCommand::Translate(pos.0, pos.1),
                CanvasCommand::Rotate(rotation_degrees(style.rotation)),
            ]
        } else {
            seq![]
        }) + seq![
            CanvasCommand::SetTextBaseline(baseline_text(style.v_pos)),
            CanvasCommand::SetTextAlign(align_text(style.h_pos)),
            CanvasCommand::SetFillStyle(css_color(style.color)),
            CanvasCommand::SetFont(font_text(style.font)),
            CanvasCommand::FillText(text, x, y),
        ] + (if rotated {
            seq![CanvasCommand::Restore]
        } else {
            seq![]
        })
    }
}

/// Appends one call to a list of calls.
fn push_op(ops: &mut Vec<CanvasOp>, op: CanvasOp)
    ensures
        ops_view(final(ops)@) == ops_view(old(ops)@).push(op@),
{
    let ghost before = ops@;
    ops.push(op);
    assert(ops_view(ops@) =~= ops_view(before).push(op@));
}

/// Sets the fill style to a colour.
fn push_fill_style(ops: &mut Vec<CanvasOp>, color: &CanvasColor)
    ensures
        ops_view(final(ops)@) == ops_view(old(ops)@) + fill_style_ops(*color),
{
    let ghost before = ops_view(ops@);
    push_op(ops, CanvasCommand::SetFillStyle(make_canvas_color(color)));
    assert(ops_view(ops@) =~= before + fill_style_ops(*color));
}

/// Sets the stroke style and line width of a shape style.
fn push_line_style(ops: &mut Vec<CanvasOp>, style: &ShapeStyle)
    ensures
        ops_view(final(ops)@) == ops_view(old(ops)@) + line_style_ops(*style),
{
    let ghost before = ops_view(ops@);
    push_op(ops, CanvasCommand::SetStrokeStyle(make_canvas_color(&style.color)));
    push_op(ops, CanvasCommand::SetLineWidth(style.stroke_width));
    assert(ops_view(ops@) =~= before + line_style_ops(*style));
}

/// The calls that draw one pixel.
pub fn draw_pixel(point: BackendCoord, color: &CanvasColor) -> (ops: Vec<CanvasOp>)
    ensures
        ops_view(ops@) == pixel_plan(point, *color),
{
    let mut ops: Vec<CanvasOp> = Vec::new();
    if color.transparent {
        assert(ops_view(ops@) =~= seq![]);
        return ops;
    }
    push_fill_style(&mut ops, color);
    push_op(&mut ops, CanvasCommand::FillRect(point.0, point.1, 1, 1));
    assert(ops_view(ops@) =~= pixel_plan(point, *color));
    ops
}

/// The calls that draw a line segment.
pub fn draw_line(from: BackendCoord, to: BackendCoord, style: &ShapeStyle) -> (ops: Vec<CanvasOp>)
    ensures
        ops_view(ops@) == line_plan(from, to, *style),
{
    let mut ops: Vec<CanvasOp> = Vec::new();
    if style.color.transparent {
        assert(ops_view(ops@) =~= seq![]);
        return ops;
    }
    let (a, b) = fine_hor_ver_lines(from, to);
    push_line_style(&mut ops, style);
    push_op(&mut ops, CanvasCommand::BeginPath);
    push_op(&mut ops, CanvasCommand::MoveTo(a));
    push_op(&mut ops, CanvasCommand::LineTo(b));
    push_op(&mut ops, CanvasCommand::Stroke);
    assert(ops_view(ops@) =~= line_plan(from, to, *style));
    ops
}

/// The calls that draw a rectangle between two corners, filled or outlined.
/// Its width and height are the differences of the corners' coordinates as
/// `i32` arithmetic gives them, wrapped around where they overflow.
pub fn draw_rect(
    upper_left: BackendCoord,
    bottom_right: BackendCoord,
    style: &ShapeStyle,
    fill: bool,
) -> (ops: Vec<CanvasOp>)
    ensures
        ops_view(ops@) == rect_plan(upper_left, bottom_right, *style, fill),
{
    let mut ops: Vec<CanvasOp> = Vec::new();
    if style.color.transparent {
        assert(ops_view(ops@) =~= seq![]);
        return ops;
    }
    let w: i32 = bottom_right.0.wrapping_sub(upper_left.0);
    let h: i32 = bottom_right.1.wrapping_sub(upper_left.1);
    if fill {
        push_fill_style(&mut ops, &style.color);
        push_op(&mut ops, CanvasCommand::FillRect(upper_left.0, upper_left.1, w, h));
    } else {
        push_line_style(&mut ops, style);
        push_op(&mut ops, CanvasCommand::StrokeRect(upper_left.0, upper_left.1, w, h));
    }
    assert(ops_view(ops@) =~= rect_plan(upper_left, bottom_right, *style, fill));
    ops
}

/// Appends a move to the first point and lines to the others.
fn push_trace(ops: &mut Vec<CanvasOp>, points: &Vec<BackendCoord>)
    requires
        points.len() > 0,
    ensures
        ops_view(final(ops)@) == ops_view(old(ops)@) + seq![move_to(points@[0])] + lines_to(
            points@.skip(1),
        ),
{
    let ghost before = ops_view(ops@);
    push_op(ops, CanvasCommand::MoveTo(to_halves(points[0])));
    let n = points.len();
    let mut i: usize = 1;
    while i < n
        invariant
            1 <= i <= n,
            n == points.len(),
            ops_view(ops@) == before + seq![move_to(points@[0])] + lines_to(
                points@.subrange(1, i as int),
            ),
        decreases n - i,
    {
        let ghost prev = ops_view(ops@);
        push_op(ops, CanvasCommand::LineTo(to_halves(points[i])));
        assert(points@.subrange(1, i + 1) =~= points@.subrange(1, i as int).push(points@[i as int]));
        assert(lines_to(points@.subrange(1, i + 1)) =~= lines_to(points@.subrange(1, i as int)).push(
            line_to(points@[i as int]),
        ));
        i = i + 1;
    }
    assert(points@.subrange(1, n as int) =~= points@.skip(1));
}

/// The calls that draw a polyline through `points`.
pub fn draw_path(points: &Vec<BackendCoord>, style: &ShapeStyle) -> (ops: Vec<CanvasOp>)
    ensures
        ops_view(ops@) == path_plan(points@, *style),
{
    let mut ops: Vec<CanvasOp> = Vec::new();
    if style.color.transparent {
        assert(ops_view(ops@) =~= seq![]);
        return ops;
    }
    push_op(&mut ops, CanvasCommand::BeginPath);
    let ghost start = ops_view(ops@);
    if points.len() > 0 {
        push_line_style(&mut ops, style);
        push_trace(&mut ops, points);
    }
    assert(ops_view(ops@) =~= start + trace_ops(points@, line_style_ops(*style)));
    push_op(&mut ops, CanvasCommand::Stroke);
    assert(ops_view(ops@) =~= path_plan(points@, *style));
    ops
}

/// The calls that fill the polygon with corners `points`.
pub fn fill_polygon(points: &Vec<BackendCoord>, style: &ShapeStyle) -> (ops: Vec<CanvasOp>)
    ensures
        ops_view(ops@) == polygon_plan(points@, *style),
{
    let mut ops: Vec<CanvasOp> = Vec::new();
    if style.color.transparent {
        assert(ops_view(ops@) =~= seq![]);
        return ops;
    }
    push_op(&mut ops, CanvasCommand::BeginPath);
    let ghost start = ops_view(ops@);
    if points.len() > 0 {
        push_fill_style(&mut ops, &style.color);
        push_trace(&mut ops, points);
        push_op(&mut ops, CanvasCommand::ClosePath);
        assert(ops_view(ops@) =~= start + trace_ops(points@, fill_style_ops(style.color)) + seq![
            CanvasCommand::ClosePath,
        ]);
    } else {
        assert(ops_view(ops@) =~= start + seq![]);
    }
    push_op(&mut ops, CanvasCommand::Fill);
    assert(ops_view(ops@) =~= polygon_plan(points@, *style));
    ops
}

/// The calls that draw a circle, filled or outlined.
pub fn draw_circle(center: BackendCoord, radius: u32, style: &ShapeStyle, fill: bool) -> (ops: Vec<
    CanvasOp,
>)
    ensures
        ops_view(ops@) == circle_plan(center, radius, *style, fill),
{
    let mut ops: Vec<CanvasOp> = Vec::new();
    if style.color.transparent {
        assert(ops_view(ops@) =~= seq![]);
        return ops;
    }
    if fill {
        push_fill_style(&mut ops, &style.color);
    } else {
        push_line_style(&mut ops, style);
    }
    push_op(&mut ops, CanvasCommand::BeginPath);
    push_op(&mut ops, CanvasCommand::FullArc(center.0, center.1, radius));
    if fill {
        push_op(&mut ops, CanvasCommand::Fill);
    } else {
        push_op(&mut ops, CanvasCommand::Stroke);
    }
    assert(ops_view(ops@) =~= circle_plan(center, radius, *style, fill));
    ops
}

/// The calls that draw `text` with its anchor at `pos`.
pub fn draw_text(text: &str, style: &TextStyle, pos: BackendCoord) -> (ops: Vec<CanvasOp>)
    ensures
        ops_view(ops@) == text_plan(text@, *style, pos),
{
    let mut ops: Vec<CanvasOp> = Vec::new();
    if style.color.transparent {
        assert(ops_view(ops@) =~= seq![]);
        return ops;
    }
    let deg = degrees(style.rotation);
    let rotated = deg != 0;
    let mut x = pos.0;
    let mut y = pos.1;
    if rotated {
        push_op(&mut ops, CanvasCommand::Save);
        push_op(&mut ops, CanvasCommand::Translate(x, y));
        push_op(&mut ops, CanvasCommand::Rotate(deg));
        x = 0;
        y = 0;
    }
    push_op(&mut ops, CanvasCommand::SetTextBaseline(String::from_str(text_baseline(style.v_pos))));
    push_op(&mut ops, CanvasCommand::SetTextAlign(String::from_str(text_align(style.h_pos))));
    push_fill_style(&mut ops, &style.color);
    push_op(&mut ops, CanvasCommand::SetFont(font_string(&style.font)));
    push_op(&mut ops, CanvasCommand::FillText(String::from_str(text), x, y));
    if rotated {
        push_op(&mut ops, CanvasCommand::Restore);
    }
    assert(rotated == is_rotated(style.rotation));
    assert(ops_view(ops@) =~= text_plan(text@, *style, pos));
    ops
}

} // verus!
