//! What holds of every drawing plan.
use vstd::prelude::*;
use crate::geometry::{BackendCoord, HalfCoord, halves, snapped_line, to_half};
use crate::ops::{CanvasCommand, OpView};
use crate::run::{fallible, lemma_run_stops_at_first_failure, run_of};
use crate::plan::{
    ShapeStyle, fill_style_ops, line_style_ops, lines_to, move_to, trace_ops, circle_plan, is_rotated, line_plan, path_plan, pixel_plan, polygon_plan, rect_plan,
    text_plan,
};
use crate::text::TextStyle;

verus! {

/// Whether a call touches the stack of saved context states.
pub open spec fn is_state_op(op: OpView) -> bool {
    op is Save || op is Restore
}

/// Whether a call strokes, or sets what stroking uses.
pub open spec fn is_stroke_op(op: OpView) -> bool {
    op is Stroke || op is StrokeRect || op is SetStrokeStyle || op is SetLineWidth
}

/// Whether a call fills, or sets what filling uses.
pub open spec fn is_fill_op(op: OpView) -> bool {
    op is Fill || op is FillRect || op is SetFillStyle
}

/// The points that the moves and lines of a list of calls go to, in order.
pub open spec fn path_points(ops: Seq<OpView>) -> Seq<HalfCoord>
    decreases ops.len(),
{
    if ops.len() == 0 {
        seq![]
    } else {
        path_points(ops.drop_last()) + match ops.last() {
            CanvasCommand::MoveTo(p) => seq![p],
            CanvasCommand::LineTo(p) => seq![p],
            _ => seq![],
        }
    }
}

/// A list of pixel points in half-pixel units.
pub open spec fn points_in_halves(points: Seq<BackendCoord>) -> Seq<HalfCoord> {
    points.map_values(|p: BackendCoord| to_half(halves(p)))
}

/// A drawing request draws nothing exactly when its colour is fully
/// transparent.
pub proof fn lemma_transparent_draws_nothing(
    style: ShapeStyle,
    a: BackendCoord,
    b: BackendCoord,
    points: Seq<BackendCoord>,
    radius: u32,
    fill: bool,
    text: Seq<char>,
    text_style: TextStyle,
)
    ensures
        (pixel_plan(a, style.color).len() == 0) == style.color.transparent,
        (line_plan(a, b, style).len() == 0) == style.color.transparent,
        (rect_plan(a, b, style, fill).len() == 0) == style.color.transparent,
        (path_plan(points, style).len() == 0) == style.color.transparent,
        (polygon_plan(points, style).len() == 0) == style.color.transparent,
        (circle_plan(a, radius, style, fill).len() == 0) == style.color.transparent,
        (text_plan(text, text_style, a).len() == 0) == text_style.color.transparent,
{
}

/// Drawing a line moves its two ends by the same amount, so that the line
/// keeps its direction and length; each coordinate moves back by at most half
/// a pixel; a line with a coordinate shared by both ends moves back half a
/// pixel in the other coordinate; a line that shares no coordinate between
/// its ends keeps them.
pub proof fn lemma_snap_moves_half_pixel(from: BackendCoord, end: BackendCoord)
    ensures
        ({
            let (a, b) = snapped_line(from, end);
            &&& b.0 - a.0 == 2 * (end.0 - from.0)
            &&& b.1 - a.1 == 2 * (end.1 - from.1)
            &&& 0 <= 2 * from.0 - a.0 <= 1
            &&& 0 <= 2 * from.1 - a.1 <= 1
            &&& from.1 == end.1 ==> a.0 == 2 * from.0 - 1
            &&& from.0 == end.0 ==> a.1 == 2 * from.1 - 1
            &&& from.0 != end.0 && from.1 != end.1 ==> a == halves(from) && b == halves(end)
        }),
{
}

/// A text drawn turned is drawn between a `save` at the start and a
/// `restore` at the end, with no other change to the saved states between
/// them; a text drawn upright leaves the saved states alone.
pub proof fn lemma_text_restores_state(text: Seq<char>, style: TextStyle, pos: BackendCoord)
    ensures
        ({
            let p = text_plan(text, style, pos);
            &&& is_rotated(style.rotation) && !style.color.transparent ==> {
                &&& p[0] is Save
                &&& p.last() is Restore
                &&& forall|i: int| 0 < i < p.len() - 1 ==> !is_state_op(#[trigger] p[i])
            }
            &&& !is_rotated(style.rotation) ==> forall|i: int|
                0 <= i < p.len() ==> !is_state_op(#[trigger] p[i])
        }),
{
    let p = text_plan(text, style, pos);
    if !style.color.transparent {
        if is_rotated(style.rotation) {
            assert(p.len() == 9);
        } else {
            assert(p.len() == 5);
        }
    }
}

/// A filled rectangle or circle is never stroked, and an outlined one is
/// never filled.
pub proof fn lemma_fill_or_stroke(
    upper_left: BackendCoord,
    bottom_right: BackendCoord,
    radius: u32,
    style: ShapeStyle,
    fill: bool,
)
    ensures
        fill ==> forall|i: int|
            0 <= i < rect_plan(upper_left, bottom_right, style, fill).len() ==> !is_stroke_op(
                #[trigger] rect_plan(upper_left, bottom_right, style, fill)[i],
            ),
        !fill ==> forall|i: int|
            0 <= i < rect_plan(upper_left, bottom_right, style, fill).len() ==> !is_fill_op(
                #[trigger] rect_plan(upper_left, bottom_right, style, fill)[i],
            ),
        fill ==> forall|i: int|
            0 <= i < circle_plan(upper_left, radius, style, fill).len() ==> !is_stroke_op(
                #[trigger] circle_plan(upper_left, radius, style, fill)[i],
            ),
        !fill ==> forall|i: int|
            0 <= i < circle_plan(upper_left, radius, style, fill).len() ==> !is_fill_op(
                #[trigger] circle_plan(upper_left, radius, style, fill)[i],
            ),
{
}

/// The points of two lists of calls, one after the other, are those of the
/// first and then those of the second.
proof fn lemma_path_points_add(a: Seq<OpView>, b: Seq<OpView>)
    ensures
        path_points(a + b) == path_points(a) + path_points(b),
    decreases b.len(),
{
    if b.len() == 0 {
        assert(a + b =~= a);
        assert(path_points(b) =~= seq![]);
        assert(path_points(a) + path_points(b) =~= path_points(a));
    } else {
        assert((a + b).drop_last() =~= a + b.drop_last());
        assert((a + b).last() == b.last());
        lemma_path_points_add(a, b.drop_last());
        assert(path_points(a + b) =~= path_points(a) + path_points(b));
    }
}

/// The points of lines to `points` are `points`.
proof fn lemma_lines_to_points(points: Seq<BackendCoord>)
    ensures
        path_points(lines_to(points)) == points_in_halves(points),
    decreases points.len(),
{
    if points.len() == 0 {
        assert(lines_to(points) =~= seq![]);
        assert(points_in_halves(points) =~= seq![]);
    } else {
        let init = points.drop_last();
        lemma_lines_to_points(init);
        assert(lines_to(points).drop_last() =~= lines_to(init));
        assert(points_in_halves(points) =~= points_in_halves(init) + seq![
            to_half(halves(points.last())),
        ]);
    }
}

/// The points that tracing `points` goes to are `points`, whatever style is
/// set before, as long as setting it moves nowhere.
proof fn lemma_trace_points(points: Seq<BackendCoord>, style_ops: Seq<OpView>)
    requires
        path_points(style_ops) == Seq::<HalfCoord>::empty(),
    ensures
        path_points(trace_ops(points, style_ops)) == points_in_halves(points),
{
    if points.len() == 0 {
        assert(trace_ops(points, style_ops) =~= seq![]);
        assert(points_in_halves(points) =~= seq![]);
    } else {
        let head = style_ops + seq![move_to(points[0])];
        lemma_path_points_add(style_ops, seq![move_to(points[0])]);
        let m = seq![move_to(points[0])];
        assert(m.drop_last() =~= Seq::<OpView>::empty());
        assert(path_points(m.drop_last()) =~= Seq::<HalfCoord>::empty());
        assert(m.last() == CanvasCommand::<Seq<char>>::MoveTo(to_half(halves(points[0]))));
        assert(path_points(seq![move_to(points[0])]) =~= seq![to_half(halves(points[0]))]);
        lemma_path_points_add(head, lines_to(points.skip(1)));
        lemma_lines_to_points(points.skip(1));
        assert(points_in_halves(points) =~= seq![to_half(halves(points[0]))] + points_in_halves(
            points.skip(1),
        ));
    }
}

/// The points of a list of calls that neither moves nor draws lines.
proof fn lemma_no_points(ops: Seq<OpView>)
    requires
        forall|i: int| 0 <= i < ops.len() ==> !(#[trigger] ops[i] is MoveTo) && !(ops[i] is LineTo),
    ensures
        path_points(ops) == Seq::<HalfCoord>::empty(),
    decreases ops.len(),
{
    if ops.len() > 0 {
        assert(ops.last() == ops[ops.len() - 1]);
        lemma_no_points(ops.drop_last());
        assert(path_points(ops) =~= Seq::<HalfCoord>::empty());
    }
}

/// A polyline goes through its points, and a polygon's outline through its
/// corners, each once and in the order given.
pub proof fn lemma_path_follows_points(points: Seq<BackendCoord>, style: ShapeStyle)
    requires
        !style.color.transparent,
    ensures
        path_points(path_plan(points, style)) == points_in_halves(points),
        path_points(polygon_plan(points, style)) == points_in_halves(points),
{
    let begin = seq![CanvasCommand::BeginPath];
    let stroke = seq![CanvasCommand::Stroke];
    let fill = seq![CanvasCommand::Fill];
    let close = seq![CanvasCommand::ClosePath];
    lemma_no_points(begin);
    lemma_no_points(stroke);
    lemma_no_points(fill);
    lemma_no_points(close);
    lemma_no_points(line_style_ops(style));
    lemma_no_points(fill_style_ops(style.color));
    lemma_trace_points(points, line_style_ops(style));
    lemma_trace_points(points, fill_style_ops(style.color));
    let traced = trace_ops(points, line_style_ops(style));
    lemma_path_points_add(begin, traced);
    lemma_path_points_add(begin + traced, stroke);
    assert(path_points(path_plan(points, style)) =~= points_in_halves(points));
    if points.len() == 0 {
        assert(points_in_halves(points) =~= seq![]);
        assert(polygon_plan(points, style) =~= begin + fill);
        lemma_path_points_add(begin, fill);
    } else {
        let filled = trace_ops(points, fill_style_ops(style.color)) + close;
        lemma_path_points_add(trace_ops(points, fill_style_ops(style.color)), close);
        lemma_path_points_add(begin, filled);
        lemma_path_points_add(begin + filled, fill);
        assert(polygon_plan(points, style) =~= begin + filled + fill);
    }
    assert(path_points(polygon_plan(points, style)) =~= points_in_halves(points));
}

/// Whether no call in a list of calls can throw.
pub open spec fn cannot_fail(ops: Seq<OpView>) -> bool {
    forall|i: int| 0 <= i < ops.len() ==> !fallible(#[trigger] ops[i])
}

/// Tracing points makes no call that can throw, whatever style is set
/// before, as long as setting it makes none.
proof fn lemma_trace_cannot_fail(points: Seq<BackendCoord>, style_ops: Seq<OpView>)
    requires
        cannot_fail(style_ops),
    ensures
        cannot_fail(trace_ops(points, style_ops)),
{
    if points.len() > 0 {
        let head = style_ops + seq![move_to(points[0])];
        let tail = lines_to(points.skip(1));
        assert(cannot_fail(head));
        assert(cannot_fail(tail));
        assert forall|i: int| 0 <= i < (head + tail).len() implies !fallible(
            #[trigger] (head + tail)[i],
        ) by {
            if i < head.len() {
                assert((head + tail)[i] == head[i]);
            } else {
                assert((head + tail)[i] == tail[i - head.len()]);
            }
        }
    }
}

/// Only drawing a circle or a text can fail. Pixels, lines, rectangles,
/// polylines and polygons make no call that can throw. A circle's only such
/// call is its arc, and the fill or stroke comes after it. An upright text's
/// only such call is `fillText`, its last; a turned text's are `translate`,
/// `rotate` and `fillText`, and the `restore` that ends it comes after all of
/// them.
pub proof fn lemma_which_calls_can_fail(
    style: ShapeStyle,
    a: BackendCoord,
    b: BackendCoord,
    points: Seq<BackendCoord>,
    radius: u32,
    fill: bool,
    text: Seq<char>,
    text_style: TextStyle,
)
    ensures
        cannot_fail(pixel_plan(a, style.color)),
        cannot_fail(line_plan(a, b, style)),
        cannot_fail(rect_plan(a, b, style, fill)),
        cannot_fail(path_plan(points, style)),
        cannot_fail(polygon_plan(points, style)),
        ({
            let c = circle_plan(a, radius, style, fill);
            !style.color.transparent ==> {
                &&& fallible(c[c.len() - 2])
                &&& forall|i: int| 0 <= i < c.len() && i != c.len() - 2 ==> !fallible(#[trigger] c[i])
                &&& c.last() is Fill || c.last() is Stroke
            }
        }),
        ({
            let t = text_plan(text, text_style, a);
            &&& text_style.color.transparent ==> t.len() == 0
            &&& !text_style.color.transparent && is_rotated(text_style.rotation) ==> {
                &&& t.len() == 9
                &&& forall|i: int| 0 <= i < 9 ==> (fallible(#[trigger] t[i]) <==> (i == 1 || i == 2 || i == 7))
                &&& t[8] is Restore
            }
            &&& !text_style.color.transparent && !is_rotated(text_style.rotation) ==> {
                &&& t.len() == 5
                &&& forall|i: int| 0 <= i < 5 ==> (fallible(#[trigger] t[i]) <==> i == 4)
            }
        }),
{
    lemma_trace_cannot_fail(points, line_style_ops(style));
    lemma_trace_cannot_fail(points, fill_style_ops(style.color));
    if !style.color.transparent {
        let begin = seq![CanvasCommand::<Seq<char>>::BeginPath];
        let traced = trace_ops(points, line_style_ops(style));
        let p = path_plan(points, style);
        assert(p =~= begin + traced + seq![CanvasCommand::Stroke]);
        assert forall|i: int| 0 <= i < p.len() implies !fallible(#[trigger] p[i]) by {
            if 1 <= i < 1 + traced.len() {
                assert(p[i] == traced[i - 1]);
            }
        }
        let q = polygon_plan(points, style);
        if points.len() > 0 {
            let filled = trace_ops(points, fill_style_ops(style.color));
            assert(q =~= begin + filled + seq![CanvasCommand::ClosePath] + seq![CanvasCommand::Fill]);
            assert forall|i: int| 0 <= i < q.len() implies !fallible(#[trigger] q[i]) by {
                if 1 <= i < 1 + filled.len() {
                    assert(q[i] == filled[i - 1]);
                }
            }
        } else {
            assert(q =~= begin + seq![CanvasCommand::Fill]);
        }
    }
}

/// The first index at which a list of outcomes holds an error, where there is one.
proof fn lemma_first_failure<E>(outcomes: Seq<Result<(), E>>, n: int) -> (k: int)
    requires
        0 <= n <= outcomes.len(),
        exists|i: int| 0 <= i < n && (#[trigger] outcomes[i]) is Err,
    ensures
        0 <= k < n,
        outcomes[k] is Err,
        forall|j: int| 0 <= j < k ==> (#[trigger] outcomes[j]) is Ok,
    decreases n,
{
    if exists|i: int| 0 <= i < n - 1 && (#[trigger] outcomes[i]) is Err {
        lemma_first_failure(outcomes, n - 1)
    } else {
        n - 1
    }
}

/// A turned text whose drawing fails stops at the call that failed: its
/// `restore` is never made. A circle whose drawing fails has failed at its
/// arc, and is then neither filled nor stroked. Where nothing fails, every
/// call of either is made.
pub proof fn lemma_failed_drawing_stops<E>(
    text: Seq<char>,
    text_style: TextStyle,
    pos: BackendCoord,
    text_outcomes: Seq<Result<(), E>>,
    radius: u32,
    style: ShapeStyle,
    fill: bool,
    circle_outcomes: Seq<Result<(), E>>,
)
    requires
        text_outcomes.len() == text_plan(text, text_style, pos).len(),
        forall|i: int|
            0 <= i < text_outcomes.len() && (#[trigger] text_outcomes[i]) is Err ==> fallible(
                text_plan(text, text_style, pos)[i],
            ),
        circle_outcomes.len() == circle_plan(pos, radius, style, fill).len(),
        forall|i: int|
            0 <= i < circle_outcomes.len() && (#[trigger] circle_outcomes[i]) is Err ==> fallible(
                circle_plan(pos, radius, style, fill)[i],
            ),
    ensures
        ({
            let t = text_plan(text, text_style, pos);
            let (made, end) = run_of(t, text_outcomes);
            &&& end is Finish ==> made == t
            &&& end is Abort && is_rotated(text_style.rotation) ==> forall|i: int|
                0 <= i < made.len() ==> !(#[trigger] made[i] is Restore)
        }),
        ({
            let c = circle_plan(pos, radius, style, fill);
            let (made, end) = run_of(c, circle_outcomes);
            &&& end is Finish ==> made == c
            &&& end is Abort ==> made.last() is FullArc && forall|i: int|
                0 <= i < made.len() ==> !(#[trigger] made[i] is Fill) && !(made[i] is Stroke)
        }),
{
    let t = text_plan(text, text_style, pos);
    let c = circle_plan(pos, radius, style, fill);
    lemma_which_calls_can_fail(style, pos, pos, Seq::empty(), radius, fill, text, text_style);
    lemma_run_stops_at_first_failure(t, text_outcomes);
    lemma_run_stops_at_first_failure(c, circle_outcomes);
    if exists|i: int| 0 <= i < t.len() && (#[trigger] text_outcomes[i]) is Err {
        let k = lemma_first_failure(text_outcomes, t.len() as int);
        assert(run_of(t, text_outcomes).0 == t.take(k + 1));
        if is_rotated(text_style.rotation) {
            assert(k == 1 || k == 2 || k == 7);
        }
    } else {
        assert(forall|i: int| 0 <= i < t.len() ==> (#[trigger] text_outcomes[i]) is Ok);
    }
    if exists|i: int| 0 <= i < c.len() && (#[trigger] circle_outcomes[i]) is Err {
        let k = lemma_first_failure(circle_outcomes, c.len() as int);
        assert(run_of(c, circle_outcomes).0 == c.take(k + 1));
        assert(k == c.len() - 2);
        assert(c =~= (if fill {
            seq![
                CanvasCommand::SetFillStyle(crate::color::css_color(style.color)),
                CanvasCommand::BeginPath,
                CanvasCommand::FullArc(pos.0, pos.1, radius),
                CanvasCommand::Fill,
            ]
        } else {
            seq![
                CanvasCommand::SetStrokeStyle(crate::color::css_color(style.color)),
                CanvasCommand::SetLineWidth(style.stroke_width),
                CanvasCommand::BeginPath,
                CanvasCommand::FullArc(pos.0, pos.1, radius),
                CanvasCommand::Stroke,
            ]
        }));
    } else {
        assert(forall|i: int| 0 <= i < c.len() ==> (#[trigger] circle_outcomes[i]) is Ok);
    }
}

} // verus!
