use plotters_canvas::color::{make_canvas_color, u8_decimal, CanvasColor};
use plotters_canvas::error::canvas_error_from_json;
use plotters_canvas::geometry::fine_hor_ver_lines;
use plotters_canvas::ops::CanvasCommand;
use plotters_canvas::plan::{
    draw_circle, draw_line, draw_path, draw_pixel, draw_rect, draw_text, fill_polygon, ShapeStyle,
};
use plotters_canvas::run::{first_action, next_action, RunAction};
use plotters_canvas::text::{
    degrees, font_string, text_align, text_baseline, FontSpec, HPos, TextRotation, TextStyle, VPos,
};
use plotters_canvas::CanvasError;

type Op = CanvasCommand<String>;

fn pixels(line: ((i64, i64), (i64, i64))) -> ((f64, f64), (f64, f64)) {
    let ((ax, ay), (bx, by)) = line;
    (
        (ax as f64 / 2.0, ay as f64 / 2.0),
        (bx as f64 / 2.0, by as f64 / 2.0),
    )
}

fn color(r: u8, g: u8, b: u8, alpha: &str, transparent: bool) -> CanvasColor {
    CanvasColor { rgb: (r, g, b), alpha: alpha.to_string(), transparent }
}

fn black() -> CanvasColor {
    color(0, 0, 0, "1", false)
}

fn clear() -> CanvasColor {
    color(0, 0, 0, "0", true)
}

fn shape(c: CanvasColor, w: u32) -> ShapeStyle {
    ShapeStyle { color: c, stroke_width: w }
}

fn text_style(c: CanvasColor, rotation: TextRotation) -> TextStyle {
    TextStyle {
        color: c,
        rotation,
        h_pos: HPos::Center,
        v_pos: VPos::Bottom,
        font: FontSpec {
            style: "italic".to_string(),
            size: "20".to_string(),
            family: "sans-serif".to_string(),
        },
    }
}

fn s(t: &str) -> String {
    t.to_string()
}

#[test]
fn test_fine_hor_ver_lines() {
    // not horizontal nor vertical
    assert_eq!(
        ((10.0, 10.0), (20.0, 20.0)),
        pixels(fine_hor_ver_lines((10, 10), (20, 20)))
    );

    // vertical
    assert_eq!(
        ((9.5, 10.0), (19.5, 10.0)),
        pixels(fine_hor_ver_lines((10, 10), (20, 10)))
    );

    // horizontal
    assert_eq!(
        ((10.0, 9.5), (10.0, 19.5)),
        pixels(fine_hor_ver_lines((10, 10), (10, 20)))
    );
}

#[test]
fn fine_lines_of_a_single_point_move_both_ways() {
    assert_eq!(((5.5, -0.5), (5.5, -0.5)), pixels(fine_hor_ver_lines((6, 0), (6, 0))));
}

#[test]
fn fine_lines_keep_extreme_coordinates_exact() {
    let r = fine_hor_ver_lines((i32::MIN, i32::MAX), (i32::MAX, i32::MAX));
    assert_eq!(r, ((2 * (i32::MIN as i64) - 1, 2 * (i32::MAX as i64)), (2 * (i32::MAX as i64) - 1, 2 * (i32::MAX as i64))));
}

#[test]
fn canvas_error_texts() {
    let e = CanvasError::new(s("boom"));
    assert_eq!(e.message(), "boom");
    assert_eq!(e.to_display_string(), "Canvas Error: boom");
    assert_eq!(e.to_debug_string(), "CanvasError(boom)");
}

#[test]
fn canvas_error_without_json_is_unknown() {
    assert_eq!(canvas_error_from_json(None).message(), "Unknown");
    assert_eq!(canvas_error_from_json(Some(s("{\"a\":1}"))).message(), "{\"a\":1}");
}

#[test]
fn bytes_in_decimal() {
    assert_eq!(u8_decimal(0), "0");
    assert_eq!(u8_decimal(7), "7");
    assert_eq!(u8_decimal(10), "10");
    assert_eq!(u8_decimal(99), "99");
    assert_eq!(u8_decimal(100), "100");
    assert_eq!(u8_decimal(205), "205");
    assert_eq!(u8_decimal(255), "255");
    for v in 0..=255u8 {
        assert_eq!(u8_decimal(v), format!("{}", v));
    }
}

#[test]
fn canvas_color_text() {
    assert_eq!(make_canvas_color(&color(255, 0, 12, "0.5", false)), "rgba(255,0,12,0.5)");
    assert_eq!(make_canvas_color(&black()), "rgba(0,0,0,1)");
}

#[test]
fn text_keywords() {
    assert_eq!(text_align(HPos::Left), "start");
    assert_eq!(text_align(HPos::Right), "end");
    assert_eq!(text_align(HPos::Center), "center");
    assert_eq!(text_baseline(VPos::Top), "top");
    assert_eq!(text_baseline(VPos::Center), "middle");
    assert_eq!(text_baseline(VPos::Bottom), "bottom");
    assert_eq!(degrees(TextRotation::Rotate0), 0);
    assert_eq!(degrees(TextRotation::Rotate90), 90);
    assert_eq!(degrees(TextRotation::Rotate180), 180);
    assert_eq!(degrees(TextRotation::Rotate270), 270);
}

#[test]
fn font_text() {
    let f = FontSpec { style: s("bold"), size: s("12.5"), family: s("serif") };
    assert_eq!(font_string(&f), "bold 12.5px serif");
}

#[test]
fn pixel_plan() {
    assert_eq!(draw_pixel((3, 4), &clear()), Vec::<Op>::new());
    assert_eq!(
        draw_pixel((3, 4), &color(1, 2, 3, "0.25", false)),
        vec![Op::SetFillStyle(s("rgba(1,2,3,0.25)")), Op::FillRect(3, 4, 1, 1)]
    );
}

#[test]
fn line_plan() {
    assert_eq!(draw_line((0, 0), (5, 0), &shape(clear(), 1)), Vec::<Op>::new());
    assert_eq!(
        draw_line((0, 3), (5, 3), &shape(black(), 2)),
        vec![
            Op::SetStrokeStyle(s("rgba(0,0,0,1)")),
            Op::SetLineWidth(2),
            Op::BeginPath,
            Op::MoveTo((-1, 6)),
            Op::LineTo((9, 6)),
            Op::Stroke,
        ]
    );
    assert_eq!(
        draw_line((1, 2), (3, 4), &shape(black(), 1))[3..5],
        [Op::MoveTo((2, 4)), Op::LineTo((6, 8))]
    );
}

#[test]
fn rect_plans() {
    assert_eq!(draw_rect((1, 2), (11, 7), &shape(clear(), 1), true), Vec::<Op>::new());
    assert_eq!(
        draw_rect((1, 2), (11, 7), &shape(black(), 1), true),
        vec![Op::SetFillStyle(s("rgba(0,0,0,1)")), Op::FillRect(1, 2, 10, 5)]
    );
    assert_eq!(
        draw_rect((1, 2), (-4, 0), &shape(black(), 3), false),
        vec![
            Op::SetStrokeStyle(s("rgba(0,0,0,1)")),
            Op::SetLineWidth(3),
            Op::StrokeRect(1, 2, -5, -2),
        ]
    );
}

#[test]
fn transparent_rect_with_far_corners_draws_nothing() {
    assert_eq!(draw_rect((i32::MIN, 0), (i32::MAX, 0), &shape(clear(), 1), true), Vec::<Op>::new());
}

#[test]
fn rect_sizes_wrap_around_as_i32_does() {
    assert_eq!(
        draw_rect((i32::MIN, 5), (i32::MAX, 2), &shape(black(), 1), true),
        vec![
            Op::SetFillStyle(s("rgba(0,0,0,1)")),
            Op::FillRect(i32::MIN, 5, i32::MAX.wrapping_sub(i32::MIN), -3),
        ]
    );
    assert_eq!(i32::MAX.wrapping_sub(i32::MIN), -1);
}

#[test]
fn path_plans() {
    assert_eq!(draw_path(&vec![(1, 1)], &shape(clear(), 1)), Vec::<Op>::new());
    assert_eq!(draw_path(&vec![], &shape(black(), 1)), vec![Op::BeginPath, Op::Stroke]);
    assert_eq!(
        draw_path(&vec![(1, 1), (2, 5), (-3, 0)], &shape(black(), 1)),
        vec![
            Op::BeginPath,
            Op::SetStrokeStyle(s("rgba(0,0,0,1)")),
            Op::SetLineWidth(1),
            Op::MoveTo((2, 2)),
            Op::LineTo((4, 10)),
            Op::LineTo((-6, 0)),
            Op::Stroke,
        ]
    );
}

#[test]
fn polygon_plans() {
    assert_eq!(fill_polygon(&vec![(1, 1)], &shape(clear(), 1)), Vec::<Op>::new());
    assert_eq!(fill_polygon(&vec![], &shape(black(), 1)), vec![Op::BeginPath, Op::Fill]);
    assert_eq!(
        fill_polygon(&vec![(0, 0), (4, 0), (0, 4)], &shape(black(), 1)),
        vec![
            Op::BeginPath,
            Op::SetFillStyle(s("rgba(0,0,0,1)")),
            Op::MoveTo((0, 0)),
            Op::LineTo((8, 0)),
            Op::LineTo((0, 8)),
            Op::ClosePath,
            Op::Fill,
        ]
    );
}

#[test]
fn circle_plans() {
    assert_eq!(draw_circle((5, 5), 3, &shape(clear(), 1), true), Vec::<Op>::new());
    assert_eq!(
        draw_circle((5, 6), 3, &shape(black(), 1), true),
        vec![
            Op::SetFillStyle(s("rgba(0,0,0,1)")),
            Op::BeginPath,
            Op::FullArc(5, 6, 3),
            Op::Fill,
        ]
    );
    assert_eq!(
        draw_circle((5, 6), 3, &shape(black(), 4), false),
        vec![
            Op::SetStrokeStyle(s("rgba(0,0,0,1)")),
            Op::SetLineWidth(4),
            Op::BeginPath,
            Op::FullArc(5, 6, 3),
            Op::Stroke,
        ]
    );
}

#[test]
fn text_plans() {
    assert_eq!(draw_text("dog", &text_style(clear(), TextRotation::Rotate90), (3, 4)), Vec::<Op>::new());
    assert_eq!(
        draw_text("dog", &text_style(black(), TextRotation::Rotate0), (3, 4)),
        vec![
            Op::SetTextBaseline(s("bottom")),
            Op::SetTextAlign(s("center")),
            Op::SetFillStyle(s("rgba(0,0,0,1)")),
            Op::SetFont(s("italic 20px sans-serif")),
            Op::FillText(s("dog"), 3, 4),
        ]
    );
    assert_eq!(
        draw_text("goog", &text_style(black(), TextRotation::Rotate270), (30, -4)),
        vec![
            Op::Save,
            Op::Translate(30, -4),
            Op::Rotate(270),
            Op::SetTextBaseline(s("bottom")),
            Op::SetTextAlign(s("center")),
            Op::SetFillStyle(s("rgba(0,0,0,1)")),
            Op::SetFont(s("italic 20px sans-serif")),
            Op::FillText(s("goog"), 0, 0),
            Op::Restore,
        ]
    );
}

#[test]
fn transparent_requests_draw_nothing() {
    let st = shape(clear(), 5);
    assert!(draw_pixel((0, 0), &clear()).is_empty());
    assert!(draw_line((0, 0), (1, 1), &st).is_empty());
    assert!(draw_rect((0, 0), (1, 1), &st, false).is_empty());
    assert!(draw_path(&vec![(0, 0), (1, 1)], &st).is_empty());
    assert!(fill_polygon(&vec![(0, 0), (1, 1)], &st).is_empty());
    assert!(draw_circle((0, 0), 1, &st, false).is_empty());
    assert!(draw_text("x", &text_style(clear(), TextRotation::Rotate180), (0, 0)).is_empty());
}

#[test]
fn turned_text_restores_state() {
    for rot in [TextRotation::Rotate90, TextRotation::Rotate180, TextRotation::Rotate270] {
        let ops = draw_text("x", &text_style(black(), rot), (7, 8));
        assert_eq!(ops.first(), Some(&Op::Save));
        assert_eq!(ops.last(), Some(&Op::Restore));
        assert_eq!(ops.iter().filter(|o| **o == Op::Save || **o == Op::Restore).count(), 2);
    }
    let ops = draw_text("x", &text_style(black(), TextRotation::Rotate0), (7, 8));
    assert!(!ops.iter().any(|o| *o == Op::Save || *o == Op::Restore));
}

#[test]
fn filled_shapes_are_not_stroked() {
    let st = shape(black(), 2);
    for ops in [draw_rect((0, 0), (3, 3), &st, true), draw_circle((0, 0), 3, &st, true)] {
        assert!(!ops.iter().any(|o| matches!(o, Op::Stroke | Op::StrokeRect(..) | Op::SetStrokeStyle(_) | Op::SetLineWidth(_))));
    }
    for ops in [draw_rect((0, 0), (3, 3), &st, false), draw_circle((0, 0), 3, &st, false)] {
        assert!(!ops.iter().any(|o| matches!(o, Op::Fill | Op::FillRect(..) | Op::SetFillStyle(_))));
    }
}

#[test]
fn paths_follow_their_points() {
    let pts = vec![(3, 1), (-2, 7), (0, 0), (9, 9)];
    for ops in [draw_path(&pts, &shape(black(), 1)), fill_polygon(&pts, &shape(black(), 1))] {
        let visited: Vec<(i64, i64)> = ops
            .iter()
            .filter_map(|o| match o {
                Op::MoveTo(p) | Op::LineTo(p) => Some(*p),
                _ => None,
            })
            .collect();
        let expected: Vec<(i64, i64)> = pts.iter().map(|&(x, y)| (2 * x as i64, 2 * y as i64)).collect();
        assert_eq!(visited, expected);
    }
}

#[test]
fn snapped_lines_keep_direction_and_length() {
    for (from, to) in [((0, 0), (0, 9)), ((4, -2), (-7, -2)), ((1, 1), (1, 1)), ((3, 5), (8, 13))] {
        let ((ax, ay), (bx, by)) = fine_hor_ver_lines(from, to);
        assert_eq!(bx - ax, 2 * (to.0 - from.0) as i64);
        assert_eq!(by - ay, 2 * (to.1 - from.1) as i64);
        assert!(2 * from.0 as i64 - ax <= 1 && 2 * from.0 as i64 - ax >= 0);
        assert!(2 * from.1 as i64 - ay <= 1 && 2 * from.1 as i64 - ay >= 0);
    }
}

fn run_logged(ops: &Vec<Op>, fails: fn(&Op) -> bool) -> (Result<(), (usize, String)>, Vec<usize>) {
    let mut made = Vec::new();
    let mut action = first_action::<String>(ops);
    loop {
        match action {
            RunAction::Make(i) => {
                made.push(i);
                let outcome = if fails(&ops[i]) { Err(s("boom")) } else { Ok(()) };
                action = next_action(ops, i, outcome);
            }
            RunAction::Finish => return (Ok(()), made),
            RunAction::Abort(k, e) => return (Err((k, e)), made),
        }
    }
}

#[test]
fn a_plan_whose_calls_succeed_is_made_whole() {
    let ops = draw_text("dog", &text_style(black(), TextRotation::Rotate90), (3, 4));
    let (r, made) = run_logged(&ops, |_| false);
    assert_eq!(r, Ok(()));
    assert_eq!(made, (0..ops.len()).collect::<Vec<usize>>());
}

#[test]
fn an_empty_plan_finishes_at_once() {
    let (r, made) = run_logged(&Vec::new(), |_| true);
    assert_eq!(r, Ok(()));
    assert!(made.is_empty());
}

#[test]
fn a_failed_translate_stops_the_text() {
    let ops = draw_text("dog", &text_style(black(), TextRotation::Rotate90), (3, 4));
    let (r, made) = run_logged(&ops, |op| matches!(op, Op::Translate(..)));
    assert_eq!(r, Err((1, s("boom"))));
    assert_eq!(made, vec![0, 1]);
    assert_eq!(ops[0..2], [Op::Save, Op::Translate(3, 4)]);
}

#[test]
fn a_failed_text_fill_is_not_restored() {
    let ops = draw_text("dog", &text_style(black(), TextRotation::Rotate180), (3, 4));
    let (r, made) = run_logged(&ops, |op| matches!(op, Op::FillText(..)));
    assert_eq!(r, Err((7, s("boom"))));
    assert_eq!(made, (0..8).collect::<Vec<usize>>());
    assert!(!made.iter().any(|&i| ops[i] == Op::Restore));
}

#[test]
fn a_failed_arc_is_neither_filled_nor_stroked() {
    for fill in [true, false] {
        let ops = draw_circle((5, 6), 3, &shape(black(), 1), fill);
        let (r, made) = run_logged(&ops, |op| matches!(op, Op::FullArc(..)));
        assert_eq!(r, Err((ops.len() - 2, s("boom"))));
        assert_eq!(made, (0..ops.len() - 1).collect::<Vec<usize>>());
        assert_eq!(ops[*made.last().unwrap()], Op::FullArc(5, 6, 3));
        assert!(!made.iter().any(|&i| ops[i] == Op::Fill || ops[i] == Op::Stroke));
    }
}
