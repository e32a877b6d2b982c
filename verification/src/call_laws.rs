//! What the calls of each drawing request say, in terms of the request:
//! where a shape is drawn, in which colour, with which keywords.
use vstd::prelude::*;
use crate::color::{CanvasColor, css_color, decimal};
use crate::geometry::BackendCoord;
use crate::ops::CanvasCommand;
use crate::error::json_error_text;
use crate::plan::{
    ShapeStyle, circle_plan, is_rotated, line_plan, path_plan, pixel_plan, polygon_plan, rect_plan,
    text_plan,
};
use crate::text::{HPos, TextRotation, TextStyle, VPos};

verus! {

/// Whether a character is a decimal digit.
pub open spec fn is_digit(c: char) -> bool {
    '0' <= c <= '9'
}

/// Whether a text is a decimal numeral without leading zeros: digits only, at
/// least one, and no `0` first unless it is the numeral `0` itself.
pub open spec fn is_numeral(s: Seq<char>) -> bool {
    &&& s.len() > 0
    &&& forall|i: int| 0 <= i < s.len() ==> is_digit(#[trigger] s[i])
    &&& (s.len() == 1 || s[0] != '0')
}

/// The number that a text of decimal digits denotes, read left to right.
pub open spec fn numeral_value(s: Seq<char>) -> int
    decreases s.len(),
{
    if s.len() == 0 {
        0
    } else {
        numeral_value(s.drop_last()) * 10 + (s.last() as int - '0' as int)
    }
}

/// The numeral that `decimal` writes for a number denotes that number, and is
/// a numeral without leading zeros.
pub proof fn lemma_decimal_is_numeral(n: nat)
    ensures
        is_numeral(decimal(n)),
        numeral_value(decimal(n)) == n,
    decreases n,
{
    let d = decimal(n);
    if n < 10 {
        assert(d.drop_last() =~= Seq::<char>::empty());
        assert(d.last() as int == '0' as int + n);
        assert(numeral_value(Seq::<char>::empty()) == 0);
        assert(numeral_value(d) == numeral_value(d.drop_last()) * 10 + (d.last() as int
            - '0' as int));
        assert(d.len() == 1 && d[0] == d.last());
        assert(is_digit(d[0]));
    } else {
        let q = n / 10;
        let r = n % 10;
        lemma_decimal_is_numeral(q);
        let dq = decimal(q);
        assert(d == dq.push(crate::color::digit_char(r as int)));
        assert(d.drop_last() =~= dq);
        assert(d.last() as int == '0' as int + r);
        assert(n == q * 10 + r);
        assert forall|i: int| 0 <= i < d.len() implies is_digit(#[trigger] d[i]) by {
            if i < dq.len() {
                assert(d[i] == dq[i]);
            }
        }
        assert(d[0] == dq[0]);
        if q < 10 {
            assert(dq == seq![crate::color::digit_char(q as int)]);
            assert(dq[0] as int == '0' as int + q);
            assert(dq[0] as int != '0' as int);
        } else {
            lemma_decimal_is_numeral(q / 10);
            assert(dq == decimal(q / 10).push(crate::color::digit_char((q % 10) as int)));
            assert(dq.len() >= 2);
        }
        assert(numeral_value(d) == numeral_value(d.drop_last()) * 10 + (d.last() as int
            - '0' as int));
        assert(d.len() >= 2);
        assert(d[0] != '0');
        assert(numeral_value(d) == n);
    }
}

/// The CSS text of a colour is `rgba(`, the decimal numerals of its red, green
/// and blue channels, its opacity text, and `)`, separated by commas; each of
/// the three numerals denotes its channel's value exactly.
pub proof fn lemma_css_color_channels(c: CanvasColor)
    ensures
        css_color(c) == "rgba("@ + decimal(c.rgb.0 as nat) + ","@ + decimal(c.rgb.1 as nat) + ","@
            + decimal(c.rgb.2 as nat) + ","@ + c.alpha@ + ")"@,
        is_numeral(decimal(c.rgb.0 as nat)) && numeral_value(decimal(c.rgb.0 as nat)) == c.rgb.0,
        is_numeral(decimal(c.rgb.1 as nat)) && numeral_value(decimal(c.rgb.1 as nat)) == c.rgb.1,
        is_numeral(decimal(c.rgb.2 as nat)) && numeral_value(decimal(c.rgb.2 as nat)) == c.rgb.2,
{
    lemma_decimal_is_numeral(c.rgb.0 as nat);
    lemma_decimal_is_numeral(c.rgb.1 as nat);
    lemma_decimal_is_numeral(c.rgb.2 as nat);
}

/// A pixel is filled in the request's colour as a 1×1 square at exactly the
/// given point.
pub proof fn lemma_pixel_where_asked(point: BackendCoord, color: CanvasColor)
    requires
        !color.transparent,
    ensures
        pixel_plan(point, color) == seq![
            CanvasCommand::SetFillStyle(css_color(color)),
            CanvasCommand::FillRect(point.0, point.1, 1, 1),
        ],
{
    assert(pixel_plan(point, color) =~= seq![
        CanvasCommand::SetFillStyle(css_color(color)),
        CanvasCommand::FillRect(point.0, point.1, 1, 1),
    ]);
}

/// A line is stroked in the request's colour, opacity included, and its line
/// width. Its path runs from `from` to `to` in half-pixel units, both ends
/// moved back by the same amount: half a pixel in the first coordinate where
/// the ends share their second, half a pixel in the second where they share
/// their first, and not at all otherwise.
pub proof fn lemma_line_in_its_style(from: BackendCoord, to: BackendCoord, style: ShapeStyle)
    requires
        !style.color.transparent,
    ensures
        ({
            let p = line_plan(from, to, style);
            &&& p.len() == 6
            &&& p[0] == CanvasCommand::<Seq<char>>::SetStrokeStyle(css_color(style.color))
            &&& p[1] == CanvasCommand::<Seq<char>>::SetLineWidth(style.stroke_width)
            &&& p[2] is BeginPath
            &&& p[5] is Stroke
            &&& p[3] matches CanvasCommand::MoveTo(a) && p[4] matches CanvasCommand::LineTo(b) && {
                &&& a.0 == 2 * from.0 - (if from.1 == to.1 { 1int } else { 0 })
                &&& a.1 == 2 * from.1 - (if from.0 == to.0 { 1int } else { 0 })
                &&& b.0 - a.0 == 2 * (to.0 - from.0)
                &&& b.1 - a.1 == 2 * (to.1 - from.1)
            }
        }),
{
}

/// Whether a side of length `len` starting at `from` ends at `to`: exactly,
/// where `to - from` fits in an `i32`, and up to a wrap of 2³² in any case.
pub open spec fn spans(from: i32, len: i32, to: i32) -> bool {
    &&& (from + len - to) % 0x1_0000_0000 == 0
    &&& i32::MIN <= to - from <= i32::MAX ==> len == to - from
}

/// A rectangle is drawn from its upper-left corner, with the width and height
/// that take it to the other corner (exactly, where they fit in an `i32`, and
/// wrapped around by 2³² where they do not): filled in the request's colour,
/// or outlined in that colour, opacity included, and its line width.
pub proof fn lemma_rect_where_asked(
    upper_left: BackendCoord,
    bottom_right: BackendCoord,
    style: ShapeStyle,
    fill: bool,
)
    requires
        !style.color.transparent,
    ensures
        ({
            let p = rect_plan(upper_left, bottom_right, style, fill);
            fill ==> {
                &&& p.len() == 2
                &&& p[0] == CanvasCommand::<Seq<char>>::SetFillStyle(css_color(style.color))
                &&& p[1] matches CanvasCommand::FillRect(x, y, w, h)
                &&& x == upper_left.0 && y == upper_left.1
                &&& spans(upper_left.0, w, bottom_right.0)
                &&& spans(upper_left.1, h, bottom_right.1)
            }
        }),
        ({
            let p = rect_plan(upper_left, bottom_right, style, fill);
            !fill ==> {
                &&& p.len() == 3
                &&& p[0] == CanvasCommand::<Seq<char>>::SetStrokeStyle(css_color(style.color))
                &&& p[1] == CanvasCommand::<Seq<char>>::SetLineWidth(style.stroke_width)
                &&& p[2] matches CanvasCommand::StrokeRect(x, y, w, h)
                &&& x == upper_left.0 && y == upper_left.1
                &&& spans(upper_left.0, w, bottom_right.0)
                &&& spans(upper_left.1, h, bottom_right.1)
            }
        }),
{
}

/// A circle is drawn round its centre with its radius, as a whole arc, filled
/// in the request's colour or outlined in that colour and its line width.
pub proof fn lemma_circle_where_asked(
    center: BackendCoord,
    radius: u32,
    style: ShapeStyle,
    fill: bool,
)
    requires
        !style.color.transparent,
    ensures
        ({
            let p = circle_plan(center, radius, style, fill);
            &&& fill ==> p == seq![
                CanvasCommand::SetFillStyle(css_color(style.color)),
                CanvasCommand::BeginPath,
                CanvasCommand::FullArc(center.0, center.1, radius),
                CanvasCommand::Fill,
            ]
            &&& !fill ==> p == seq![
                CanvasCommand::SetStrokeStyle(css_color(style.color)),
                CanvasCommand::SetLineWidth(style.stroke_width),
                CanvasCommand::BeginPath,
                CanvasCommand::FullArc(center.0, center.1, radius),
                CanvasCommand::Stroke,
            ]
        }),
{
    let p = circle_plan(center, radius, style, fill);
    if fill {
        assert(p =~= seq![
            CanvasCommand::SetFillStyle(css_color(style.color)),
            CanvasCommand::BeginPath,
            CanvasCommand::FullArc(center.0, center.1, radius),
            CanvasCommand::Fill,
        ]);
    } else {
        assert(p =~= seq![
            CanvasCommand::SetStrokeStyle(css_color(style.color)),
            CanvasCommand::SetLineWidth(style.stroke_width),
            CanvasCommand::BeginPath,
            CanvasCommand::FullArc(center.0, center.1, radius),
            CanvasCommand::Stroke,
        ]);
    }
}

/// A text is drawn with the canvas keywords of its anchor: a left anchor
/// aligns at `start` (the text runs right of the point), a right one at `end`,
/// a centred one at `center`; a top anchor sets the baseline `top`, a centred
/// one `middle`, a bottom one `bottom`. It is filled in its colour and written
/// in its font, `style size px family`. An upright text is written at the
/// point; a turned one is written at the origin of a context moved to the
/// point and turned clockwise by 90, 180 or 270 degrees.
pub proof fn lemma_text_as_asked(text: Seq<char>, style: TextStyle, pos: BackendCoord)
    requires
        !style.color.transparent,
    ensures
        ({
            let p = text_plan(text, style, pos);
            let o: int = if is_rotated(style.rotation) { 3 } else { 0 };
            &&& p[o] == CanvasCommand::<Seq<char>>::SetTextBaseline(
                match style.v_pos {
                    VPos::Top => "top"@,
                    VPos::Center => "middle"@,
                    VPos::Bottom => "bottom"@,
                },
            )
            &&& p[o + 1] == CanvasCommand::<Seq<char>>::SetTextAlign(
                match style.h_pos {
                    HPos::Left => "start"@,
                    HPos::Right => "end"@,
                    HPos::Center => "center"@,
                },
            )
            &&& p[o + 2] == CanvasCommand::<Seq<char>>::SetFillStyle(css_color(style.color))
            &&& p[o + 3] == CanvasCommand::<Seq<char>>::SetFont(
                style.font.style@ + " "@ + style.font.size@ + "px "@ + style.font.family@,
            )
            &&& !is_rotated(style.rotation) ==> p.len() == 5 && p[4]
                == CanvasCommand::<Seq<char>>::FillText(text, pos.0, pos.1)
            &&& is_rotated(style.rotation) ==> {
                &&& p.len() == 9
                &&& p[1] == CanvasCommand::<Seq<char>>::Translate(pos.0, pos.1)
                &&& p[2] == CanvasCommand::<Seq<char>>::Rotate(
                    match style.rotation {
                        TextRotation::Rotate90 => 90u32,
                        TextRotation::Rotate180 => 180u32,
                        _ => 270u32,
                    },
                )
                &&& p[7] == CanvasCommand::<Seq<char>>::FillText(text, 0, 0)
            }
            &&& (style.rotation == TextRotation::Rotate0) == !is_rotated(style.rotation)
        }),
{
}

/// A polyline is one path, begun first and stroked last; where it has points,
/// its stroke style is the request's colour, opacity included, and its line
/// width the request's, both set right after the path is begun. A polygon is
/// one path, begun first and filled last; where it has corners, its fill style
/// is the request's colour, set right after the path is begun, and the path is
/// closed just before it is filled.
pub proof fn lemma_path_in_its_style(points: Seq<BackendCoord>, style: ShapeStyle)
    requires
        !style.color.transparent,
    ensures
        ({
            let p = path_plan(points, style);
            &&& p[0] is BeginPath
            &&& p.last() is Stroke
            &&& points.len() == 0 ==> p.len() == 2
            &&& points.len() > 0 ==> {
                &&& p[1] == CanvasCommand::<Seq<char>>::SetStrokeStyle(css_color(style.color))
                &&& p[2] == CanvasCommand::<Seq<char>>::SetLineWidth(style.stroke_width)
            }
        }),
        ({
            let p = polygon_plan(points, style);
            &&& p[0] is BeginPath
            &&& p.last() is Fill
            &&& points.len() == 0 ==> p.len() == 2
            &&& points.len() > 0 ==> {
                &&& p[1] == CanvasCommand::<Seq<char>>::SetFillStyle(css_color(style.color))
                &&& p[p.len() - 2] is ClosePath
            }
        }),
{
}

/// A canvas error made from a JavaScript error says its JSON text, or
/// `Unknown` where there is none.
pub proof fn lemma_error_texts(text: Seq<char>)
    ensures
        json_error_text(Some(text)) == text,
        json_error_text(None) == "Unknown"@,
{
}

} // verus!
