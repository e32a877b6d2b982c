//! How text is placed: its anchor, its rotation and its font.
use vstd::prelude::*;
use crate::color::CanvasColor;

verus! {

/// The horizontal position of a text's anchor point relative to the text.
#[derive(Clone, Copy, Debug, PartialEq, Eq)]
pub enum HPos {
    Left,
    Right,
    Center,
}

/// The vertical position of a text's anchor point relative to the text.
#[derive(Clone, Copy, Debug, PartialEq, Eq)]
pub enum VPos {
    Top,
    Center,
    Bottom,
}

/// How far a text is turned clockwise.
#[derive(Clone, Copy, Debug, PartialEq, Eq)]
pub enum TextRotation {
    Rotate0,
    Rotate90,
    Rotate180,
    Rotate270,
}

/// The canvas `textAlign` keyword for an anchor's horizontal position.
pub open spec fn align_text(h: HPos) -> Seq<char> {
    match h {
        HPos::Left => "start"@,
        HPos::Right => "end"@,
        HPos::Center => "center"@,
    }
}

/// The canvas `textBaseline` keyword for an anchor's vertical position.
pub open spec fn baseline_text(v: VPos) -> Seq<char> {
    match v {
        VPos::Top => "top"@,
        VPos::Center => "middle"@,
        VPos::Bottom => "bottom"@,
    }
}

/// The clockwise turn of a rotation, in degrees.
pub open spec fn rotation_degrees(r: TextRotation) -> u32 {
    match r {
        TextRotation::Rotate0 => 0,
        TextRotation::Rotate90 => 90,
        TextRotation::Rotate180 => 180,
        TextRotation::Rotate270 => 270,
    }
}

/// The canvas `textAlign` keyword for an anchor's horizontal position.
pub fn text_align(h: HPos) -> (s: &'static str)
    ensures
        s@ == align_text(h),
{
    match h {
        HPos::Left => "start",
        HPos::Right => "end",
        HPos::Center => "center",
    }
}

/// The canvas `textBaseline` keyword for an anchor's vertical position.
pub fn text_baseline(v: VPos) -> (s: &'static str)
    ensures
        s@ == baseline_text(v),
{
    match v {
        VPos::Top => "top",
        VPos::Center => "middle",
        VPos::Bottom => "bottom",
    }
}

/// The clockwise turn of a rotation, in degrees.
pub fn degrees(r: TextRotation) -> (d: u32)
    ensures
        d == rotation_degrees(r),
{
    match r {
        TextRotation::Rotate0 => 0,
        TextRotation::Rotate90 => 90,
        TextRotation::Rotate180 => 180,
        TextRotation::Rotate270 => 270,
    }
}

/// A font as the canvas takes it: the CSS keyword of its style (`normal`,
/// `italic`, ...), the decimal text of its size in pixels, and its family name.
pub struct FontSpec {
    pub style: String,
    pub size: String,
    pub family: String,
}

/// The CSS `font` text of a font: `style size px family`.
pub open spec fn font_text(f: FontSpec) -> Seq<char> {
    f.style@ + " "@ + f.size@ + "px "@ + f.family@
}

/// The CSS `font` text of a font, as the canvas `font` property takes it.
pub fn font_string(f: &FontSpec) -> (s: String)
    ensures
        s@ == font_text(*f),
{
    let mut s = f.style.clone();
    s.append(" ");
    s.append(f.size.as_str());
    s.append("px ");
    s.append(f.family.as_str());
    s
}

/// Everything about a text's look that drawing it needs.
pub struct TextStyle {
    pub color: CanvasColor,
    pub rotation: TextRotation,
    pub h_pos: HPos,
    pub v_pos: VPos,
    pub font: FontSpec,
}

} // verus!
