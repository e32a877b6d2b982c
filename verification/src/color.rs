//! Colours, and the CSS text by which the canvas takes them.
use vstd::prelude::*;

verus! {

/// The decimal digit `d` as a character.
pub open spec fn digit_char(d: int) -> char {
    (('0' as u32) + d) as char
}

/// The decimal numeral of `n`, without leading zeros.
pub open spec fn decimal(n: nat) -> Seq<char>
    decreases n,
{
    if n < 10 {
        seq![digit_char(n as int)]
    } else {
        decimal(n / 10).push(digit_char((n % 10) as int))
    }
}

/// The one-character text of the decimal digit `d`.
fn digit_text(d: u8) -> (s: &'static str)
    requires
        d < 10,
    ensures
        s@ == seq![digit_char(d as int)],
{
    proof {
        reveal_strlit("0");
        reveal_strlit("1");
        reveal_strlit("2");
        reveal_strlit("3");
        reveal_strlit("4");
        reveal_strlit("5");
        reveal_strlit("6");
        reveal_strlit("7");
        reveal_strlit("8");
        reveal_strlit("9");
    }
    match d {
        0 => "0",
        1 => "1",
        2 => "2",
        3 => "3",
        4 => "4",
        5 => "5",
        6 => "6",
        7 => "7",
        8 => "8",
        _ => "9",
    }
}

/// The decimal numeral of a byte, as `format!("{}", v)` writes it.
pub fn u8_decimal(v: u8) -> (s: String)
    ensures
        s@ == decimal(v as nat),
{
    let mut s = String::new();
    if v >= 100 {
        s.append(digit_text(v / 100));
    }
    if v >= 10 {
        s.append(digit_text((v / 10) % 10));
    }
    s.append(digit_text(v % 10));
    proof {
        reveal_with_fuel(decimal, 3);
        let n = v as nat;
        if n >= 100 {
            assert(decimal(n / 10) == decimal(n / 100).push(digit_char(((n / 10) % 10) as int)));
        }
        assert(s@ =~= decimal(n));
    }
    s
}

/// A colour as the canvas backend takes it: its red, green and blue channels,
/// the decimal text of its opacity, and whether that opacity is nil.
pub struct CanvasColor {
    pub rgb: (u8, u8, u8),
    pub alpha: String,
    pub transparent: bool,
}

/// The CSS text of `color`: `rgba(r,g,b,a)`.
pub open spec fn css_color(color: CanvasColor) -> Seq<char> {
    "rgba("@ + decimal(color.rgb.0 as nat) + ","@ + decimal(color.rgb.1 as nat) + ","@
        + decimal(color.rgb.2 as nat) + ","@ + color.alpha@ + ")"@
}

/// The CSS text by which the canvas takes `color` as a fill or stroke style.
pub fn make_canvas_color(color: &CanvasColor) -> (s: String)
    ensures
        s@ == css_color(*color),
        s@ == "rgba("@ + decimal(color.rgb.0 as nat) + ","@ + decimal(color.rgb.1 as nat) + ","@
            + decimal(color.rgb.2 as nat) + ","@ + color.alpha@ + ")"@,
{
    let mut s = String::from_str("rgba(");
    s.append(u8_decimal(color.rgb.0).as_str());
    s.append(",");
    s.append(u8_decimal(color.rgb.1).as_str());
    s.append(",");
    s.append(u8_decimal(color.rgb.2).as_str());
    s.append(",");
    s.append(color.alpha.as_str());
    s.append(")");
    s
}

} // verus!
