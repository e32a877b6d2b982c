//! The error that drawing on an HTML canvas reports.
use vstd::prelude::*;
use wasm_bindgen::JsValue;

verus! {

/// `wasm_bindgen::JsValue`, a handle on a JavaScript value; nothing inside it
/// is visible here, it is only handed on to `JSON.stringify`.
#[verifier::external_type_specification]
#[verifier::external_body]
pub struct ExJsValue(JsValue);

/// The text that stands in for an error whose JSON form could not be had.
pub open spec fn unknown_text() -> Seq<char> {
    "Unknown"@
}

/// What a canvas error says, given the JSON text of the JavaScript error
/// behind it, where there is one.
pub open spec fn json_error_text(json: Option<Seq<char>>) -> Seq<char> {
    match json {
        Some(text) => text,
        None => unknown_text(),
    }
}

/// The text of an optional string.
pub open spec fn opt_text(s: Option<String>) -> Option<Seq<char>> {
    match s {
        Some(t) => Some(t@),
        None => None,
    }
}

/// An error met while drawing on an HTML canvas: the text that describes it.
pub struct CanvasError(String);

impl View for CanvasError {
    type V = Seq<char>;

    closed spec fn view(&self) -> Seq<char> {
        self.0@
    }
}

impl CanvasError {
    /// An error that says `message`.
    pub fn new(message: String) -> (e: CanvasError)
        ensures
            e@ == message@,
    {
        CanvasError(message)
    }

    /// The text of the error.
    pub fn message(&self) -> (m: &String)
        ensures
            m@ == self@,
    {
        &self.0
    }

    /// The error as it is shown to a user: `Canvas Error: ` and its text.
    pub fn to_display_string(&self) -> (s: String)
        ensures
            s@ == "Canvas Error: "@ + self@,
    {
        let mut s = String::from_str("Canvas Error: ");
        s.append(self.0.as_str());
        s
    }

    /// The error as it is shown when debugging: `CanvasError(`, its text and `)`.
    pub fn to_debug_string(&self) -> (s: String)
        ensures
            s@ == "CanvasError("@ + self@ + ")"@,
    {
        let mut s = String::from_str("CanvasError(");
        s.append(self.0.as_str());
        s.append(")");
        s
    }
}

/// The canvas error for a JavaScript error whose JSON text is `json`, or
/// `Unknown` where that text could not be had.
pub fn canvas_error_from_json(json: Option<String>) -> (e: CanvasError)
    ensures
        e@ == json_error_text(opt_text(json)),
{
    match json {
        Some(text) => CanvasError(text),
        None => CanvasError(String::from_str("Unknown")),
    }
}

/// Whether a text begins as every text that `JSON.stringify` gives does: it
/// is not empty, and its first character opens an object (`{`), an array
/// (`[`), a string (`"`), a number (`-` or a digit) or one of `true`, `false`
/// and `null`.
pub open spec fn json_shaped(t: Seq<char>) -> bool {
    &&& t.len() > 0
    &&& {
        let c = t[0];
        ||| c == '{'
        ||| c == '['
        ||| c == '"'
        ||| c == '-'
        ||| '0' <= c <= '9'
        ||| c == 't'
        ||| c == 'f'
        ||| c == 'n'
    }
}

/// Calls `js_sys::JSON::stringify` on `value` and, where it gives a JavaScript
/// string, turns that into a `String` with `JsValue::as_string`. It is `None`
/// where `JSON.stringify` throws (a cyclic object, a `BigInt`), where it gives
/// `undefined` (for `undefined`, a function or a symbol), and where
/// `as_string` finds no UTF-8 string. A text it gives is JSON text, so it has
/// the shape that `json_shaped` states; which text it is rests on the
/// JavaScript object behind `value`, which Rust cannot see, and is not stated.
#[verifier::external_body]
fn json_text(value: &JsValue) -> (r: Option<String>)
    ensures
        r matches Some(t) ==> json_shaped(t@),
{
    js_sys::JSON::stringify(value).ok().and_then(|s| s.as_string())
}

/// Turns a JavaScript error into a canvas error that carries its JSON text, or
/// `Unknown` where no JSON text can be had for it. Which text it is rests on
/// the JavaScript object; what holds of every outcome is that the error says
/// `Unknown` or a JSON text, and never both.
pub fn error_cast(value: &JsValue) -> (e: CanvasError)
    ensures
        exists|json: Option<Seq<char>>|
            e@ == json_error_text(json) && (json matches Some(t) ==> json_shaped(t)),
        e@ == unknown_text() || json_shaped(e@),
        !(e@ == unknown_text() && json_shaped(e@)),
{
    let json = json_text(value);
    let ghost outcome = opt_text(json);
    let e = canvas_error_from_json(json);
    proof {
        reveal_strlit("Unknown");
        assert(e@ == json_error_text(outcome));
        assert(unknown_text()[0] == 'U');
    }
    e
}

} // verus!
