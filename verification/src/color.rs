//! RGB colours and their two text forms, `#RRGGBB` and `r,g,b`.

use crate::numbers::parse_decimal_u8;
use crate::numbers::parse_hex_u8;
use crate::numbers::text_u8;
use crate::text::trim;
use crate::text::trimmed;
use vstd::prelude::*;
use vstd::string::StrSliceExecFns;
use vstd::string::StringSliceAdditionalSpecFns;
use vstd::string::StringExecFns;

verus! {

/// The pieces into which `str::split(',')` cuts a text.
pub uninterp spec fn comma_fields(s: Seq<char>) -> Seq<Seq<char>>;

/// A number below 16 as one upper-case hexadecimal digit.
pub open spec fn upper_digit(d: u8) -> char {
    if d < 10 {
        (48u8 + d) as char
    } else {
        (55u8 + d) as char
    }
}

/// A byte as two upper-case hexadecimal digits.
pub open spec fn upper_hex(b: u8) -> Seq<char> {
    seq![upper_digit(b / 16), upper_digit(b % 16)]
}

/// Calls `str::split` with a comma and collects the pieces.
#[verifier::external_body]
fn split_commas(s: &str) -> (r: Vec<&str>)
    ensures
        r@.len() == comma_fields(s@).len(),
        forall|i: int| 0 <= i < r@.len() ==> (#[trigger] r@[i])@ == comma_fields(s@)[i],
{
    s.split(',').collect()
}

/// Whether a text starts with the character `#`.
fn starts_with_hash(s: &str) -> (r: bool)
    ensures
        r == (s@.len() > 0 && s@[0] == '#'),
{
    s.unicode_len() > 0 && s.get_char(0) == '#'
}

/// Formats a byte with `{:02X}`: two upper-case hexadecimal digits.
#[verifier::external_body]
pub(crate) fn render_upper_hex(b: u8) -> (r: String)
    ensures
        r@ == upper_hex(b),
{
    format!("{:02X}", b)
}

/// A colour with a red, a green and a blue component.
#[derive(Debug, Clone, Copy, PartialEq, Eq, Structural)]
pub struct Color {
    pub r: u8,
    pub g: u8,
    pub b: u8,
}

/// Why a text is no colour.
#[derive(Debug, Clone, PartialEq)]
pub struct ParseColorError {
    pub message: String,
}

impl ParseColorError {
    /// The message, as it is shown to a user.
    pub fn to_string(&self) -> (r: String)
        ensures
            r@ == self.message@,
    {
        self.message.clone()
    }
}

/// The colour of three components, if all three are there.
pub open spec fn from_parts(r: Option<u8>, g: Option<u8>, b: Option<u8>) -> Option<Color> {
    match (r, g, b) {
        (Some(r), Some(g), Some(b)) => Some(Color { r, g, b }),
        _ => None,
    }
}

/// The colour that a text of the form `#RRGGBB` denotes.
pub open spec fn hex_color(s: Seq<char>) -> Option<Color> {
    if vstd::utf8::encode_utf8(s).len() == 7 && vstd::utf8::is_ascii_chars(s) {
        from_parts(
            text_u8(s.subrange(1, 3), 16),
            text_u8(s.subrange(3, 5), 16),
            text_u8(s.subrange(5, 7), 16),
        )
    } else {
        None
    }
}

/// The colour that a text of the form `r,g,b` denotes.
pub open spec fn csv_color(s: Seq<char>) -> Option<Color> {
    let fields = comma_fields(s);
    if fields.len() == 3 {
        from_parts(
            text_u8(trimmed(fields[0]), 10),
            text_u8(trimmed(fields[1]), 10),
            text_u8(trimmed(fields[2]), 10),
        )
    } else {
        None
    }
}

/// The colour that a text denotes, in either form.
pub open spec fn text_color(s: Seq<char>) -> Option<Color> {
    let t = trimmed(s);
    if t.len() > 0 && t[0] == '#' {
        hex_color(t)
    } else {
        csv_color(t)
    }
}

/// What is said of a trimmed text that denotes no colour.
pub open spec fn refusal(t: Seq<char>) -> Seq<char> {
    if t.len() > 0 && t[0] == '#' {
        if vstd::utf8::encode_utf8(t).len() != 7 {
            "Hex color must be 7 chars (#RRGGBB): "@ + t
        } else {
            "Invalid hex color: "@ + t
        }
    } else if comma_fields(t).len() != 3 {
        "Expected r,g,b format: "@ + t
    } else {
        "Invalid RGB values: "@ + t
    }
}

/// An error whose message is `prefix` followed by `text`.
fn complaint(prefix: &str, text: &str) -> (r: ParseColorError)
    ensures
        r.message@ == prefix@ + text@,
{
    let mut message = prefix.to_owned();
    message.append(text);
    ParseColorError { message }
}

impl Color {
    pub fn new(r: u8, g: u8, b: u8) -> (c: Color)
        ensures
            c == (Color { r, g, b }),
    {
        Color { r, g, b }
    }

    /// The colour of three parsed components, or a complaint about
    /// `text` if one of them is missing.
    pub fn assemble(
        r: Option<u8>,
        g: Option<u8>,
        b: Option<u8>,
        prefix: &str,
        text: &str,
    ) -> (c: Result<Color, ParseColorError>)
        ensures
            c is Ok <==> from_parts(r, g, b) is Some,
            c is Ok ==> Some(c->Ok_0) == from_parts(r, g, b),
            c is Err ==> c->Err_0.message@ == prefix@ + text@,
    {
        match (r, g, b) {
            (Some(r), Some(g), Some(b)) => Ok(Color { r, g, b }),
            _ => Err(complaint(prefix, text)),
        }
    }

    /// Reads `#RRGGBB`: seven bytes, the last six being three
    /// hexadecimal numbers.
    pub fn parse_hex(s: &str) -> (c: Result<Color, ParseColorError>)
        ensures
            c is Ok <==> hex_color(s@) is Some,
            c is Ok ==> Some(c->Ok_0) == hex_color(s@),
            c is Err && s.spec_bytes().len() != 7 ==> c->Err_0.message@
                == "Hex color must be 7 chars (#RRGGBB): "@ + s@,
            c is Err && s.spec_bytes().len() == 7 ==> c->Err_0.message@ == "Invalid hex color: "@
                + s@,
    {
        if s.as_bytes().len() != 7 {
            return Err(complaint("Hex color must be 7 chars (#RRGGBB): ", s));
        }
        if !s.is_ascii() {
            return Err(complaint("Invalid hex color: ", s));
        }
        proof {
            vstd::string::is_ascii_spec_bytes(s);
        }
        let r = parse_hex_u8(s.substring_ascii(1, 3));
        let g = parse_hex_u8(s.substring_ascii(3, 5));
        let b = parse_hex_u8(s.substring_ascii(5, 7));
        Color::assemble(r, g, b, "Invalid hex color: ", s)
    }

    /// Reads `r,g,b`: three decimal numbers between commas, each with
    /// white space around it or not.
    pub fn parse_csv(s: &str) -> (c: Result<Color, ParseColorError>)
        ensures
            c is Ok <==> csv_color(s@) is Some,
            c is Ok ==> Some(c->Ok_0) == csv_color(s@),
            c is Err && comma_fields(s@).len() != 3 ==> c->Err_0.message@
                == "Expected r,g,b format: "@ + s@,
            c is Err && comma_fields(s@).len() == 3 ==> c->Err_0.message@
                == "Invalid RGB values: "@ + s@,
    {
        let parts = split_commas(s);
        if parts.len() != 3 {
            return Err(complaint("Expected r,g,b format: ", s));
        }
        let r = parse_decimal_u8(trim(parts[0]));
        let g = parse_decimal_u8(trim(parts[1]));
        let b = parse_decimal_u8(trim(parts[2]));
        Color::assemble(r, g, b, "Invalid RGB values: ", s)
    }

    /// Reads a colour in either form: after trimming, a text that
    /// starts with `#` is read as `#RRGGBB`, any other as `r,g,b`.
    pub fn parse(s: &str) -> (c: Result<Color, ParseColorError>)
        ensures
            c is Ok <==> text_color(s@) is Some,
            c is Ok ==> Some(c->Ok_0) == text_color(s@),
            c is Err ==> c->Err_0.message@ == refusal(trimmed(s@)),
    {
        let t = trim(s);
        if starts_with_hash(t) {
            Color::parse_hex(t)
        } else {
            Color::parse_csv(t)
        }
    }

    /// The text `#RRGGBB` of a colour.
    pub open spec fn hex_text(&self) -> Seq<char> {
        "#"@ + upper_hex(self.r) + upper_hex(self.g) + upper_hex(self.b)
    }

    /// The colour as `#RRGGBB`, in upper case.
    pub fn to_string(&self) -> (r: String)
        ensures
            r@ == self.hex_text(),
    {
        let mut out = "#".to_owned();
        out.append(render_upper_hex(self.r).as_str());
        out.append(render_upper_hex(self.g).as_str());
        out.append(render_upper_hex(self.b).as_str());
        out
    }
}

impl std::str::FromStr for Color {
    type Err = ParseColorError;

    fn from_str(s: &str) -> (c: Result<Color, ParseColorError>)
        ensures
            c is Ok <==> text_color(s@) is Some,
            c is Ok ==> Some(c->Ok_0) == text_color(s@),
            c is Err ==> c->Err_0.message@ == refusal(trimmed(s@)),
    {
        Color::parse(s)
    }
}

} // verus!
