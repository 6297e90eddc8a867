//! A colour with a short, a plain and a detailed text form.

use crate::color::render_upper_hex;
use crate::color::upper_hex;
use crate::render::decimal;
use crate::render::render_int;
use vstd::prelude::*;
use vstd::string::StringExecFns;

verus! {

/// A colour with a red, a green and a blue component.
#[derive(Clone, Copy, PartialEq)]
pub struct Color {
    pub r: u8,
    pub g: u8,
    pub b: u8,
}

impl Color {
    pub fn new(r: u8, g: u8, b: u8) -> (c: Color)
        ensures
            c.r == r,
            c.g == g,
            c.b == b,
    {
        Color { r, g, b }
    }

    /// The text `#RRGGBB` of the colour.
    pub open spec fn hex_text(&self) -> Seq<char> {
        "#"@ + upper_hex(self.r) + upper_hex(self.g) + upper_hex(self.b)
    }

    /// The one-line text of the components.
    pub open spec fn plain_text(&self) -> Seq<char> {
        "Color { r: "@ + decimal(self.r as int) + ", g: "@ + decimal(self.g as int) + ", b: "@
            + decimal(self.b as int) + " }"@
    }

    /// The text of the components, one to a line, and of the hex form.
    pub open spec fn detailed_text(&self) -> Seq<char> {
        "Color {\n    r: "@ + decimal(self.r as int) + ",\n    g: "@ + decimal(self.g as int)
            + ",\n    b: "@ + decimal(self.b as int) + ",\n    hex: \""@ + self.hex_text()
            + "\"\n}"@
    }

    /// The colour as `#RRGGBB`, in upper case.
    pub fn to_string(&self) -> (r: String)
        ensures
            r@ == self.hex_text(),
    {
        let mut out = "#".to_owned();
        out.append(render_upper_hex(self.r).as_str());
        out.append(render_upper_hex(self.g).as_str());
        out.append(render_upper_hex(self.b).as_str());
        out
    }

    /// The colour on one line, component by component.
    pub fn debug_string(&self) -> (r: String)
        ensures
            r@ == self.plain_text(),
    {
        let mut out = "Color { r: ".to_owned();
        out.append(render_int(self.r as i64).as_str());
        out.append(", g: ");
        out.append(render_int(self.g as i64).as_str());
        out.append(", b: ");
        out.append(render_int(self.b as i64).as_str());
        out.append(" }");
        out
    }

    /// The colour on several lines, with its hex form.
    pub fn debug_pretty(&self) -> (r: String)
        ensures
            r@ == self.detailed_text(),
    {
        let mut out = "Color {\n    r: ".to_owned();
        out.append(render_int(self.r as i64).as_str());
        out.append(",\n    g: ");
        out.append(render_int(self.g as i64).as_str());
        out.append(",\n    b: ");
        out.append(render_int(self.b as i64).as_str());
        out.append(",\n    hex: \"");
        out.append(self.to_string().as_str());
        out.append("\"\n}");
        out
    }
}

} // verus!
