//! The style record of a drawing call and the codes it carries.

use crate::coord::Coord;
use vstd::prelude::*;

verus! {

/// How the end of an open line is drawn.
#[derive(Debug, Clone, Copy, PartialEq, Eq, Structural)]
pub enum LineCap {
    Round,
    Butt,
    Square,
}

/// How two segments of a line are joined.
#[derive(Debug, Clone, Copy, PartialEq, Eq, Structural)]
pub enum LineJoin {
    Round,
    Miter,
    Bevel,
}

/// The weight of a font face.
#[derive(Debug, Clone, Copy, PartialEq, Eq, Structural)]
pub enum FontWeight {
    Normal,
    Bold,
}

/// The slant of a font face.
#[derive(Debug, Clone, Copy, PartialEq, Eq, Structural)]
pub enum FontSlant {
    Normal,
    Italic,
}

/// The cap that a host code names, if it names one.
pub open spec fn line_cap_of(lend: u32) -> Option<LineCap> {
    if lend == 1 {
        Some(LineCap::Round)
    } else if lend == 2 {
        Some(LineCap::Butt)
    } else if lend == 3 {
        Some(LineCap::Square)
    } else {
        None
    }
}

/// The join that a host code names, if it names one.
pub open spec fn line_join_of(ljoin: u32) -> Option<LineJoin> {
    if ljoin == 1 {
        Some(LineJoin::Round)
    } else if ljoin == 2 {
        Some(LineJoin::Miter)
    } else if ljoin == 3 {
        Some(LineJoin::Bevel)
    } else {
        None
    }
}

/// The weight and slant that a host face code names, if it names one: plain, bold, italic,
/// bold italic.
pub open spec fn font_face_of(fontface: i32) -> Option<(FontWeight, FontSlant)> {
    if fontface == 1 {
        Some((FontWeight::Normal, FontSlant::Normal))
    } else if fontface == 2 {
        Some((FontWeight::Bold, FontSlant::Normal))
    } else if fontface == 3 {
        Some((FontWeight::Normal, FontSlant::Italic))
    } else if fontface == 4 {
        Some((FontWeight::Bold, FontSlant::Italic))
    } else {
        None
    }
}

/// The cap for a host code, or `None` for a code that names none.
pub fn line_cap_from_code(lend: u32) -> (cap: Option<LineCap>)
    ensures
        cap == line_cap_of(lend),
{
    match lend {
        1 => Some(LineCap::Round),
        2 => Some(LineCap::Butt),
        3 => Some(LineCap::Square),
        _ => None,
    }
}

/// The join for a host code, or `None` for a code that names none.
pub fn line_join_from_code(ljoin: u32) -> (join: Option<LineJoin>)
    ensures
        join == line_join_of(ljoin),
{
    match ljoin {
        1 => Some(LineJoin::Round),
        2 => Some(LineJoin::Miter),
        3 => Some(LineJoin::Bevel),
        _ => None,
    }
}

/// The weight and slant for a host face code, or `None` for a code that names none.
pub fn font_face_from_code(fontface: i32) -> (face: Option<(FontWeight, FontSlant)>)
    ensures
        face == font_face_of(fontface),
{
    match fontface {
        1 => Some((FontWeight::Normal, FontSlant::Normal)),
        2 => Some((FontWeight::Bold, FontSlant::Normal)),
        3 => Some((FontWeight::Normal, FontSlant::Italic)),
        4 => Some((FontWeight::Bold, FontSlant::Italic)),
        _ => None,
    }
}

/// The cap for a host code; a code that names none gives a round cap.
pub fn translate_line_cap(lend: u32) -> (cap: LineCap)
    ensures
        cap == match line_cap_of(lend) {
            Some(c) => c,
            None => LineCap::Round,
        },
{
    match line_cap_from_code(lend) {
        Some(c) => c,
        None => LineCap::Round,
    }
}

/// The join for a host code; a code that names none gives a round join.
pub fn translate_line_join(ljoin: u32) -> (join: LineJoin)
    ensures
        join == match line_join_of(ljoin) {
            Some(j) => j,
            None => LineJoin::Round,
        },
{
    match line_join_from_code(ljoin) {
        Some(j) => j,
        None => LineJoin::Round,
    }
}

/// The weight and slant for a host face code; a code that names none gives the plain face.
pub fn translate_font_face(fontface: i32) -> (face: (FontWeight, FontSlant))
    ensures
        face == match font_face_of(fontface) {
            Some(f) => f,
            None => (FontWeight::Normal, FontSlant::Normal),
        },
{
    match font_face_from_code(fontface) {
        Some(f) => f,
        None => (FontWeight::Normal, FontSlant::Normal),
    }
}

/// How a stroke is drawn. The width is in points.
#[derive(Debug, Clone, Copy, PartialEq, Eq, Structural)]
pub struct StrokeStyle {
    pub line_width: Coord,
    pub line_cap: LineCap,
    pub line_join: LineJoin,
    pub miter_limit: Coord,
}

/// The style that comes with a drawing call. A colour of `None` skips that paint. The line
/// width is in points.
#[derive(Debug, Clone, PartialEq, Eq)]
pub struct Style {
    pub stroke_color: Option<u32>,
    pub fill_color: Option<u32>,
    pub line_width: Coord,
    pub line_cap_code: u32,
    pub line_join_code: u32,
    pub miter_limit: Coord,
    pub font_family: String,
    pub font_face_code: i32,
    pub font_size: Coord,
    pub size_multiplier: Coord,
}

impl Style {
    /// The stroke that the style asks for, with its codes translated.
    pub open spec fn stroke_style_of(&self) -> StrokeStyle {
        StrokeStyle {
            line_width: self.line_width,
            line_cap: match line_cap_of(self.line_cap_code) {
                Some(c) => c,
                None => LineCap::Round,
            },
            line_join: match line_join_of(self.line_join_code) {
                Some(j) => j,
                None => LineJoin::Round,
            },
            miter_limit: self.miter_limit,
        }
    }

    pub fn stroke_style(&self) -> (s: StrokeStyle)
        ensures
            s == self.stroke_style_of(),
    {
        StrokeStyle {
            line_width: self.line_width,
            line_cap: translate_line_cap(self.line_cap_code),
            line_join: translate_line_join(self.line_join_code),
            miter_limit: self.miter_limit,
        }
    }
}

} // verus!
