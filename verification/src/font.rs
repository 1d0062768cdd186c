//! What the pipeline reads from a font face: glyph numbers, advances, bounding boxes, the
//! face's vertical extent and its kerning subtables. The face is given by the bytes of a font
//! file and the number of the face in it; the values come from the `ttf_parser` crate and are
//! taken on trust.

use vstd::prelude::*;

verus! {

/// The ascender of the face in font units; `None` where the bytes hold no such face.
pub uninterp spec fn ascender_of(data: Seq<u8>, face_index: u32) -> Option<i16>;

/// The descender of the face in font units; `None` where the bytes hold no such face.
pub uninterp spec fn descender_of(data: Seq<u8>, face_index: u32) -> Option<i16>;

/// The number of the glyph that the face draws for a character; `None` where the face has
/// none for it or the bytes hold no such face.
pub uninterp spec fn glyph_index_of(data: Seq<u8>, face_index: u32, c: char) -> Option<u16>;

/// The horizontal advance of a glyph in font units; `None` where the face gives none or the
/// bytes hold no such face.
pub uninterp spec fn advance_of(data: Seq<u8>, face_index: u32, glyph: u16) -> Option<u16>;

/// The bounding box of a glyph's outline in font units, as `(x_min, y_min, x_max, y_max)`;
/// `None` where the glyph has no outline or the bytes hold no such face.
pub uninterp spec fn bounding_box_of(data: Seq<u8>, face_index: u32, glyph: u16) -> Option<
    (i16, i16, i16, i16),
>;

/// Whether the kerning subtable at position `i` is for horizontal text; `None` where the
/// face's kerning table has no readable subtable at that position, or there is no such
/// table or face.
pub uninterp spec fn kern_horizontal_of(data: Seq<u8>, face_index: u32, i: nat) -> Option<bool>;

/// The adjustment that the kerning subtable at position `i` holds for a pair of glyphs, in
/// font units; `None` where it holds none, or there is no such subtable.
pub uninterp spec fn kern_pair_of(
    data: Seq<u8>,
    face_index: u32,
    i: nat,
    left: u16,
    right: u16,
) -> Option<i16>;

/// Calls `ttf_parser::Face::ascender` on the face that `ttf_parser::Face::from_slice` reads
/// from the bytes. The contract only gives the result its name.
#[verifier::external_body]
pub(crate) fn face_ascender(data: &[u8], face_index: u32) -> (r: Option<i16>)
    ensures
        r == ascender_of(data@, face_index),
{
    let face = ttf_parser::Face::from_slice(data, face_index).ok()?;
    Some(face.ascender())
}

/// Calls `ttf_parser::Face::descender` on the face that `ttf_parser::Face::from_slice` reads
/// from the bytes. The contract only gives the result its name.
#[verifier::external_body]
pub(crate) fn face_descender(data: &[u8], face_index: u32) -> (r: Option<i16>)
    ensures
        r == descender_of(data@, face_index),
{
    let face = ttf_parser::Face::from_slice(data, face_index).ok()?;
    Some(face.descender())
}

/// Calls `ttf_parser::Face::glyph_index` on the face read from the bytes. The contract only
/// gives the result its name.
#[verifier::external_body]
pub(crate) fn glyph_index(data: &[u8], face_index: u32, c: char) -> (r: Option<u16>)
    ensures
        r == glyph_index_of(data@, face_index, c),
{
    let face = ttf_parser::Face::from_slice(data, face_index).ok()?;
    let id = face.glyph_index(c)?;
    Some(id.0)
}

/// Calls `ttf_parser::Face::glyph_hor_advance` on the face read from the bytes. The contract
/// only gives the result its name.
#[verifier::external_body]
pub(crate) fn glyph_hor_advance(data: &[u8], face_index: u32, glyph: u16) -> (r: Option<u16>)
    ensures
        r == advance_of(data@, face_index, glyph),
{
    let face = ttf_parser::Face::from_slice(data, face_index).ok()?;
    face.glyph_hor_advance(ttf_parser::GlyphId(glyph))
}

/// Calls `ttf_parser::Face::glyph_bounding_box` on the face read from the bytes and hands
/// back the four sides of the box. The contract only gives the result its name.
#[verifier::external_body]
pub(crate) fn glyph_bounding_box(data: &[u8], face_index: u32, glyph: u16) -> (r: Option<
    (i16, i16, i16, i16),
>)
    ensures
        r == bounding_box_of(data@, face_index, glyph),
{
    let face = ttf_parser::Face::from_slice(data, face_index).ok()?;
    let b = face.glyph_bounding_box(ttf_parser::GlyphId(glyph))?;
    Some((b.x_min, b.y_min, b.x_max, b.y_max))
}

/// Walks the kerning subtables of the face read from the bytes, as `ttf_parser` iterates
/// them, to position `i`, and reads the subtable's `horizontal` field. The contract only
/// gives the result its name.
#[verifier::external_body]
pub(crate) fn kern_subtable_horizontal(data: &[u8], face_index: u32, i: usize) -> (r: Option<
    bool,
>)
    ensures
        r == kern_horizontal_of(data@, face_index, i as nat),
{
    let face = ttf_parser::Face::from_slice(data, face_index).ok()?;
    let table = face.tables().kern?;
    let subtable = table.subtables.into_iter().nth(i)?;
    Some(subtable.horizontal)
}

/// Calls `ttf_parser::kern::Subtable::glyphs_kerning` on the kerning subtable at position
/// `i` of the face read from the bytes. The contract only gives the result its name.
#[verifier::external_body]
pub(crate) fn kern_subtable_pair(
    data: &[u8],
    face_index: u32,
    i: usize,
    left: u16,
    right: u16,
) -> (r: Option<i16>)
    ensures
        r == kern_pair_of(data@, face_index, i as nat, left, right),
{
    let face = ttf_parser::Face::from_slice(data, face_index).ok()?;
    let table = face.tables().kern?;
    let subtable = table.subtables.into_iter().nth(i)?;
    subtable.glyphs_kerning(ttf_parser::GlyphId(left), ttf_parser::GlyphId(right))
}

} // verus!
