//! Shaping a run of text: which glyphs are drawn, where each begins, and how far the run
//! advances. All lengths are whole font units; scaling to points is left to the caller.

use crate::font::{
    advance_of, ascender_of, bounding_box_of, descender_of, face_ascender, face_descender,
    glyph_bounding_box, glyph_hor_advance, glyph_index, glyph_index_of, kern_horizontal_of,
    kern_pair_of, kern_subtable_horizontal, kern_subtable_pair,
};
use crate::chars::chars_of;
use crate::coord::{Coord, Point};
use vstd::prelude::*;

verus! {

/// Control characters are the code points up to U+001F and from U+007F to U+009F.
pub open spec fn control(c: char) -> bool {
    (c as u32) <= 0x1f || 0x7f <= (c as u32) <= 0x9f
}

/// Whether the character is a control character, which draws no glyph.
pub fn is_control(c: char) -> (r: bool)
    ensures
        r == control(c),
{
    let code = c as u32;
    code <= 0x1f || (0x7f <= code && code <= 0x9f)
}

/// What one kerning subtable says of a pair of glyphs.
#[derive(Debug, Clone, Copy, PartialEq, Eq, Structural)]
pub struct KernSubtable {
    /// The subtable is for horizontal text.
    pub horizontal: bool,
    /// The adjustment it holds for the pair, if it holds one.
    pub kerning: Option<i16>,
}

/// The adjustment of the first horizontal subtable that holds one for the pair; 0 where
/// there is none.
pub open spec fn first_kerning_of(subtables: Seq<KernSubtable>) -> i16
    decreases subtables.len(),
{
    if subtables.len() == 0 {
        0
    } else if subtables[0].horizontal && subtables[0].kerning is Some {
        subtables[0].kerning->0
    } else {
        first_kerning_of(subtables.drop_first())
    }
}

/// The adjustment for a pair of glyphs, given what each subtable says of the pair.
pub fn first_kerning(subtables: &Vec<KernSubtable>) -> (k: i16)
    ensures
        k == first_kerning_of(subtables@),
{
    let mut i: usize = 0;
    assert(subtables@.skip(0) =~= subtables@);
    while i < subtables.len()
        invariant
            i <= subtables.len(),
            first_kerning_of(subtables@) == first_kerning_of(subtables@.skip(i as int)),
        decreases subtables.len() - i,
    {
        let st = subtables[i];
        assert(subtables@.skip(i as int)[0] == st);
        assert(subtables@.skip(i as int).drop_first() == subtables@.skip(i + 1));
        if st.horizontal {
            if let Some(k) = st.kerning {
                return k;
            }
        }
        i = i + 1;
    }
    0
}

/// The number of kerning subtables of a face that can be read one after the other.
pub open spec fn kern_count_from(data: Seq<u8>, face_index: u32, i: nat) -> nat
    decreases usize::MAX - i,
{
    if i >= usize::MAX || kern_horizontal_of(data, face_index, i) is None {
        i
    } else {
        kern_count_from(data, face_index, i + 1)
    }
}

/// What the kerning subtable at position `i` says of a pair: a subtable for vertical text is
/// not asked.
pub open spec fn kern_subtable_of(data: Seq<u8>, face_index: u32, i: nat, left: u16, right: u16)
    -> KernSubtable {
    let horizontal = kern_horizontal_of(data, face_index, i) == Some(true);
    KernSubtable {
        horizontal,
        kerning: if horizontal {
            kern_pair_of(data, face_index, i, left, right)
        } else {
            None
        },
    }
}

/// What the kerning subtables of a face say of a pair, in the order of the table.
pub open spec fn kern_subtables_of(data: Seq<u8>, face_index: u32, left: u16, right: u16) -> Seq<
    KernSubtable,
> {
    Seq::new(
        kern_count_from(data, face_index, 0),
        |i: int| kern_subtable_of(data, face_index, i as nat, left, right),
    )
}

/// The kerning of a pair of glyphs in a face: the adjustment of the first horizontal
/// subtable that holds one for the pair, 0 where none does or the face has no kerning table.
pub open spec fn kerning_of(data: Seq<u8>, face_index: u32, left: u16, right: u16) -> i16 {
    first_kerning_of(kern_subtables_of(data, face_index, left, right))
}

proof fn lemma_kern_count(data: Seq<u8>, face_index: u32, from: nat, i: nat)
    requires
        from <= i <= usize::MAX,
        forall|j: nat| from <= j < i ==> kern_horizontal_of(data, face_index, j) is Some,
    ensures
        kern_count_from(data, face_index, from) == kern_count_from(data, face_index, i),
    decreases i - from,
{
    if from < i {
        lemma_kern_count(data, face_index, from + 1, i);
    }
}

/// Looks up the kerning of a pair of glyphs in a face.
pub fn find_kerning(data: &[u8], face_index: u32, left: u16, right: u16) -> (k: i16)
    ensures
        k == kerning_of(data@, face_index, left, right),
{
    let mut subtables: Vec<KernSubtable> = Vec::new();
    let mut i: usize = 0;
    while i < usize::MAX
        invariant
            subtables@.len() == i,
            forall|j: nat| j < i ==> kern_horizontal_of(data@, face_index, j) is Some,
            kern_count_from(data@, face_index, 0) == kern_count_from(
                data@,
                face_index,
                i as nat,
            ),
            forall|j: int|
                0 <= j < i ==> subtables@[j] == kern_subtable_of(
                    data@,
                    face_index,
                    j as nat,
                    left,
                    right,
                ),
        ensures
            subtables@.len() == kern_count_from(data@, face_index, 0),
            forall|j: int|
                0 <= j < subtables@.len() ==> subtables@[j] == kern_subtable_of(
                    data@,
                    face_index,
                    j as nat,
                    left,
                    right,
                ),
        decreases usize::MAX - i,
    {
        match kern_subtable_horizontal(data, face_index, i) {
            None => {
                break ;
            },
            Some(horizontal) => {
                let kerning = if horizontal {
                    kern_subtable_pair(data, face_index, i, left, right)
                } else {
                    None
                };
                subtables.push(KernSubtable { horizontal, kerning });
            },
        }
        i = i + 1;
        proof {
            lemma_kern_count(data@, face_index, 0, i as nat);
        }
    }
    assert(subtables@ =~= kern_subtables_of(data@, face_index, left, right));
    first_kerning(&subtables)
}

/// One character of a run, with what the font says of it.
#[derive(Debug, Clone, Copy, PartialEq, Eq, Structural)]
pub enum RunItem {
    /// A control character: it draws nothing and breaks the run in two.
    Control,
    /// A character that is drawn.
    Glyph {
        /// The glyph's number in the face.
        id: u16,
        /// How far the glyph moves the pen, if the face says so.
        advance: Option<u16>,
        /// The kerning between the glyph before and this one.
        kerning: i16,
    },
}

/// A glyph and how far right of the run's start its outline begins.
#[derive(Debug, Clone, Copy, PartialEq, Eq, Structural)]
pub struct PlacedGlyph {
    pub id: u16,
    pub offset: i128,
}

/// A shaped run: its glyphs from left to right, and the run's whole advance.
#[derive(Debug, Clone, PartialEq, Eq)]
pub struct GlyphRun {
    pub glyphs: Vec<PlacedGlyph>,
    pub advance: i128,
}

/// Kerning applies to the item at `i` when the item just before it is a glyph too.
pub open spec fn kerned(items: Seq<RunItem>, i: int) -> bool {
    0 < i < items.len() && items[i - 1] is Glyph && items[i] is Glyph
}

/// The kerning that is applied before the item at `i`.
pub open spec fn kerning_at(items: Seq<RunItem>, i: int) -> int {
    if kerned(items, i) {
        items[i]->kerning as int
    } else {
        0
    }
}

/// How far the item at `i` moves the pen once its glyph is drawn.
pub open spec fn advance_at(items: Seq<RunItem>, i: int) -> int {
    match items[i] {
        RunItem::Glyph { advance: Some(a), .. } => a as int,
        _ => 0,
    }
}

/// Where the pen stands before the first `n` items are through: the sum of their kernings,
/// as far as they apply, and advances.
pub open spec fn pen_after(items: Seq<RunItem>, n: int) -> int
    decreases n,
{
    if n <= 0 {
        0
    } else {
        pen_after(items, n - 1) + kerning_at(items, n - 1) + advance_at(items, n - 1)
    }
}

/// Where the outline of the item at `i` begins: at the pen, moved by the kerning if it
/// applies.
pub open spec fn origin_at(items: Seq<RunItem>, i: int) -> int {
    pen_after(items, i) + kerning_at(items, i)
}

/// The glyphs among the first `n` items, each with the place its outline begins at.
pub open spec fn placed(items: Seq<RunItem>, n: int) -> Seq<PlacedGlyph>
    decreases n,
{
    if n <= 0 {
        Seq::empty()
    } else {
        match items[n - 1] {
            RunItem::Glyph { id, .. } => placed(items, n - 1).push(
                PlacedGlyph { id, offset: origin_at(items, n - 1) as i128 },
            ),
            RunItem::Control => placed(items, n - 1),
        }
    }
}

proof fn lemma_pen_bounds(items: Seq<RunItem>, n: int)
    requires
        0 <= n <= items.len(),
    ensures
        -0x8000 * n <= pen_after(items, n) <= 0x1_8000 * n,
    decreases n,
{
    if n > 0 {
        lemma_pen_bounds(items, n - 1);
    }
}

/// Places the glyphs of a run. The pen starts at 0. Each glyph begins at the pen, moved by
/// the kerning with the glyph just before it, and then moves the pen by the kerning and its
/// advance. A control character draws nothing, leaves the pen, and lets no kerning reach
/// across it.
pub fn place_glyphs(items: &Vec<RunItem>) -> (run: GlyphRun)
    ensures
        run.glyphs@ == placed(items@, items@.len() as int),
        run.advance == pen_after(items@, items@.len() as int),
{
    let mut glyphs: Vec<PlacedGlyph> = Vec::new();
    let mut pen: i128 = 0;
    let mut previous_is_glyph = false;
    let mut i: usize = 0;
    while i < items.len()
        invariant
            i <= items.len(),
            pen == pen_after(items@, i as int),
            glyphs@ == placed(items@, i as int),
            previous_is_glyph == (i > 0 && items@[i - 1] is Glyph),
        decreases items.len() - i,
    {
        proof {
            lemma_pen_bounds(items@, i as int);
            lemma_pen_bounds(items@, i + 1);
        }
        match items[i] {
            RunItem::Control => {
                previous_is_glyph = false;
            },
            RunItem::Glyph { id, advance, kerning } => {
                if previous_is_glyph {
                    pen = pen + kerning as i128;
                }
                glyphs.push(PlacedGlyph { id, offset: pen });
                if let Some(a) = advance {
                    pen = pen + a as i128;
                }
                previous_is_glyph = true;
            },
        }
        i = i + 1;
    }
    GlyphRun { glyphs, advance: pen }
}

/// Kerning is applied only between two glyphs that follow each other: the kerning of an item
/// that begins the text, or follows a control character, has no effect on where any glyph
/// is placed nor on the advance of the run.
pub proof fn lemma_kerning_needs_previous_glyph(items: Seq<RunItem>, i: int, kerning: i16)
    requires
        0 <= i < items.len(),
        items[i] is Glyph,
        i == 0 || items[i - 1] is Control,
    ensures
        ({
            let other = items.update(
                i,
                RunItem::Glyph { id: items[i]->id, advance: items[i]->advance, kerning },
            );
            &&& placed(other, items.len() as int) == placed(items, items.len() as int)
            &&& pen_after(other, items.len() as int) == pen_after(items, items.len() as int)
        }),
{
    let other = items.update(
        i,
        RunItem::Glyph { id: items[i]->id, advance: items[i]->advance, kerning },
    );
    lemma_same_run(items, other, items.len() as int);
}

/// Two runs that agree on glyphs, advances and the kernings that apply are placed alike.
proof fn lemma_same_run(a: Seq<RunItem>, b: Seq<RunItem>, n: int)
    requires
        a.len() == b.len(),
        0 <= n <= a.len(),
        forall|j: int|
            0 <= j < a.len() ==> {
                &&& (#[trigger] a[j]) is Glyph == b[j] is Glyph
                &&& a[j] is Glyph ==> a[j]->id == b[j]->id && a[j]->advance == b[j]->advance
                &&& kerning_at(a, j) == kerning_at(b, j)
            },
    ensures
        placed(a, n) == placed(b, n),
        pen_after(a, n) == pen_after(b, n),
    decreases n,
{
    if n > 0 {
        lemma_same_run(a, b, n - 1);
        assert(a[n - 1] is Glyph == b[n - 1] is Glyph);
        assert(advance_at(a, n - 1) == advance_at(b, n - 1));
    }
}

/// The glyph that a face draws for a character: glyph 0 where the face has none for it.
pub open spec fn glyph_of(data: Seq<u8>, face_index: u32, c: char) -> u16 {
    match glyph_index_of(data, face_index, c) {
        Some(id) => id,
        None => 0,
    }
}

/// The character at `i` of a text, with what the face says of it. The kerning is looked up
/// only against a glyph just before it.
pub open spec fn item_of(text: Seq<char>, data: Seq<u8>, face_index: u32, i: int) -> RunItem {
    if control(text[i]) {
        RunItem::Control
    } else {
        let id = glyph_of(data, face_index, text[i]);
        RunItem::Glyph {
            id,
            advance: advance_of(data, face_index, id),
            kerning: if i > 0 && !control(text[i - 1]) {
                kerning_of(data, face_index, glyph_of(data, face_index, text[i - 1]), id)
            } else {
                0
            },
        }
    }
}

/// The characters of a text, with what the face says of each.
pub open spec fn items_of(text: Seq<char>, data: Seq<u8>, face_index: u32) -> Seq<RunItem> {
    Seq::new(text.len(), |i: int| item_of(text, data, face_index, i))
}

/// The nominal height of a face in font units, ascender less descender; `None` where the
/// bytes hold no such face.
pub open spec fn height_of(data: Seq<u8>, face_index: u32) -> Option<i32> {
    match (ascender_of(data, face_index), descender_of(data, face_index)) {
        (Some(a), Some(d)) => Some((a - d) as i32),
        _ => None,
    }
}

/// The nominal height of a face, by which glyph coordinates are divided before they are
/// scaled to a font size.
pub fn face_height(data: &[u8], face_index: u32) -> (h: Option<i32>)
    ensures
        h == height_of(data@, face_index),
{
    match (face_ascender(data, face_index), face_descender(data, face_index)) {
        (Some(a), Some(d)) => Some(a as i32 - d as i32),
        _ => None,
    }
}

/// Looks up every character of a text in a face.
pub fn resolve(text: &str, data: &[u8], face_index: u32) -> (items: Vec<RunItem>)
    ensures
        items@ == items_of(text@, data@, face_index),
{
    let mut items: Vec<RunItem> = Vec::new();
    let mut previous: Option<u16> = None;
    let chars = chars_of(text);
    let n = chars.len();
    let mut i: usize = 0;
    while i < n
        invariant
            i <= n,
            n == text@.len(),
            chars@ == text@,
            items@.len() == i,
            forall|j: int| 0 <= j < i ==> items@[j] == item_of(text@, data@, face_index, j),
            previous == (if i > 0 && !control(text@[i - 1]) {
                Some(glyph_of(data@, face_index, text@[i - 1]))
            } else {
                None
            }),
        decreases n - i,
    {
        let c = chars[i];
        if is_control(c) {
            previous = None;
            items.push(RunItem::Control);
        } else {
            let id = match glyph_index(data, face_index, c) {
                Some(id) => id,
                None => 0,
            };
            let kerning = match previous {
                Some(left) => find_kerning(data, face_index, left, id),
                None => 0,
            };
            let advance = glyph_hor_advance(data, face_index, id);
            items.push(RunItem::Glyph { id, advance, kerning });
            previous = Some(id);
        }
        i = i + 1;
    }
    assert(items@ =~= items_of(text@, data@, face_index));
    items
}

/// Shapes a text in a face: the glyphs of its characters from left to right, each with the
/// place its outline begins at, and the advance of the whole run.
pub fn shape(text: &str, data: &[u8], face_index: u32) -> (run: GlyphRun)
    ensures
        run.glyphs@ == placed(
            items_of(text@, data@, face_index),
            text@.len() as int,
        ),
        run.advance == pen_after(items_of(text@, data@, face_index), text@.len() as int),
{
    let items = resolve(text, data, face_index);
    place_glyphs(&items)
}

/// A text to draw: its shaped run in font units, and what places and paints it. Outlines are
/// divided by the face's height and multiplied by the font size and the size multiplier,
/// shifted left by `hadj` times the run's advance, turned by `angle` degrees and moved to
/// `position`; they are filled in `color`.
#[derive(Debug, Clone, PartialEq, Eq)]
pub struct TextJob {
    pub run: GlyphRun,
    pub height: i32,
    pub position: Point,
    pub angle: Coord,
    pub hadj: Coord,
    pub font_size: Coord,
    pub size_multiplier: Coord,
    pub color: u32,
}

/// The extent of a character in font units, and the face's nominal height to scale it by.
#[derive(Debug, Clone, Copy, PartialEq, Eq, Structural)]
pub struct GlyphMetric {
    pub ascent: i32,
    pub descent: i32,
    pub width: i32,
    pub height: i32,
}

/// The extent of a glyph, from what the face says of it: its box and advance where it has
/// a box, the advance replaced by the width of the box where the face gives none; else the
/// face's own ascender and descender, and its height for the width.
pub open spec fn metric_from(
    ascender: i16,
    descender: i16,
    bbox: Option<(i16, i16, i16, i16)>,
    advance: Option<u16>,
) -> GlyphMetric {
    let height = (ascender - descender) as i32;
    match bbox {
        Some((x_min, y_min, x_max, y_max)) => GlyphMetric {
            ascent: y_max as i32,
            descent: y_min as i32,
            width: match advance {
                Some(a) => a as i32,
                None => (x_max - x_min) as i32,
            },
            height,
        },
        None => GlyphMetric {
            ascent: ascender as i32,
            descent: descender as i32,
            width: height,
            height,
        },
    }
}

/// The extent of a glyph, given what the face says of it.
pub fn glyph_metric(
    ascender: i16,
    descender: i16,
    bbox: Option<(i16, i16, i16, i16)>,
    advance: Option<u16>,
) -> (m: GlyphMetric)
    ensures
        m == metric_from(ascender, descender, bbox, advance),
{
    let height = ascender as i32 - descender as i32;
    match bbox {
        Some((x_min, y_min, x_max, y_max)) => GlyphMetric {
            ascent: y_max as i32,
            descent: y_min as i32,
            width: match advance {
                Some(a) => a as i32,
                None => x_max as i32 - x_min as i32,
            },
            height,
        },
        None => GlyphMetric {
            ascent: ascender as i32,
            descent: descender as i32,
            width: height,
            height,
        },
    }
}

/// The extent of a character in a face; all zero where there is no font, or the bytes hold
/// no such face.
pub open spec fn metric_of(font: Option<(Seq<u8>, u32)>, c: char) -> GlyphMetric {
    let zero = GlyphMetric { ascent: 0, descent: 0, width: 0, height: 0 };
    match font {
        Some((data, face_index)) => match (
            ascender_of(data, face_index),
            descender_of(data, face_index),
        ) {
            (Some(a), Some(d)) => {
                let id = glyph_of(data, face_index, c);
                metric_from(
                    a,
                    d,
                    bounding_box_of(data, face_index, id),
                    advance_of(data, face_index, id),
                )
            },
            _ => zero,
        },
        None => zero,
    }
}

/// Measures a character in a font, given by the bytes of a font file and the number of the
/// face in it.
pub fn char_metric(c: char, font: Option<(&[u8], u32)>) -> (m: GlyphMetric)
    ensures
        m == metric_of(
            match font {
                Some((data, face_index)) => Some((data@, face_index)),
                None => None,
            },
            c,
        ),
{
    let zero = GlyphMetric { ascent: 0, descent: 0, width: 0, height: 0 };
    match font {
        Some((data, face_index)) => {
            match (face_ascender(data, face_index), face_descender(data, face_index)) {
                (Some(a), Some(d)) => {
                    let id = match glyph_index(data, face_index, c) {
                        Some(id) => id,
                        None => 0,
                    };
                    let bbox = glyph_bounding_box(data, face_index, id);
                    let advance = glyph_hor_advance(data, face_index, id);
                    glyph_metric(a, d, bbox, advance)
                },
                _ => zero,
            }
        },
        None => zero,
    }
}

} // verus!
