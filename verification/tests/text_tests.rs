use wgpugd::chars::chars_of;
use wgpugd::coord::{Coord, Point};
use wgpugd::device::GraphicsDevice;
use wgpugd::fonts::{pick_font, FontDBWrapper};
use wgpugd::style::Style;
use wgpugd::text::{
    char_metric, face_height, find_kerning, first_kerning, glyph_metric, is_control, place_glyphs,
    resolve, shape, GlyphMetric, KernSubtable, PlacedGlyph, RunItem,
};

fn be16(v: u16) -> [u8; 2] {
    v.to_be_bytes()
}

fn be32(v: u32) -> [u8; 4] {
    v.to_be_bytes()
}

fn kern_subtable(horizontal: bool, pairs: &[(u16, u16, i16)]) -> Vec<u8> {
    let mut t = Vec::new();
    t.extend(be16(0)); // version
    t.extend(be16((6 + 8 + 6 * pairs.len()) as u16)); // length
    t.push(0); // format
    t.push(if horizontal { 1 } else { 0 }); // coverage
    t.extend(be16(pairs.len() as u16));
    t.extend([0u8; 6]); // search hints
    for (left, right, value) in pairs {
        t.extend(be16(*left));
        t.extend(be16(*right));
        t.extend(value.to_be_bytes());
    }
    t
}

/// A font of four glyphs. Glyph 1 is drawn for `A`, 2 for `V`, 3 for `T`; glyph 0 stands
/// for every other character. Only glyph 1 has an outline, a triangle.
fn font_tables(with_kern: bool) -> Vec<([u8; 4], Vec<u8>)> {
    let mut head = vec![0u8; 54];
    head[18..20].copy_from_slice(&be16(1000)); // units per em
    head[50..52].copy_from_slice(&be16(0)); // short offsets in loca

    let mut hhea = vec![0u8; 36];
    hhea[4..6].copy_from_slice(&800i16.to_be_bytes()); // ascender
    hhea[6..8].copy_from_slice(&(-200i16).to_be_bytes()); // descender
    hhea[34..36].copy_from_slice(&be16(3)); // three advances for four glyphs

    let mut maxp = Vec::new();
    maxp.extend(be32(0x0000_5000));
    maxp.extend(be16(4));

    let mut hmtx = Vec::new();
    for advance in [500u16, 600, 700] {
        hmtx.extend(be16(advance));
        hmtx.extend(be16(0));
    }
    hmtx.extend(be16(0)); // side bearing of glyph 3

    let mut cmap = Vec::new();
    cmap.extend(be16(0)); // version
    cmap.extend(be16(1)); // one encoding
    cmap.extend(be16(0)); // platform: Unicode
    cmap.extend(be16(3)); // encoding
    cmap.extend(be32(12)); // offset of the subtable
    cmap.extend(be16(0)); // format 0
    cmap.extend(be16(262)); // length
    cmap.extend(be16(0)); // language
    let mut ids = [0u8; 256];
    ids[b'A' as usize] = 1;
    ids[b'V' as usize] = 2;
    ids[b'T' as usize] = 3;
    cmap.extend(ids);

    let mut glyph = Vec::new();
    glyph.extend(1i16.to_be_bytes()); // one contour
    glyph.extend([0u8; 8]); // box, not read
    glyph.extend(be16(2)); // last point of the contour
    glyph.extend(be16(0)); // no instructions
    glyph.extend([1u8, 1, 1]); // three points on the curve
    for dx in [10i16, 490, -250] {
        glyph.extend(dx.to_be_bytes());
    }
    for dy in [-20i16, 0, 720] {
        glyph.extend(dy.to_be_bytes());
    }
    glyph.push(0); // padding to an even length
    assert_eq!(glyph.len(), 30);

    let mut loca = Vec::new();
    for offset in [0u16, 0, 15, 15, 15] {
        loca.extend(be16(offset));
    }

    let mut kern = Vec::new();
    kern.extend(be16(0)); // version
    kern.extend(be16(3)); // three subtables
    kern.extend(kern_subtable(false, &[(1, 2, -999)]));
    kern.extend(kern_subtable(true, &[(1, 2, -50), (2, 1, -30)]));
    kern.extend(kern_subtable(true, &[(1, 2, 77), (1, 3, 25)]));

    let mut tables = vec![
        (*b"cmap", cmap),
        (*b"glyf", glyph),
        (*b"head", head),
        (*b"hhea", hhea),
        (*b"hmtx", hmtx),
        (*b"loca", loca),
        (*b"maxp", maxp),
    ];
    if with_kern {
        tables.insert(5, (*b"kern", kern));
    }
    tables
}

fn assemble(tables: Vec<([u8; 4], Vec<u8>)>) -> Vec<u8> {
    let mut font = Vec::new();
    font.extend(be32(0x0001_0000));
    font.extend(be16(tables.len() as u16));
    font.extend([0u8; 6]);
    let mut offset = 12 + 16 * tables.len();
    for (tag, data) in &tables {
        font.extend(tag);
        font.extend(be32(0)); // checksum, not read
        font.extend(be32(offset as u32));
        font.extend(be32(data.len() as u32));
        offset += data.len();
    }
    for (_, data) in &tables {
        font.extend(data);
    }
    font
}

fn test_font() -> Vec<u8> {
    assemble(font_tables(true))
}

fn name_table(family: &str) -> Vec<u8> {
    let utf16 = |s: &str| -> Vec<u8> { s.encode_utf16().flat_map(|c| c.to_be_bytes()).collect() };
    let family = utf16(family);
    let post_script = utf16("Test-Regular");
    let mut t = Vec::new();
    t.extend(be16(0)); // version
    t.extend(be16(2)); // two records
    t.extend(be16(6 + 2 * 12)); // where the strings begin
    let mut offset = 0;
    for (name_id, text) in [(1u16, &family), (6, &post_script)] {
        t.extend(be16(0)); // platform: Unicode
        t.extend(be16(3)); // encoding
        t.extend(be16(0)); // language
        t.extend(be16(name_id));
        t.extend(be16(text.len() as u16));
        t.extend(be16(offset));
        offset += text.len() as u16;
    }
    t.extend(family);
    t.extend(post_script);
    t
}

/// The test font with a family name, as a font database needs it.
fn named_font(family: &str) -> Vec<u8> {
    let mut tables = font_tables(true);
    tables.push((*b"name", name_table(family)));
    assemble(tables)
}

fn coord(x: f32) -> Coord {
    Coord::from_bits(x.to_bits())
}

fn glyph(id: u16, advance: Option<u16>, kerning: i16) -> RunItem {
    RunItem::Glyph { id, advance, kerning }
}

fn placed(id: u16, offset: i128) -> PlacedGlyph {
    PlacedGlyph { id, offset }
}

#[test]
fn the_test_font_is_a_font() {
    let font = test_font();
    let face = ttf_parser::Face::from_slice(&font, 0).unwrap();
    assert_eq!(face.number_of_glyphs(), 4);
    assert_eq!(face.tables().kern.unwrap().subtables.into_iter().count(), 3);
}

#[test]
fn chars_of_gives_every_character() {
    assert_eq!(chars_of(""), Vec::<char>::new());
    assert_eq!(chars_of("aé\n😀z"), vec!['a', 'é', '\n', '😀', 'z']);
}

#[test]
fn control_characters() {
    for c in ['\0', '\t', '\n', '\r', '\u{1f}', '\u{7f}', '\u{80}', '\u{9f}'] {
        assert!(is_control(c), "{:?}", c);
    }
    for c in [' ', 'a', '~', '\u{a0}', 'é', '😀', '\u{10ffff}'] {
        assert!(!is_control(c), "{:?}", c);
    }
    for code in 0u32..0x3000 {
        let c = char::from_u32(code).unwrap();
        assert_eq!(is_control(c), c.is_control(), "{:?}", c);
    }
}

#[test]
fn first_kerning_takes_first_horizontal_entry() {
    let st = |horizontal, kerning| KernSubtable { horizontal, kerning };
    assert_eq!(first_kerning(&vec![]), 0);
    assert_eq!(first_kerning(&vec![st(true, None)]), 0);
    assert_eq!(first_kerning(&vec![st(false, Some(9))]), 0);
    assert_eq!(first_kerning(&vec![st(false, Some(9)), st(true, None), st(true, Some(-4))]), -4);
    assert_eq!(first_kerning(&vec![st(true, Some(3)), st(true, Some(-4))]), 3);
    assert_eq!(first_kerning(&vec![st(true, Some(0)), st(true, Some(-4))]), 0);
    assert_eq!(first_kerning(&vec![st(true, Some(i16::MIN))]), i16::MIN);
}

#[test]
fn find_kerning_reads_the_kerning_table() {
    let font = test_font();
    // The vertical subtable is passed over, the first horizontal one that has the pair wins.
    assert_eq!(find_kerning(&font, 0, 1, 2), -50);
    assert_eq!(find_kerning(&font, 0, 2, 1), -30);
    assert_eq!(find_kerning(&font, 0, 1, 3), 25);
    assert_eq!(find_kerning(&font, 0, 3, 1), 0);
    assert_eq!(find_kerning(&font, 0, 0, 0), 0);
    // No kerning table, no font at all.
    assert_eq!(find_kerning(&assemble(font_tables(false)), 0, 1, 2), 0);
    assert_eq!(find_kerning(&[], 0, 1, 2), 0);
    assert_eq!(find_kerning(&font[..60], 0, 1, 2), 0);
    // A file that is no collection holds one face, whatever number is asked for.
    assert_eq!(find_kerning(&font, 1, 1, 2), -50);
}

#[test]
fn face_height_is_ascender_less_descender() {
    assert_eq!(face_height(&test_font(), 0), Some(1000));
    assert_eq!(face_height(&[], 0), None);
    assert_eq!(face_height(&[0, 1, 0, 0], 0), None);
    assert_eq!(face_height(&test_font()[..40], 0), None);
}

#[test]
fn place_glyphs_advances_and_kerns() {
    let run = place_glyphs(&vec![
        glyph(1, Some(600), -7),
        glyph(2, Some(700), -50),
        glyph(3, None, 25),
        glyph(1, Some(600), 5),
    ]);
    // The first kerning is not applied: nothing stands before the first glyph.
    assert_eq!(
        run.glyphs,
        vec![placed(1, 0), placed(2, 550), placed(3, 1275), placed(1, 1280)]
    );
    assert_eq!(run.advance, 1880);
    let empty = place_glyphs(&vec![]);
    assert_eq!(empty.glyphs, vec![]);
    assert_eq!(empty.advance, 0);
}

#[test]
fn kerning_does_not_reach_across_control_characters() {
    let with = |k1: i16, k2: i16| {
        place_glyphs(&vec![
            glyph(1, Some(600), k1),
            RunItem::Control,
            glyph(2, Some(700), k2),
            glyph(1, Some(600), -30),
        ])
    };
    let run = with(0, 0);
    assert_eq!(run.glyphs, vec![placed(1, 0), placed(2, 600), placed(1, 1270)]);
    assert_eq!(run.advance, 1870);
    // Neither at the start of the text nor right after a control character.
    assert_eq!(with(-100, 0), run);
    assert_eq!(with(0, -50), run);
    assert_eq!(with(i16::MAX, i16::MIN), run);
    let only_controls = place_glyphs(&vec![RunItem::Control, RunItem::Control]);
    assert_eq!(only_controls.glyphs, vec![]);
    assert_eq!(only_controls.advance, 0);
}

#[test]
fn resolve_looks_up_glyphs_advances_and_kerning() {
    let font = test_font();
    assert_eq!(
        resolve("AV\nVAxT", &font, 0),
        vec![
            glyph(1, Some(600), 0),
            glyph(2, Some(700), -50),
            RunItem::Control,
            glyph(2, Some(700), 0),
            glyph(1, Some(600), -30),
            glyph(0, Some(500), 0),
            glyph(3, Some(700), 0),
        ]
    );
    assert_eq!(resolve("", &font, 0), vec![]);
    // Without a face every character is glyph 0 and nothing is known of it.
    assert_eq!(resolve("A\tV", &[], 0), vec![glyph(0, None, 0), RunItem::Control, glyph(0, None, 0)]);
}

#[test]
fn shape_places_a_run() {
    let font = test_font();
    let run = shape("AVA", &font, 0);
    assert_eq!(run.glyphs, vec![placed(1, 0), placed(2, 550), placed(1, 1220)]);
    assert_eq!(run.advance, 1820);
    let run = shape("AV\u{7}VA AT", &font, 0);
    assert_eq!(
        run.glyphs,
        vec![
            placed(1, 0),
            placed(2, 550),
            placed(2, 1250),
            placed(1, 1920),
            placed(0, 2520),
            placed(1, 3020),
            placed(3, 3645),
        ]
    );
    assert_eq!(run.advance, 4345);
    let without = shape("AVA", &assemble(font_tables(false)), 0);
    assert_eq!(without.glyphs, vec![placed(1, 0), placed(2, 600), placed(1, 1300)]);
    assert_eq!(without.advance, 1900);
    assert_eq!(shape("", &font, 0).advance, 0);
}

#[test]
fn glyph_metric_prefers_box_and_advance() {
    assert_eq!(
        glyph_metric(800, -200, Some((10, -20, 500, 700)), Some(600)),
        GlyphMetric { ascent: 700, descent: -20, width: 600, height: 1000 }
    );
    assert_eq!(
        glyph_metric(800, -200, Some((10, -20, 500, 700)), None),
        GlyphMetric { ascent: 700, descent: -20, width: 490, height: 1000 }
    );
    assert_eq!(
        glyph_metric(800, -200, None, Some(600)),
        GlyphMetric { ascent: 800, descent: -200, width: 1000, height: 1000 }
    );
    assert_eq!(
        glyph_metric(i16::MAX, i16::MIN, Some((i16::MIN, 0, i16::MAX, 0)), None),
        GlyphMetric { ascent: 0, descent: 0, width: 65535, height: 65535 }
    );
}

#[test]
fn char_metric_measures_in_font_units() {
    let font = test_font();
    assert_eq!(
        char_metric('A', Some((&font, 0))),
        GlyphMetric { ascent: 700, descent: -20, width: 600, height: 1000 }
    );
    // No outline: the face's own extent, its height for the width.
    assert_eq!(
        char_metric('V', Some((&font, 0))),
        GlyphMetric { ascent: 800, descent: -200, width: 1000, height: 1000 }
    );
    assert_eq!(
        char_metric('x', Some((&font, 0))),
        GlyphMetric { ascent: 800, descent: -200, width: 1000, height: 1000 }
    );
    let zero = GlyphMetric { ascent: 0, descent: 0, width: 0, height: 0 };
    assert_eq!(char_metric('A', None), zero);
    assert_eq!(char_metric('A', Some((&[], 0))), zero);
    assert_eq!(char_metric('A', Some((&font[..100], 0))), zero);
}

fn text_style(color: Option<u32>) -> Style {
    Style {
        stroke_color: color,
        fill_color: Some(0xff00_00ff),
        line_width: coord(0.75),
        line_cap_code: 1,
        line_join_code: 1,
        miter_limit: coord(10.0),
        font_family: String::from("Test"),
        font_face_code: 1,
        font_size: coord(12.0),
        size_multiplier: coord(1.5),
    }
}

#[test]
fn text_job_carries_run_and_placement() {
    let font = test_font();
    let d = GraphicsDevice::new(100, 100);
    let pos = Point { x: coord(10.0), y: coord(20.0) };
    let job = d
        .text(pos, "AV", coord(90.0), coord(0.5), &text_style(Some(0xff12_3456)), Some((&font, 0)))
        .unwrap()
        .unwrap();
    assert_eq!(job.run.glyphs, vec![placed(1, 0), placed(2, 550)]);
    assert_eq!(job.run.advance, 1250);
    assert_eq!(job.height, 1000);
    assert_eq!(job.position, pos);
    assert_eq!(job.angle, coord(90.0));
    assert_eq!(job.hadj, coord(0.5));
    assert_eq!(job.font_size, coord(12.0));
    assert_eq!(job.size_multiplier, coord(1.5));
    assert_eq!(job.color, 0xff12_3456);
}

#[test]
fn text_without_colour_or_font_draws_nothing() {
    let font = test_font();
    let d = GraphicsDevice::new(100, 100);
    let pos = Point { x: coord(10.0), y: coord(20.0) };
    let text = |style: &Style, font: Option<(&[u8], u32)>| {
        d.text(pos, "AV", coord(0.0), coord(0.0), style, font).unwrap()
    };
    assert_eq!(text(&text_style(None), Some((&font, 0))), None);
    assert_eq!(text(&text_style(Some(1)), None), None);
    assert_eq!(text(&text_style(Some(1)), Some((&[], 0))), None);
    assert_eq!(text(&text_style(Some(1)), Some((&font[..100], 0))), None);
    assert!(text(&text_style(Some(1)), Some((&font, 0))).is_some());
}

#[test]
fn pick_font_prefers_the_family_found() {
    let a = fontdb::ID::dummy();
    assert_eq!(pick_font(Some(a), None), Some(a));
    assert_eq!(pick_font(Some(a), Some(a)), Some(a));
    assert_eq!(pick_font(None, Some(a)), Some(a));
    assert_eq!(pick_font(None, None), None);
}

#[test]
fn query_finds_a_loaded_family_and_falls_back_for_others() {
    let mut db = fontdb::Database::new();
    db.load_font_data(named_font("Test Sans"));
    assert_eq!(db.len(), 1);
    let id = db.faces()[0].id;

    // The database's sans-serif family is not loaded: there is no fallback.
    let fonts = FontDBWrapper::new(db.clone());
    assert_eq!(fonts.database().len(), 1);
    assert_eq!(fonts.database().faces()[0].id, id);
    assert_eq!(fonts.fallback_id(), None);
    for face in [1, 2, 3, 4, 0, 5] {
        assert_eq!(fonts.query("Test Sans", face), Some(id));
        assert_eq!(fonts.query("Other", face), None);
    }
    assert_eq!(fonts.query("test sans", 1), None);

    // With the loaded family as the sans-serif family, it stands in for every other.
    db.set_sans_serif_family("Test Sans");
    let fonts = FontDBWrapper::new(db);
    assert_eq!(fonts.fallback_id(), Some(id));
    assert_eq!(fonts.query("Other", 1), Some(id));
    assert_eq!(fonts.query("Test Sans", 4), Some(id));
}

#[test]
fn query_prefers_the_family_asked_for_to_the_fallback() {
    let mut db = fontdb::Database::new();
    db.load_font_data(named_font("First"));
    db.load_font_data(named_font("Second"));
    assert_eq!(db.len(), 2);
    let first = db.faces()[0].id;
    let second = db.faces()[1].id;
    assert_ne!(first, second);
    db.set_sans_serif_family("Second");
    let fonts = FontDBWrapper::new(db);
    assert_eq!(fonts.fallback_id(), Some(second));
    assert_eq!(fonts.query("First", 1), Some(first));
    assert_eq!(fonts.query("Second", 1), Some(second));
    assert_eq!(fonts.query("Third", 1), Some(second));
    // The face returned is of the family asked for.
    let family = |id: Option<fontdb::ID>| fonts.database().face(id.unwrap()).unwrap().family.clone();
    assert_eq!(family(fonts.query("First", 3)), "First");
    assert_eq!(family(fonts.query("Second", 2)), "Second");
    assert_eq!(family(fonts.fallback_id()), "Second");
}

#[test]
fn empty_database_has_no_font() {
    let fonts = FontDBWrapper::new(fontdb::Database::new());
    assert_eq!(fonts.fallback_id(), None);
    assert_eq!(fonts.query("Helvetica", 1), None);
    assert_eq!(fonts.query("", 9), None);
    assert!(fonts.database().is_empty());
}
