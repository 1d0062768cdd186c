use wgpugd::clip::{ClipRegion, LayerClippings, HIGHEST_BITS, LOWEST_BITS};
use wgpugd::color::{i32_to_rgba, paint, paint_bits, NA_COLOR};
use wgpugd::coord::{Coord, Point};
use wgpugd::MAX_CLIPPINGS;

fn coord(x: f32) -> Coord {
    Coord::from_bits(x.to_bits())
}

fn point(x: f32, y: f32) -> Point {
    Point { x: coord(x), y: coord(y) }
}

fn samples() -> Vec<f32> {
    let mut v = vec![
        0.0, -0.0, 1.0, -1.0, 0.5, 0.75, 0.999_999_94, 1.000_000_1, 1.5, 2.0, 71.99, 72.0, 72.01,
        99.999, 100.0, 100.5, 503.999_97, 504.0, 504.000_03, 16_777_215.0, 16_777_216.0,
        16_777_218.0, 2_147_483_648.0, 4_294_967_040.0, 4_294_967_296.0, 8_589_934_592.0, 1e-45,
        1e-40, 1.175_494_4e-38, 1e-20, 1e20, f32::MAX, f32::MIN, f32::MIN_POSITIVE, f32::EPSILON,
        f32::INFINITY, f32::NEG_INFINITY, f32::NAN,
    ];
    let negated: Vec<f32> = v.iter().map(|x| -x).collect();
    v.extend(negated);
    v.push(f32::from_bits(0x7fc0_0001));
    v.push(f32::from_bits(0xffff_ffff));
    v.push(f32::from_bits(0x7f80_0001));
    v
}

#[test]
fn coord_keeps_its_bits() {
    for x in samples() {
        assert_eq!(coord(x).to_bits(), x.to_bits());
        assert_eq!(coord(x).bits, x.to_bits());
    }
}

#[test]
fn is_nan_agrees_with_floats() {
    for x in samples() {
        assert_eq!(coord(x).is_nan(), x.is_nan(), "{:?}", x);
    }
}

#[test]
fn is_at_most_zero_agrees_with_floats() {
    for x in samples() {
        assert_eq!(coord(x).is_at_most_zero(), x <= 0.0, "{:?}", x);
    }
}

#[test]
fn is_at_least_agrees_with_floats() {
    let bounds = [
        0u32, 1, 2, 3, 72, 100, 504, 505, 16_777_215, 16_777_216, 16_777_217, 16_777_218,
        2_147_483_647, 2_147_483_648, 4_294_967_040, 4_294_967_041, u32::MAX,
    ];
    for x in samples() {
        for n in bounds {
            // Every u32 is exact in double precision, and so is every single-precision value.
            assert_eq!(coord(x).is_at_least(n), (x as f64) >= (n as f64), "{:?} >= {}", x, n);
        }
    }
}

#[test]
fn sentinel_region_spans_all_finite_numbers() {
    let r = ClipRegion::no_clipping();
    assert_eq!(r.min.x.bits, f32::MIN.to_bits());
    assert_eq!(r.min.y.bits, f32::MIN.to_bits());
    assert_eq!(r.max.x.bits, f32::MAX.to_bits());
    assert_eq!(r.max.y.bits, f32::MAX.to_bits());
    assert_eq!(LOWEST_BITS, f32::MIN.to_bits());
    assert_eq!(HIGHEST_BITS, f32::MAX.to_bits());
}

#[test]
fn region_covers_page_only_from_origin_to_far_corner() {
    let covers = |x0: f32, y0: f32, x1: f32, y1: f32| {
        ClipRegion { min: point(x0, y0), max: point(x1, y1) }.covers_page(100, 50)
    };
    assert!(covers(0.0, 0.0, 100.0, 50.0));
    assert!(covers(-1.0, -0.0, 100.5, 1e9));
    assert!(covers(f32::NEG_INFINITY, -5.0, f32::INFINITY, 50.0));
    assert!(!covers(0.1, 0.0, 100.0, 50.0));
    assert!(!covers(0.0, 1e-40, 100.0, 50.0));
    assert!(!covers(0.0, 0.0, 99.99, 50.0));
    assert!(!covers(0.0, 0.0, 100.0, 49.5));
    assert!(!covers(f32::NAN, 0.0, 100.0, 50.0));
    assert!(!covers(0.0, 0.0, 100.0, f32::NAN));
    assert!(ClipRegion::no_clipping().covers_page(u32::MAX, u32::MAX));
}

#[test]
fn clip_table_starts_with_the_unclipped_layer() {
    let t = LayerClippings::new();
    assert_eq!(t.len(), 1);
    assert_eq!(t.current_layer(), 0);
    let slots = t.to_array();
    assert_eq!(slots.len(), MAX_CLIPPINGS);
    assert!(slots.iter().all(|s| *s == ClipRegion::no_clipping()));
}

#[test]
fn add_clipping_returns_next_layer_and_keeps_current() {
    let mut t = LayerClippings::new();
    assert_eq!(t.add_clipping(point(1.0, 2.0), point(3.0, 4.0)), Some(1));
    assert_eq!(t.add_clipping(point(5.0, 6.0), point(7.0, 8.0)), Some(2));
    assert_eq!(t.current_layer(), 0);
    assert_eq!(t.len(), 3);
    let slots = t.to_array();
    assert_eq!(slots[0], ClipRegion::no_clipping());
    assert_eq!(slots[1], ClipRegion { min: point(1.0, 2.0), max: point(3.0, 4.0) });
    assert_eq!(slots[2], ClipRegion { min: point(5.0, 6.0), max: point(7.0, 8.0) });
    assert_eq!(slots[3], ClipRegion::no_clipping());
    assert_eq!(slots[MAX_CLIPPINGS - 1], ClipRegion::no_clipping());
}

#[test]
fn set_clip_selects_layers_until_the_table_is_full() {
    let mut t = LayerClippings::new();
    for i in 1..MAX_CLIPPINGS {
        let r = t.set_clip(point(i as f32, 1.0), point(50.0, 50.0), 100, 100);
        assert_eq!(r, Some(i as u32));
        assert_eq!(t.current_layer(), i as u32);
        assert_eq!(t.len(), i + 1);
    }
    assert_eq!(t.len(), MAX_CLIPPINGS);
    // The table is full: a further region is refused and nothing changes.
    assert_eq!(t.set_clip(point(2.0, 2.0), point(3.0, 3.0), 100, 100), None);
    assert_eq!(t.current_layer(), (MAX_CLIPPINGS - 1) as u32);
    assert_eq!(t.len(), MAX_CLIPPINGS);
    assert_eq!(t.add_clipping(point(2.0, 2.0), point(3.0, 3.0)), None);
    let slots = t.to_array();
    assert_eq!(slots[0], ClipRegion::no_clipping());
    for i in 1..MAX_CLIPPINGS {
        assert_eq!(slots[i], ClipRegion { min: point(i as f32, 1.0), max: point(50.0, 50.0) });
    }
    // A region that covers the page is still taken: it needs no slot.
    assert_eq!(t.set_clip(point(0.0, 0.0), point(100.0, 100.0), 100, 100), Some(0));
    assert_eq!(t.current_layer(), 0);
    assert_eq!(t.len(), MAX_CLIPPINGS);
}

#[test]
fn paint_tells_colour_from_sentinel() {
    assert_eq!(NA_COLOR, i32::MIN);
    assert_eq!(paint(NA_COLOR), None);
    assert_eq!(paint(0), Some(0));
    assert_eq!(paint(-1), Some(0xffff_ffff));
    assert_eq!(paint(i32::MAX), Some(0x7fff_ffff));
    assert_eq!(paint(i32::MIN + 1), Some(0x8000_0001));
    assert_eq!(paint(0xff00_00ffu32 as i32), Some(0xff00_00ff));
    assert_eq!(paint_bits(None), 0);
    assert_eq!(paint_bits(Some(0x1234_5678)), 0x1234_5678);
}

#[test]
fn i32_to_rgba_splits_channels() {
    assert_eq!(i32_to_rgba(NA_COLOR), [0, 0, 0, 0]);
    assert_eq!(i32_to_rgba(0), [0, 0, 0, 0]);
    assert_eq!(i32_to_rgba(-1), [255, 255, 255, 255]);
    assert_eq!(i32_to_rgba(0x0403_0201), [1, 2, 3, 4]);
    assert_eq!(i32_to_rgba(0xff00_00ffu32 as i32), [255, 0, 0, 255]);
    assert_eq!(i32_to_rgba(0x80ab_cdefu32 as i32), [0xef, 0xcd, 0xab, 0x80]);
    assert_eq!(i32_to_rgba(i32::MAX), [255, 255, 255, 127]);
}
