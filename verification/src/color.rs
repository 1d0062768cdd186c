//! Packed colours as the host hands them over, and the sentinel that stands for no paint.

use vstd::prelude::*;

verus! {

/// The host's integer that stands for "not available": a fill or stroke of this colour is
/// skipped.
pub const NA_COLOR: i32 = i32::MIN;

/// The 32 bits of a host colour read as an unsigned number.
pub open spec fn unsigned_bits(x: i32) -> int {
    if x >= 0 {
        x as int
    } else {
        x + 0x1_0000_0000
    }
}

/// The paint that a host colour asks for: none for the sentinel, else the same 32 bits,
/// alpha in the top byte, then blue, green and red.
pub open spec fn paint_of(x: i32) -> Option<u32> {
    if x == NA_COLOR {
        None
    } else {
        Some(unsigned_bits(x) as u32)
    }
}

/// The channels of a host colour in the order red, green, blue, alpha; all zero for the
/// sentinel.
pub open spec fn channels_of(x: i32) -> Seq<u8> {
    if x == NA_COLOR {
        seq![0u8, 0u8, 0u8, 0u8]
    } else {
        let v = unsigned_bits(x);
        seq![
            (v % 0x100) as u8,
            (v / 0x100 % 0x100) as u8,
            (v / 0x1_0000 % 0x100) as u8,
            (v / 0x100_0000) as u8,
        ]
    }
}

/// The 32 bits of `x` as an unsigned number.
fn reinterpret(x: i32) -> (v: u32)
    ensures
        v == unsigned_bits(x),
{
    if x >= 0 {
        x as u32
    } else {
        let above: i64 = x as i64 + 0x1_0000_0000;
        above as u32
    }
}

/// Tells a colour from the sentinel.
pub fn paint(x: i32) -> (p: Option<u32>)
    ensures
        p == paint_of(x),
{
    if x == NA_COLOR {
        None
    } else {
        Some(reinterpret(x))
    }
}

/// The colour that stands in an instance record for a paint: a skipped paint is fully
/// transparent.
pub fn paint_bits(p: Option<u32>) -> (bits: u32)
    ensures
        bits == match p {
            Some(c) => c,
            None => 0,
        },
{
    match p {
        Some(c) => c,
        None => 0,
    }
}

/// Splits a host colour into red, green, blue and alpha.
pub fn i32_to_rgba(x: i32) -> (rgba: [u8; 4])
    ensures
        rgba@ == channels_of(x),
{
    if x == NA_COLOR {
        return [0, 0, 0, 0];
    }
    let v = reinterpret(x);
    let r: u32 = v & 255;
    let g: u32 = (v >> 8) & 255;
    let b: u32 = (v >> 16) & 255;
    let a: u32 = (v >> 24) & 255;
    assert(r == v % 0x100 && g == v / 0x100 % 0x100 && b == v / 0x1_0000 % 0x100 && a == v
        / 0x100_0000) by (bit_vector)
        requires
            r == v & 255,
            g == (v >> 8) & 255,
            b == (v >> 16) & 255,
            a == (v >> 24) & 255,
    ;
    let rgba = [r as u8, g as u8, b as u8, a as u8];
    assert(rgba@ =~= channels_of(x));
    rgba
}

} // verus!
