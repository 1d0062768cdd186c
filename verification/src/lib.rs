//! The render command pipeline of a page-oriented 2D graphics device.
//!
//! A host draws lines, polygons, rectangles, circles and text, changes the clip rectangle and
//! breaks pages. The pipeline decides what is tessellated, stamps the meshes with colour and
//! clip layer, batches them into draw commands, and hands out each finished page with
//! everything a renderer needs. Numbers with a fraction are carried by their bit patterns;
//! tessellating, tracing glyph outlines and talking to the GPU are the caller's part.
//!
//! - [`coord`], [`color`], [`style`]: the values of a drawing call.
//! - [`path`]: paths through points, and the tessellator runs a shape needs.
//! - [`geometry`], [`command`], [`clip`]: a page's vertices and indices, its draw commands,
//!   and the table of clip regions.
//! - [`device`]: the device itself and the page life cycle.
//! - [`font`], [`fonts`], [`text`]: what is read from a font, choosing a face, and shaping
//!   a run of text.
//! - [`export`], [`file`]: the PNG stream of a page, and the name of its file.

pub mod chars;
pub mod clip;
pub mod color;
pub mod command;
pub mod coord;
pub mod device;
pub mod export;
pub mod file;
pub mod font;
pub mod fonts;
pub mod geometry;
pub mod path;
pub mod style;
pub mod text;

use vstd::prelude::*;

verus! {

/// Number of clip layers a page can address, the unclipped layer included.
pub const MAX_CLIPPINGS: usize = 64;

} // verus!
