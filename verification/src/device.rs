//! The graphics device: what is drawn on the current page, and the page life cycle.

use crate::clip::{ClipRegion, ClipTable, LayerClippings};
use crate::color::paint_bits;
use crate::command::{
    alternating, appended, lemma_appended_alternating, lemma_appended_total,
    lemma_clipping_total, lemma_total_push, total, CommandKind, CommandQueue, DrawCommand,
    WgpugdCommand,
};
use crate::coord::{Coord, Point};
use crate::geometry::{
    indices_in_range, shifted, stamped, GeometryBuffer, GeometryError, Mesh, SDFInstance, Vertex,
};
use crate::path::{jobs_of, plan_shape, polygon_inner, DrawPlan, PathError, Shape, TessJob};
use crate::style::{StrokeStyle, Style};
use crate::text::{face_height, height_of, items_of, pen_after, placed, shape, TextJob};
use crate::MAX_CLIPPINGS;
use vstd::prelude::*;

verus! {

/// Where a device is in its life.
#[derive(Debug, Clone, Copy, PartialEq, Eq, Structural)]
pub enum Phase {
    /// No page has been begun.
    Empty,
    /// A page has been begun and takes drawing calls.
    Accumulating,
    /// The device is closed for good.
    Closed,
}

/// Why a call on the device was refused. A refused call changes nothing.
#[derive(Debug, Clone, Copy, PartialEq, Eq, Structural)]
pub enum DrawError {
    /// The device is closed.
    Closed,
    /// A path needs at least one point.
    NoPoints,
    /// An index of the mesh names no position of it.
    IndexOutOfRange,
    /// The page cannot hold more: a vertex, index or instance count would leave 32 bits.
    TooLarge,
    /// The page number would leave 32 bits.
    TooManyPages,
    /// A plan was not given one mesh for each of its tessellator runs.
    MeshCount,
}

/// A finished page, as it is rendered: its number, its geometry, its circles, and the draw
/// commands in the order of the drawing calls.
#[derive(Debug, Clone, PartialEq, Eq)]
pub struct Page {
    pub page_number: u32,
    pub vertices: Vec<Vertex>,
    pub indices: Vec<u32>,
    pub instances: Vec<SDFInstance>,
    pub commands: Vec<WgpugdCommand>,
}

/// What a page holds.
pub struct PageContent {
    pub vertices: Seq<Vertex>,
    pub indices: Seq<u32>,
    pub instances: Seq<SDFInstance>,
    pub commands: Seq<WgpugdCommand>,
}

impl PageContent {
    pub open spec fn empty() -> PageContent {
        PageContent {
            vertices: Seq::empty(),
            indices: Seq::empty(),
            instances: Seq::empty(),
            commands: Seq::empty(),
        }
    }

    /// Every index names a vertex, every vertex lies in a layer of the clip table, the
    /// polygon commands account for every index and the circle commands for every instance,
    /// and no two neighbouring commands are of the same kind.
    pub open spec fn wf(self) -> bool {
        &&& indices_in_range(self.indices, self.vertices.len())
        &&& forall|i: int|
            0 <= i < self.vertices.len() ==> (#[trigger] self.vertices[i]).layer < MAX_CLIPPINGS
        &&& self.vertices.len() <= u32::MAX
        &&& self.indices.len() <= u32::MAX
        &&& self.instances.len() <= u32::MAX
        &&& total(self.commands, CommandKind::Polygon) == self.indices.len()
        &&& total(self.commands, CommandKind::Sdf) == self.instances.len()
        &&& alternating(self.commands)
    }

    /// The page can take the mesh.
    pub open spec fn fits(self, positions: Seq<Point>, indices: Seq<u32>) -> bool {
        &&& self.vertices.len() + positions.len() <= u32::MAX
        &&& self.indices.len() + indices.len() <= u32::MAX
    }

    /// The page can take all the meshes, one after the other.
    pub open spec fn fits_all(self, meshes: Seq<Mesh>) -> bool {
        &&& self.vertices.len() + positions_in(meshes, meshes.len() as int) <= u32::MAX
        &&& self.indices.len() + indices_in(meshes, meshes.len() as int) <= u32::MAX
    }

    /// The page with a mesh appended in the given colour and layer.
    pub open spec fn with_polygons(
        self,
        positions: Seq<Point>,
        indices: Seq<u32>,
        color: u32,
        layer: u32,
    ) -> PageContent {
        PageContent {
            vertices: self.vertices + stamped(positions, color, layer),
            indices: self.indices + shifted(indices, self.vertices.len()),
            instances: self.instances,
            commands: appended(self.commands, CommandKind::Polygon, indices.len() as u32),
        }
    }

    /// The page with one more circle.
    pub open spec fn with_circle(self, instance: SDFInstance) -> PageContent {
        PageContent {
            vertices: self.vertices,
            indices: self.indices,
            instances: self.instances.push(instance),
            commands: appended(self.commands, CommandKind::Sdf, 1),
        }
    }

    /// The page with a change of clip layer recorded.
    pub open spec fn with_clip_change(self) -> PageContent {
        PageContent {
            vertices: self.vertices,
            indices: self.indices,
            instances: self.instances,
            commands: appended(self.commands, CommandKind::Clipping, 0),
        }
    }
}

impl View for Page {
    type V = PageContent;

    open spec fn view(&self) -> PageContent {
        PageContent {
            vertices: self.vertices@,
            indices: self.indices@,
            instances: self.instances@,
            commands: self.commands@,
        }
    }
}

/// What the tessellator handed back, mesh by mesh: positions and indices.
pub open spec fn mesh_views(meshes: Seq<Mesh>) -> Seq<(Seq<Point>, Seq<u32>)> {
    Seq::new(meshes.len(), |i: int| (meshes[i].positions@, meshes[i].indices@))
}

/// Every index of every mesh names a position of that mesh.
pub open spec fn all_valid(meshes: Seq<Mesh>) -> bool {
    forall|i: int| 0 <= i < meshes.len() ==> (#[trigger] meshes[i]).wf()
}

/// The number of positions in the first `n` meshes.
pub open spec fn positions_in(meshes: Seq<Mesh>, n: int) -> nat
    decreases n,
{
    if n <= 0 {
        0
    } else {
        positions_in(meshes, n - 1) + meshes[n - 1].positions@.len()
    }
}

/// The number of indices in the first `n` meshes.
pub open spec fn indices_in(meshes: Seq<Mesh>, n: int) -> nat
    decreases n,
{
    if n <= 0 {
        0
    } else {
        indices_in(meshes, n - 1) + meshes[n - 1].indices@.len()
    }
}

proof fn lemma_counts_grow(meshes: Seq<Mesh>, n: int, m: int)
    requires
        0 <= n <= m,
    ensures
        positions_in(meshes, n) <= positions_in(meshes, m),
        indices_in(meshes, n) <= indices_in(meshes, m),
    decreases m - n,
{
    if n < m {
        lemma_counts_grow(meshes, n, m - 1);
    }
}

/// What a device holds.
pub struct DeviceState {
    pub width: u32,
    pub height: u32,
    pub page: PageContent,
    pub clip: ClipTable,
    pub page_number: nat,
    pub phase: Phase,
}

impl DeviceState {
    pub open spec fn wf(self) -> bool {
        &&& self.page.wf()
        &&& self.clip.size() <= MAX_CLIPPINGS
        &&& self.clip.current < self.clip.size()
        &&& self.page_number <= u32::MAX
        &&& self.phase == Phase::Empty ==> self.page_number == 0
        &&& self.phase == Phase::Accumulating ==> self.page_number > 0
    }

    /// A device as it is created.
    pub open spec fn fresh(width: u32, height: u32) -> DeviceState {
        DeviceState {
            width,
            height,
            page: PageContent::empty(),
            clip: ClipTable { regions: Seq::empty(), current: 0 },
            page_number: 0,
            phase: Phase::Empty,
        }
    }

    pub open spec fn with_page(self, page: PageContent) -> DeviceState {
        DeviceState { page, ..self }
    }

    /// The device after a mesh was appended in the current layer.
    pub open spec fn with_polygons(self, positions: Seq<Point>, indices: Seq<u32>, color: u32)
        -> DeviceState {
        self.with_page(
            self.page.with_polygons(positions, indices, color, self.clip.current as u32),
        )
    }

    /// The device after the meshes of a plan's tessellator runs were appended in the order
    /// of the runs, each in the colour of its run.
    pub open spec fn with_jobs(self, jobs: Seq<TessJob>, meshes: Seq<(Seq<Point>, Seq<u32>)>)
        -> DeviceState
        decreases jobs.len(),
    {
        if jobs.len() == 0 || meshes.len() < jobs.len() {
            self
        } else {
            let last = jobs.len() - 1;
            self.with_jobs(jobs.drop_last(), meshes).with_polygons(
                meshes[last].0,
                meshes[last].1,
                jobs[last].color,
            )
        }
    }

    /// The device after a circle was drawn.
    pub open spec fn with_circle(self, instance: SDFInstance) -> DeviceState {
        self.with_page(self.page.with_circle(instance))
    }

    /// The device after a request to clip to `region`: the table takes the request, and the
    /// command list records a change of layer unless the request was refused.
    pub open spec fn with_clip(self, region: ClipRegion) -> DeviceState {
        DeviceState {
            clip: self.clip.clipped(region, self.width, self.height),
            page: if self.clip.accepts(region, self.width, self.height) {
                self.page.with_clip_change()
            } else {
                self.page
            },
            ..self
        }
    }

    /// Whether a new page hands out the page drawn so far.
    pub open spec fn flushes_on_new_page(self) -> bool {
        self.phase == Phase::Accumulating
    }

    /// The device after a new page was begun.
    pub open spec fn with_new_page(self) -> DeviceState {
        DeviceState {
            page: if self.flushes_on_new_page() {
                PageContent::empty()
            } else {
                self.page
            },
            page_number: self.page_number + 1,
            phase: Phase::Accumulating,
            ..self
        }
    }

    /// The device after it was closed.
    pub open spec fn with_close(self) -> DeviceState {
        DeviceState { page: PageContent::empty(), phase: Phase::Closed, ..self }
    }
}

/// A page stays well formed when a mesh is appended: the polygon commands still account for
/// every index, and no two neighbouring commands are of the same kind.
pub proof fn lemma_polygons_keep_page(
    page: PageContent,
    positions: Seq<Point>,
    indices: Seq<u32>,
    color: u32,
    layer: u32,
)
    requires
        page.wf(),
        indices_in_range(indices, positions.len()),
        page.fits(positions, indices),
        layer < MAX_CLIPPINGS,
    ensures
        page.with_polygons(positions, indices, color, layer).wf(),
{
    let count = indices.len() as u32;
    lemma_appended_total(page.commands, CommandKind::Polygon, count, CommandKind::Polygon);
    lemma_appended_total(page.commands, CommandKind::Polygon, count, CommandKind::Sdf);
    lemma_appended_alternating(page.commands, CommandKind::Polygon, count);
}

/// A page stays well formed when a circle is drawn: the circle commands still account for
/// every instance, and no two neighbouring commands are of the same kind.
pub proof fn lemma_circle_keeps_page(page: PageContent, instance: SDFInstance)
    requires
        page.wf(),
        page.instances.len() < u32::MAX,
    ensures
        page.with_circle(instance).wf(),
{
    lemma_appended_total(page.commands, CommandKind::Sdf, 1, CommandKind::Sdf);
    lemma_appended_total(page.commands, CommandKind::Sdf, 1, CommandKind::Polygon);
    lemma_appended_alternating(page.commands, CommandKind::Sdf, 1);
}

/// A page stays well formed when a change of clip layer is recorded.
pub proof fn lemma_clip_change_keeps_page(page: PageContent)
    requires
        page.wf(),
    ensures
        page.with_clip_change().wf(),
{
    lemma_clipping_total(page.commands);
    lemma_appended_total(page.commands, CommandKind::Clipping, 0, CommandKind::Polygon);
    lemma_appended_total(page.commands, CommandKind::Clipping, 0, CommandKind::Sdf);
    lemma_appended_alternating(page.commands, CommandKind::Clipping, 0);
}

/// A shape without a fill colour adds nothing for its fill: drawing it appends the mesh of
/// its stroke alone, and nothing at all where the stroke has no colour either.
pub proof fn lemma_missing_fill_appends_nothing(
    state: DeviceState,
    stroke: Option<u32>,
    style: StrokeStyle,
    meshes: Seq<(Seq<Point>, Seq<u32>)>,
)
    requires
        meshes.len() == jobs_of(None, stroke, style).len(),
    ensures
        state.with_jobs(jobs_of(None, stroke, style), meshes) == match stroke {
            Some(color) => state.with_polygons(meshes[0].0, meshes[0].1, color),
            None => state,
        },
{
    let jobs = jobs_of(None, stroke, style);
    if stroke is Some {
        assert(jobs.drop_last().len() == 0);
        assert(state.with_jobs(jobs.drop_last(), meshes) == state);
    }
}

/// Two meshes appended one after the other are drawn by one command: the second mesh adds
/// no command, it makes the last one longer by its index count.
pub proof fn lemma_fills_merge(
    page: PageContent,
    first: (Seq<Point>, Seq<u32>),
    second: (Seq<Point>, Seq<u32>),
    colors: (u32, u32),
    layer: u32,
)
    requires
        page.wf(),
        page.fits(first.0 + second.0, first.1 + second.1),
    ensures
        ({
            let one = page.with_polygons(first.0, first.1, colors.0, layer);
            let two = one.with_polygons(second.0, second.1, colors.1, layer);
            &&& one.commands.len() > 0
            &&& two.commands.len() == one.commands.len()
            &&& two.commands.drop_last() == one.commands.drop_last()
            &&& one.commands.last() is DrawPolygon
            &&& two.commands.last() == WgpugdCommand::DrawPolygon(
                DrawCommand { count: (one.commands.last().count() + second.1.len()) as u32 },
            )
            &&& one.commands.last().count() + second.1.len() <= u32::MAX
        }),
{
    let one = page.with_polygons(first.0, first.1, colors.0, layer);
    let count = first.1.len() as u32;
    lemma_appended_total(page.commands, CommandKind::Polygon, count, CommandKind::Polygon);
    lemma_total_push(one.commands.drop_last(), one.commands.last(), CommandKind::Polygon);
    assert(one.commands.drop_last().push(one.commands.last()) == one.commands);
}

/// A clip request that is not refused keeps two meshes apart: the command list ends in the
/// draw of the first mesh, the change of layer, and a draw of the second mesh alone, whose
/// vertices lie in the layer that the request selected.
pub proof fn lemma_clip_separates_fills(
    state: DeviceState,
    first: (Seq<Point>, Seq<u32>),
    region: ClipRegion,
    second: (Seq<Point>, Seq<u32>),
    colors: (u32, u32),
)
    requires
        state.wf(),
        state.page.fits(first.0 + second.0, first.1 + second.1),
        state.clip.accepts(region, state.width, state.height),
    ensures
        ({
            let one = state.with_polygons(first.0, first.1, colors.0);
            let clipped = one.with_clip(region);
            let two = clipped.with_polygons(second.0, second.1, colors.1);
            &&& one.page.commands.last() is DrawPolygon
            &&& two.page.commands == one.page.commands.push(WgpugdCommand::SetClipping).push(
                WgpugdCommand::DrawPolygon(DrawCommand { count: second.1.len() as u32 }),
            )
            &&& two.page.vertices == one.page.vertices + stamped(
                second.0,
                colors.1,
                clipped.clip.current as u32,
            )
            &&& clipped.clip.current == state.clip.clipped(
                region,
                state.width,
                state.height,
            ).current
        }),
{
}

/// Two states are at the same point of the device's life.
pub open spec fn same_lifecycle(a: DeviceState, b: DeviceState) -> bool {
    a.phase == b.phase && a.page_number == b.page_number
}

/// The first new page of a device hands out nothing. Whatever is drawn then, the second
/// new page hands out page 1 and begins page 2, and a close after that hands out page 2.
pub proof fn lemma_first_pages(width: u32, height: u32, first: DeviceState, second: DeviceState)
    requires
        same_lifecycle(first, DeviceState::fresh(width, height).with_new_page()),
        same_lifecycle(second, first.with_new_page()),
    ensures
        !DeviceState::fresh(width, height).flushes_on_new_page(),
        first.flushes_on_new_page(),
        first.page_number == 1,
        second.page_number == 2,
        second.phase == Phase::Accumulating,
        second.with_close().phase == Phase::Closed,
{
}

/// What a drawing call on a path returns: it is refused on a closed device, and else for
/// an empty list of points; any other call gets the path through the points and the
/// tessellator runs for its paints.
pub open spec fn path_plan_result(
    phase: Phase,
    points: Seq<Point>,
    color: Option<u32>,
    fill: Option<u32>,
    style: &Style,
    close: bool,
    r: Result<DrawPlan, DrawError>,
) -> bool {
    if phase == Phase::Closed {
        r == Err::<DrawPlan, DrawError>(DrawError::Closed)
    } else if points.len() == 0 {
        r == Err::<DrawPlan, DrawError>(DrawError::NoPoints)
    } else {
        &&& r matches Ok(plan)
        &&& plan.shape matches Shape::Path(p)
        &&& p.wf()
        &&& p.points() == points
        &&& p.closed() == close
        &&& plan.jobs@ == jobs_of(fill, color, style.stroke_style_of())
    }
}

/// The pipeline state of a graphics device of a fixed size: what is drawn on the current
/// page, the page number, and the clip table. The clip table and the current layer belong
/// to the device and stay as they are when a page is handed out.
pub struct GraphicsDevice {
    width: u32,
    height: u32,
    geometry: GeometryBuffer,
    instances: Vec<SDFInstance>,
    commands: CommandQueue,
    clippings: LayerClippings,
    page_number: u32,
    phase: Phase,
}

impl View for GraphicsDevice {
    type V = DeviceState;

    closed spec fn view(&self) -> DeviceState {
        DeviceState {
            width: self.width,
            height: self.height,
            page: PageContent {
                vertices: self.geometry.vertices(),
                indices: self.geometry.indices(),
                instances: self.instances@,
                commands: self.commands@,
            },
            clip: self.clippings@,
            page_number: self.page_number as nat,
            phase: self.phase,
        }
    }
}

impl GraphicsDevice {
    /// The device's own lists agree with each other as a page's must.
    pub closed spec fn wf(&self) -> bool {
        &&& self@.wf()
        &&& self.commands.wf()
    }

    /// What holds of every well-formed device.
    pub proof fn lemma_wf(&self)
        requires
            self.wf(),
        ensures
            self@.wf(),
    {
    }

    /// A device for pages of `width` by `height` points, with nothing drawn and no page
    /// begun.
    pub fn new(width: u32, height: u32) -> (d: Self)
        ensures
            d.wf(),
            d@ == DeviceState::fresh(width, height),
    {
        GraphicsDevice {
            width,
            height,
            geometry: GeometryBuffer::new(),
            instances: Vec::new(),
            commands: CommandQueue::new(),
            clippings: LayerClippings::new(),
            page_number: 0,
            phase: Phase::Empty,
        }
    }

    pub fn width(&self) -> (w: u32)
        ensures
            w == self@.width,
    {
        self.width
    }

    pub fn height(&self) -> (h: u32)
        ensures
            h == self@.height,
    {
        self.height
    }

    pub fn phase(&self) -> (p: Phase)
        ensures
            p == self@.phase,
    {
        self.phase
    }

    /// The number of the page being drawn; 0 before the first page.
    pub fn page_number(&self) -> (n: u32)
        ensures
            n == self@.page_number,
    {
        self.page_number
    }

    /// The layer that new geometry is tagged with.
    pub fn current_layer(&self) -> (layer: u32)
        requires
            self.wf(),
        ensures
            layer == self@.clip.current,
            layer < MAX_CLIPPINGS,
    {
        self.clippings.current_layer()
    }

    /// The number of clip layers, the unclipped one included.
    pub fn layer_count(&self) -> (n: usize)
        requires
            self.wf(),
        ensures
            n == self@.clip.size(),
            n <= MAX_CLIPPINGS,
    {
        self.clippings.len()
    }

    /// Whether a request to clip to the rectangle from `from` to `to` would be taken: it is
    /// refused only where the rectangle does not cover the page and the table is full.
    pub fn accepts_clip(&self, from: Point, to: Point) -> (r: bool)
        requires
            self.wf(),
        ensures
            r == self@.clip.accepts(ClipRegion { min: from, max: to }, self@.width, self@.height),
    {
        let region = ClipRegion { min: from, max: to };
        region.covers_page(self.width, self.height) || self.clippings.len() < MAX_CLIPPINGS
    }

    /// The clip table as the drawing stage takes it, one slot per layer.
    pub fn clip_slots(&self) -> (slots: [ClipRegion; MAX_CLIPPINGS])
        requires
            self.wf(),
        ensures
            forall|i: int| 0 <= i < MAX_CLIPPINGS ==> slots[i] == self@.clip.slot(i),
    {
        self.clippings.to_array()
    }

    pub fn vertex_count(&self) -> (n: usize)
        ensures
            n == self@.page.vertices.len(),
    {
        self.geometry.vertex_count()
    }

    pub fn index_count(&self) -> (n: usize)
        ensures
            n == self@.page.indices.len(),
    {
        self.geometry.index_count()
    }

    pub fn instance_count(&self) -> (n: usize)
        ensures
            n == self@.page.instances.len(),
    {
        self.instances.len()
    }

    /// The plan for a drawing call on a path: refused on a closed device and for an empty
    /// list of points.
    fn plan_path(
        &self,
        points: &[Point],
        color: Option<u32>,
        fill: Option<u32>,
        style: &Style,
        close: bool,
    ) -> (r: Result<DrawPlan, DrawError>)
        ensures
            path_plan_result(self@.phase, points@, color, fill, style, close, r),
    {
        if self.phase == Phase::Closed {
            return Err(DrawError::Closed);
        }
        match polygon_inner(points, color, fill, style.stroke_style(), close) {
            Ok(plan) => Ok(plan),
            Err(PathError::NoPoints) => Err(DrawError::NoPoints),
        }
    }

    /// A line from `from` to `to`: an open path of one edge, stroked and never filled.
    pub fn line(&self, from: Point, to: Point, style: &Style) -> (r: Result<DrawPlan, DrawError>)
        ensures
            path_plan_result(
                self@.phase,
                seq![from, to],
                style.stroke_color,
                None,
                style,
                false,
                r,
            ),
    {
        let points = [from, to];
        assert(points@ =~= seq![from, to]);
        self.plan_path(points.as_slice(), style.stroke_color, None, style, false)
    }

    /// A line through the points: an open path, stroked and never filled.
    pub fn polyline(&self, points: &[Point], style: &Style) -> (r: Result<DrawPlan, DrawError>)
        ensures
            path_plan_result(self@.phase, points@, style.stroke_color, None, style, false, r),
    {
        self.plan_path(points, style.stroke_color, None, style, false)
    }

    /// A polygon with the points as corners: a closed path, filled and then stroked.
    pub fn polygon(&self, points: &[Point], style: &Style) -> (r: Result<DrawPlan, DrawError>)
        ensures
            path_plan_result(
                self@.phase,
                points@,
                style.stroke_color,
                style.fill_color,
                style,
                true,
                r,
            ),
    {
        self.plan_path(points, style.stroke_color, style.fill_color, style, true)
    }

    /// The axis-aligned rectangle with `from` and `to` as opposite corners, filled and then
    /// stroked.
    pub fn rect(&self, from: Point, to: Point, style: &Style) -> (r: Result<DrawPlan, DrawError>)
        ensures
            r is Ok <==> self@.phase != Phase::Closed,
            r is Err ==> r == Err::<DrawPlan, DrawError>(DrawError::Closed),
            r matches Ok(plan) ==> {
                &&& plan.shape == Shape::Rect { from, to }
                &&& plan.jobs@ == jobs_of(
                    style.fill_color,
                    style.stroke_color,
                    style.stroke_style_of(),
                )
            },
    {
        if self.phase == Phase::Closed {
            return Err(DrawError::Closed);
        }
        Ok(
            plan_shape(
                Shape::Rect { from, to },
                style.fill_color,
                style.stroke_color,
                style.stroke_style(),
            ),
        )
    }

    /// A text at `pos`, turned by `angle` and aligned by `hadj`, in the font given by the
    /// bytes of a font file and the number of the face in it. The text is painted in the
    /// style's stroke colour, by a fill of its glyphs' outlines. Nothing is to be drawn where
    /// that colour is missing, where there is no font, or where the bytes hold no such face.
    pub fn text(
        &self,
        pos: Point,
        text: &str,
        angle: Coord,
        hadj: Coord,
        style: &Style,
        font: Option<(&[u8], u32)>,
    ) -> (r: Result<Option<TextJob>, DrawError>)
        ensures
            r is Ok <==> self@.phase != Phase::Closed,
            r is Err ==> r == Err::<Option<TextJob>, DrawError>(DrawError::Closed),
            r matches Ok(job) ==> match (style.stroke_color, font) {
                (Some(color), Some((data, face_index))) => match height_of(data@, face_index) {
                    Some(height) => {
                        &&& job matches Some(t)
                        &&& t.run.glyphs@ == placed(
                            items_of(text@, data@, face_index),
                            text@.len() as int,
                        )
                        &&& t.run.advance == pen_after(
                            items_of(text@, data@, face_index),
                            text@.len() as int,
                        )
                        &&& t.height == height
                        &&& t.position == pos
                        &&& t.angle == angle
                        &&& t.hadj == hadj
                        &&& t.font_size == style.font_size
                        &&& t.size_multiplier == style.size_multiplier
                        &&& t.color == color
                    },
                    None => job is None,
                },
                _ => job is None,
            },
    {
        if self.phase == Phase::Closed {
            return Err(DrawError::Closed);
        }
        let color = match style.stroke_color {
            Some(color) => color,
            None => {
                return Ok(None);
            },
        };
        let (data, face_index) = match font {
            Some(f) => f,
            None => {
                return Ok(None);
            },
        };
        let height = match face_height(data, face_index) {
            Some(h) => h,
            None => {
                return Ok(None);
            },
        };
        let run = shape(text, data, face_index);
        Ok(
            Some(
                TextJob {
                    run,
                    height,
                    position: pos,
                    angle,
                    hadj,
                    font_size: style.font_size,
                    size_multiplier: style.size_multiplier,
                    color,
                },
            ),
        )
    }

    /// Appends the mesh of one tessellator run: every position becomes a vertex of the given
    /// colour in the current clip layer, and the index count is recorded as a polygon draw.
    pub fn add_polygons(&mut self, color: u32, mesh: &Mesh) -> (r: Result<(), DrawError>)
        requires
            old(self).wf(),
        ensures
            final(self).wf(),
            r is Ok ==> final(self)@ == old(self)@.with_polygons(
                mesh.positions@,
                mesh.indices@,
                color,
            ),
            r is Err ==> final(self)@ == old(self)@,
            r is Ok <==> old(self)@.phase != Phase::Closed && mesh.wf() && old(self)@.page.fits(
                mesh.positions@,
                mesh.indices@,
            ),
            r == Err::<(), DrawError>(DrawError::Closed) <==> old(self)@.phase == Phase::Closed,
            r == Err::<(), DrawError>(DrawError::IndexOutOfRange) <==> old(self)@.phase
                != Phase::Closed && !mesh.wf(),
            r == Err::<(), DrawError>(DrawError::TooLarge) <==> old(self)@.phase != Phase::Closed
                && mesh.wf() && !old(self)@.page.fits(mesh.positions@, mesh.indices@),
    {
        if self.phase == Phase::Closed {
            return Err(DrawError::Closed);
        }
        let layer = self.clippings.current_layer();
        match self.geometry.append(mesh, color, layer) {
            Ok(count) => {
                proof {
                    lemma_appended_total(
                        self.commands@,
                        CommandKind::Polygon,
                        count,
                        CommandKind::Polygon,
                    );
                    lemma_appended_total(
                        self.commands@,
                        CommandKind::Polygon,
                        count,
                        CommandKind::Sdf,
                    );
                }
                self.commands.append(CommandKind::Polygon, count);
                proof {
                    self.commands.lemma_wf_alternating();
                }
                Ok(())
            },
            Err(GeometryError::IndexOutOfRange) => Err(DrawError::IndexOutOfRange),
            Err(GeometryError::TooLarge) => Err(DrawError::TooLarge),
        }
    }

    /// Appends the meshes of a plan's tessellator runs, one mesh for each run and in the
    /// order of the runs: each as `add_polygons` does, in the colour of its run. Either all
    /// meshes are appended or, where the call is refused, none.
    pub fn add_meshes(&mut self, plan: &DrawPlan, meshes: &Vec<Mesh>) -> (r: Result<
        (),
        DrawError,
    >)
        requires
            old(self).wf(),
        ensures
            final(self).wf(),
            r is Ok ==> final(self)@ == old(self)@.with_jobs(plan.jobs@, mesh_views(meshes@)),
            r is Err ==> final(self)@ == old(self)@,
            r is Ok <==> old(self)@.phase != Phase::Closed && meshes@.len() == plan.jobs@.len()
                && all_valid(meshes@) && old(self)@.page.fits_all(meshes@),
            r == Err::<(), DrawError>(DrawError::Closed) <==> old(self)@.phase == Phase::Closed,
            r == Err::<(), DrawError>(DrawError::MeshCount) <==> old(self)@.phase
                != Phase::Closed && meshes@.len() != plan.jobs@.len(),
            r == Err::<(), DrawError>(DrawError::IndexOutOfRange) <==> old(self)@.phase
                != Phase::Closed && meshes@.len() == plan.jobs@.len() && !all_valid(meshes@),
            r == Err::<(), DrawError>(DrawError::TooLarge) <==> old(self)@.phase != Phase::Closed
                && meshes@.len() == plan.jobs@.len() && all_valid(meshes@) && !old(
                self,
            )@.page.fits_all(meshes@),
    {
        if self.phase == Phase::Closed {
            return Err(DrawError::Closed);
        }
        let count = meshes.len();
        if count != plan.jobs.len() {
            return Err(DrawError::MeshCount);
        }
        // Every mesh must be valid.
        let mut i: usize = 0;
        while i < count
            invariant
                i <= count == meshes@.len(),
                count == plan.jobs@.len(),
                self.wf(),
                self@ == old(self)@,
                self@.phase != Phase::Closed,
                forall|j: int| 0 <= j < i ==> (#[trigger] meshes@[j]).wf(),
            decreases count - i,
        {
            if !meshes[i].is_valid() {
                return Err(DrawError::IndexOutOfRange);
            }
            i = i + 1;
        }
        // All of them together must fit the page.
        let limit: usize = u32::MAX as usize;
        let mut vertices: usize = self.geometry.vertex_count();
        let mut indices: usize = self.geometry.index_count();
        let mut i: usize = 0;
        while i < count
            invariant
                i <= count == meshes@.len(),
                count == plan.jobs@.len(),
                self.wf(),
                self@ == old(self)@,
                self@.phase != Phase::Closed,
                all_valid(meshes@),
                limit == u32::MAX,
                vertices == self@.page.vertices.len() + positions_in(meshes@, i as int),
                indices == self@.page.indices.len() + indices_in(meshes@, i as int),
                vertices <= limit,
                indices <= limit,
            decreases count - i,
        {
            if meshes[i].positions.len() > limit - vertices || meshes[i].indices.len() > limit
                - indices {
                proof {
                    lemma_counts_grow(meshes@, i + 1, count as int);
                }
                return Err(DrawError::TooLarge);
            }
            vertices = vertices + meshes[i].positions.len();
            indices = indices + meshes[i].indices.len();
            i = i + 1;
        }
        let mut i: usize = 0;
        while i < count
            invariant
                i <= count == meshes@.len(),
                count == plan.jobs@.len(),
                self.wf(),
                all_valid(meshes@),
                old(self)@.page.fits_all(meshes@),
                self@.phase != Phase::Closed,
                self@ == old(self)@.with_jobs(plan.jobs@.take(i as int), mesh_views(meshes@)),
                self@.page.vertices.len() == old(self)@.page.vertices.len() + positions_in(
                    meshes@,
                    i as int,
                ),
                self@.page.indices.len() == old(self)@.page.indices.len() + indices_in(
                    meshes@,
                    i as int,
                ),
            decreases count - i,
        {
            proof {
                lemma_counts_grow(meshes@, i + 1, count as int);
                assert(plan.jobs@.take(i + 1).drop_last() == plan.jobs@.take(i as int));
            }
            let appended = self.add_polygons(plan.jobs[i].color, &meshes[i]);
            assert(appended is Ok);
            i = i + 1;
        }
        assert(plan.jobs@.take(count as int) == plan.jobs@);
        Ok(())
    }

    /// Draws a circle: one instance record with the style's colours and line width, recorded
    /// as a circle draw. A paint without a colour is fully transparent.
    pub fn circle(&mut self, center: Point, radius: Coord, style: &Style) -> (r: Result<
        (),
        DrawError,
    >)
        requires
            old(self).wf(),
        ensures
            final(self).wf(),
            r is Ok ==> final(self)@ == old(self)@.with_circle(
                SDFInstance {
                    center,
                    radius,
                    stroke_width: style.line_width,
                    fill_color: match style.fill_color {
                        Some(c) => c,
                        None => 0,
                    },
                    stroke_color: match style.stroke_color {
                        Some(c) => c,
                        None => 0,
                    },
                },
            ),
            r is Err ==> final(self)@ == old(self)@,
            r is Ok <==> old(self)@.phase != Phase::Closed && old(self)@.page.instances.len()
                < u32::MAX,
            r == Err::<(), DrawError>(DrawError::Closed) <==> old(self)@.phase == Phase::Closed,
            r == Err::<(), DrawError>(DrawError::TooLarge) <==> old(self)@.phase != Phase::Closed
                && old(self)@.page.instances.len() >= u32::MAX,
    {
        if self.phase == Phase::Closed {
            return Err(DrawError::Closed);
        }
        if self.instances.len() >= u32::MAX as usize {
            return Err(DrawError::TooLarge);
        }
        self.instances.push(
            SDFInstance {
                center,
                radius,
                stroke_width: style.line_width,
                fill_color: paint_bits(style.fill_color),
                stroke_color: paint_bits(style.stroke_color),
            },
        );
        proof {
            lemma_appended_total(self.commands@, CommandKind::Sdf, 1, CommandKind::Sdf);
            lemma_appended_total(self.commands@, CommandKind::Sdf, 1, CommandKind::Polygon);
        }
        self.commands.append(CommandKind::Sdf, 1);
        proof {
            self.commands.lemma_wf_alternating();
        }
        Ok(())
    }

    /// Makes the rectangle from `from` to `to` the clip of what is drawn next, and returns
    /// the layer that is current after the call. A rectangle that covers the page selects
    /// layer 0, which clips nothing. Any other rectangle gets the next free layer; with the
    /// table full the call changes nothing. A call that is not refused ends the growing
    /// draw command.
    pub fn clip(&mut self, from: Point, to: Point) -> (r: Result<u32, DrawError>)
        requires
            old(self).wf(),
        ensures
            final(self).wf(),
            r is Ok <==> old(self)@.phase != Phase::Closed,
            r is Err ==> r == Err::<u32, DrawError>(DrawError::Closed) && final(self)@ == old(
                self,
            )@,
            r matches Ok(layer) ==> {
                &&& final(self)@ == old(self)@.with_clip(ClipRegion { min: from, max: to })
                &&& layer == final(self)@.clip.current
                &&& layer < MAX_CLIPPINGS
            },
    {
        if self.phase == Phase::Closed {
            return Err(DrawError::Closed);
        }
        match self.clippings.set_clip(from, to, self.width, self.height) {
            Some(layer) => {
                proof {
                    lemma_clipping_total(self.commands@);
                    lemma_appended_total(
                        self.commands@,
                        CommandKind::Clipping,
                        0,
                        CommandKind::Polygon,
                    );
                    lemma_appended_total(
                        self.commands@,
                        CommandKind::Clipping,
                        0,
                        CommandKind::Sdf,
                    );
                }
                self.commands.append(CommandKind::Clipping, 0);
                proof {
                    self.commands.lemma_wf_alternating();
                }
                Ok(layer)
            },
            None => Ok(self.clippings.current_layer()),
        }
    }

    /// Hands out what was drawn and leaves the page empty.
    fn flush(&mut self) -> (page: Page)
        requires
            old(self).wf(),
        ensures
            page@ == old(self)@.page,
            page@.wf(),
            page.page_number == old(self)@.page_number,
            final(self)@ == old(self)@.with_page(PageContent::empty()),
            final(self).commands.wf(),
    {
        proof {
            self.commands.lemma_wf_alternating();
        }
        let (vertices, indices) = self.geometry.take();
        let mut instances = Vec::new();
        std::mem::swap(&mut instances, &mut self.instances);
        let commands = self.commands.finish();
        Page { page_number: self.page_number, vertices, indices, instances, commands }
    }

    /// Begins a new page. Before the first page nothing is handed out and what was drawn
    /// stays; from then on the page drawn so far is handed out for rendering and the device
    /// starts an empty one. The page number goes up by one.
    pub fn new_page(&mut self) -> (r: Result<Option<Page>, DrawError>)
        requires
            old(self).wf(),
        ensures
            final(self).wf(),
            r is Ok <==> old(self)@.phase != Phase::Closed && old(self)@.page_number < u32::MAX,
            r == Err::<Option<Page>, DrawError>(DrawError::Closed) <==> old(self)@.phase
                == Phase::Closed,
            r == Err::<Option<Page>, DrawError>(DrawError::TooManyPages) <==> old(self)@.phase
                != Phase::Closed && old(self)@.page_number >= u32::MAX,
            r is Err ==> final(self)@ == old(self)@,
            r matches Ok(flushed) ==> {
                &&& final(self)@ == old(self)@.with_new_page()
                &&& flushed is Some <==> old(self)@.flushes_on_new_page()
                &&& flushed matches Some(page) ==> {
                    &&& page@ == old(self)@.page
                    &&& page@.wf()
                    &&& page.page_number == old(self)@.page_number
                }
            },
    {
        if self.phase == Phase::Closed {
            return Err(DrawError::Closed);
        }
        if self.page_number == u32::MAX {
            return Err(DrawError::TooManyPages);
        }
        let flushed = if self.phase == Phase::Accumulating {
            Some(self.flush())
        } else {
            None
        };
        self.page_number = self.page_number + 1;
        self.phase = Phase::Accumulating;
        Ok(flushed)
    }

    /// Closes the device: whatever was drawn since the last page break is handed out for
    /// rendering, be it nothing, and the device takes no further calls.
    pub fn close(&mut self) -> (r: Result<Page, DrawError>)
        requires
            old(self).wf(),
        ensures
            final(self).wf(),
            r is Ok <==> old(self)@.phase != Phase::Closed,
            r is Err ==> r == Err::<Page, DrawError>(DrawError::Closed) && final(self)@ == old(
                self,
            )@,
            r matches Ok(page) ==> {
                &&& final(self)@ == old(self)@.with_close()
                &&& page@ == old(self)@.page
                &&& page@.wf()
                &&& page.page_number == old(self)@.page_number
            },
    {
        if self.phase == Phase::Closed {
            return Err(DrawError::Closed);
        }
        let page = self.flush();
        self.phase = Phase::Closed;
        Ok(page)
    }
}

} // verus!
