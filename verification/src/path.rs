//! Paths through a list of points, and the tessellation work that a drawing call asks for.

use crate::coord::Point;
use crate::style::StrokeStyle;
use vstd::prelude::*;

verus! {

/// Why no path was built.
#[derive(Debug, Clone, Copy, PartialEq, Eq, Structural)]
pub enum PathError {
    /// A path needs at least one point to begin at.
    NoPoints,
}

/// A path of straight edges: it begins at the first point, runs through the others in order
/// and, if closed, goes back to the first.
#[derive(Debug, Clone, PartialEq, Eq)]
pub struct Path {
    points: Vec<Point>,
    closed: bool,
}

/// The points that a pen passes when it draws the path, the point it ends on included.
pub open spec fn traced(points: Seq<Point>, closed: bool) -> Seq<Point> {
    if closed && points.len() > 0 {
        points.push(points[0])
    } else {
        points
    }
}

impl Path {
    pub closed spec fn points(&self) -> Seq<Point> {
        self.points@
    }

    pub closed spec fn closed(&self) -> bool {
        self.closed
    }

    /// A path has a point to begin at.
    pub open spec fn wf(&self) -> bool {
        self.points().len() > 0
    }

    /// The path through `points`; an empty list gives no path.
    pub fn new(points: &[Point], close: bool) -> (r: Result<Path, PathError>)
        ensures
            points@.len() == 0 <==> r is Err,
            r is Err ==> r == Err::<Path, PathError>(PathError::NoPoints),
            r matches Ok(p) ==> p.wf() && p.points() == points@ && p.closed() == close,
    {
        if points.len() == 0 {
            return Err(PathError::NoPoints);
        }
        let mut own: Vec<Point> = Vec::new();
        let mut i: usize = 0;
        while i < points.len()
            invariant
                i <= points.len(),
                own@ == points@.take(i as int),
            decreases points.len() - i,
        {
            own.push(points[i]);
            i = i + 1;
        }
        assert(points@.take(i as int) == points@);
        Ok(Path { points: own, closed: close })
    }

    pub fn point_list(&self) -> (v: &Vec<Point>)
        ensures
            v@ == self.points(),
    {
        &self.points
    }

    pub fn is_closed(&self) -> (c: bool)
        ensures
            c == self.closed(),
    {
        self.closed
    }

    /// The number of straight edges: one between each point and the next, and one more back
    /// to the start if the path is closed.
    pub fn edge_count(&self) -> (n: usize)
        requires
            self.wf(),
        ensures
            n == traced(self.points(), self.closed()).len() - 1,
    {
        if self.closed {
            self.points.len()
        } else {
            self.points.len() - 1
        }
    }

    /// The point that the path begins at.
    pub fn first_point(&self) -> (p: Point)
        requires
            self.wf(),
        ensures
            p == traced(self.points(), self.closed()).first(),
            p == self.points().first(),
    {
        self.points[0]
    }

    /// The point that the path ends on: the first point again if the path is closed, else
    /// the last point given. So a closed path ends where it began, and an open path does so
    /// only if its first and last points were given equal.
    pub fn last_point(&self) -> (p: Point)
        requires
            self.wf(),
        ensures
            p == traced(self.points(), self.closed()).last(),
            self.closed() ==> p == self.points().first(),
            !self.closed() ==> p == self.points().last(),
    {
        if self.closed {
            self.points[0]
        } else {
            self.points[self.points.len() - 1]
        }
    }
}

/// A closed path ends on the point it began at; an open path ends on the last point given,
/// which is the first only where the two were given equal.
pub proof fn lemma_traced_ends(points: Seq<Point>, closed: bool)
    requires
        points.len() > 0,
    ensures
        traced(points, closed).first() == points.first(),
        closed ==> traced(points, closed).last() == traced(points, closed).first(),
        !closed ==> traced(points, closed).last() == points.last(),
        !closed ==> (traced(points, closed).last() == traced(points, closed).first()
            <==> points.last() == points.first()),
{
}

/// What is handed to the tessellator.
#[derive(Debug, Clone, PartialEq, Eq)]
pub enum Shape {
    /// A path of straight edges.
    Path(Path),
    /// The axis-aligned rectangle with these two opposite corners.
    Rect { from: Point, to: Point },
}

/// Whether the inside of a shape is tessellated or its outline.
#[derive(Debug, Clone, Copy, PartialEq, Eq, Structural)]
pub enum Paint {
    Fill,
    Stroke(StrokeStyle),
}

/// One run of the tessellator, and the colour of the mesh that comes out of it.
#[derive(Debug, Clone, Copy, PartialEq, Eq, Structural)]
pub struct TessJob {
    pub paint: Paint,
    pub color: u32,
}

/// The tessellator runs that a shape with these paints needs, in the order in which their
/// meshes are drawn: the fill, then the stroke; a paint without a colour is skipped.
pub open spec fn jobs_of(fill: Option<u32>, stroke: Option<u32>, style: StrokeStyle) -> Seq<
    TessJob,
> {
    let fills = match fill {
        Some(color) => seq![TessJob { paint: Paint::Fill, color }],
        None => Seq::<TessJob>::empty(),
    };
    let strokes = match stroke {
        Some(color) => seq![TessJob { paint: Paint::Stroke(style), color }],
        None => Seq::<TessJob>::empty(),
    };
    fills + strokes
}

/// A shape and the tessellator runs to make on it.
#[derive(Debug, Clone, PartialEq, Eq)]
pub struct DrawPlan {
    pub shape: Shape,
    pub jobs: Vec<TessJob>,
}

/// The fill of a shape: one run of the tessellator, or none where there is no colour.
pub fn tesselate_fill(fill: Option<u32>) -> (job: Option<TessJob>)
    ensures
        job == match fill {
            Some(color) => Some(TessJob { paint: Paint::Fill, color }),
            None => None,
        },
{
    match fill {
        Some(color) => Some(TessJob { paint: Paint::Fill, color }),
        None => None,
    }
}

/// The stroke of a shape: one run of the tessellator, or none where there is no colour.
pub fn tesselate_stroke(stroke: Option<u32>, style: StrokeStyle) -> (job: Option<TessJob>)
    ensures
        job == match stroke {
            Some(color) => Some(TessJob { paint: Paint::Stroke(style), color }),
            None => None,
        },
{
    match stroke {
        Some(color) => Some(TessJob { paint: Paint::Stroke(style), color }),
        None => None,
    }
}

/// The plan for a shape with the given paints: fill first, then stroke.
pub fn plan_shape(shape: Shape, fill: Option<u32>, stroke: Option<u32>, style: StrokeStyle) -> (plan:
    DrawPlan)
    ensures
        plan.shape == shape,
        plan.jobs@ == jobs_of(fill, stroke, style),
{
    let mut jobs: Vec<TessJob> = Vec::new();
    if let Some(job) = tesselate_fill(fill) {
        jobs.push(job);
    }
    if let Some(job) = tesselate_stroke(stroke, style) {
        jobs.push(job);
    }
    assert(jobs@ =~= jobs_of(fill, stroke, style));
    DrawPlan { shape, jobs }
}

/// The plan for lines, polylines and polygons: the path through `points`, open or closed,
/// filled and stroked as far as there is a colour for it.
pub fn polygon_inner(
    points: &[Point],
    color: Option<u32>,
    fill: Option<u32>,
    style: StrokeStyle,
    close: bool,
) -> (r: Result<DrawPlan, PathError>)
    ensures
        points@.len() == 0 <==> r is Err,
        r is Err ==> r == Err::<DrawPlan, PathError>(PathError::NoPoints),
        r matches Ok(plan) ==> {
            &&& plan.shape matches Shape::Path(p)
            &&& p.wf()
            &&& p.points() == points@
            &&& p.closed() == close
            &&& plan.jobs@ == jobs_of(fill, color, style)
        },
{
    match Path::new(points, close) {
        Ok(path) => Ok(plan_shape(Shape::Path(path), fill, color, style)),
        Err(e) => Err(e),
    }
}

/// A shape without a fill colour gets no fill: none of its tessellator runs is a fill, so
/// no fill mesh is ever appended for it.
pub proof fn lemma_no_fill_without_color(stroke: Option<u32>, style: StrokeStyle)
    ensures
        forall|i: int|
            0 <= i < jobs_of(None, stroke, style).len() ==> (#[trigger] jobs_of(
                None,
                stroke,
                style,
            )[i]).paint != Paint::Fill,
        stroke is None ==> jobs_of(None, stroke, style).len() == 0,
{
}

} // verus!
