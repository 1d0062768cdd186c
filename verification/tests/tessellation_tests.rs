use lyon::tessellation::geometry_builder::{BuffersBuilder, VertexBuffers};
use lyon::tessellation::{
    FillOptions, FillTessellator, FillVertex, StrokeOptions, StrokeTessellator, StrokeVertex,
};
use wgpugd::command::{DrawCommand, WgpugdCommand};
use wgpugd::coord::{Coord, Point};
use wgpugd::device::GraphicsDevice;
use wgpugd::geometry::Mesh;
use wgpugd::path::{DrawPlan, Paint, Shape, TessJob};
use wgpugd::style::{LineCap, LineJoin, Style};

fn coord(x: f32) -> Coord {
    Coord::from_bits(x.to_bits())
}

fn value(c: Coord) -> f32 {
    f32::from_bits(c.to_bits())
}

fn point(x: f32, y: f32) -> Point {
    Point { x: coord(x), y: coord(y) }
}

fn translate_line_width(lwd: f64) -> f32 {
    lwd as f32 * 72. / 96.
}

fn style(stroke: Option<u32>, fill: Option<u32>, lwd: f64) -> Style {
    Style {
        stroke_color: stroke,
        fill_color: fill,
        line_width: coord(translate_line_width(lwd)),
        line_cap_code: 1,
        line_join_code: 1,
        miter_limit: coord(10.0),
        font_family: String::new(),
        font_face_code: 1,
        font_size: coord(12.0),
        size_multiplier: coord(1.0),
    }
}

fn lyon_path(shape: &Shape) -> lyon::path::Path {
    match shape {
        Shape::Path(p) => {
            let mut builder = lyon::path::Path::builder();
            let points = p.point_list();
            builder.begin(lyon::math::point(value(points[0].x), value(points[0].y)));
            for q in &points[1..] {
                builder.line_to(lyon::math::point(value(q.x), value(q.y)));
            }
            builder.end(p.is_closed());
            builder.build()
        }
        Shape::Rect { .. } => panic!("not a path"),
    }
}

fn mesh_of(buffers: VertexBuffers<[f32; 2], u32>) -> Mesh {
    Mesh {
        positions: buffers.vertices.iter().map(|v| point(v[0], v[1])).collect(),
        indices: buffers.indices,
    }
}

fn tessellate(shape: &Shape, job: &TessJob) -> Mesh {
    let path = lyon_path(shape);
    let mut buffers: VertexBuffers<[f32; 2], u32> = VertexBuffers::new();
    match job.paint {
        Paint::Fill => {
            FillTessellator::new()
                .tessellate_path(
                    &path,
                    &FillOptions::tolerance(FillOptions::DEFAULT_TOLERANCE),
                    &mut BuffersBuilder::new(&mut buffers, |v: FillVertex| v.position().to_array()),
                )
                .unwrap();
        }
        Paint::Stroke(s) => {
            let options = StrokeOptions::tolerance(FillOptions::DEFAULT_TOLERANCE)
                .with_line_width(value(s.line_width))
                .with_line_cap(match s.line_cap {
                    LineCap::Round => lyon::tessellation::LineCap::Round,
                    LineCap::Butt => lyon::tessellation::LineCap::Butt,
                    LineCap::Square => lyon::tessellation::LineCap::Square,
                })
                .with_line_join(match s.line_join {
                    LineJoin::Round => lyon::tessellation::LineJoin::Round,
                    LineJoin::Miter => lyon::tessellation::LineJoin::Miter,
                    LineJoin::Bevel => lyon::tessellation::LineJoin::Bevel,
                })
                .with_miter_limit(value(s.miter_limit));
            StrokeTessellator::new()
                .tessellate_path(
                    &path,
                    &options,
                    &mut BuffersBuilder::new(&mut buffers, |v: StrokeVertex| {
                        v.position().to_array()
                    }),
                )
                .unwrap();
        }
    }
    mesh_of(buffers)
}

fn draw(device: &mut GraphicsDevice, plan: &DrawPlan) {
    for job in &plan.jobs {
        let mesh = tessellate(&plan.shape, job);
        device.add_polygons(job.color, &mesh).unwrap();
    }
}

#[test]
fn one_line_gives_one_polygon_command_of_the_strokers_size() {
    // What the stroker gives for a two-point open path, 0.75 points wide, round cap and join.
    let mut path = lyon::path::Path::builder();
    path.begin(lyon::math::point(0.0, 0.0));
    path.line_to(lyon::math::point(10.0, 10.0));
    path.end(false);
    let mut expected: VertexBuffers<[f32; 2], u32> = VertexBuffers::new();
    let count = StrokeTessellator::new()
        .tessellate_path(
            &path.build(),
            &StrokeOptions::tolerance(FillOptions::DEFAULT_TOLERANCE)
                .with_line_width(0.75)
                .with_line_cap(lyon::tessellation::LineCap::Round)
                .with_line_join(lyon::tessellation::LineJoin::Round),
            &mut BuffersBuilder::new(&mut expected, |v: StrokeVertex| v.position().to_array()),
        )
        .unwrap();
    assert!(count.indices > 0);

    let mut device = GraphicsDevice::new(100, 100);
    assert_eq!(device.new_page(), Ok(None));
    let black = 0xff00_0000;
    let one_unit = style(Some(black), None, 1.0);
    assert_eq!(one_unit.line_width, coord(0.75));
    let plan = device.line(point(0.0, 0.0), point(10.0, 10.0), &one_unit).unwrap();
    draw(&mut device, &plan);
    let page = device.new_page().unwrap().unwrap();
    assert_eq!(page.commands, vec![WgpugdCommand::DrawPolygon(DrawCommand { count: count.indices })]);
    assert_eq!(page.indices, expected.indices);
    assert_eq!(page.vertices.len(), expected.vertices.len());
    for (v, e) in page.vertices.iter().zip(&expected.vertices) {
        assert_eq!((value(v.position.x), value(v.position.y)), (e[0], e[1]));
        assert_eq!(v.color, black);
        assert_eq!(v.layer, 0);
    }
}

#[test]
fn two_polygon_fills_merge_unless_a_clip_comes_between() {
    let red = 0xff00_00ff;
    let square = [point(0.0, 0.0), point(10.0, 0.0), point(10.0, 10.0), point(0.0, 10.0)];
    let triangle = [point(20.0, 20.0), point(30.0, 20.0), point(20.0, 30.0)];
    let fill = style(None, Some(red), 1.0);

    let mut device = GraphicsDevice::new(100, 100);
    device.new_page().unwrap();
    let first = device.polygon(&square, &fill).unwrap();
    let second = device.polygon(&triangle, &fill).unwrap();
    let n1 = tessellate(&first.shape, &first.jobs[0]).indices.len() as u32;
    let n2 = tessellate(&second.shape, &second.jobs[0]).indices.len() as u32;
    assert!(n1 > 0 && n2 > 0);
    draw(&mut device, &first);
    draw(&mut device, &second);
    let page = device.new_page().unwrap().unwrap();
    assert_eq!(page.commands, vec![WgpugdCommand::DrawPolygon(DrawCommand { count: n1 + n2 })]);

    draw(&mut device, &first);
    assert_eq!(device.clip(point(5.0, 5.0), point(50.0, 50.0)), Ok(1));
    draw(&mut device, &second);
    let page = device.close().unwrap();
    assert_eq!(
        page.commands,
        vec![
            WgpugdCommand::DrawPolygon(DrawCommand { count: n1 }),
            WgpugdCommand::SetClipping,
            WgpugdCommand::DrawPolygon(DrawCommand { count: n2 }),
        ]
    );
    let split = page.vertices.iter().position(|v| v.layer == 1).unwrap();
    assert!(page.vertices[..split].iter().all(|v| v.layer == 0));
    assert!(page.vertices[split..].iter().all(|v| v.layer == 1));
    assert!(page.indices[..n1 as usize].iter().all(|i| (*i as usize) < split));
    assert!(page.indices[n1 as usize..].iter().all(|i| (*i as usize) >= split));
}
