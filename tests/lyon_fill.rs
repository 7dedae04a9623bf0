use canvas_frame::frame::{Frame, TessellationError};
use canvas_frame::geometry::{Point, Size};
use canvas_frame::path::{Path, PathEvent};
use canvas_frame::primitive::{Primitive, VertexBuffers};
use canvas_frame::style::{
    Color, Fill, FillRule, Font, HorizontalAlignment, Paint, Text, VerticalAlignment,
};

use lyon::math::point;
use lyon::tessellation::{BuffersBuilder, FillOptions, FillTessellator, FillVertex};

fn to_lyon(path: &Path) -> lyon::path::Path {
    let mut builder = lyon::path::Path::builder();
    let p = |q: Point| point(q.x as f32, q.y as f32);
    for e in path.events() {
        match *e {
            PathEvent::Begin { at } => {
                builder.begin(p(at));
            }
            PathEvent::Line { to } => {
                builder.line_to(p(to));
            }
            PathEvent::Quadratic { ctrl, to } => {
                builder.quadratic_bezier_to(p(ctrl), p(to));
            }
            PathEvent::Cubic { ctrl1, ctrl2, to } => {
                builder.cubic_bezier_to(p(ctrl1), p(ctrl2), p(to));
            }
            PathEvent::End { close } => builder.end(close),
        }
    }
    builder.build()
}

fn lyon_fill(path: &Path, rule: FillRule) -> Result<VertexBuffers, TessellationError> {
    let rule = match rule {
        FillRule::NonZero => lyon::tessellation::FillRule::NonZero,
        FillRule::EvenOdd => lyon::tessellation::FillRule::EvenOdd,
    };
    let mut out: lyon::tessellation::VertexBuffers<lyon::math::Point, u32> =
        lyon::tessellation::VertexBuffers::new();
    FillTessellator::new()
        .tessellate_path(
            &to_lyon(path),
            &FillOptions::default().with_fill_rule(rule),
            &mut BuffersBuilder::new(&mut out, |v: FillVertex| v.position()),
        )
        .map_err(|_| TessellationError::Internal)?;
    Ok(VertexBuffers {
        vertices: out
            .vertices
            .iter()
            .map(|v| Point::new(v.x.round() as i64, v.y.round() as i64))
            .collect(),
        indices: out.indices,
    })
}

fn bounds(points: &[Point]) -> (i64, i64, i64, i64) {
    let xs = points.iter().map(|p| p.x);
    let ys = points.iter().map(|p| p.y);
    (xs.clone().min().unwrap(), ys.clone().min().unwrap(), xs.max().unwrap(), ys.max().unwrap())
}

#[test]
fn lyon_fill_matches_path_bounds() {
    let path = Path::new(vec![
        PathEvent::Begin { at: Point::new(3, 4) },
        PathEvent::Line { to: Point::new(40, 4) },
        PathEvent::Line { to: Point::new(25, 30) },
        PathEvent::Line { to: Point::new(3, 17) },
        PathEvent::End { close: true },
    ]);
    let mut frame = Frame::new(Size::new(64, 64));
    frame
        .fill(&path, Fill { style: Paint::Solid(Color { r: 9, g: 9, b: 9, a: 255 }), rule: FillRule::NonZero }, lyon_fill)
        .unwrap();
    frame.fill_text(Text {
        content: "label".to_string(),
        position: Point::new(0, 0),
        color: Color { r: 0, g: 0, b: 0, a: 255 },
        size: 10,
        font: Font::Default,
        horizontal_alignment: HorizontalAlignment::Center,
        vertical_alignment: VerticalAlignment::Center,
    });
    let children = match frame.into_geometry().into_primitive() {
        Primitive::Group { primitives } => primitives,
        other => panic!("root is not a group: {:?}", other),
    };
    match &children[1] {
        Primitive::Mesh2D { buffers, .. } => {
            assert_eq!(bounds(&buffers.vertices), (3, 4, 40, 30));
            assert_eq!(buffers.indices.len() % 3, 0);
            assert!(!buffers.indices.is_empty());
        }
        other => panic!("not a mesh: {:?}", other),
    }
}
