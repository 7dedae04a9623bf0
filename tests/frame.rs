use std::cell::RefCell;

use canvas_frame::frame::{Frame, TessellationError};
use canvas_frame::geometry::{Point, Rectangle, Size, Vector};
use canvas_frame::path::{Path, PathEvent};
use canvas_frame::primitive::{compose_clip, partition_text, Geometry, Primitive, VertexBuffers};
use canvas_frame::style::{
    Color, Fill, FillRule, Font, HorizontalAlignment, LineCap, LineDash, LineJoin, Paint, Stroke,
    StrokeOptions, Text, VerticalAlignment,
};
use canvas_frame::transform::Affine;

fn black() -> Paint {
    Paint::Solid(Color { r: 0, g: 0, b: 0, a: 255 })
}

fn solid_fill() -> Fill {
    Fill { style: black(), rule: FillRule::NonZero }
}

fn text_at(x: i64, y: i64, content: &str) -> Text {
    Text {
        content: content.to_string(),
        position: Point::new(x, y),
        color: Color { r: 1, g: 2, b: 3, a: 4 },
        size: 16,
        font: Font::Default,
        horizontal_alignment: HorizontalAlignment::Left,
        vertical_alignment: VerticalAlignment::Top,
    }
}

fn square_path(x: i64, y: i64, side: i64) -> Path {
    Path::new(vec![
        PathEvent::Begin { at: Point::new(x, y) },
        PathEvent::Line { to: Point::new(x + side, y) },
        PathEvent::Line { to: Point::new(x + side, y + side) },
        PathEvent::Line { to: Point::new(x, y + side) },
        PathEvent::End { close: true },
    ])
}

/// A stand-in tessellator: the path's points become the vertices.
fn points_of(path: &Path) -> VertexBuffers {
    let mut vertices = Vec::new();
    for e in path.events() {
        match *e {
            PathEvent::Begin { at } => vertices.push(at),
            PathEvent::Line { to } => vertices.push(to),
            PathEvent::Quadratic { ctrl, to } => {
                vertices.push(ctrl);
                vertices.push(to);
            }
            PathEvent::Cubic { ctrl1, ctrl2, to } => {
                vertices.push(ctrl1);
                vertices.push(ctrl2);
                vertices.push(to);
            }
            PathEvent::End { .. } => {}
        }
    }
    VertexBuffers { vertices, indices: vec![0, 1, 2] }
}

fn root_children(g: Geometry) -> Vec<Primitive> {
    match g.into_primitive() {
        Primitive::Group { primitives } => primitives,
        other => panic!("root is not a group: {:?}", other),
    }
}

fn text_position(p: &Primitive) -> Point {
    match p {
        Primitive::Text { position, .. } => *position,
        other => panic!("not text: {:?}", other),
    }
}

#[test]
fn empty_frame_exports_empty_group() {
    let frame = Frame::new(Size::new(100, 50));
    assert!(root_children(frame.into_geometry()).is_empty());
}

#[test]
fn frame_with_only_meshes_exports_nothing() {
    let mut frame = Frame::new(Size::new(100, 50));
    let r = frame.fill(&square_path(0, 0, 10), solid_fill(), |p, _| Ok(points_of(p)));
    assert_eq!(r, Ok(()));
    frame.fill_rectangle(Point::new(0, 0), Size::new(3, 3), solid_fill());
    assert!(root_children(frame.into_geometry()).is_empty());
}

#[test]
fn text_is_exported_before_meshes() {
    let mut frame = Frame::new(Size::new(100, 50));
    frame.fill(&square_path(0, 0, 10), solid_fill(), |p, _| Ok(points_of(p))).unwrap();
    frame.fill_text(text_at(5, 6, "hello"));
    let children = root_children(frame.into_geometry());
    assert_eq!(children.len(), 2);
    assert_eq!(text_position(&children[0]), Point::new(5, 6));
    match &children[1] {
        Primitive::Mesh2D { buffers, size, paint } => {
            assert_eq!(*size, Size::new(100, 50));
            assert_eq!(*paint, black());
            assert_eq!(buffers.vertices[2], Point::new(10, 10));
        }
        other => panic!("not a mesh: {:?}", other),
    }
}

#[test]
fn accessors_report_size_and_center() {
    let frame = Frame::new(Size::new(101, 50));
    assert_eq!(frame.width(), 101);
    assert_eq!(frame.height(), 50);
    assert_eq!(frame.size(), Size::new(101, 50));
    assert_eq!(frame.center(), Point::new(50, 25));
}

#[test]
fn fill_on_identity_hands_the_path_unchanged() {
    let mut frame = Frame::new(Size::new(100, 100));
    let seen = RefCell::new(None);
    let path = square_path(1, 2, 3);
    frame
        .fill(&path, Fill { style: black(), rule: FillRule::EvenOdd }, |p, rule| {
            *seen.borrow_mut() = Some((p.clone(), rule));
            Ok(points_of(p))
        })
        .unwrap();
    assert_eq!(seen.into_inner(), Some((path, FillRule::EvenOdd)));
}

#[test]
fn translate_then_fill_equals_fill_of_moved_path() {
    let path = square_path(0, 0, 10);
    let mut moved = Frame::new(Size::new(100, 100));
    moved.translate(Vector::new(7, -3));
    let seen_moved = RefCell::new(None);
    moved
        .fill(&path, solid_fill(), |p, _| {
            *seen_moved.borrow_mut() = Some(p.clone());
            Ok(points_of(p))
        })
        .unwrap();

    let mut plain = Frame::new(Size::new(100, 100));
    let seen_plain = RefCell::new(None);
    let shifted = path.transformed(&Affine { m11: 1, m12: 0, m21: 0, m22: 1, m31: 7, m32: -3 }).unwrap();
    plain
        .fill(&shifted, solid_fill(), |p, _| {
            *seen_plain.borrow_mut() = Some(p.clone());
            Ok(points_of(p))
        })
        .unwrap();

    let a = seen_moved.into_inner().unwrap();
    assert_eq!(Some(a.clone()), seen_plain.into_inner());
    assert_eq!(a, square_path(7, -3, 10));
}

#[test]
fn failed_tessellation_leaves_frame_unchanged() {
    let mut frame = Frame::new(Size::new(10, 10));
    frame.fill_text(text_at(0, 0, "t"));
    let r = frame.fill(&square_path(0, 0, 1), solid_fill(), |_, _| Err(TessellationError::Internal));
    assert_eq!(r, Err(TessellationError::Internal));
    let children = root_children(frame.into_geometry());
    assert_eq!(children.len(), 1);
}

#[test]
fn fill_reports_coordinate_overflow() {
    let mut frame = Frame::new(Size::new(10, 10));
    frame.translate(Vector::new(i64::MAX, 0));
    let called = RefCell::new(false);
    let r = frame.fill(&square_path(0, 0, 1), solid_fill(), |p, _| {
        *called.borrow_mut() = true;
        Ok(points_of(p))
    });
    assert_eq!(r, Err(TessellationError::CoordinateOverflow));
    assert!(!called.into_inner());
}

#[test]
fn with_save_restores_transform() {
    let mut frame = Frame::new(Size::new(100, 100));
    frame.with_save(|f| {
        f.translate(Vector::new(10, 0));
        f.fill_text(text_at(0, 0, "inside"));
    });
    frame.fill_text(text_at(0, 0, "after"));
    let children = root_children(frame.into_geometry());
    assert_eq!(text_position(&children[0]), Point::new(10, 0));
    assert_eq!(text_position(&children[1]), Point::new(0, 0));
}

#[test]
fn nested_saves_restore_each_level() {
    let mut frame = Frame::new(Size::new(100, 100));
    frame.translate(Vector::new(1, 1));
    frame.with_save(|f| {
        f.scale(2);
        f.with_save(|g| {
            g.rotate(1);
            g.fill_text(text_at(1, 0, "a"));
        });
        f.fill_text(text_at(1, 0, "b"));
    });
    frame.fill_text(text_at(1, 0, "c"));
    let children = root_children(frame.into_geometry());
    assert_eq!(text_position(&children[0]), Point::new(1, 3));
    assert_eq!(text_position(&children[1]), Point::new(3, 1));
    assert_eq!(text_position(&children[2]), Point::new(2, 1));
}

#[test]
fn fill_text_moves_only_the_anchor() {
    let mut frame = Frame::new(Size::new(100, 100));
    frame.translate(Vector::new(3, 4));
    frame.scale(2);
    frame.fill_text(text_at(1, 1, "x"));
    let children = root_children(frame.into_geometry());
    match &children[0] {
        Primitive::Text { content, position, size, .. } => {
            assert_eq!(content, "x");
            assert_eq!(*position, Point::new(5, 6));
            assert_eq!(*size, 16);
        }
        other => panic!("not text: {:?}", other),
    }
}

#[test]
fn with_clip_builds_mesh_and_text_branches() {
    let mut frame = Frame::new(Size::new(100, 100));
    let region = Rectangle::new(Point::new(20, 30), Size::new(40, 50));
    frame.with_clip(region, |f| {
        f.fill_text(text_at(1, 2, "clipped"));
        f.fill(&square_path(0, 0, 5), solid_fill(), |p, _| Ok(points_of(p))).unwrap();
    });
    let children = root_children(frame.into_geometry());
    assert_eq!(children.len(), 1);
    let branches = match &children[0] {
        Primitive::Group { primitives } => primitives,
        other => panic!("not a group: {:?}", other),
    };
    assert_eq!(branches.len(), 2);
    match &branches[0] {
        Primitive::Translate { translation, content } => {
            assert_eq!(*translation, Vector::new(20, 30));
            match content.as_ref() {
                Primitive::Group { primitives } => {
                    assert_eq!(primitives.len(), 1);
                    match &primitives[0] {
                        Primitive::Mesh2D { size, .. } => assert_eq!(*size, Size::new(40, 50)),
                        other => panic!("not a mesh: {:?}", other),
                    }
                }
                other => panic!("not a group: {:?}", other),
            }
        }
        other => panic!("not a translation: {:?}", other),
    }
    match &branches[1] {
        Primitive::Translate { translation, content } => {
            assert_eq!(*translation, Vector::new(20, 30));
            match content.as_ref() {
                Primitive::Clip { bounds, content } => {
                    assert_eq!(*bounds, Rectangle::new(Point::new(0, 0), Size::new(40, 50)));
                    match content.as_ref() {
                        Primitive::Group { primitives } => {
                            assert_eq!(primitives.len(), 1);
                            assert_eq!(text_position(&primitives[0]), Point::new(1, 2));
                        }
                        other => panic!("not a group: {:?}", other),
                    }
                }
                other => panic!("not a clip: {:?}", other),
            }
        }
        other => panic!("not a translation: {:?}", other),
    }
}

#[test]
fn with_clip_uses_a_fresh_transform() {
    let mut frame = Frame::new(Size::new(100, 100));
    frame.translate(Vector::new(50, 50));
    frame.with_clip(Rectangle::new(Point::new(0, 0), Size::new(10, 10)), |f| {
        f.fill_text(text_at(1, 1, "t"));
    });
    frame.fill_text(text_at(0, 0, "after"));
    let children = root_children(frame.into_geometry());
    assert_eq!(text_position(&children[1]), Point::new(50, 50));
    match &children[0] {
        Primitive::Group { primitives } => match &primitives[1] {
            Primitive::Translate { content, .. } => match content.as_ref() {
                Primitive::Clip { content, .. } => match content.as_ref() {
                    Primitive::Group { primitives } => {
                        assert_eq!(text_position(&primitives[0]), Point::new(1, 1))
                    }
                    other => panic!("not a group: {:?}", other),
                },
                other => panic!("not a clip: {:?}", other),
            },
            other => panic!("not a translation: {:?}", other),
        },
        other => panic!("not a group: {:?}", other),
    }
}

#[test]
fn partition_keeps_order_within_each_part() {
    let ps = vec![
        Primitive::Text {
            content: "a".to_string(),
            position: Point::new(0, 0),
            color: Color { r: 0, g: 0, b: 0, a: 0 },
            size: 1,
            font: Font::Default,
            horizontal_alignment: HorizontalAlignment::Left,
            vertical_alignment: VerticalAlignment::Top,
        },
        Primitive::Group { primitives: vec![] },
        Primitive::Text {
            content: "b".to_string(),
            position: Point::new(0, 0),
            color: Color { r: 0, g: 0, b: 0, a: 0 },
            size: 1,
            font: Font::Named("mono".to_string()),
            horizontal_alignment: HorizontalAlignment::Right,
            vertical_alignment: VerticalAlignment::Bottom,
        },
        Primitive::Clip { bounds: Rectangle::new(Point::new(0, 0), Size::new(1, 1)), content: Box::new(Primitive::Group { primitives: vec![] }) },
    ];
    let (text, rest) = partition_text(ps);
    assert_eq!(text.len(), 2);
    assert_eq!(rest.len(), 2);
    assert!(matches!(&text[0], Primitive::Text { content, .. } if content == "a"));
    assert!(matches!(&text[1], Primitive::Text { content, .. } if content == "b"));
    assert!(matches!(&rest[0], Primitive::Group { .. }));
    assert!(matches!(&rest[1], Primitive::Clip { .. }));
}

#[test]
fn compose_clip_of_nothing_has_two_empty_branches() {
    let g = compose_clip(Rectangle::new(Point::new(-1, 2), Size::new(3, 4)), vec![]);
    match g {
        Primitive::Group { primitives } => {
            assert_eq!(primitives.len(), 2);
            assert!(matches!(&primitives[0], Primitive::Translate { translation, .. } if *translation == Vector::new(-1, 2)));
        }
        other => panic!("not a group: {:?}", other),
    }
}

#[test]
fn rotated_rectangle_is_a_rotated_quad() {
    let mut frame = Frame::new(Size::new(100, 100));
    frame.rotate(1);
    frame.fill_rectangle(Point::new(0, 0), Size::new(10, 10), solid_fill());
    frame.fill_text(text_at(0, 0, "keep meshes"));
    let children = root_children(frame.into_geometry());
    match &children[1] {
        Primitive::Mesh2D { buffers, .. } => {
            assert_eq!(
                buffers.vertices,
                vec![Point::new(0, 0), Point::new(-10, 0), Point::new(-10, 10), Point::new(0, 10)]
            );
            assert_eq!(buffers.indices, vec![0, 1, 2, 0, 2, 3]);
        }
        other => panic!("not a mesh: {:?}", other),
    }
}

#[test]
fn rectangle_under_translation_and_scale() {
    let mut frame = Frame::new(Size::new(100, 100));
    frame.translate(Vector::new(5, 5));
    frame.scale(3);
    frame.fill_rectangle(Point::new(1, 2), Size::new(2, 1), solid_fill());
    frame.fill_text(text_at(0, 0, "keep meshes"));
    let children = root_children(frame.into_geometry());
    match &children[1] {
        Primitive::Mesh2D { buffers, .. } => assert_eq!(
            buffers.vertices,
            vec![Point::new(8, 11), Point::new(8, 14), Point::new(14, 14), Point::new(14, 11)]
        ),
        other => panic!("not a mesh: {:?}", other),
    }
}

#[test]
fn half_turn_negates_coordinates() {
    let mut frame = Frame::new(Size::new(100, 100));
    frame.rotate(2);
    frame.fill_text(text_at(3, -4, "t"));
    frame.rotate(3);
    frame.fill_text(text_at(3, -4, "u"));
    let children = root_children(frame.into_geometry());
    assert_eq!(text_position(&children[0]), Point::new(-3, 4));
    assert_eq!(text_position(&children[1]), Point::new(4, 3));
}

fn thick_stroke(segments: Vec<u32>) -> Stroke {
    Stroke {
        style: black(),
        width: 4,
        line_cap: LineCap::Round,
        line_join: LineJoin::Bevel,
        line_dash: LineDash { segments, offset: 0 },
    }
}

#[test]
fn stroke_without_dash_skips_dashing() {
    let mut frame = Frame::new(Size::new(100, 100));
    let dashed = RefCell::new(false);
    let seen = RefCell::new(None);
    let path = square_path(0, 0, 20);
    frame
        .stroke(
            &path,
            thick_stroke(vec![]),
            |p, _| {
                *dashed.borrow_mut() = true;
                p.clone()
            },
            |p, o| {
                *seen.borrow_mut() = Some((p.clone(), o));
                Ok(points_of(p))
            },
        )
        .unwrap();
    assert!(!dashed.into_inner());
    let (p, o) = seen.into_inner().unwrap();
    assert_eq!(p, path);
    assert_eq!(
        o,
        StrokeOptions {
            line_width: 4,
            start_cap: LineCap::Round,
            end_cap: LineCap::Round,
            line_join: LineJoin::Bevel,
        }
    );
}

#[test]
fn stroke_with_dash_tessellates_dashed_outline() {
    let mut frame = Frame::new(Size::new(100, 100));
    frame.translate(Vector::new(1, 0));
    let seen = RefCell::new(None);
    let r = frame.stroke(
        &square_path(0, 0, 20),
        thick_stroke(vec![5, 5]),
        |_, d| {
            assert_eq!(d.segments, vec![5, 5]);
            Path::new(vec![
                PathEvent::Begin { at: Point::new(0, 0) },
                PathEvent::Line { to: Point::new(5, 0) },
                PathEvent::End { close: false },
            ])
        },
        |p, _| {
            *seen.borrow_mut() = Some(p.clone());
            Err(TessellationError::UnsupportedParameter)
        },
    );
    assert_eq!(r, Err(TessellationError::UnsupportedParameter));
    assert_eq!(
        seen.into_inner().unwrap().events().clone(),
        vec![
            PathEvent::Begin { at: Point::new(1, 0) },
            PathEvent::Line { to: Point::new(6, 0) },
            PathEvent::End { close: false },
        ]
    );
}

#[test]
fn transform_point_detects_overflow() {
    let a = Affine { m11: 2, m12: 0, m21: 0, m22: 1, m31: 0, m32: 0 };
    assert_eq!(a.transform_point(Point::new(i64::MAX / 2 + 1, 0)), None);
    assert_eq!(a.transform_point(Point::new(-4, 9)), Some(Point::new(-8, 9)));
    let b = Affine { m11: i64::MIN, m12: 0, m21: i64::MIN, m22: 0, m31: 0, m32: 0 };
    assert_eq!(b.transform_point(Point::new(i64::MIN, i64::MIN)), None);
    assert_eq!(b.transform_vector(canvas_frame::geometry::Vector::new(1, -1)), Some(Vector::new(0, 0)));
}

#[test]
fn transformed_path_maps_curves() {
    let path = Path::new(vec![
        PathEvent::Begin { at: Point::new(0, 0) },
        PathEvent::Quadratic { ctrl: Point::new(1, 2), to: Point::new(3, 4) },
        PathEvent::Cubic { ctrl1: Point::new(5, 6), ctrl2: Point::new(7, 8), to: Point::new(9, 10) },
        PathEvent::End { close: true },
    ]);
    let a = Affine { m11: 0, m12: 1, m21: -1, m22: 0, m31: 100, m32: 0 };
    let q = path.transformed(&a).unwrap();
    assert_eq!(
        q.events().clone(),
        vec![
            PathEvent::Begin { at: Point::new(100, 0) },
            PathEvent::Quadratic { ctrl: Point::new(98, 1), to: Point::new(96, 3) },
            PathEvent::Cubic { ctrl1: Point::new(94, 5), ctrl2: Point::new(92, 7), to: Point::new(90, 9) },
            PathEvent::End { close: true },
        ]
    );
}

#[test]
fn with_clip_of_meshes_alone_gives_empty_branches() {
    let mut frame = Frame::new(Size::new(100, 100));
    let region = Rectangle::new(Point::new(4, 5), Size::new(6, 7));
    frame.with_clip(region, |f| {
        f.fill(&square_path(0, 0, 5), solid_fill(), |p, _| Ok(points_of(p))).unwrap();
        f.fill_rectangle(Point::new(1, 1), Size::new(2, 2), solid_fill());
    });
    frame.fill_text(text_at(0, 0, "keep"));
    let children = root_children(frame.into_geometry());
    let expected = compose_clip(region, vec![]);
    assert_eq!(children[0], expected);
}

#[test]
fn with_save_keeps_what_the_body_drew() {
    let mut frame = Frame::new(Size::new(30, 40));
    frame.with_save(|f| {
        f.scale(2);
        f.fill_text(text_at(1, 1, "inside"));
        f.fill_rectangle(Point::new(0, 0), Size::new(1, 1), solid_fill());
    });
    assert_eq!(frame.width(), 30);
    assert_eq!(frame.height(), 40);
    let children = root_children(frame.into_geometry());
    assert_eq!(children.len(), 2);
    assert_eq!(text_position(&children[0]), Point::new(2, 2));
    assert!(matches!(&children[1], Primitive::Mesh2D { .. }));
}
