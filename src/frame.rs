//! The frame: a drawing surface that records meshes and text under the
//! current transform and exports them as a tree of primitives.
use vstd::prelude::*;

use crate::geometry::{fits_i64, Point, Rectangle, Size, Vector};
use crate::path::{lemma_identity_image, path_image, path_maps, Path, PathEvent};
use crate::primitive::{compose_clip, is_clip_group, is_group_of, Geometry, Primitive, VertexBuffers};
use crate::style::{stroke_options_of, Fill, FillRule, LineDash, Paint, Stroke, StrokeOptions, Text};
use crate::transform::{
    is_identity_matrix, lemma_quarter_turn, maps_point, point_image, pre_rotated, pre_rotation_fits, pre_scale_fits,
    pre_scaled, pre_translated, pre_translation_fits, Affine, Transform,
};

verus! {

/// Why a path could not be turned into a mesh.
#[derive(Clone, Copy, Debug, PartialEq, Eq, Structural)]
pub enum TessellationError {
    /// The tessellator does not support a parameter of the request.
    UnsupportedParameter,
    /// The tessellator's output could not be stored.
    GeometryBuilder,
    /// The tessellator failed on the geometry itself.
    Internal,
    /// A point of the path leaves the coordinate range under the current
    /// transform.
    CoordinateOverflow,
}

/// The mesh primitive that a recorded buffer becomes on a surface of `size`.
pub open spec fn mesh_of(b: (VertexBuffers, Paint), size: Size) -> Primitive {
    Primitive::Mesh2D { buffers: b.0, size, paint: b.1 }
}

/// What a tessellation outcome `out` does to the recorded buffers: a mesh is
/// appended with `paint`, an error is returned and nothing is recorded.
pub open spec fn records_outcome(
    before: Seq<(VertexBuffers, Paint)>,
    after: Seq<(VertexBuffers, Paint)>,
    r: Result<(), TessellationError>,
    out: Result<VertexBuffers, TessellationError>,
    paint: Paint,
) -> bool {
    match out {
        Ok(buf) => r is Ok && after == before.push((buf, paint)),
        Err(e) => r == Err::<(), TessellationError>(e) && after == before,
    }
}

/// A corner of the rectangle at `top_left` of `size`, counted from the top
/// left: top left, bottom left, bottom right, top right.
pub open spec fn rect_corner(top_left: Point, size: Size, i: int) -> Point {
    let right = (top_left.x + size.width) as i64;
    let bottom = (top_left.y + size.height) as i64;
    if i == 0 {
        top_left
    } else if i == 1 {
        Point { x: top_left.x, y: bottom }
    } else if i == 2 {
        Point { x: right, y: bottom }
    } else {
        Point { x: right, y: top_left.y }
    }
}

/// The corners of the rectangle, and their images under `a`, fit in `i64`.
pub open spec fn rect_maps(a: Affine, top_left: Point, size: Size) -> bool {
    &&& fits_i64(top_left.x + size.width)
    &&& fits_i64(top_left.y + size.height)
    &&& maps_point(a, rect_corner(top_left, size, 0))
    &&& maps_point(a, rect_corner(top_left, size, 1))
    &&& maps_point(a, rect_corner(top_left, size, 2))
    &&& maps_point(a, rect_corner(top_left, size, 3))
}

/// The quad of a transformed rectangle: the images of its four corners, and
/// two triangles over them.
pub open spec fn is_rect_mesh(b: VertexBuffers, a: Affine, top_left: Point, size: Size) -> bool {
    &&& b.vertices@.len() == 4
    &&& forall|i: int| 0 <= i < 4 ==> #[trigger] b.vertices@[i] == point_image(a, rect_corner(top_left, size, i))
    &&& b.indices@ == seq![0u32, 1, 2, 0, 2, 3]
}

/// What stroking `path` with `stroke` under the matrix `m` did, given the
/// outline that was tessellated: the path itself when the stroke has no dash
/// segments, else what `dash` made of it.
pub open spec fn stroke_recorded<D, F>(
    dash: D,
    tessellate: F,
    path: Path,
    stroke: Stroke,
    m: Affine,
    before: Seq<(VertexBuffers, Paint)>,
    after: Seq<(VertexBuffers, Paint)>,
    r: Result<(), TessellationError>,
    outline: Path,
) -> bool where
    D: FnOnce(&Path, &LineDash) -> Path,
    F: FnOnce(&Path, StrokeOptions) -> Result<VertexBuffers, TessellationError>,
 {
    &&& if stroke.line_dash.segments@.len() == 0 {
        outline == path
    } else {
        dash.ensures((&path, &stroke.line_dash), outline)
    }
    &&& !path_maps(m, outline@) ==> r == Err::<(), TessellationError>(
        TessellationError::CoordinateOverflow,
    ) && after == before
    &&& path_maps(m, outline@) ==> exists|q: Path, out: Result<VertexBuffers, TessellationError>|
        q@ == path_image(m, outline@) && tessellate.ensures((&q, stroke_options_of(stroke)), out)
            && records_outcome(before, after, r, out, stroke.style)
}

/// Filling a path after translating a fresh frame by `v` hands the
/// tessellator the path moved by `v`; filling that moved path on a fresh
/// frame hands it exactly the same path.
pub proof fn lemma_translate_then_fill(id: Affine, v: Vector, p: Seq<PathEvent>)
    requires
        is_identity_matrix(id),
        path_maps(pre_translated(id, v), p),
    ensures
        pre_translation_fits(id, v),
        path_maps(id, path_image(pre_translated(id, v), p)),
        path_image(id, path_image(pre_translated(id, v), p)) == path_image(pre_translated(id, v), p),
{
    lemma_identity_image(id, path_image(pre_translated(id, v), p));
}

/// The tessellator's result depends only on the path it is handed and the
/// fill rule.
pub open spec fn depends_on_path_alone<F>(tessellate: F) -> bool where
    F: FnOnce(&Path, FillRule) -> Result<VertexBuffers, TessellationError>,
 {
    forall|a: &Path, b: &Path, rule: FillRule, x, y|
        #![trigger tessellate.ensures((a, rule), x), tessellate.ensures((b, rule), y)]
        a@ == b@ && tessellate.ensures((a, rule), x) && tessellate.ensures((b, rule), y) ==> x == y
}

/// With a tessellator whose result depends only on the path it is handed,
/// filling `p` on a frame whose transform has the matrix `a` (which hands
/// over `baked`) gets the same outcome, and so records the same mesh, as
/// filling on a fresh frame the path already mapped by `a` (which hands over
/// `plain`): the transform is baked into the path, never applied to the mesh.
/// A translation by `v` is the case `a == pre_translated(id, v)`.
pub proof fn lemma_transform_then_fill_same_mesh<F>(
    tessellate: F,
    id: Affine,
    a: Affine,
    p: Seq<PathEvent>,
    rule: FillRule,
    baked: Path,
    plain: Path,
    out_baked: Result<VertexBuffers, TessellationError>,
    out_plain: Result<VertexBuffers, TessellationError>,
) where F: FnOnce(&Path, FillRule) -> Result<VertexBuffers, TessellationError>
    requires
        depends_on_path_alone(tessellate),
        is_identity_matrix(id),
        path_maps(a, p),
        baked@ == path_image(a, p),
        plain@ == path_image(id, path_image(a, p)),
        tessellate.ensures((&baked, rule), out_baked),
        tessellate.ensures((&plain, rule), out_plain),
    ensures
        out_baked == out_plain,
{
    lemma_identity_image(id, path_image(a, p));
}

/// A frame that recorded no primitive besides meshes exports nothing; in
/// particular a frame on which nothing was drawn exports an empty group.
pub proof fn lemma_meshes_alone_export_nothing(f: Frame)
    requires
        f.primitives_view().len() == 0,
    ensures
        f.exported() == Seq::<Primitive>::empty(),
{
    assert(f.exported() =~= Seq::<Primitive>::empty());
}

/// Filling a rectangle on a fresh frame turned by a quarter turn records the
/// quad of its corners each turned about the origin, `(x, y)` to `(-y, x)`,
/// not an axis-aligned box around them.
pub proof fn lemma_quarter_turned_rectangle(id: Affine, top_left: Point, size: Size, b: VertexBuffers)
    requires
        is_identity_matrix(id),
        is_rect_mesh(b, pre_rotated(id, 1), top_left, size),
        rect_maps(pre_rotated(id, 1), top_left, size),
    ensures
        forall|i: int|
            0 <= i < 4 ==> #[trigger] b.vertices@[i] == (Point {
                x: -rect_corner(top_left, size, i).y as i64,
                y: rect_corner(top_left, size, i).x,
            }),
{
    assert forall|i: int| 0 <= i < 4 implies #[trigger] b.vertices@[i] == (Point {
        x: -rect_corner(top_left, size, i).y as i64,
        y: rect_corner(top_left, size, i).x,
    }) by {
        lemma_quarter_turn(id, rect_corner(top_left, size, i));
    }
}

struct Transforms {
    current: Transform,
}

/// A drawing surface of a given size.
///
/// Meshes are recorded in the order they are drawn; text is recorded apart
/// and, within one frame, is always drawn above every mesh.
pub struct Frame {
    size: Size,
    buffers: Vec<(VertexBuffers, Paint)>,
    primitives: Vec<Primitive>,
    transforms: Transforms,
}

/// `g` is a frame as `new` makes it: of `size`, with nothing drawn and the
/// identity transform.
pub open spec fn is_fresh(g: Frame, size: Size) -> bool {
    &&& g.size_view() == size
    &&& g.buffers_view().len() == 0
    &&& g.primitives_view().len() == 0
    &&& is_identity_matrix(g.transform().matrix())
    &&& g.transform().flagged_identity()
}

impl Frame {
    pub closed spec fn size_view(self) -> Size {
        self.size
    }

    /// The meshes drawn so far, each with its paint.
    pub closed spec fn buffers_view(self) -> Seq<(VertexBuffers, Paint)> {
        self.buffers@
    }

    /// The primitives other than meshes recorded so far.
    pub closed spec fn primitives_view(self) -> Seq<Primitive> {
        self.primitives@
    }

    /// The transform that drawing operations apply.
    pub closed spec fn transform(self) -> Transform {
        self.transforms.current
    }

    /// The primitives that the frame exports: the recorded primitives and,
    /// only when there is at least one of those, then every mesh in order.
    pub open spec fn exported(self) -> Seq<Primitive> {
        if self.primitives_view().len() > 0 {
            self.primitives_view() + self.buffers_view().map_values(
                |b: (VertexBuffers, Paint)| mesh_of(b, self.size_view()),
            )
        } else {
            self.primitives_view()
        }
    }

    /// Creates an empty frame of the given size, with its origin at the
    /// top-left corner and the identity transform.
    pub fn new(size: Size) -> (r: Frame)
        ensures
            r.size_view() == size,
            r.buffers_view().len() == 0,
            r.primitives_view().len() == 0,
            is_identity_matrix(r.transform().matrix()),
            r.transform().flagged_identity(),
    {
        Frame {
            size,
            buffers: Vec::new(),
            primitives: Vec::new(),
            transforms: Transforms { current: Transform::identity() },
        }
    }

    pub fn width(&self) -> (r: u32)
        ensures
            r == self.size_view().width,
    {
        self.size.width
    }

    pub fn height(&self) -> (r: u32)
        ensures
            r == self.size_view().height,
    {
        self.size.height
    }

    pub fn size(&self) -> (r: Size)
        ensures
            r == self.size_view(),
    {
        self.size
    }

    /// The transform that drawing operations currently apply.
    pub fn current_transform(&self) -> (r: Transform)
        ensures
            r == self.transform(),
    {
        self.transforms.current
    }

    /// The center of the frame, rounded down to whole units.
    pub fn center(&self) -> (r: Point)
        ensures
            r.x == self.size_view().width / 2,
            r.y == self.size_view().height / 2,
    {
        Point { x: (self.size.width / 2) as i64, y: (self.size.height / 2) as i64 }
    }

    /// Fills `path` with `fill`. The path is first mapped by the current
    /// transform (skipped when that is marked as the identity), and the
    /// result is handed to `tessellate`; its mesh is recorded with the fill's
    /// paint, or its error returned with the frame left as it was.
    pub fn fill<F>(&mut self, path: &Path, fill: Fill, tessellate: F) -> (r: Result<
        (),
        TessellationError,
    >) where F: FnOnce(&Path, FillRule) -> Result<VertexBuffers, TessellationError>
        requires
            forall|p: &Path, rule: FillRule| tessellate.requires((p, rule)),
        ensures
            final(self).size_view() == old(self).size_view(),
            final(self).primitives_view() == old(self).primitives_view(),
            final(self).transform() == old(self).transform(),
            !path_maps(old(self).transform().matrix(), path@) ==> r == Err::<
                (),
                TessellationError,
            >(TessellationError::CoordinateOverflow) && final(self).buffers_view() == old(
                self,
            ).buffers_view(),
            path_maps(old(self).transform().matrix(), path@) ==> exists|
                q: Path,
                out: Result<VertexBuffers, TessellationError>,
            |
                q@ == path_image(old(self).transform().matrix(), path@) && tessellate.ensures(
                    (&q, fill.rule),
                    out,
                ) && records_outcome(
                    old(self).buffers_view(),
                    final(self).buffers_view(),
                    r,
                    out,
                    fill.style,
                ),
    {
        let ghost m = self.transforms.current.matrix();
        let rule = fill.rule;
        let out = if self.transforms.current.is_identity() {
            proof {
                lemma_identity_image(m, path@);
            }
            let out = tessellate(path, rule);
            assert(tessellate.ensures((path, rule), out));
            out
        } else {
            match path.transformed(&self.transforms.current.raw()) {
                Some(q) => {
                    let out = tessellate(&q, rule);
                    assert(tessellate.ensures((&q, rule), out));
                    out
                },
                None => return Err(TessellationError::CoordinateOverflow),
            }
        };
        match out {
            Ok(buf) => {
                self.buffers.push((buf, fill.style));
                Ok(())
            },
            Err(e) => Err(e),
        }
    }
    /// Fills the rectangle at `top_left` of `size` with `fill`. Each corner
    /// is mapped by the current transform, so a rotated rectangle gives a
    /// rotated quad; the quad is split into two triangles.
    pub fn fill_rectangle(&mut self, top_left: Point, size: Size, fill: Fill)
        requires
            rect_maps(old(self).transform().matrix(), top_left, size),
        ensures
            final(self).size_view() == old(self).size_view(),
            final(self).primitives_view() == old(self).primitives_view(),
            final(self).transform() == old(self).transform(),
            final(self).buffers_view().len() == old(self).buffers_view().len() + 1,
            final(self).buffers_view().drop_last() == old(self).buffers_view(),
            is_rect_mesh(
                final(self).buffers_view().last().0,
                old(self).transform().matrix(),
                top_left,
                size,
            ),
            final(self).buffers_view().last().1 == fill.style,
    {
        let a = self.transforms.current.raw();
        let right = top_left.x + size.width as i64;
        let bottom = top_left.y + size.height as i64;
        let corners = [
            top_left,
            Point { x: top_left.x, y: bottom },
            Point { x: right, y: bottom },
            Point { x: right, y: top_left.y },
        ];
        assert(corners@[0] == rect_corner(top_left, size, 0));
        assert(corners@[1] == rect_corner(top_left, size, 1));
        assert(corners@[2] == rect_corner(top_left, size, 2));
        assert(corners@[3] == rect_corner(top_left, size, 3));
        let mut vertices: Vec<Point> = Vec::new();
        let mut i: usize = 0;
        while i < 4
            invariant
                i <= 4,
                vertices@.len() == i,
                a == old(self).transform().matrix(),
                rect_maps(a, top_left, size),
                forall|j: int| 0 <= j < 4 ==> corners@[j] == rect_corner(top_left, size, j),
                forall|j: int| 0 <= j < i ==> #[trigger] vertices@[j] == point_image(a, rect_corner(top_left, size, j)),
            decreases 4 - i,
        {
            let p = a.transform_point(corners[i]).unwrap();
            vertices.push(p);
            i += 1;
        }
        let indices: Vec<u32> = vec![0, 1, 2, 0, 2, 3];
        assert(indices@ =~= seq![0u32, 1, 2, 0, 2, 3]);
        let buf = VertexBuffers { vertices, indices };
        self.buffers.push((buf, fill.style));
        proof {
            assert(self.buffers@.drop_last() =~= old(self).buffers@);
        }
    }

    /// Strokes `path` with `stroke`. A stroke with dash segments first has
    /// its path cut by `dash`; the outline is then mapped by the current
    /// transform (skipped when that is marked as the identity) and handed to
    /// `tessellate` with the stroke's options. Its mesh is recorded with the
    /// stroke's paint, or its error returned with the frame left as it was.
    pub fn stroke<D, F>(&mut self, path: &Path, stroke: Stroke, dash: D, tessellate: F) -> (r:
        Result<(), TessellationError>) where
        D: FnOnce(&Path, &LineDash) -> Path,
        F: FnOnce(&Path, StrokeOptions) -> Result<VertexBuffers, TessellationError>,

        requires
            forall|p: &Path, d: &LineDash| dash.requires((p, d)),
            forall|p: &Path, o: StrokeOptions| tessellate.requires((p, o)),
        ensures
            final(self).size_view() == old(self).size_view(),
            final(self).primitives_view() == old(self).primitives_view(),
            final(self).transform() == old(self).transform(),
            exists|outline: Path|
                stroke_recorded(
                    dash,
                    tessellate,
                    *path,
                    stroke,
                    old(self).transform().matrix(),
                    old(self).buffers_view(),
                    final(self).buffers_view(),
                    r,
                    outline,
                ),
    {
        let ghost m = self.transforms.current.matrix();
        let options = stroke.options();
        let dashed: Path;
        let outline: &Path = if stroke.line_dash.segments.len() == 0 {
            path
        } else {
            dashed = dash(path, &stroke.line_dash);
            &dashed
        };
        let ghost og: Path = *outline;
        let out = if self.transforms.current.is_identity() {
            proof {
                lemma_identity_image(m, outline@);
            }
            let out = tessellate(outline, options);
            assert(tessellate.ensures((outline, options), out));
            out
        } else {
            match outline.transformed(&self.transforms.current.raw()) {
                Some(q) => {
                    let out = tessellate(&q, options);
                    assert(tessellate.ensures((&q, options), out));
                    out
                },
                None => {
                    let r = Err(TessellationError::CoordinateOverflow);
                    assert(stroke_recorded(
                        dash,
                        tessellate,
                        *path,
                        stroke,
                        old(self).transform().matrix(),
                        old(self).buffers_view(),
                        self.buffers_view(),
                        r,
                        og,
                    ));
                    return r;
                },
            }
        };
        let r = match out {
            Ok(buf) => {
                self.buffers.push((buf, stroke.style));
                Ok(())
            },
            Err(e) => Err(e),
        };
        assert(stroke_recorded(
            dash,
            tessellate,
            *path,
            stroke,
            old(self).transform().matrix(),
            old(self).buffers_view(),
            self.buffers_view(),
            r,
            og,
        ));
        r
    }

    /// Records `text`, with its anchor mapped by the current transform
    /// (skipped when that is marked as the identity). Only the anchor moves:
    /// the glyphs are not rotated or scaled.
    pub fn fill_text(&mut self, text: Text)
        requires
            maps_point(old(self).transform().matrix(), text.position),
        ensures
            final(self).size_view() == old(self).size_view(),
            final(self).buffers_view() == old(self).buffers_view(),
            final(self).transform() == old(self).transform(),
            final(self).primitives_view() == old(self).primitives_view().push(
                Primitive::Text {
                    content: text.content,
                    position: point_image(old(self).transform().matrix(), text.position),
                    color: text.color,
                    size: text.size,
                    font: text.font,
                    horizontal_alignment: text.horizontal_alignment,
                    vertical_alignment: text.vertical_alignment,
                },
            ),
    {
        let position = if self.transforms.current.is_identity() {
            text.position
        } else {
            self.transforms.current.raw().transform_point(text.position).unwrap()
        };
        self.primitives.push(
            Primitive::Text {
                content: text.content,
                position,
                color: text.color,
                size: text.size,
                font: text.font,
                horizontal_alignment: text.horizontal_alignment,
                vertical_alignment: text.vertical_alignment,
            },
        );
    }

    /// Runs `f` on the frame and then restores the transform that was
    /// current before, whatever `f` did to it. Everything else that `f` did
    /// to the frame is kept.
    pub fn with_save<F>(&mut self, f: F) where F: FnOnce(&mut Frame)
        requires
            forall|g: &mut Frame| *g == *old(self) ==> #[trigger] f.requires((g,)),
        ensures
            final(self).transform() == old(self).transform(),
            exists|g: &mut Frame|
                {
                    &&& *g == *old(self)
                    &&& #[trigger] f.ensures((g,), ())
                    &&& final(self).size_view() == final(g).size_view()
                    &&& final(self).buffers_view() == final(g).buffers_view()
                    &&& final(self).primitives_view() == final(g).primitives_view()
                },
    {
        let saved = self.transforms.current;
        f(self);
        self.transforms.current = saved;
    }

    /// Runs `f` on a fresh frame of the size of `region`, whose origin is
    /// the region's top-left corner, and records what it drew as one group:
    /// the meshes moved to the region, then the text moved to the region and
    /// cut to its size.
    pub fn with_clip<F>(&mut self, region: Rectangle, f: F) where F: FnOnce(&mut Frame)
        requires
            forall|g: &mut Frame|
                is_fresh(*g, Size { width: region.width, height: region.height }) ==> #[trigger] f.requires(
                    (g,),
                ),
        ensures
            final(self).size_view() == old(self).size_view(),
            final(self).buffers_view() == old(self).buffers_view(),
            final(self).transform() == old(self).transform(),
            final(self).primitives_view().len() == old(self).primitives_view().len() + 1,
            final(self).primitives_view().drop_last() == old(self).primitives_view(),
            exists|g: &mut Frame|
                {
                    &&& is_fresh(*g, Size { width: region.width, height: region.height })
                    &&& #[trigger] f.ensures((g,), ())
                    &&& is_clip_group(final(self).primitives_view().last(), region, final(g).exported())
                },
    {
        let mut frame = Frame::new(region.size());
        f(&mut frame);
        let ps = frame.into_primitives();
        let ghost drawn = ps@;
        let group = compose_clip(region, ps);
        self.primitives.push(group);
        proof {
            assert(self.primitives@.drop_last() =~= old(self).primitives@);
            assert(is_clip_group(self.primitives_view().last(), region, drawn));
        }
    }

    /// Translates by `v` before the current transform.
    pub fn translate(&mut self, v: Vector)
        requires
            pre_translation_fits(old(self).transform().matrix(), v),
        ensures
            final(self).size_view() == old(self).size_view(),
            final(self).buffers_view() == old(self).buffers_view(),
            final(self).primitives_view() == old(self).primitives_view(),
            final(self).transform().matrix() == pre_translated(old(self).transform().matrix(), v),
            !final(self).transform().flagged_identity(),
    {
        let raw = self.transforms.current.raw().pre_translate(v);
        self.transforms.current = Transform::from_matrix(raw);
    }

    /// Rotates by `quarter_turns` quarter turns, from the x axis towards the
    /// y axis, before the current transform.
    pub fn rotate(&mut self, quarter_turns: u32)
        requires
            pre_rotation_fits(old(self).transform().matrix(), quarter_turns as int),
        ensures
            final(self).size_view() == old(self).size_view(),
            final(self).buffers_view() == old(self).buffers_view(),
            final(self).primitives_view() == old(self).primitives_view(),
            final(self).transform().matrix() == pre_rotated(
                old(self).transform().matrix(),
                quarter_turns as int,
            ),
            !final(self).transform().flagged_identity(),
    {
        let raw = self.transforms.current.raw().pre_rotate(quarter_turns);
        self.transforms.current = Transform::from_matrix(raw);
    }

    /// Scales uniformly by `scale` before the current transform.
    pub fn scale(&mut self, scale: i64)
        requires
            pre_scale_fits(old(self).transform().matrix(), scale as int),
        ensures
            final(self).size_view() == old(self).size_view(),
            final(self).buffers_view() == old(self).buffers_view(),
            final(self).primitives_view() == old(self).primitives_view(),
            final(self).transform().matrix() == pre_scaled(
                old(self).transform().matrix(),
                scale as int,
            ),
            !final(self).transform().flagged_identity(),
    {
        let raw = self.transforms.current.raw().pre_scale(scale);
        self.transforms.current = Transform::from_matrix(raw);
    }

    /// Finishes the frame: one group holding what it exports.
    pub fn into_geometry(self) -> (r: Geometry)
        ensures
            is_group_of(r.root(), self.exported()),
    {
        let primitives = self.into_primitives();
        Geometry::from_primitive(Primitive::Group { primitives })
    }

    fn into_primitives(self) -> (r: Vec<Primitive>)
        ensures
            r@ == self.exported(),
    {
        let ghost orig = self;
        let size = self.size;
        let mut primitives = self.primitives;
        let mut buffers = self.buffers;
        if primitives.len() > 0 {
            let n = buffers.len();
            let np = primitives.len();
            let mut k: usize = 0;
            while buffers.len() > 0
                invariant
                    k <= n,
                    n == orig.buffers@.len(),
                    np == orig.primitives@.len(),
                    size == orig.size,
                    buffers@ == orig.buffers@.subrange(k as int, n as int),
                    primitives@.len() == np + k,
                    forall|j: int| 0 <= j < np ==> primitives@[j] == orig.primitives@[j],
                    forall|j: int|
                        0 <= j < k ==> primitives@[np + j] == mesh_of(
                            #[trigger] orig.buffers@[j],
                            size,
                        ),
                decreases buffers@.len(),
            {
                let (buf, paint) = buffers.remove(0);
                primitives.push(Primitive::Mesh2D { buffers: buf, size, paint });
                k += 1;
                proof {
                    assert(buffers@ =~= orig.buffers@.subrange(k as int, n as int));
                }
            }
            proof {
                assert(primitives@ =~= orig.exported());
            }
        }
        primitives
    }
}

} // verus!
