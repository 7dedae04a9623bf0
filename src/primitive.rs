//! The tree of drawing primitives that a frame exports.
use vstd::prelude::*;

use crate::geometry::{Point, Rectangle, Size, Vector};
use crate::style::{Color, Font, HorizontalAlignment, Paint, VerticalAlignment};

verus! {

broadcast use Seq::lemma_filter_push;

/// A triangle mesh: positions, and indices into them taken three at a time.
#[derive(Clone, Debug, PartialEq, Eq)]
pub struct VertexBuffers {
    pub vertices: Vec<Point>,
    pub indices: Vec<u32>,
}

/// A node of the drawing tree. Each node owns its children.
#[derive(Debug, PartialEq, Eq)]
pub enum Primitive {
    /// Text anchored at `position`, unbounded to the right and below.
    Text {
        content: String,
        position: Point,
        color: Color,
        size: u32,
        font: Font,
        horizontal_alignment: HorizontalAlignment,
        vertical_alignment: VerticalAlignment,
    },
    /// A tessellated mesh drawn on a surface of `size`.
    Mesh2D { buffers: VertexBuffers, size: Size, paint: Paint },
    /// Children drawn in order.
    Group { primitives: Vec<Primitive> },
    /// `content` moved by `translation`.
    Translate { translation: Vector, content: Box<Primitive> },
    /// `content` cut to `bounds`.
    Clip { bounds: Rectangle, content: Box<Primitive> },
}

pub open spec fn is_text(p: Primitive) -> bool {
    p is Text
}

pub open spec fn is_not_text(p: Primitive) -> bool {
    !(p is Text)
}

/// The text primitives of `ps`, in order.
pub open spec fn text_part(ps: Seq<Primitive>) -> Seq<Primitive> {
    ps.filter(|p: Primitive| is_text(p))
}

/// The primitives of `ps` that are not text, in order.
pub open spec fn mesh_part(ps: Seq<Primitive>) -> Seq<Primitive> {
    ps.filter(|p: Primitive| is_not_text(p))
}

/// `p` is a group holding exactly `children`.
pub open spec fn is_group_of(p: Primitive, children: Seq<Primitive>) -> bool {
    match p {
        Primitive::Group { primitives } => primitives@ == children,
        _ => false,
    }
}

/// `p` moves, by the offset of `region`, a group of the non-text part of `ps`.
pub open spec fn is_mesh_branch(p: Primitive, region: Rectangle, ps: Seq<Primitive>) -> bool {
    match p {
        Primitive::Translate { translation, content } => translation == (Vector {
            x: region.x,
            y: region.y,
        }) && is_group_of(*content, mesh_part(ps)),
        _ => false,
    }
}

/// `p` moves, by the offset of `region`, a clip to `region`'s size around a
/// group of the text part of `ps`.
pub open spec fn is_text_branch(p: Primitive, region: Rectangle, ps: Seq<Primitive>) -> bool {
    match p {
        Primitive::Translate { translation, content } => translation == (Vector {
            x: region.x,
            y: region.y,
        }) && match *content {
            Primitive::Clip { bounds, content } => bounds == (Rectangle {
                x: 0,
                y: 0,
                width: region.width,
                height: region.height,
            }) && is_group_of(*content, text_part(ps)),
            _ => false,
        },
        _ => false,
    }
}

/// `g` is the primitive that places what was drawn in `region` (`ps`) into
/// the enclosing frame: a group of the mesh branch, then the text branch.
pub open spec fn is_clip_group(g: Primitive, region: Rectangle, ps: Seq<Primitive>) -> bool {
    match g {
        Primitive::Group { primitives } => primitives@.len() == 2 && is_mesh_branch(
            primitives@[0],
            region,
            ps,
        ) && is_text_branch(primitives@[1], region, ps),
        _ => false,
    }
}

/// Splits `ps` into its text primitives and the others, each in order.
pub fn partition_text(ps: Vec<Primitive>) -> (r: (Vec<Primitive>, Vec<Primitive>))
    ensures
        r.0@ == text_part(ps@),
        r.1@ == mesh_part(ps@),
{
    let n = ps.len();
    let ghost all = ps@;
    let mut rest = ps;
    let mut text: Vec<Primitive> = Vec::new();
    let mut meshes: Vec<Primitive> = Vec::new();
    let mut k: usize = 0;
    while rest.len() > 0
        invariant
            k <= all.len(),
            all.len() == n,
            rest@ == all.subrange(k as int, all.len() as int),
            text@ == text_part(all.subrange(0, k as int)),
            meshes@ == mesh_part(all.subrange(0, k as int)),
        decreases rest@.len(),
    {
        let p = rest.remove(0);
        proof {
            assert(all.subrange(0, k + 1) =~= all.subrange(0, k as int).push(p));
        }
        if matches!(p, Primitive::Text { .. }) {
            text.push(p);
        } else {
            meshes.push(p);
        }
        k += 1;
        proof {
            assert(rest@ =~= all.subrange(k as int, all.len() as int));
        }
    }
    proof {
        assert(all.subrange(0, k as int) =~= all);
    }
    (text, meshes)
}

/// Places the primitives drawn in a clipped region into the enclosing frame:
/// the non-text primitives are moved to the region's corner, and the text is
/// moved there too and cut to the region's size.
pub fn compose_clip(region: Rectangle, ps: Vec<Primitive>) -> (r: Primitive)
    ensures
        is_clip_group(r, region, ps@),
{
    let (text, meshes) = partition_text(ps);
    let translation = region.offset();
    let mut branches: Vec<Primitive> = Vec::new();
    branches.push(
        Primitive::Translate {
            translation,
            content: Box::new(Primitive::Group { primitives: meshes }),
        },
    );
    branches.push(
        Primitive::Translate {
            translation,
            content: Box::new(
                Primitive::Clip {
                    bounds: Rectangle::with_size(region.size()),
                    content: Box::new(Primitive::Group { primitives: text }),
                },
            ),
        },
    );
    Primitive::Group { primitives: branches }
}

/// The finished drawing of a frame: a read-only tree of primitives.
#[derive(Debug, PartialEq, Eq)]
pub struct Geometry {
    root: Primitive,
}

impl Geometry {
    pub closed spec fn root(self) -> Primitive {
        self.root
    }

    pub fn from_primitive(root: Primitive) -> (r: Geometry)
        ensures
            r.root() == root,
    {
        Geometry { root }
    }

    pub fn primitive(&self) -> (r: &Primitive)
        ensures
            *r == self.root(),
    {
        &self.root
    }

    pub fn into_primitive(self) -> (r: Primitive)
        ensures
            r == self.root(),
    {
        self.root
    }
}

} // verus!
