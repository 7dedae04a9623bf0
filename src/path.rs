//! Vector paths as sequences of drawing events, and their images under an
//! affine transform.
use vstd::prelude::*;

use crate::geometry::Point;
use crate::transform::{is_identity_matrix, maps_point, point_image, Affine};

verus! {

/// One step of a path outline.
#[derive(Clone, Copy, Debug, PartialEq, Eq, Structural)]
pub enum PathEvent {
    /// Starts a sub-path at `at`.
    Begin { at: Point },
    /// A straight segment to `to`.
    Line { to: Point },
    /// A quadratic Bézier segment.
    Quadratic { ctrl: Point, to: Point },
    /// A cubic Bézier segment.
    Cubic { ctrl1: Point, ctrl2: Point, to: Point },
    /// Ends the current sub-path, closing it back to its start if `close`.
    End { close: bool },
}

/// Every point of `e` has an image under `a` that fits in `i64`.
pub open spec fn event_maps(a: Affine, e: PathEvent) -> bool {
    match e {
        PathEvent::Begin { at } => maps_point(a, at),
        PathEvent::Line { to } => maps_point(a, to),
        PathEvent::Quadratic { ctrl, to } => maps_point(a, ctrl) && maps_point(a, to),
        PathEvent::Cubic { ctrl1, ctrl2, to } => maps_point(a, ctrl1) && maps_point(a, ctrl2)
            && maps_point(a, to),
        PathEvent::End { close } => true,
    }
}

/// The event with each of its points mapped by `a`.
pub open spec fn event_image(a: Affine, e: PathEvent) -> PathEvent {
    match e {
        PathEvent::Begin { at } => PathEvent::Begin { at: point_image(a, at) },
        PathEvent::Line { to } => PathEvent::Line { to: point_image(a, to) },
        PathEvent::Quadratic { ctrl, to } => PathEvent::Quadratic {
            ctrl: point_image(a, ctrl),
            to: point_image(a, to),
        },
        PathEvent::Cubic { ctrl1, ctrl2, to } => PathEvent::Cubic {
            ctrl1: point_image(a, ctrl1),
            ctrl2: point_image(a, ctrl2),
            to: point_image(a, to),
        },
        PathEvent::End { close } => PathEvent::End { close },
    }
}

/// Every event of `p` can be mapped by `a`.
pub open spec fn path_maps(a: Affine, p: Seq<PathEvent>) -> bool {
    forall|i: int| 0 <= i < p.len() ==> event_maps(a, #[trigger] p[i])
}

/// The path with every event mapped by `a`.
pub open spec fn path_image(a: Affine, p: Seq<PathEvent>) -> Seq<PathEvent> {
    p.map_values(|e: PathEvent| event_image(a, e))
}

/// The identity maps every path onto itself.
pub proof fn lemma_identity_image(a: Affine, p: Seq<PathEvent>)
    requires
        is_identity_matrix(a),
    ensures
        path_maps(a, p),
        path_image(a, p) == p,
{
    assert forall|i: int| 0 <= i < p.len() implies event_maps(a, #[trigger] p[i])
        && event_image(a, p[i]) == p[i] by {}
    assert(path_image(a, p) =~= p);
}

fn transform_event(a: &Affine, e: PathEvent) -> (r: Option<PathEvent>)
    ensures
        r is Some <==> event_maps(*a, e),
        r matches Some(f) ==> f == event_image(*a, e),
{
    match e {
        PathEvent::Begin { at } => match a.transform_point(at) {
            Some(at) => Some(PathEvent::Begin { at }),
            None => None,
        },
        PathEvent::Line { to } => match a.transform_point(to) {
            Some(to) => Some(PathEvent::Line { to }),
            None => None,
        },
        PathEvent::Quadratic { ctrl, to } => match (a.transform_point(ctrl), a.transform_point(to)) {
            (Some(ctrl), Some(to)) => Some(PathEvent::Quadratic { ctrl, to }),
            _ => None,
        },
        PathEvent::Cubic { ctrl1, ctrl2, to } => match (
            a.transform_point(ctrl1),
            a.transform_point(ctrl2),
            a.transform_point(to),
        ) {
            (Some(ctrl1), Some(ctrl2), Some(to)) => Some(PathEvent::Cubic { ctrl1, ctrl2, to }),
            _ => None,
        },
        PathEvent::End { close } => Some(PathEvent::End { close }),
    }
}

/// An outline made of sub-paths of straight and curved segments.
#[derive(Clone, Debug, PartialEq, Eq)]
pub struct Path {
    events: Vec<PathEvent>,
}

impl View for Path {
    type V = Seq<PathEvent>;

    closed spec fn view(&self) -> Seq<PathEvent> {
        self.events@
    }
}

impl Path {
    pub fn new(events: Vec<PathEvent>) -> (r: Path)
        ensures
            r@ == events@,
    {
        Path { events }
    }

    pub fn events(&self) -> (r: &Vec<PathEvent>)
        ensures
            r@ == self@,
    {
        &self.events
    }

    /// The path with every point mapped by `a`, or `None` when an image
    /// leaves the `i64` range.
    pub fn transformed(&self, a: &Affine) -> (r: Option<Path>)
        ensures
            r is Some <==> path_maps(*a, self@),
            r matches Some(q) ==> q@ == path_image(*a, self@),
    {
        let mut out: Vec<PathEvent> = Vec::new();
        let mut i: usize = 0;
        while i < self.events.len()
            invariant
                i <= self.events@.len(),
                out@.len() == i,
                forall|j: int| 0 <= j < i ==> event_maps(*a, #[trigger] self.events@[j]),
                forall|j: int| 0 <= j < i ==> #[trigger] out@[j] == event_image(*a, self.events@[j]),
            decreases self.events@.len() - i,
        {
            match transform_event(a, self.events[i]) {
                Some(e) => out.push(e),
                None => return None,
            }
            i += 1;
        }
        assert(out@ =~= path_image(*a, self@));
        Some(Path { events: out })
    }
}

} // verus!
