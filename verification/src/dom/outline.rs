//! Outlines: the geometry of a shape before it is painted.

use crate::geometry::{Rect2, Transform2, Vector2};
use crate::number::Number;
use vstd::prelude::*;

verus! {

/// One step along a contour. The first step of a contour is an `Endpoint`: where it starts.
#[derive(Clone, Copy, PartialEq, Eq, Structural, Debug)]
pub enum Segment {
    /// A straight line to the point (or the start of the contour).
    Endpoint(Vector2),
    /// A quadratic Bezier curve.
    Quadratic { control: Vector2, to: Vector2 },
    /// A cubic Bezier curve.
    Cubic { control1: Vector2, control2: Vector2, to: Vector2 },
    /// An elliptical arc. `rotation` is the angle of the ellipse's x axis, in degrees.
    Arc { radius: Vector2, rotation: Number, large_arc: bool, clockwise: bool, to: Vector2 },
}

impl Segment {
    /// Where the step ends.
    pub open spec fn end_spec(self) -> Vector2 {
        match self {
            Segment::Endpoint(p) => p,
            Segment::Quadratic { to, .. } => to,
            Segment::Cubic { to, .. } => to,
            Segment::Arc { to, .. } => to,
        }
    }

    /// The rectangle `acc` grown to hold the points that define this step, each mapped by
    /// `transform`. Of an arc only the end point counts.
    pub open spec fn grow_spec(self, transform: Transform2, acc: Option<Rect2>) -> Option<Rect2> {
        match self {
            Segment::Endpoint(p) => grow_by_point(acc, transform.apply_spec(p)),
            Segment::Quadratic { control, to } => grow_by_point(
                grow_by_point(acc, transform.apply_spec(control)),
                transform.apply_spec(to),
            ),
            Segment::Cubic { control1, control2, to } => grow_by_point(
                grow_by_point(
                    grow_by_point(acc, transform.apply_spec(control1)),
                    transform.apply_spec(control2),
                ),
                transform.apply_spec(to),
            ),
            Segment::Arc { to, .. } => grow_by_point(acc, transform.apply_spec(to)),
        }
    }

    pub fn end(self) -> (r: Vector2)
        ensures
            r == self.end_spec(),
    {
        match self {
            Segment::Endpoint(p) => p,
            Segment::Quadratic { to, .. } => to,
            Segment::Cubic { to, .. } => to,
            Segment::Arc { to, .. } => to,
        }
    }

    pub fn grow(self, transform: Transform2, acc: Option<Rect2>) -> (r: Option<Rect2>)
        ensures
            r == self.grow_spec(transform, acc),
    {
        match self {
            Segment::Endpoint(p) => grow(acc, transform.apply(p)),
            Segment::Quadratic { control, to } => grow(
                grow(acc, transform.apply(control)),
                transform.apply(to),
            ),
            Segment::Cubic { control1, control2, to } => grow(
                grow(grow(acc, transform.apply(control1)), transform.apply(control2)),
                transform.apply(to),
            ),
            Segment::Arc { to, .. } => grow(acc, transform.apply(to)),
        }
    }
}

/// The smallest rectangle that holds `acc` and the point `p`.
pub open spec fn grow_by_point(acc: Option<Rect2>, p: Vector2) -> Option<Rect2> {
    match acc {
        Some(r) => Some(Rect2 { min: r.min.min_spec(p), max: r.max.max_spec(p) }),
        None => Some(Rect2 { min: p, max: p }),
    }
}

fn grow(acc: Option<Rect2>, p: Vector2) -> (r: Option<Rect2>)
    ensures
        r == grow_by_point(acc, p),
{
    match acc {
        Some(r) => Some(Rect2 { min: r.min.min(p), max: r.max.max(p) }),
        None => Some(Rect2 { min: p, max: p }),
    }
}

/// A connected run of segments.
#[derive(Clone, Debug)]
pub struct Contour {
    pub segments: Vec<Segment>,
    pub closed: bool,
}

/// A [`Contour`] as plain values.
pub struct ContourModel {
    pub segments: Seq<Segment>,
    pub closed: bool,
}

impl DeepView for Contour {
    type V = ContourModel;

    open spec fn deep_view(&self) -> ContourModel {
        ContourModel { segments: self.segments@, closed: self.closed }
    }
}

impl ContourModel {
    pub open spec fn empty() -> ContourModel {
        ContourModel { segments: Seq::empty(), closed: false }
    }

    pub open spec fn push(self, s: Segment) -> ContourModel {
        ContourModel { segments: self.segments.push(s), closed: self.closed }
    }

    pub open spec fn close(self) -> ContourModel {
        ContourModel { segments: self.segments, closed: true }
    }

    /// The bounds of the first `n` segments mapped by `transform`, on top of `acc`.
    pub open spec fn grow(self, transform: Transform2, acc: Option<Rect2>, n: nat) -> Option<Rect2>
        decreases n,
    {
        if n == 0 || n > self.segments.len() {
            acc
        } else {
            self.segments[n - 1].grow_spec(transform, self.grow(transform, acc, (n - 1) as nat))
        }
    }

    /// The four corners of `rect`, closed.
    pub open spec fn from_rect(rect: Rect2) -> ContourModel {
        ContourModel {
            segments: seq![
                Segment::Endpoint(rect.min),
                Segment::Endpoint(Vector2 { x: rect.max.x, y: rect.min.y }),
                Segment::Endpoint(rect.max),
                Segment::Endpoint(Vector2 { x: rect.min.x, y: rect.max.y }),
            ],
            closed: true,
        }
    }

    /// The rectangle `rect` with its corners rounded by quarter ellipses of the given radius.
    pub open spec fn from_rect_rounded(rect: Rect2, radius: Vector2) -> ContourModel {
        let zero = Number::zero_spec();
        let x0 = rect.min.x;
        let y0 = rect.min.y;
        let x1 = rect.max.x;
        let y1 = rect.max.y;
        let rx = radius.x;
        let ry = radius.y;
        ContourModel {
            segments: seq![
                Segment::Endpoint(Vector2 { x: x0.add_spec(rx), y: y0 }),
                Segment::Endpoint(Vector2 { x: x1.sub_spec(rx), y: y0 }),
                Segment::Arc {
                    radius,
                    rotation: zero,
                    large_arc: false,
                    clockwise: true,
                    to: Vector2 { x: x1, y: y0.add_spec(ry) },
                },
                Segment::Endpoint(Vector2 { x: x1, y: y1.sub_spec(ry) }),
                Segment::Arc {
                    radius,
                    rotation: zero,
                    large_arc: false,
                    clockwise: true,
                    to: Vector2 { x: x1.sub_spec(rx), y: y1 },
                },
                Segment::Endpoint(Vector2 { x: x0.add_spec(rx), y: y1 }),
                Segment::Arc {
                    radius,
                    rotation: zero,
                    large_arc: false,
                    clockwise: true,
                    to: Vector2 { x: x0, y: y1.sub_spec(ry) },
                },
                Segment::Endpoint(Vector2 { x: x0, y: y0.add_spec(ry) }),
                Segment::Arc {
                    radius,
                    rotation: zero,
                    large_arc: false,
                    clockwise: true,
                    to: Vector2 { x: x0.add_spec(rx), y: y0 },
                },
            ],
            closed: true,
        }
    }

    /// The ellipse around `center`, as four quarter arcs that start at its rightmost point.
    pub open spec fn ellipse(center: Vector2, radius: Vector2) -> ContourModel {
        let zero = Number::zero_spec();
        let right = Vector2 { x: center.x.add_spec(radius.x), y: center.y };
        let bottom = Vector2 { x: center.x, y: center.y.add_spec(radius.y) };
        let left = Vector2 { x: center.x.sub_spec(radius.x), y: center.y };
        let top = Vector2 { x: center.x, y: center.y.sub_spec(radius.y) };
        ContourModel {
            segments: seq![
                Segment::Endpoint(right),
                Segment::Arc { radius, rotation: zero, large_arc: false, clockwise: true, to: bottom },
                Segment::Arc { radius, rotation: zero, large_arc: false, clockwise: true, to: left },
                Segment::Arc { radius, rotation: zero, large_arc: false, clockwise: true, to: top },
                Segment::Arc { radius, rotation: zero, large_arc: false, clockwise: true, to: right },
            ],
            closed: true,
        }
    }
}

impl Contour {
    pub fn new() -> (r: Contour)
        ensures
            r.deep_view() == ContourModel::empty(),
    {
        Contour { segments: Vec::new(), closed: false }
    }

    pub fn is_empty(&self) -> (r: bool)
        ensures
            r == (self.segments@.len() == 0),
    {
        self.segments.len() == 0
    }

    pub fn push(&mut self, s: Segment)
        ensures
            final(self).deep_view() == old(self).deep_view().push(s),
    {
        self.segments.push(s);
    }

    pub fn close(&mut self)
        ensures
            final(self).deep_view() == old(self).deep_view().close(),
    {
        self.closed = true;
    }

    pub fn from_rect(rect: Rect2) -> (r: Contour)
        ensures
            r.deep_view() == ContourModel::from_rect(rect),
    {
        let mut segments: Vec<Segment> = Vec::new();
        segments.push(Segment::Endpoint(rect.min));
        segments.push(Segment::Endpoint(Vector2 { x: rect.max.x, y: rect.min.y }));
        segments.push(Segment::Endpoint(rect.max));
        segments.push(Segment::Endpoint(Vector2 { x: rect.min.x, y: rect.max.y }));
        proof {
            assert(segments@ =~= ContourModel::from_rect(rect).segments);
        }
        Contour { segments, closed: true }
    }

    pub fn from_rect_rounded(rect: Rect2, radius: Vector2) -> (r: Contour)
        ensures
            r.deep_view() == ContourModel::from_rect_rounded(rect, radius),
    {
        let zero = Number::zero();
        let x0 = rect.min.x;
        let y0 = rect.min.y;
        let x1 = rect.max.x;
        let y1 = rect.max.y;
        let rx = radius.x;
        let ry = radius.y;
        let mut segments: Vec<Segment> = Vec::new();
        segments.push(Segment::Endpoint(Vector2 { x: x0.add(rx), y: y0 }));
        segments.push(Segment::Endpoint(Vector2 { x: x1.sub(rx), y: y0 }));
        segments.push(
            Segment::Arc {
                radius,
                rotation: zero,
                large_arc: false,
                clockwise: true,
                to: Vector2 { x: x1, y: y0.add(ry) },
            },
        );
        segments.push(Segment::Endpoint(Vector2 { x: x1, y: y1.sub(ry) }));
        segments.push(
            Segment::Arc {
                radius,
                rotation: zero,
                large_arc: false,
                clockwise: true,
                to: Vector2 { x: x1.sub(rx), y: y1 },
            },
        );
        segments.push(Segment::Endpoint(Vector2 { x: x0.add(rx), y: y1 }));
        segments.push(
            Segment::Arc {
                radius,
                rotation: zero,
                large_arc: false,
                clockwise: true,
                to: Vector2 { x: x0, y: y1.sub(ry) },
            },
        );
        segments.push(Segment::Endpoint(Vector2 { x: x0, y: y0.add(ry) }));
        segments.push(
            Segment::Arc {
                radius,
                rotation: zero,
                large_arc: false,
                clockwise: true,
                to: Vector2 { x: x0.add(rx), y: y0 },
            },
        );
        proof {
            assert(segments@ =~= ContourModel::from_rect_rounded(rect, radius).segments);
        }
        Contour { segments, closed: true }
    }

    pub fn ellipse(center: Vector2, radius: Vector2) -> (r: Contour)
        ensures
            r.deep_view() == ContourModel::ellipse(center, radius),
    {
        let zero = Number::zero();
        let right = Vector2 { x: center.x.add(radius.x), y: center.y };
        let bottom = Vector2 { x: center.x, y: center.y.add(radius.y) };
        let left = Vector2 { x: center.x.sub(radius.x), y: center.y };
        let top = Vector2 { x: center.x, y: center.y.sub(radius.y) };
        let mut segments: Vec<Segment> = Vec::new();
        segments.push(Segment::Endpoint(right));
        segments.push(
            Segment::Arc { radius, rotation: zero, large_arc: false, clockwise: true, to: bottom },
        );
        segments.push(
            Segment::Arc { radius, rotation: zero, large_arc: false, clockwise: true, to: left },
        );
        segments.push(
            Segment::Arc { radius, rotation: zero, large_arc: false, clockwise: true, to: top },
        );
        segments.push(
            Segment::Arc { radius, rotation: zero, large_arc: false, clockwise: true, to: right },
        );
        proof {
            assert(segments@ =~= ContourModel::ellipse(center, radius).segments);
        }
        Contour { segments, closed: true }
    }

    /// The bounds of the contour mapped by `transform`, on top of `acc`.
    pub fn grow(&self, transform: Transform2, acc: Option<Rect2>) -> (r: Option<Rect2>)
        ensures
            r == self.deep_view().grow(transform, acc, self.segments@.len()),
    {
        let mut out = acc;
        let mut i: usize = 0;
        while i < self.segments.len()
            invariant
                i <= self.segments@.len(),
                out == self.deep_view().grow(transform, acc, i as nat),
            decreases self.segments@.len() - i,
        {
            out = self.segments[i].grow(transform, out);
            i = i + 1;
        }
        out
    }

    /// A copy of this contour.
    pub fn duplicate(&self) -> (r: Contour)
        ensures
            r.deep_view() == self.deep_view(),
    {
        let mut segments: Vec<Segment> = Vec::new();
        let mut i: usize = 0;
        while i < self.segments.len()
            invariant
                i <= self.segments@.len(),
                segments@ == self.segments@.take(i as int),
            decreases self.segments@.len() - i,
        {
            segments.push(self.segments[i]);
            proof {
                assert(self.segments@.take(i + 1) =~= self.segments@.take(i as int).push(
                    self.segments@[i as int],
                ));
            }
            i = i + 1;
        }
        proof {
            assert(self.segments@.take(self.segments@.len() as int) =~= self.segments@);
        }
        Contour { segments, closed: self.closed }
    }
}

/// The contours of a shape. None of them is empty.
#[derive(Clone, Debug)]
pub struct Outline {
    pub contours: Vec<Contour>,
}

impl DeepView for Outline {
    type V = Seq<ContourModel>;

    open spec fn deep_view(&self) -> Seq<ContourModel> {
        Seq::new(self.contours@.len(), |i: int| self.contours@[i].deep_view())
    }
}

/// The bounds of the first `n` of the `contours` mapped by `transform`, on top of `acc`.
pub open spec fn outline_grow(
    contours: Seq<ContourModel>,
    transform: Transform2,
    acc: Option<Rect2>,
    n: nat,
) -> Option<Rect2>
    decreases n,
{
    if n == 0 || n > contours.len() {
        acc
    } else {
        let c = contours[n - 1];
        c.grow(transform, outline_grow(contours, transform, acc, (n - 1) as nat), c.segments.len())
    }
}

/// The smallest rectangle that holds every defining point of the `contours`, each mapped by
/// `transform`; `None` when there is no point.
pub open spec fn outline_bounds(contours: Seq<ContourModel>, transform: Transform2) -> Option<Rect2> {
    outline_grow(contours, transform, None, contours.len())
}

/// What `contours` becomes when `contour` is added: an empty contour is left out.
pub open spec fn outline_push(contours: Seq<ContourModel>, contour: ContourModel) -> Seq<
    ContourModel,
> {
    if contour.segments.len() == 0 {
        contours
    } else {
        contours.push(contour)
    }
}

impl Outline {
    pub fn new() -> (r: Outline)
        ensures
            r.deep_view() == Seq::<ContourModel>::empty(),
    {
        let r = Outline { contours: Vec::new() };
        proof {
            assert(r.deep_view() =~= Seq::<ContourModel>::empty());
        }
        r
    }

    /// The number of contours.
    pub fn len(&self) -> (r: usize)
        ensures
            r == self.deep_view().len(),
    {
        self.contours.len()
    }

    /// Adds a contour, unless it is empty.
    pub fn push_contour(&mut self, contour: Contour)
        ensures
            final(self).deep_view() == outline_push(old(self).deep_view(), contour.deep_view()),
    {
        if contour.is_empty() {
            return ;
        }
        let ghost before = self.deep_view();
        let ghost c = contour.deep_view();
        self.contours.push(contour);
        proof {
            assert(self.deep_view() =~= before.push(c));
        }
    }

    /// The outline made of one contour.
    pub fn from_contour(contour: Contour) -> (r: Outline)
        ensures
            r.deep_view() == outline_push(Seq::empty(), contour.deep_view()),
    {
        let mut outline = Outline::new();
        outline.push_contour(contour);
        outline
    }

    /// The bounds of the outline mapped by `transform`.
    pub fn bounds(&self, transform: Transform2) -> (r: Option<Rect2>)
        ensures
            r == outline_bounds(self.deep_view(), transform),
    {
        let mut out: Option<Rect2> = None;
        let mut i: usize = 0;
        while i < self.contours.len()
            invariant
                i <= self.contours@.len(),
                out == outline_grow(self.deep_view(), transform, None, i as nat),
            decreases self.contours@.len() - i,
        {
            out = self.contours[i].grow(transform, out);
            i = i + 1;
        }
        out
    }

    /// A copy of this outline.
    pub fn duplicate(&self) -> (r: Outline)
        ensures
            r.deep_view() == self.deep_view(),
    {
        let mut contours: Vec<Contour> = Vec::new();
        let mut i: usize = 0;
        while i < self.contours.len()
            invariant
                i <= self.contours@.len(),
                contours@.len() == i,
                forall|j: int| 0 <= j < i ==> (#[trigger] contours@[j]).deep_view() == self.contours@[j].deep_view(),
            decreases self.contours@.len() - i,
        {
            contours.push(self.contours[i].duplicate());
            i = i + 1;
        }
        let r = Outline { contours };
        proof {
            assert(r.deep_view() =~= self.deep_view());
        }
        r
    }
}

} // verus!
