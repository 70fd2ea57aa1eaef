//! The `<path>` and `<clipPath>` elements, and how path data becomes an outline.

use crate::dom::{
    clip_items_parsed, elements_error, id_str, id_view, parse_clip_items, Item, ParseNode, Tag,
};
use crate::dom::attrs::Attrs;
use crate::dom::error::{Error, ErrorModel};
use crate::dom::node::{err_of, first_of, id_attr, id_attr_spec, parse_path_field, path_field_spec};
use crate::dom::outline::{outline_push, Contour, ContourModel, Outline, Segment};
use crate::dom::parser::path::PathSegment;
use crate::dom::xml::{subtree_end, XmlNode};
use crate::geometry::Vector2;
use crate::number::Number;
use std::sync::Arc;
use vstd::prelude::*;

verus! {

/// The `<clipPath>` element: the shapes whose outlines make the clip.
#[derive(Debug)]
pub struct TagClipPath {
    pub id: Option<String>,
    pub items: Vec<Item>,
}

/// The `<path>` element: the outline that its path data draws.
#[derive(Debug)]
pub struct TagPath {
    pub outline: Outline,
    pub attrs: Attrs,
    pub id: Option<String>,
}

/// The image of `last` under the point reflection at `point`, or `point` itself where there
/// is no `last`.
pub open spec fn reflect_on_spec(last: Option<Vector2>, point: Vector2) -> Vector2 {
    match last {
        Some(c) => point.scale_spec(Number::from_int_spec(2)).sub_spec(c),
        None => point,
    }
}

/// The image of `last` under the point reflection at `point`, or `point` itself where there
/// is no `last`: the control point that a smooth curve takes from the curve before it.
pub fn reflect_on(last: Option<Vector2>, point: Vector2) -> (r: Vector2)
    ensures
        r == reflect_on_spec(last, point),
{
    match last {
        Some(c) => point.scale(Number::from_int(2)).sub(c),
        None => point,
    }
}

/// Where the reading of path data stands.
pub struct PathState {
    /// The contours that are done.
    pub contours: Seq<ContourModel>,
    /// The contour that is being drawn.
    pub contour: ContourModel,
    /// Where the contour started.
    pub start: Vector2,
    /// The current point.
    pub last: Vector2,
    /// The control point of the command before, where that was a quadratic curve.
    pub last_quadratic: Option<Vector2>,
    /// The second control point of the command before, where that was a cubic curve.
    pub last_cubic: Option<Vector2>,
}

/// The point `(x, y)`, taken from `last` unless `abs`.
pub open spec fn target(abs: bool, last: Vector2, x: Number, y: Number) -> Vector2 {
    if abs {
        Vector2 { x, y }
    } else {
        last.add_spec(Vector2 { x, y })
    }
}

fn target_exec(abs: bool, last: Vector2, x: Number, y: Number) -> (r: Vector2)
    ensures
        r == target(abs, last, x, y),
{
    if abs {
        Vector2 { x, y }
    } else {
        last.add(Vector2 { x, y })
    }
}

impl PathState {
    pub open spec fn initial() -> PathState {
        PathState {
            contours: Seq::empty(),
            contour: ContourModel::empty(),
            start: Vector2::zero_spec(),
            last: Vector2::zero_spec(),
            last_quadratic: None,
            last_cubic: None,
        }
    }

    /// The state after a straight line to `p`.
    pub open spec fn line_to(self, p: Vector2) -> PathState {
        PathState {
            contour: self.contour.push(Segment::Endpoint(p)),
            last: p,
            last_quadratic: None,
            last_cubic: None,
            ..self
        }
    }

    /// The state after a cubic curve.
    pub open spec fn cubic_to(self, control1: Vector2, control2: Vector2, to: Vector2) -> PathState {
        PathState {
            contour: self.contour.push(Segment::Cubic { control1, control2, to }),
            last: to,
            last_quadratic: None,
            last_cubic: Some(control2),
            ..self
        }
    }

    /// The state after a quadratic curve.
    pub open spec fn quadratic_to(self, control: Vector2, to: Vector2) -> PathState {
        PathState {
            contour: self.contour.push(Segment::Quadratic { control, to }),
            last: to,
            last_quadratic: Some(control),
            last_cubic: None,
            ..self
        }
    }

    /// The state after the command `seg`.
    ///
    /// A move ends the contour that is being drawn and starts a new one. A smooth curve
    /// takes its first control point from the curve before it, by [`reflect_on_spec`]. An
    /// arc over no distance draws nothing. A close draws a line back to the start of the
    /// contour, unless the current point is there already, and marks the contour closed;
    /// what follows without a move goes on in the same contour.
    pub open spec fn step(self, seg: PathSegment) -> PathState {
        match seg {
            PathSegment::MoveTo { abs, x, y } => {
                let p = target(abs, self.last, x, y);
                PathState {
                    contours: outline_push(self.contours, self.contour),
                    contour: ContourModel::empty().push(Segment::Endpoint(p)),
                    start: p,
                    last: p,
                    last_quadratic: None,
                    last_cubic: None,
                }
            },
            PathSegment::LineTo { abs, x, y } => self.line_to(target(abs, self.last, x, y)),
            PathSegment::HorizontalLineTo { abs, x } => self.line_to(
                if abs {
                    Vector2 { x, y: self.last.y }
                } else {
                    Vector2 { x, y: Number::zero_spec() }.add_spec(self.last)
                },
            ),
            PathSegment::VerticalLineTo { abs, y } => self.line_to(
                if abs {
                    Vector2 { x: self.last.x, y }
                } else {
                    Vector2 { x: Number::zero_spec(), y }.add_spec(self.last)
                },
            ),
            PathSegment::CurveTo { abs, x1, y1, x2, y2, x, y } => self.cubic_to(
                target(abs, self.last, x1, y1),
                target(abs, self.last, x2, y2),
                target(abs, self.last, x, y),
            ),
            PathSegment::SmoothCurveTo { abs, x2, y2, x, y } => self.cubic_to(
                reflect_on_spec(self.last_cubic, self.last),
                target(abs, self.last, x2, y2),
                target(abs, self.last, x, y),
            ),
            PathSegment::Quadratic { abs, x1, y1, x, y } => self.quadratic_to(
                target(abs, self.last, x1, y1),
                target(abs, self.last, x, y),
            ),
            PathSegment::SmoothQuadratic { abs, x, y } => self.quadratic_to(
                reflect_on_spec(self.last_quadratic, self.last),
                target(abs, self.last, x, y),
            ),
            PathSegment::EllipticalArc { abs, rx, ry, x_axis_rotation, large_arc, sweep, x, y } => {
                let p = target(abs, self.last, x, y);
                PathState {
                    contour: if p == self.last {
                        self.contour
                    } else {
                        self.contour.push(
                            Segment::Arc {
                                radius: Vector2 { x: rx, y: ry },
                                rotation: x_axis_rotation,
                                large_arc,
                                clockwise: sweep,
                                to: p,
                            },
                        )
                    },
                    last: p,
                    last_quadratic: None,
                    last_cubic: None,
                    ..self
                }
            },
            PathSegment::ClosePath { .. } => PathState {
                contour: (if self.last != self.start {
                    self.contour.push(Segment::Endpoint(self.start))
                } else {
                    self.contour
                }).close(),
                last: self.start,
                ..self
            },
        }
    }

    /// The state after the first `n` of the commands `segments`.
    pub open spec fn after(segments: Seq<PathSegment>, n: nat) -> PathState
        decreases n,
    {
        if n == 0 || n > segments.len() {
            PathState::initial()
        } else {
            PathState::after(segments, (n - 1) as nat).step(segments[n - 1])
        }
    }

    /// The contours once the reading has ended: the one that is being drawn is done too.
    pub open spec fn finish(self) -> Seq<ContourModel> {
        outline_push(self.contours, self.contour)
    }
}

/// The outline that the commands `segments` draw.
pub open spec fn outline_of(segments: Seq<PathSegment>) -> Seq<ContourModel> {
    PathState::after(segments, segments.len()).finish()
}

/// The reading of path data as it goes: what [`PathState`] describes.
pub struct PathBuilder {
    pub outline: Outline,
    pub contour: Contour,
    pub start: Vector2,
    pub last: Vector2,
    pub last_quadratic: Option<Vector2>,
    pub last_cubic: Option<Vector2>,
}

impl DeepView for PathBuilder {
    type V = PathState;

    open spec fn deep_view(&self) -> PathState {
        PathState {
            contours: self.outline.deep_view(),
            contour: self.contour.deep_view(),
            start: self.start,
            last: self.last,
            last_quadratic: self.last_quadratic,
            last_cubic: self.last_cubic,
        }
    }
}

impl PathBuilder {
    pub fn new() -> (r: PathBuilder)
        ensures
            r.deep_view() == PathState::initial(),
    {
        PathBuilder {
            outline: Outline::new(),
            contour: Contour::new(),
            start: Vector2::zero(),
            last: Vector2::zero(),
            last_quadratic: None,
            last_cubic: None,
        }
    }

    fn line_to(&mut self, p: Vector2)
        ensures
            final(self).deep_view() == old(self).deep_view().line_to(p),
    {
        self.contour.push(Segment::Endpoint(p));
        self.last = p;
        self.last_quadratic = None;
        self.last_cubic = None;
    }

    fn cubic_to(&mut self, control1: Vector2, control2: Vector2, to: Vector2)
        ensures
            final(self).deep_view() == old(self).deep_view().cubic_to(control1, control2, to),
    {
        self.contour.push(Segment::Cubic { control1, control2, to });
        self.last = to;
        self.last_quadratic = None;
        self.last_cubic = Some(control2);
    }

    fn quadratic_to(&mut self, control: Vector2, to: Vector2)
        ensures
            final(self).deep_view() == old(self).deep_view().quadratic_to(control, to),
    {
        self.contour.push(Segment::Quadratic { control, to });
        self.last = to;
        self.last_quadratic = Some(control);
        self.last_cubic = None;
    }

    fn move_to(&mut self, p: Vector2)
        ensures
            final(self).deep_view() == (PathState {
                contours: outline_push(old(self).deep_view().contours, old(self).deep_view().contour),
                contour: ContourModel::empty().push(Segment::Endpoint(p)),
                start: p,
                last: p,
                last_quadratic: None,
                last_cubic: None,
            }),
    {
        self.outline.push_contour(self.contour.duplicate());
        let mut contour = Contour::new();
        contour.push(Segment::Endpoint(p));
        self.contour = contour;
        self.start = p;
        self.last = p;
        self.last_quadratic = None;
        self.last_cubic = None;
    }

    fn arc_to(&mut self, radius: Vector2, rotation: Number, large_arc: bool, clockwise: bool, p: Vector2)
        ensures
            final(self).deep_view() == (PathState {
                contour: if p == old(self).last {
                    old(self).deep_view().contour
                } else {
                    old(self).deep_view().contour.push(
                        Segment::Arc { radius, rotation, large_arc, clockwise, to: p },
                    )
                },
                last: p,
                last_quadratic: None,
                last_cubic: None,
                ..old(self).deep_view()
            }),
    {
        if !(p.x.raw == self.last.x.raw && p.y.raw == self.last.y.raw) {
            self.contour.push(Segment::Arc { radius, rotation, large_arc, clockwise, to: p });
        }
        self.last = p;
        self.last_quadratic = None;
        self.last_cubic = None;
    }

    fn close(&mut self)
        ensures
            final(self).deep_view() == (PathState {
                contour: (if old(self).last != old(self).start {
                    old(self).deep_view().contour.push(Segment::Endpoint(old(self).start))
                } else {
                    old(self).deep_view().contour
                }).close(),
                last: old(self).start,
                ..old(self).deep_view()
            }),
    {
        if !(self.last.x.raw == self.start.x.raw && self.last.y.raw == self.start.y.raw) {
            self.contour.push(Segment::Endpoint(self.start));
        }
        self.last = self.start;
        self.contour.close();
    }

    /// Takes in the command `seg`.
    pub fn step(&mut self, seg: PathSegment)
        ensures
            final(self).deep_view() == old(self).deep_view().step(seg),
    {
        match seg {
            PathSegment::MoveTo { abs, x, y } => {
                let p = target_exec(abs, self.last, x, y);
                self.move_to(p);
            },
            PathSegment::LineTo { abs, x, y } => {
                let p = target_exec(abs, self.last, x, y);
                self.line_to(p);
            },
            PathSegment::HorizontalLineTo { abs, x } => {
                let p = if abs {
                    Vector2 { x, y: self.last.y }
                } else {
                    Vector2 { x, y: Number::zero() }.add(self.last)
                };
                self.line_to(p);
            },
            PathSegment::VerticalLineTo { abs, y } => {
                let p = if abs {
                    Vector2 { x: self.last.x, y }
                } else {
                    Vector2 { x: Number::zero(), y }.add(self.last)
                };
                self.line_to(p);
            },
            PathSegment::CurveTo { abs, x1, y1, x2, y2, x, y } => {
                let c1 = target_exec(abs, self.last, x1, y1);
                let c2 = target_exec(abs, self.last, x2, y2);
                let p = target_exec(abs, self.last, x, y);
                self.cubic_to(c1, c2, p);
            },
            PathSegment::SmoothCurveTo { abs, x2, y2, x, y } => {
                let c1 = reflect_on(self.last_cubic, self.last);
                let c2 = target_exec(abs, self.last, x2, y2);
                let p = target_exec(abs, self.last, x, y);
                self.cubic_to(c1, c2, p);
            },
            PathSegment::Quadratic { abs, x1, y1, x, y } => {
                let c1 = target_exec(abs, self.last, x1, y1);
                let p = target_exec(abs, self.last, x, y);
                self.quadratic_to(c1, p);
            },
            PathSegment::SmoothQuadratic { abs, x, y } => {
                let c1 = reflect_on(self.last_quadratic, self.last);
                let p = target_exec(abs, self.last, x, y);
                self.quadratic_to(c1, p);
            },
            PathSegment::EllipticalArc { abs, rx, ry, x_axis_rotation, large_arc, sweep, x, y } => {
                let p = target_exec(abs, self.last, x, y);
                self.arc_to(Vector2 { x: rx, y: ry }, x_axis_rotation, large_arc, sweep, p);
            },
            PathSegment::ClosePath { .. } => {
                self.close();
            },
        }
    }

    /// Ends the reading.
    pub fn finish(self) -> (r: Outline)
        ensures
            r.deep_view() == self.deep_view().finish(),
    {
        let mut outline = self.outline;
        outline.push_contour(self.contour);
        outline
    }
}

/// The outline that the commands `segments` draw.
pub fn build_outline(segments: &Vec<PathSegment>) -> (r: Outline)
    ensures
        r.deep_view() == outline_of(segments@),
{
    let mut builder = PathBuilder::new();
    let mut i: usize = 0;
    while i < segments.len()
        invariant
            i <= segments@.len(),
            builder.deep_view() == PathState::after(segments@, i as nat),
        decreases segments@.len() - i,
    {
        builder.step(segments[i]);
        i = i + 1;
    }
    builder.finish()
}

/// The outline of a polygon or polyline through `points`: one contour, not closed.
pub open spec fn points_outline(points: Seq<Vector2>) -> Seq<ContourModel> {
    outline_push(
        Seq::empty(),
        ContourModel {
            segments: Seq::new(points.len(), |i: int| Segment::Endpoint(points[i])),
            closed: false,
        },
    )
}

/// The outline of a polygon or polyline through `points`.
pub fn build_points_outline(points: &Vec<Vector2>) -> (r: Outline)
    ensures
        r.deep_view() == points_outline(points@),
{
    let mut contour = Contour::new();
    let mut i: usize = 0;
    while i < points.len()
        invariant
            i <= points@.len(),
            !contour.closed,
            contour.segments@.len() == i,
            forall|j: int| 0 <= j < i ==> #[trigger] contour.segments@[j] == Segment::Endpoint(points@[j]),
        decreases points@.len() - i,
    {
        contour.segments.push(Segment::Endpoint(points[i]));
        i = i + 1;
    }
    proof {
        assert(contour.segments@ =~= Seq::new(
            points@.len(),
            |i: int| Segment::Endpoint(points@[i]),
        ));
    }
    Outline::from_contour(contour)
}

impl ParseNode for TagPath {
    /// Whether the fields of `self` are what the element at `at` sets them to.
    #[verifier::opaque]
    open spec fn parsed_from(&self, nodes: Seq<XmlNode>, at: int) -> bool {
        &&& id_attr_spec(nodes[at]) == Ok::<_, ErrorModel>(self.id.deep_view())
        &&& path_field_spec(nodes[at]) == Ok::<_, ErrorModel>(self.outline.deep_view())
        &&& self.attrs.parsed_from(nodes, at)
    }

    /// The error of the first field of the element at `at` that cannot be read.
    #[verifier::opaque]
    open spec fn parse_error(nodes: Seq<XmlNode>, at: int) -> Option<ErrorModel> {
        let e = err_of(id_attr_spec(nodes[at]));
        let e = first_of(e, err_of(path_field_spec(nodes[at])));
        let e = first_of(e, Attrs::parse_error(nodes, at));
        e
    }

    /// Reads a `<path>`.
    fn parse_node(nodes: &[XmlNode], at: usize) -> (r: Result<TagPath, Error>) {
        reveal(<TagPath as ParseNode>::parsed_from);
        reveal(<TagPath as ParseNode>::parse_error);
        let id = match id_attr(&nodes[at]) {
            Ok(v) => v,
            Err(e) => {
                return Err(e);
            },
        };
        let outline = match parse_path_field(&nodes[at]) {
            Ok(v) => v,
            Err(e) => {
                return Err(e);
            },
        };
        let attrs = match Attrs::parse(nodes, at) {
            Ok(v) => v,
            Err(e) => {
                return Err(e);
            },
        };
        Ok(TagPath { id, outline, attrs })
    }
}

impl TagClipPath {
    /// Whether the fields of `self` that are read from the element at `at` itself are what
    /// it sets them to.
    #[verifier::opaque]
    pub open spec fn fields_parsed(&self, nodes: Seq<XmlNode>, at: int) -> bool {
        &&& id_attr_spec(nodes[at]) == Ok::<_, ErrorModel>(self.id.deep_view())
    }

    /// The error of the first field of the element at `at` itself that cannot be read.
    #[verifier::opaque]
    pub open spec fn fields_error(nodes: Seq<XmlNode>, at: int) -> Option<ErrorModel> {
        first_of(
            err_of(id_attr_spec(nodes[at])),
            None,
        )
    }
}

impl ParseNode for TagClipPath {
    /// Whether the fields of `self`, and the items beneath it, are what the element at
    /// `at` and the nodes beneath it set them to.
    open spec fn parsed_from(&self, nodes: Seq<XmlNode>, at: int) -> bool
        decreases nodes.len() - at, 0nat,
    {
        if 0 <= at < nodes.len() {
            self.fields_parsed(nodes, at) && clip_items_parsed(self.items@, 0, nodes, at + 1, subtree_end(nodes, at))
        } else {
            false
        }
    }

    /// The error of the first thing of the element at `at`, or beneath it, that cannot be
    /// read: its own fields come first.
    open spec fn parse_error(nodes: Seq<XmlNode>, at: int) -> Option<ErrorModel>
        decreases nodes.len() - at, 0nat,
    {
        if 0 <= at < nodes.len() {
            first_of(
                TagClipPath::fields_error(nodes, at),
                elements_error(nodes, at + 1, subtree_end(nodes, at)),
            )
        } else {
            None
        }
    }

    /// Reads a `<clipPath>` and the elements beneath it.
    fn parse_node(nodes: &[XmlNode], at: usize) -> (r: Result<TagClipPath, Error>)
        decreases nodes@.len() - at, 1nat,
    {
        reveal(TagClipPath::fields_parsed);
        reveal(TagClipPath::fields_error);
        let id = match id_attr(&nodes[at]) {
            Ok(v) => v,
            Err(e) => {
                return Err(e);
            },
        };
        let items = match parse_clip_items(nodes, at) {
            Ok(v) => v,
            Err(e) => {
                return Err(e);
            },
        };
        Ok(TagClipPath { id, items })
    }
}

impl Tag for TagPath {
    open spec fn id_spec(&self) -> Option<Seq<char>> {
        id_view(self.id)
    }

    open spec fn children_spec(&self) -> Seq<Arc<Item>> {
        Seq::empty()
    }

    fn id(&self) -> (r: Option<&str>) {
        id_str(&self.id)
    }

    fn children(&self) -> (r: &[Arc<Item>]) {
        &[]
    }
}

impl Tag for TagClipPath {
    open spec fn id_spec(&self) -> Option<Seq<char>> {
        id_view(self.id)
    }

    open spec fn children_spec(&self) -> Seq<Arc<Item>> {
        Seq::empty()
    }

    fn id(&self) -> (r: Option<&str>) {
        id_str(&self.id)
    }

    fn children(&self) -> (r: &[Arc<Item>]) {
        &[]
    }
}

} // verus!
