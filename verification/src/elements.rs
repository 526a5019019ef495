//! Projectors for the glyph sub-entities: anchors, guidelines, contours,
//! contour points and components.
//!
//! Each projector is a pure mapping from one source entity to one fixed-shape
//! host record. Optional identifiers follow one rule everywhere: present, the
//! identifier's text is kept verbatim; absent, the field projects to the
//! explicit "no value" marker, never to an empty string.

use vstd::prelude::*;
use crate::num::{HostNum, Real, normalize_real, normalized_num};
use crate::value::SourceValue;

verus! {

/// An optional text field of a host record equals an optional source text
/// field: present exactly when the source is present, with the same
/// characters.
pub open spec fn opt_text_eq(out: Option<String>, src: Option<String>) -> bool {
    match src {
        Option::Some(s) => match out {
            Option::Some(t) => t@ == s@,
            Option::None => false,
        },
        Option::None => out is None,
    }
}

/// Copy an optional text field.
pub fn clone_opt_text(src: &Option<String>) -> (out: Option<String>)
    ensures
        opt_text_eq(out, *src),
{
    match src {
        Option::Some(s) => Option::Some(s.clone()),
        Option::None => Option::None,
    }
}

/// A source anchor: a named reference position in a glyph.
pub struct Anchor {
    pub x: Real,
    pub y: Real,
    pub name: Option<String>,
    /// The anchor's color, already in its textual RGBA form.
    pub color: Option<String>,
    pub identifier: Option<String>,
    /// The anchor's own metadata bag, when it has one.
    pub lib: Option<Vec<(String, SourceValue)>>,
}

/// The host record for an anchor.
pub struct HostAnchor {
    pub x: Real,
    pub y: Real,
    pub name: Option<String>,
    pub color: Option<String>,
    pub identifier: Option<String>,
}

/// How an anchor projects: coordinates kept as reals, the three optional
/// text fields kept verbatim or marked absent.
pub open spec fn anchor_projects(src: Anchor, out: HostAnchor) -> bool {
    &&& out.x == src.x
    &&& out.y == src.y
    &&& opt_text_eq(out.name, src.name)
    &&& opt_text_eq(out.color, src.color)
    &&& opt_text_eq(out.identifier, src.identifier)
}

/// Project one anchor.
pub fn project_anchor(a: &Anchor) -> (out: HostAnchor)
    ensures
        anchor_projects(*a, out),
{
    HostAnchor {
        x: a.x,
        y: a.y,
        name: clone_opt_text(&a.name),
        color: clone_opt_text(&a.color),
        identifier: clone_opt_text(&a.identifier),
    }
}

/// The line of a source guideline: one of exactly three shapes.
pub enum GuideLine {
    /// A vertical line through an x coordinate.
    Vertical(Real),
    /// A horizontal line through a y coordinate.
    Horizontal(Real),
    /// An angled line through (x, y) at the given degrees.
    Angled { x: Real, y: Real, degrees: Real },
}

/// A source guideline.
pub struct Guideline {
    pub line: GuideLine,
    pub name: Option<String>,
    /// The guideline's color, already in its textual RGBA form.
    pub color: Option<String>,
    pub identifier: Option<String>,
    /// The guideline's own metadata bag, when it has one.
    pub lib: Option<Vec<(String, SourceValue)>>,
}

/// The host record for a guideline: the populated subset of x, y and angle
/// is reconstructed from the shape of the line.
pub struct HostGuideline {
    pub name: Option<String>,
    pub x: Option<Real>,
    pub y: Option<Real>,
    pub angle: Option<Real>,
    pub color: Option<String>,
    pub identifier: Option<String>,
}

/// How a guideline projects: a vertical line populates x only, a horizontal
/// line y only, an angled line all three.
pub open spec fn guideline_projects(src: Guideline, out: HostGuideline) -> bool {
    &&& match src.line {
        GuideLine::Vertical(x) => out.x == Option::Some(x) && out.y is None && out.angle is None,
        GuideLine::Horizontal(y) => out.x is None && out.y == Option::Some(y) && out.angle is None,
        GuideLine::Angled { x, y, degrees } => out.x == Option::Some(x) && out.y == Option::Some(y)
            && out.angle == Option::Some(degrees),
    }
    &&& opt_text_eq(out.name, src.name)
    &&& opt_text_eq(out.color, src.color)
    &&& opt_text_eq(out.identifier, src.identifier)
}

/// Project one guideline.
pub fn project_guideline(g: &Guideline) -> (out: HostGuideline)
    ensures
        guideline_projects(*g, out),
{
    let (x, y, angle) = match g.line {
        GuideLine::Vertical(x) => (Option::Some(x), Option::None, Option::None),
        GuideLine::Horizontal(y) => (Option::None, Option::Some(y), Option::None),
        GuideLine::Angled { x, y, degrees } => (
            Option::Some(x),
            Option::Some(y),
            Option::Some(degrees),
        ),
    };
    HostGuideline {
        name: clone_opt_text(&g.name),
        x,
        y,
        angle,
        color: clone_opt_text(&g.color),
        identifier: clone_opt_text(&g.identifier),
    }
}

/// The type tag of a contour point.
#[derive(Clone, Copy, PartialEq, Eq, Structural, Debug)]
pub enum PointKind {
    Move,
    Line,
    OffCurve,
    Curve,
    QCurve,
}

/// A source contour point.
pub struct ContourPoint {
    pub x: Real,
    pub y: Real,
    pub kind: PointKind,
    pub smooth: bool,
    pub name: Option<String>,
    pub identifier: Option<String>,
    /// The point's own metadata bag, when it has one.
    pub lib: Option<Vec<(String, SourceValue)>>,
}

/// The host record for a contour point. Coordinates go through the numeric
/// normalization policy; the point type is its fixed textual tag, absent for
/// an off-curve point.
pub struct HostPoint {
    pub x: HostNum,
    pub y: HostNum,
    pub kind: Option<String>,
    pub smooth: bool,
    pub name: Option<String>,
    pub identifier: Option<String>,
}

/// The fixed textual tag of a point kind; an off-curve point has none.
pub open spec fn point_kind_text(k: PointKind, out: Option<String>) -> bool {
    match k {
        PointKind::Move => out matches Option::Some(t) && t@ == "move"@,
        PointKind::Line => out matches Option::Some(t) && t@ == "line"@,
        PointKind::OffCurve => out is None,
        PointKind::Curve => out matches Option::Some(t) && t@ == "curve"@,
        PointKind::QCurve => out matches Option::Some(t) && t@ == "qcurve"@,
    }
}

/// Name one point kind.
pub fn point_kind_name(k: PointKind) -> (out: Option<String>)
    ensures
        point_kind_text(k, out),
{
    match k {
        PointKind::Move => Option::Some(String::from_str("move")),
        PointKind::Line => Option::Some(String::from_str("line")),
        PointKind::OffCurve => Option::None,
        PointKind::Curve => Option::Some(String::from_str("curve")),
        PointKind::QCurve => Option::Some(String::from_str("qcurve")),
    }
}

/// How a contour point projects.
pub open spec fn point_projects(src: ContourPoint, out: HostPoint) -> bool {
    &&& out.x == normalized_num(src.x.bits)
    &&& out.y == normalized_num(src.y.bits)
    &&& point_kind_text(src.kind, out.kind)
    &&& out.smooth == src.smooth
    &&& opt_text_eq(out.name, src.name)
    &&& opt_text_eq(out.identifier, src.identifier)
}

/// Project one contour point.
pub fn project_point(p: &ContourPoint) -> (out: HostPoint)
    ensures
        point_projects(*p, out),
{
    HostPoint {
        x: normalize_real(p.x),
        y: normalize_real(p.y),
        kind: point_kind_name(p.kind),
        smooth: p.smooth,
        name: clone_opt_text(&p.name),
        identifier: clone_opt_text(&p.identifier),
    }
}

/// A source contour: an ordered run of points.
pub struct Contour {
    pub points: Vec<ContourPoint>,
    pub identifier: Option<String>,
    /// The contour's own metadata bag, when it has one.
    pub lib: Option<Vec<(String, SourceValue)>>,
}

/// The host record for a contour.
pub struct HostContour {
    pub points: Vec<HostPoint>,
    pub identifier: Option<String>,
}

/// How a contour projects: the same points in the same order, each through
/// the point projector.
pub open spec fn contour_projects(src: Contour, out: HostContour) -> bool {
    &&& out.points.len() == src.points.len()
    &&& forall|i: int|
        0 <= i < src.points.len() ==> point_projects(#[trigger] src.points[i], out.points[i])
    &&& opt_text_eq(out.identifier, src.identifier)
}

/// Project one contour.
#[verifier::loop_isolation(false)]
pub fn project_contour(c: &Contour) -> (out: HostContour)
    ensures
        contour_projects(*c, out),
{
    let mut points: Vec<HostPoint> = Vec::new();
    let mut i: usize = 0;
    while i < c.points.len()
        invariant
            i <= c.points.len(),
            points.len() == i,
            forall|j: int| 0 <= j < i ==> point_projects(#[trigger] c.points[j], points[j]),
        decreases c.points.len() - i,
    {
        let h = project_point(&c.points[i]);
        points.push(h);
        i = i + 1;
    }
    HostContour { points, identifier: clone_opt_text(&c.identifier) }
}

/// The affine placement of a component: six values in the fixed order
/// x-scale, xy-scale, yx-scale, y-scale, x-offset, y-offset.
pub struct Transform {
    pub x_scale: Real,
    pub xy_scale: Real,
    pub yx_scale: Real,
    pub y_scale: Real,
    pub x_offset: Real,
    pub y_offset: Real,
}

/// A source component: a reference to another glyph with a placement.
pub struct Component {
    pub base: String,
    pub transform: Transform,
    pub identifier: Option<String>,
    /// The component's own metadata bag, when it has one.
    pub lib: Option<Vec<(String, SourceValue)>>,
}

/// The host record for a component: the referenced glyph's name and the
/// six-element transform in its fixed order.
pub struct HostComponent {
    pub base: String,
    pub transform: Vec<Real>,
    pub identifier: Option<String>,
}

/// How a component projects.
pub open spec fn component_projects(src: Component, out: HostComponent) -> bool {
    &&& out.base@ == src.base@
    &&& out.transform@ == seq![
        src.transform.x_scale,
        src.transform.xy_scale,
        src.transform.yx_scale,
        src.transform.y_scale,
        src.transform.x_offset,
        src.transform.y_offset,
    ]
    &&& opt_text_eq(out.identifier, src.identifier)
}

/// Project one component.
pub fn project_component(c: &Component) -> (out: HostComponent)
    ensures
        component_projects(*c, out),
{
    let mut transform: Vec<Real> = Vec::new();
    transform.push(c.transform.x_scale);
    transform.push(c.transform.xy_scale);
    transform.push(c.transform.yx_scale);
    transform.push(c.transform.y_scale);
    transform.push(c.transform.x_offset);
    transform.push(c.transform.y_offset);
    proof {
        assert(transform@ =~= seq![
            c.transform.x_scale,
            c.transform.xy_scale,
            c.transform.yx_scale,
            c.transform.y_scale,
            c.transform.x_offset,
            c.transform.y_offset,
        ]);
    }
    HostComponent {
        base: c.base.clone(),
        transform,
        identifier: clone_opt_text(&c.identifier),
    }
}

} // verus!
