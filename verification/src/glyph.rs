//! The glyph and layer assembler.
//!
//! A glyph projects field by field: its ordered sub-entity runs go through the
//! element projectors, its metadata bag through the bag translator. A layer
//! projects its glyphs in the layer's own order — that order is authoritative
//! and is never re-sorted. The layer set projects every layer in order and
//! forwards the name of the layer the source designates as default; it never
//! re-derives which layer that is.

use vstd::prelude::*;
use crate::num::Real;
use crate::value::{HostValue, SourceValue, bag_normalizes_to, translate_bag};
use crate::elements::{
    Anchor,
    Component,
    Contour,
    Guideline,
    HostAnchor,
    HostComponent,
    HostContour,
    HostGuideline,
    anchor_projects,
    component_projects,
    contour_projects,
    guideline_projects,
    opt_text_eq,
    clone_opt_text,
    project_anchor,
    project_component,
    project_contour,
    project_guideline,
};

verus! {

/// A source glyph.
pub struct Glyph {
    pub name: String,
    /// The advance width; the source parser supplies 0 where the document
    /// gives none.
    pub width: Real,
    /// The ordered Unicode codepoints; the first is the primary one.
    pub codepoints: Vec<char>,
    /// The glyph's metadata bag.
    pub lib: Vec<(String, SourceValue)>,
    pub note: Option<String>,
    pub anchors: Vec<Anchor>,
    pub contours: Vec<Contour>,
    pub components: Vec<Component>,
    pub guidelines: Vec<Guideline>,
}

/// The host record for a glyph.
pub struct HostGlyph {
    pub name: String,
    pub width: Real,
    /// The codepoints as unsigned 32-bit values, in source order.
    pub unicodes: Vec<u32>,
    pub lib: Vec<(String, HostValue)>,
    pub note: Option<String>,
    pub anchors: Vec<HostAnchor>,
    pub contours: Vec<HostContour>,
    pub components: Vec<HostComponent>,
    pub guidelines: Vec<HostGuideline>,
}

/// How a glyph projects: every field mapped, every ordered run kept in
/// order, an absent run staying an empty run.
pub open spec fn glyph_projects(src: Glyph, out: HostGlyph) -> bool {
    &&& out.name@ == src.name@
    &&& out.width == src.width
    &&& out.unicodes.len() == src.codepoints.len()
    &&& forall|i: int|
        0 <= i < src.codepoints.len() ==> out.unicodes[i] == (#[trigger] src.codepoints[i]) as u32
    &&& bag_normalizes_to(src.lib@, out.lib@)
    &&& opt_text_eq(out.note, src.note)
    &&& out.anchors.len() == src.anchors.len()
    &&& forall|i: int|
        0 <= i < src.anchors.len() ==> anchor_projects(#[trigger] src.anchors[i], out.anchors[i])
    &&& out.contours.len() == src.contours.len()
    &&& forall|i: int|
        0 <= i < src.contours.len() ==> contour_projects(
            #[trigger] src.contours[i],
            out.contours[i],
        )
    &&& out.components.len() == src.components.len()
    &&& forall|i: int|
        0 <= i < src.components.len() ==> component_projects(
            #[trigger] src.components[i],
            out.components[i],
        )
    &&& out.guidelines.len() == src.guidelines.len()
    &&& forall|i: int|
        0 <= i < src.guidelines.len() ==> guideline_projects(
            #[trigger] src.guidelines[i],
            out.guidelines[i],
        )
}

/// Project one glyph.
#[verifier::loop_isolation(false)]
pub fn project_glyph(g: &Glyph) -> (out: HostGlyph)
    ensures
        glyph_projects(*g, out),
{
    let mut unicodes: Vec<u32> = Vec::new();
    let mut i: usize = 0;
    while i < g.codepoints.len()
        invariant
            i <= g.codepoints.len(),
            unicodes.len() == i,
            forall|j: int| 0 <= j < i ==> unicodes[j] == (#[trigger] g.codepoints[j]) as u32,
        decreases g.codepoints.len() - i,
    {
        unicodes.push(g.codepoints[i] as u32);
        i = i + 1;
    }
    let mut anchors: Vec<HostAnchor> = Vec::new();
    let mut i: usize = 0;
    while i < g.anchors.len()
        invariant
            i <= g.anchors.len(),
            anchors.len() == i,
            forall|j: int| 0 <= j < i ==> anchor_projects(#[trigger] g.anchors[j], anchors[j]),
        decreases g.anchors.len() - i,
    {
        let h = project_anchor(&g.anchors[i]);
        anchors.push(h);
        i = i + 1;
    }
    let mut contours: Vec<HostContour> = Vec::new();
    let mut i: usize = 0;
    while i < g.contours.len()
        invariant
            i <= g.contours.len(),
            contours.len() == i,
            forall|j: int| 0 <= j < i ==> contour_projects(#[trigger] g.contours[j], contours[j]),
        decreases g.contours.len() - i,
    {
        let h = project_contour(&g.contours[i]);
        contours.push(h);
        i = i + 1;
    }
    let mut components: Vec<HostComponent> = Vec::new();
    let mut i: usize = 0;
    while i < g.components.len()
        invariant
            i <= g.components.len(),
            components.len() == i,
            forall|j: int|
                0 <= j < i ==> component_projects(#[trigger] g.components[j], components[j]),
        decreases g.components.len() - i,
    {
        let h = project_component(&g.components[i]);
        components.push(h);
        i = i + 1;
    }
    let mut guidelines: Vec<HostGuideline> = Vec::new();
    let mut i: usize = 0;
    while i < g.guidelines.len()
        invariant
            i <= g.guidelines.len(),
            guidelines.len() == i,
            forall|j: int|
                0 <= j < i ==> guideline_projects(#[trigger] g.guidelines[j], guidelines[j]),
        decreases g.guidelines.len() - i,
    {
        let h = project_guideline(&g.guidelines[i]);
        guidelines.push(h);
        i = i + 1;
    }
    HostGlyph {
        name: g.name.clone(),
        width: g.width,
        unicodes,
        lib: translate_bag(&g.lib),
        note: clone_opt_text(&g.note),
        anchors,
        contours,
        components,
        guidelines,
    }
}

/// A source layer: a named, ordered collection of glyphs.
pub struct Layer {
    pub name: String,
    pub glyphs: Vec<Glyph>,
    pub lib: Vec<(String, SourceValue)>,
    /// The layer's color, already in its textual RGBA form.
    pub color: Option<String>,
}

/// The host record for a layer.
pub struct HostLayer {
    pub name: String,
    pub glyphs: Vec<HostGlyph>,
    pub lib: Vec<(String, HostValue)>,
    pub color: Option<String>,
}

/// How a layer projects: the same glyphs in the layer's own order.
pub open spec fn layer_projects(src: Layer, out: HostLayer) -> bool {
    &&& out.name@ == src.name@
    &&& out.glyphs.len() == src.glyphs.len()
    &&& forall|i: int|
        0 <= i < src.glyphs.len() ==> glyph_projects(#[trigger] src.glyphs[i], out.glyphs[i])
    &&& bag_normalizes_to(src.lib@, out.lib@)
    &&& opt_text_eq(out.color, src.color)
}

/// Project one layer.
#[verifier::loop_isolation(false)]
pub fn project_layer(l: &Layer) -> (out: HostLayer)
    ensures
        layer_projects(*l, out),
{
    let mut glyphs: Vec<HostGlyph> = Vec::new();
    let mut i: usize = 0;
    while i < l.glyphs.len()
        invariant
            i <= l.glyphs.len(),
            glyphs.len() == i,
            forall|j: int| 0 <= j < i ==> glyph_projects(#[trigger] l.glyphs[j], glyphs[j]),
        decreases l.glyphs.len() - i,
    {
        let h = project_glyph(&l.glyphs[i]);
        glyphs.push(h);
        i = i + 1;
    }
    HostLayer {
        name: l.name.clone(),
        glyphs,
        lib: translate_bag(&l.lib),
        color: clone_opt_text(&l.color),
    }
}

/// A source layer set: the ordered layers and which one the source
/// designates as default. The designation is supplied by the source document
/// model; this core only forwards it.
pub struct LayerSet {
    pub layers: Vec<Layer>,
    /// The position of the designated default layer.
    pub default_index: usize,
}

impl LayerSet {
    /// A layer set is well formed when its designated default layer exists.
    pub open spec fn wf(self) -> bool {
        self.default_index < self.layers.len()
    }
}

/// The host record for the layer collection: every layer in source order,
/// plus the designated default layer's name.
pub struct HostLayerSet {
    pub layers: Vec<HostLayer>,
    pub default_name: String,
}

/// How the layer set projects.
pub open spec fn layer_set_projects(src: LayerSet, out: HostLayerSet) -> bool {
    &&& out.layers.len() == src.layers.len()
    &&& forall|i: int|
        0 <= i < src.layers.len() ==> layer_projects(#[trigger] src.layers[i], out.layers[i])
    &&& out.default_name@ == src.layers[src.default_index as int].name@
}

/// Project the whole layer set.
#[verifier::loop_isolation(false)]
pub fn project_layer_set(ls: &LayerSet) -> (out: HostLayerSet)
    requires
        ls.wf(),
    ensures
        layer_set_projects(*ls, out),
{
    let mut layers: Vec<HostLayer> = Vec::new();
    let mut i: usize = 0;
    while i < ls.layers.len()
        invariant
            i <= ls.layers.len(),
            layers.len() == i,
            forall|j: int| 0 <= j < i ==> layer_projects(#[trigger] ls.layers[j], layers[j]),
        decreases ls.layers.len() - i,
    {
        let h = project_layer(&ls.layers[i]);
        layers.push(h);
        i = i + 1;
    }
    let default_name = ls.layers[ls.default_index].name.clone();
    HostLayerSet { layers, default_name }
}

/// Order preservation: projecting a layer set and re-reading the projected
/// layer order, and the glyph order within each layer, reproduces the
/// source's order exactly, name for name.
pub proof fn lemma_order_preservation(src: LayerSet, out: HostLayerSet)
    requires
        src.wf(),
        layer_set_projects(src, out),
    ensures
        out.layers.len() == src.layers.len(),
        forall|i: int|
            0 <= i < src.layers.len() ==> (#[trigger] out.layers[i]).name@ == src.layers[i].name@,
        forall|i: int|
            0 <= i < src.layers.len() ==> (#[trigger] out.layers[i]).glyphs.len()
                == src.layers[i].glyphs.len(),
        forall|i: int, j: int|
            0 <= i < src.layers.len() && 0 <= j < src.layers[i].glyphs.len() ==> (#[trigger] out
                .layers[i].glyphs[j]).name@ == src.layers[i].glyphs[j].name@,
{
    assert forall|i: int, j: int|
        0 <= i < src.layers.len() && 0 <= j < src.layers[i].glyphs.len() implies (#[trigger] out
        .layers[i].glyphs[j]).name@ == src.layers[i].glyphs[j].name@ by {
        assert(layer_projects(src.layers[i], out.layers[i]));
        assert(glyph_projects(src.layers[i].glyphs[j], out.layers[i].glyphs[j]));
    }
}

/// Default-layer fidelity: the projected layer collection's designated
/// default layer name equals the source's designated default layer name.
pub proof fn lemma_default_layer_fidelity(src: LayerSet, out: HostLayerSet)
    requires
        src.wf(),
        layer_set_projects(src, out),
    ensures
        out.default_name@ == src.layers[src.default_index as int].name@,
{
}

} // verus!

