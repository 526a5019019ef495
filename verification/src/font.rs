//! The whole-font projection: the single entry point that turns a source
//! font graph into its host record graph.
//!
//! Projection is whole-graph and all-or-nothing: a sidecar store violation
//! aborts the projection with the offending path, because a partially
//! populated font is worse than a clear failure for downstream tooling.

use vstd::prelude::*;
use crate::num::{HostNum, Real};
use crate::value::{HostValue, SourceValue, bag_normalizes_to, translate_bag};
use crate::glyph::{HostLayerSet, LayerSet, layer_set_projects, project_layer_set};
use crate::info::{FontInfo, HostInfo, info_projects, project_info};
use crate::kerning::{build_kerning, flat_kerning, kern_entries_match};
use crate::store::{ProjectError, extract_store, store_extracts_to, store_fails_with};

verus! {

/// The byte form of the data store's root segment, `data`.
pub open spec fn data_root() -> Seq<u8> {
    seq![0x64u8, 0x61u8, 0x74u8, 0x61u8]
}

/// The byte form of the images store's root segment, `images`.
pub open spec fn images_root() -> Seq<u8> {
    seq![0x69u8, 0x6du8, 0x61u8, 0x67u8, 0x65u8, 0x73u8]
}

/// A source font: the parsed, validated document graph.
pub struct Font {
    /// The font-level metadata bag.
    pub lib: Vec<(String, SourceValue)>,
    /// The ordered layers and the designated default layer.
    pub layers: LayerSet,
    pub info: Option<FontInfo>,
    /// The raw feature code, when the document has any.
    pub features: Option<String>,
    /// Glyph groups: name to ordered glyph names.
    pub groups: Option<Vec<(String, Vec<String>)>>,
    /// The two-level kerning table.
    pub kerning: Option<Vec<(String, Vec<(String, Real)>)>>,
    /// The data store's files: relative path bytes and contents.
    pub data: Vec<(Vec<u8>, Vec<u8>)>,
    /// The images store's files: relative path bytes and contents.
    pub images: Vec<(Vec<u8>, Vec<u8>)>,
}

/// The host record for a whole font.
pub struct HostFont {
    pub lib: Vec<(String, HostValue)>,
    pub layers: HostLayerSet,
    /// The projected info record; an absent source info stays absent (the
    /// host constructor supplies its own empty record).
    pub info: Option<HostInfo>,
    /// The feature code; absent source features project as the empty string.
    pub features: String,
    /// Glyph groups, verbatim; an absent table projects as an empty one.
    pub groups: Vec<(String, Vec<String>)>,
    /// The flattened, pair-keyed kerning; an absent table projects empty.
    pub kerning: Vec<((String, String), HostNum)>,
    /// The data store, re-keyed.
    pub data: Vec<(Vec<u8>, Vec<u8>)>,
    /// The images store, re-keyed, every file PNG-validated.
    pub images: Vec<(Vec<u8>, Vec<u8>)>,
}

/// Glyph groups kept verbatim: the same names in the same order.
pub open spec fn groups_eq(
    out: Seq<(String, Vec<String>)>,
    src: Seq<(String, Vec<String>)>,
) -> bool {
    &&& out.len() == src.len()
    &&& forall|i: int|
        0 <= i < src.len() ==> (#[trigger] out[i]).0@ == src[i].0@ && out[i].1.len()
            == src[i].1.len() && (forall|j: int|
            0 <= j < src[i].1.len() ==> (#[trigger] out[i].1[j])@ == src[i].1[j]@)
}

/// How a whole font projects.
pub open spec fn font_projects(src: Font, out: HostFont) -> bool {
    &&& bag_normalizes_to(src.lib@, out.lib@)
    &&& layer_set_projects(src.layers, out.layers)
    &&& match src.info {
        Option::Some(fi) => out.info matches Option::Some(hi) && info_projects(fi, hi),
        Option::None => out.info is None,
    }
    &&& match src.features {
        Option::Some(f) => out.features@ == f@,
        Option::None => out.features@ == Seq::<char>::empty(),
    }
    &&& match src.groups {
        Option::Some(g) => groups_eq(out.groups@, g@),
        Option::None => out.groups@.len() == 0,
    }
    &&& match src.kerning {
        Option::Some(k) => kern_entries_match(out.kerning@, flat_kerning(k@)),
        Option::None => out.kerning@.len() == 0,
    }
    &&& store_extracts_to(src.data@, data_root(), false, out.data@)
    &&& store_extracts_to(src.images@, images_root(), true, out.images@)
}

/// Copy the glyph groups.
#[verifier::loop_isolation(false)]
fn clone_groups(src: &Vec<(String, Vec<String>)>) -> (out: Vec<(String, Vec<String>)>)
    ensures
        groups_eq(out@, src@),
{
    let mut out: Vec<(String, Vec<String>)> = Vec::new();
    let mut i: usize = 0;
    while i < src.len()
        invariant
            i <= src.len(),
            out.len() == i,
            forall|k: int|
                0 <= k < i ==> (#[trigger] out@[k]).0@ == src@[k].0@ && out@[k].1.len()
                    == src@[k].1.len() && (forall|j: int|
                    0 <= j < src@[k].1.len() ==> (#[trigger] out@[k].1[j])@ == src@[k].1[j]@),
        decreases src.len() - i,
    {
        let name = src[i].0.clone();
        let mut members: Vec<String> = Vec::new();
        let mut j: usize = 0;
        while j < src[i].1.len()
            invariant
                i < src.len(),
                j <= src[i as int].1.len(),
                members.len() == j,
                forall|k: int| 0 <= k < j ==> (#[trigger] members@[k])@ == src@[i as int].1[k]@,
            decreases src[i as int].1.len() - j,
        {
            let m = src[i].1[j].clone();
            members.push(m);
            j = j + 1;
        }
        out.push((name, members));
        i = i + 1;
    }
    out
}

/// Build the byte form of the data store's root segment.
fn data_root_bytes() -> (out: Vec<u8>)
    ensures
        out@ == data_root(),
{
    let mut out: Vec<u8> = Vec::new();
    out.push(0x64);
    out.push(0x61);
    out.push(0x74);
    out.push(0x61);
    proof {
        assert(out@ =~= data_root());
    }
    out
}

/// Build the byte form of the images store's root segment.
fn images_root_bytes() -> (out: Vec<u8>)
    ensures
        out@ == images_root(),
{
    let mut out: Vec<u8> = Vec::new();
    out.push(0x69);
    out.push(0x6d);
    out.push(0x61);
    out.push(0x67);
    out.push(0x65);
    out.push(0x73);
    proof {
        assert(out@ =~= images_root());
    }
    out
}

/// Project a whole font. Succeeds exactly when both sidecar stores are
/// acceptable; the first store violation aborts the projection with the
/// offending path. The data store is checked first.
pub fn project_font(f: &Font) -> (out: Result<HostFont, ProjectError>)
    requires
        f.layers.wf(),
    ensures
        match out {
            Ok(hf) => font_projects(*f, hf),
            Err(e) => store_fails_with(f.data@, data_root(), false, e) || (store_fails_with(
                f.images@,
                images_root(),
                true,
                e,
            ) && forall|i: int|
                0 <= i < f.data@.len() ==> crate::store::entry_ok(
                    #[trigger] f.data@[i],
                    data_root(),
                    false,
                )),
        },
{
    let droot = data_root_bytes();
    let iroot = images_root_bytes();
    let data = match extract_store(&f.data, &droot, false) {
        Ok(d) => d,
        Err(e) => {
            return Err(e);
        },
    };
    let images = match extract_store(&f.images, &iroot, true) {
        Ok(d) => d,
        Err(e) => {
            return Err(e);
        },
    };
    let lib = translate_bag(&f.lib);
    let layers = project_layer_set(&f.layers);
    let info = match &f.info {
        Option::Some(fi) => Option::Some(project_info(fi)),
        Option::None => Option::None,
    };
    let features = match &f.features {
        Option::Some(s) => s.clone(),
        Option::None => String::new(),
    };
    let groups = match &f.groups {
        Option::Some(g) => clone_groups(g),
        Option::None => Vec::new(),
    };
    let kerning = match &f.kerning {
        Option::Some(k) => build_kerning(k),
        Option::None => Vec::new(),
    };
    Ok(HostFont { lib, layers, info, features, groups, kerning, data, images })
}

} // verus!
