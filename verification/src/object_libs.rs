//! Collecting the per-object metadata bags of a glyph or of the font info.
//!
//! Anchors, guidelines, contours, contour points and components may each
//! carry their own metadata bag. For serialization those bags are gathered
//! into one map keyed by the owning object's identifier, walking the glyph's
//! collections in their fixed order: anchors, then guidelines, then each
//! contour followed by its points, then components. The source format
//! requires an object that carries a bag to carry an identifier.

use vstd::prelude::*;
use crate::value::SourceValue;
use crate::elements::{Anchor, Component, Contour, ContourPoint, Guideline};
use crate::glyph::Glyph;
use crate::info::FontInfo;

verus! {

broadcast use vstd::std_specs::vec::axiom_vec_index_decreases;

/// Deep equality of two source values, text and bytes compared by contents.
pub open spec fn value_eq(a: SourceValue, b: SourceValue) -> bool
    decreases a,
{
    match a {
        SourceValue::Text(s) => b matches SourceValue::Text(t) && t@ == s@,
        SourceValue::Bool(x) => b == SourceValue::Bool(x),
        SourceValue::Blob(d) => b matches SourceValue::Blob(o) && o@ == d@,
        SourceValue::Real(r) => b == SourceValue::Real(r),
        SourceValue::Int(i) => b == SourceValue::Int(i),
        SourceValue::Uid(u) => b == SourceValue::Uid(u),
        SourceValue::List(items) => match b {
            SourceValue::List(out) => out.len() == items.len() && (forall|i: int|
                0 <= i < items.len() ==> value_eq(#[trigger] items[i], out[i])),
            _ => false,
        },
        SourceValue::Dict(entries) => match b {
            SourceValue::Dict(out) => bag_eq(entries@, out@),
            _ => false,
        },
        SourceValue::Unsupported => b == SourceValue::Unsupported,
    }
}

/// Deep equality of two property bags.
pub open spec fn bag_eq(a: Seq<(String, SourceValue)>, b: Seq<(String, SourceValue)>) -> bool
    decreases a,
{
    &&& b.len() == a.len()
    &&& forall|i: int|
        0 <= i < a.len() ==> (#[trigger] b[i]).0@ == a[i].0@ && value_eq(a[i].1, b[i].1)
}

/// Copy one source value.
#[verifier::loop_isolation(false)]
pub fn clone_value(v: &SourceValue) -> (out: SourceValue)
    ensures
        value_eq(*v, out),
    decreases *v,
{
    match v {
        SourceValue::Text(s) => SourceValue::Text(s.clone()),
        SourceValue::Bool(x) => SourceValue::Bool(*x),
        SourceValue::Blob(d) => {
            let mut o: Vec<u8> = Vec::new();
            let mut i: usize = 0;
            while i < d.len()
                invariant
                    i <= d.len(),
                    o@ == d@.subrange(0, i as int),
                decreases d.len() - i,
            {
                o.push(d[i]);
                i = i + 1;
            }
            proof {
                assert(o@ =~= d@);
            }
            SourceValue::Blob(o)
        },
        SourceValue::Real(r) => SourceValue::Real(*r),
        SourceValue::Int(i) => SourceValue::Int(*i),
        SourceValue::Uid(u) => SourceValue::Uid(*u),
        SourceValue::List(items) => {
            let mut out: Vec<SourceValue> = Vec::new();
            let mut i: usize = 0;
            while i < items.len()
                invariant
                    i <= items.len(),
                    out.len() == i,
                    forall|j: int| 0 <= j < i ==> value_eq(#[trigger] items@[j], out@[j]),
                decreases items.len() - i,
            {
                let c = clone_value(&items[i]);
                out.push(c);
                i = i + 1;
            }
            SourceValue::List(out)
        },
        SourceValue::Dict(entries) => SourceValue::Dict(clone_bag(entries)),
        SourceValue::Unsupported => SourceValue::Unsupported,
    }
}

/// Copy one property bag.
#[verifier::loop_isolation(false)]
pub fn clone_bag(bag: &Vec<(String, SourceValue)>) -> (out: Vec<(String, SourceValue)>)
    ensures
        bag_eq(bag@, out@),
    decreases *bag,
{
    let mut out: Vec<(String, SourceValue)> = Vec::new();
    let mut i: usize = 0;
    while i < bag.len()
        invariant
            i <= bag.len(),
            out.len() == i,
            forall|j: int|
                0 <= j < i ==> (#[trigger] out@[j]).0@ == bag@[j].0@ && value_eq(
                    bag@[j].1,
                    out@[j].1,
                ),
        decreases bag.len() - i,
    {
        let key = bag[i].0.clone();
        let c = clone_value(&bag[i].1);
        out.push((key, c));
        i = i + 1;
    }
    out
}

/// The expected object-lib entries of one object: one tagged entry when the
/// object carries a bag, none otherwise.
pub open spec fn tagged(id: Option<String>, lib: Option<Vec<(String, SourceValue)>>) -> Seq<
    (Option<String>, Vec<(String, SourceValue)>),
> {
    match lib {
        Option::Some(l) => seq![(id, l)],
        Option::None => Seq::empty(),
    }
}

/// The expected entries of a run of anchors, in order.
pub open spec fn anchors_entries(s: Seq<Anchor>) -> Seq<
    (Option<String>, Vec<(String, SourceValue)>),
>
    decreases s.len(),
{
    if s.len() == 0 {
        Seq::empty()
    } else {
        anchors_entries(s.drop_last()) + tagged(s.last().identifier, s.last().lib)
    }
}

/// The expected entries of a run of guidelines, in order.
pub open spec fn guidelines_entries(s: Seq<Guideline>) -> Seq<
    (Option<String>, Vec<(String, SourceValue)>),
>
    decreases s.len(),
{
    if s.len() == 0 {
        Seq::empty()
    } else {
        guidelines_entries(s.drop_last()) + tagged(s.last().identifier, s.last().lib)
    }
}

/// The expected entries of a run of contour points, in order.
pub open spec fn points_entries(s: Seq<ContourPoint>) -> Seq<
    (Option<String>, Vec<(String, SourceValue)>),
>
    decreases s.len(),
{
    if s.len() == 0 {
        Seq::empty()
    } else {
        points_entries(s.drop_last()) + tagged(s.last().identifier, s.last().lib)
    }
}

/// The expected entries of a run of contours: each contour's own entry
/// followed by its points' entries.
pub open spec fn contours_entries(s: Seq<Contour>) -> Seq<
    (Option<String>, Vec<(String, SourceValue)>),
>
    decreases s.len(),
{
    if s.len() == 0 {
        Seq::empty()
    } else {
        contours_entries(s.drop_last()) + tagged(s.last().identifier, s.last().lib)
            + points_entries(s.last().points@)
    }
}

/// The expected entries of a run of components, in order.
pub open spec fn components_entries(s: Seq<Component>) -> Seq<
    (Option<String>, Vec<(String, SourceValue)>),
>
    decreases s.len(),
{
    if s.len() == 0 {
        Seq::empty()
    } else {
        components_entries(s.drop_last()) + tagged(s.last().identifier, s.last().lib)
    }
}

/// All expected object-lib entries of a glyph, in the fixed walking order.
pub open spec fn glyph_lib_entries(g: Glyph) -> Seq<(Option<String>, Vec<(String, SourceValue)>)> {
    anchors_entries(g.anchors@) + guidelines_entries(g.guidelines@) + contours_entries(g.contours@)
        + components_entries(g.components@)
}

/// All expected object-lib entries of the font info: its guidelines'.
pub open spec fn fontinfo_lib_entries(fi: FontInfo) -> Seq<
    (Option<String>, Vec<(String, SourceValue)>),
> {
    match fi.guidelines {
        Option::Some(gs) => guidelines_entries(gs@),
        Option::None => Seq::empty(),
    }
}

/// One gathered entry matches one expected entry: its key is the owning
/// object's identifier, its value that object's bag, deep-copied.
pub open spec fn entry_matches(
    out: (String, SourceValue),
    exp: (Option<String>, Vec<(String, SourceValue)>),
) -> bool {
    &&& exp.0 matches Option::Some(s) && out.0@ == s@
    &&& out.1 matches SourceValue::Dict(d) && bag_eq(exp.1@, d@)
}

/// The gathered map matches the expected entries, position by position.
pub open spec fn object_libs_match(
    out: Seq<(String, SourceValue)>,
    exp: Seq<(Option<String>, Vec<(String, SourceValue)>)>,
) -> bool {
    &&& out.len() == exp.len()
    &&& forall|i: int| 0 <= i < exp.len() ==> entry_matches(#[trigger] out[i], exp[i])
}

/// Whether every object of the glyph that carries a bag also carries an
/// identifier, as the source format requires.
pub open spec fn glyph_libs_identified(g: Glyph) -> bool {
    &&& forall|i: int|
        0 <= i < g.anchors.len() ==> ((#[trigger] g.anchors[i]).lib is Some ==> g.anchors[i].identifier
            is Some)
    &&& forall|i: int|
        0 <= i < g.guidelines.len() ==> ((#[trigger] g.guidelines[i]).lib is Some
            ==> g.guidelines[i].identifier is Some)
    &&& forall|i: int|
        0 <= i < g.contours.len() ==> ((#[trigger] g.contours[i]).lib is Some ==> g.contours[i].identifier
            is Some)
    &&& forall|i: int, j: int|
        0 <= i < g.contours.len() && 0 <= j < g.contours[i].points.len() ==> ((
        #[trigger] g.contours[i].points[j]).lib is Some ==> g.contours[i].points[j].identifier
            is Some)
    &&& forall|i: int|
        0 <= i < g.components.len() ==> ((#[trigger] g.components[i]).lib is Some
            ==> g.components[i].identifier is Some)
}

/// Gather one object's entry, when it has a bag.
fn push_tagged(
    out: &mut Vec<(String, SourceValue)>,
    id: &Option<String>,
    lib: &Option<Vec<(String, SourceValue)>>,
)
    requires
        lib is Some ==> id is Some,
    ensures
        final(out)@.len() == old(out)@.len() + tagged(*id, *lib).len(),
        final(out)@.subrange(0, old(out)@.len() as int) == old(out)@,
        forall|k: int|
            0 <= k < tagged(*id, *lib).len() ==> entry_matches(
                #[trigger] final(out)@[old(out)@.len() + k],
                tagged(*id, *lib)[k],
            ),
{
    match lib {
        Option::Some(l) => {
            let key = match id {
                Option::Some(s) => s.clone(),
                Option::None => String::new(),
            };
            let bag = clone_bag(l);
            out.push((key, SourceValue::Dict(bag)));
        },
        Option::None => {},
    }
}

/// Matching entries extend one at a time: appending entries that match an
/// expected suffix keeps the whole matching.
proof fn lemma_match_extend(
    out: Seq<(String, SourceValue)>,
    exp_a: Seq<(Option<String>, Vec<(String, SourceValue)>)>,
    exp_b: Seq<(Option<String>, Vec<(String, SourceValue)>)>,
    split: int,
)
    requires
        0 <= split <= out.len(),
        object_libs_match(out.subrange(0, split), exp_a),
        out.len() - split == exp_b.len(),
        forall|k: int|
            0 <= k < exp_b.len() ==> entry_matches(#[trigger] out[split + k], exp_b[k]),
    ensures
        object_libs_match(out, exp_a + exp_b),
{
    let exp = exp_a + exp_b;
    assert forall|i: int| 0 <= i < exp.len() implies entry_matches(#[trigger] out[i], exp[i]) by {
        if i < split {
            assert(out.subrange(0, split)[i] == out[i]);
            assert(exp[i] == exp_a[i]);
        } else {
            assert(exp[i] == exp_b[i - split]);
            assert(entry_matches(out[split + (i - split)], exp_b[i - split]));
        }
    }
}

/// Gather the object libs of one glyph: a map keyed by identifier, holding
/// each lib-carrying object's bag, in the glyph's fixed walking order.
#[verifier::loop_isolation(false)]
pub fn dump_glyph_object_libs(glyph: &Glyph) -> (out: Vec<(String, SourceValue)>)
    requires
        glyph_libs_identified(*glyph),
    ensures
        object_libs_match(out@, glyph_lib_entries(*glyph)),
{
    let mut out: Vec<(String, SourceValue)> = Vec::new();
    let mut i: usize = 0;
    while i < glyph.anchors.len()
        invariant
            i <= glyph.anchors.len(),
            object_libs_match(out@, anchors_entries(glyph.anchors@.take(i as int))),
        decreases glyph.anchors.len() - i,
    {
        let ghost before = out@;
        let ghost exp_a = anchors_entries(glyph.anchors@.take(i as int));
        push_tagged(&mut out, &glyph.anchors[i].identifier, &glyph.anchors[i].lib);
        proof {
            assert(before.subrange(0, before.len() as int) =~= before);
            assert(out@.subrange(0, before.len() as int) =~= before);
            lemma_match_extend(
                out@,
                exp_a,
                tagged(glyph.anchors@[i as int].identifier, glyph.anchors@[i as int].lib),
                before.len() as int,
            );
            assert(glyph.anchors@.take(i + 1).drop_last() =~= glyph.anchors@.take(i as int));
            assert(anchors_entries(glyph.anchors@.take(i + 1)) == exp_a + tagged(
                glyph.anchors@[i as int].identifier,
                glyph.anchors@[i as int].lib,
            ));
        }
        i = i + 1;
    }
    proof {
        assert(glyph.anchors@.take(glyph.anchors@.len() as int) =~= glyph.anchors@);
    }
    let mut i: usize = 0;
    while i < glyph.guidelines.len()
        invariant
            i <= glyph.guidelines.len(),
            object_libs_match(
                out@,
                anchors_entries(glyph.anchors@) + guidelines_entries(
                    glyph.guidelines@.take(i as int),
                ),
            ),
        decreases glyph.guidelines.len() - i,
    {
        let ghost before = out@;
        let ghost exp_a = anchors_entries(glyph.anchors@) + guidelines_entries(
            glyph.guidelines@.take(i as int),
        );
        push_tagged(&mut out, &glyph.guidelines[i].identifier, &glyph.guidelines[i].lib);
        proof {
            assert(out@.subrange(0, before.len() as int) =~= before);
            lemma_match_extend(
                out@,
                exp_a,
                tagged(glyph.guidelines@[i as int].identifier, glyph.guidelines@[i as int].lib),
                before.len() as int,
            );
            assert(glyph.guidelines@.take(i + 1).drop_last() =~= glyph.guidelines@.take(i as int));
            assert(exp_a + tagged(
                glyph.guidelines@[i as int].identifier,
                glyph.guidelines@[i as int].lib,
            ) =~= anchors_entries(glyph.anchors@) + guidelines_entries(
                glyph.guidelines@.take(i + 1),
            ));
        }
        i = i + 1;
    }
    proof {
        assert(glyph.guidelines@.take(glyph.guidelines@.len() as int) =~= glyph.guidelines@);
    }
    let ghost head = anchors_entries(glyph.anchors@) + guidelines_entries(glyph.guidelines@);
    let mut i: usize = 0;
    while i < glyph.contours.len()
        invariant
            i <= glyph.contours.len(),
            object_libs_match(out@, head + contours_entries(glyph.contours@.take(i as int))),
        decreases glyph.contours.len() - i,
    {
        let ghost exp_a = head + contours_entries(glyph.contours@.take(i as int));
        let ghost before = out@;
        push_tagged(&mut out, &glyph.contours[i].identifier, &glyph.contours[i].lib);
        proof {
            assert(out@.subrange(0, before.len() as int) =~= before);
            lemma_match_extend(
                out@,
                exp_a,
                tagged(glyph.contours@[i as int].identifier, glyph.contours@[i as int].lib),
                before.len() as int,
            );
        }
        let ghost exp_c = exp_a + tagged(
            glyph.contours@[i as int].identifier,
            glyph.contours@[i as int].lib,
        );
        let mut j: usize = 0;
        while j < glyph.contours[i].points.len()
            invariant
                i < glyph.contours.len(),
                j <= glyph.contours[i as int].points.len(),
                object_libs_match(
                    out@,
                    exp_c + points_entries(glyph.contours@[i as int].points@.take(j as int)),
                ),
            decreases glyph.contours[i as int].points.len() - j,
        {
            let ghost exp_p = exp_c + points_entries(
                glyph.contours@[i as int].points@.take(j as int),
            );
            let ghost before_p = out@;
            push_tagged(
                &mut out,
                &glyph.contours[i].points[j].identifier,
                &glyph.contours[i].points[j].lib,
            );
            proof {
                let pts = glyph.contours@[i as int].points@;
                assert(out@.subrange(0, before_p.len() as int) =~= before_p);
                lemma_match_extend(
                    out@,
                    exp_p,
                    tagged(pts[j as int].identifier, pts[j as int].lib),
                    before_p.len() as int,
                );
                assert(pts.take(j + 1).drop_last() =~= pts.take(j as int));
                assert(exp_p + tagged(pts[j as int].identifier, pts[j as int].lib) =~= exp_c
                    + points_entries(pts.take(j + 1)));
            }
            j = j + 1;
        }
        proof {
            let pts = glyph.contours@[i as int].points@;
            assert(pts.take(pts.len() as int) =~= pts);
            assert(glyph.contours@.take(i + 1).drop_last() =~= glyph.contours@.take(i as int));
            assert(exp_c + points_entries(pts) =~= head + contours_entries(
                glyph.contours@.take(i + 1),
            ));
        }
        i = i + 1;
    }
    proof {
        assert(glyph.contours@.take(glyph.contours@.len() as int) =~= glyph.contours@);
    }
    let ghost head2 = head + contours_entries(glyph.contours@);
    let mut i: usize = 0;
    while i < glyph.components.len()
        invariant
            i <= glyph.components.len(),
            object_libs_match(out@, head2 + components_entries(glyph.components@.take(i as int))),
        decreases glyph.components.len() - i,
    {
        let ghost exp_a = head2 + components_entries(glyph.components@.take(i as int));
        let ghost before = out@;
        push_tagged(&mut out, &glyph.components[i].identifier, &glyph.components[i].lib);
        proof {
            assert(out@.subrange(0, before.len() as int) =~= before);
            lemma_match_extend(
                out@,
                exp_a,
                tagged(glyph.components@[i as int].identifier, glyph.components@[i as int].lib),
                before.len() as int,
            );
            assert(glyph.components@.take(i + 1).drop_last() =~= glyph.components@.take(i as int));
            assert(exp_a + tagged(
                glyph.components@[i as int].identifier,
                glyph.components@[i as int].lib,
            ) =~= head2 + components_entries(glyph.components@.take(i + 1)));
        }
        i = i + 1;
    }
    proof {
        assert(glyph.components@.take(glyph.components@.len() as int) =~= glyph.components@);
        assert(head2 + components_entries(glyph.components@) =~= glyph_lib_entries(*glyph));
    }
    out
}

/// Whether every font-info guideline that carries a bag also carries an
/// identifier.
pub open spec fn fontinfo_libs_identified(fi: FontInfo) -> bool {
    match fi.guidelines {
        Option::Some(gs) => forall|i: int|
            0 <= i < gs.len() ==> ((#[trigger] gs[i]).lib is Some ==> gs[i].identifier is Some),
        Option::None => true,
    }
}

/// Gather the object libs of the font info: its guidelines' bags, keyed by
/// identifier, in order.
#[verifier::loop_isolation(false)]
pub fn dump_fontinfo_object_libs(fontinfo: &FontInfo) -> (out: Vec<(String, SourceValue)>)
    requires
        fontinfo_libs_identified(*fontinfo),
    ensures
        object_libs_match(out@, fontinfo_lib_entries(*fontinfo)),
{
    let mut out: Vec<(String, SourceValue)> = Vec::new();
    match &fontinfo.guidelines {
        Option::Some(gs) => {
            let mut i: usize = 0;
            while i < gs.len()
                invariant
                    i <= gs.len(),
                    object_libs_match(out@, guidelines_entries(gs@.take(i as int))),
                decreases gs.len() - i,
            {
                let ghost before = out@;
                let ghost exp_a = guidelines_entries(gs@.take(i as int));
                push_tagged(&mut out, &gs[i].identifier, &gs[i].lib);
                proof {
                    assert(out@.subrange(0, before.len() as int) =~= before);
                    lemma_match_extend(
                        out@,
                        exp_a,
                        tagged(gs@[i as int].identifier, gs@[i as int].lib),
                        before.len() as int,
                    );
                    assert(gs@.take(i + 1).drop_last() =~= gs@.take(i as int));
                }
                i = i + 1;
            }
            proof {
                assert(gs@.take(gs@.len() as int) =~= gs@);
            }
        },
        Option::None => {},
    }
    out
}

} // verus!
