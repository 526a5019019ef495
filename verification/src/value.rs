//! Source property-bag values and their host counterparts.
//!
//! Source documents attach free-form metadata to most entities: a dynamically
//! typed tree of scalars, ordered lists and keyed maps. Projection converts
//! every such value to a host value of a closed set of kinds; the only value
//! kind without a host counterpart (a date/timestamp) degrades to the explicit
//! "no value" marker rather than failing.

use vstd::prelude::*;
use crate::num::{HostNum, Real, normalize_real, normalized_num};

verus! {

broadcast use vstd::std_specs::vec::axiom_vec_index_decreases;

/// A value of a source property bag. Lists and maps nest without a depth
/// limit; map entries keep their order of appearance.
#[derive(Debug)]
pub enum SourceValue {
    Text(String),
    Bool(bool),
    Blob(Vec<u8>),
    Real(Real),
    Int(i64),
    Uid(u64),
    List(Vec<SourceValue>),
    Dict(Vec<(String, SourceValue)>),
    /// A source kind with no host counterpart (a date/timestamp, or an
    /// integer too wide for the host integer): projects as `HostValue::Null`.
    Unsupported,
}

/// A host value: the closed set of value kinds the host representation
/// accepts. `Null` is the explicit "no value" marker.
#[derive(Debug)]
pub enum HostValue {
    Null,
    Bool(bool),
    Int(i64),
    Uint(u64),
    Float(Real),
    Text(String),
    Blob(Vec<u8>),
    List(Vec<HostValue>),
    Dict(Vec<(String, HostValue)>),
}

/// How one source value projects: scalars map kind by kind, a real goes
/// through the numeric normalization policy, lists and maps map their
/// contents in order with keys kept verbatim, and the unsupported kind
/// degrades to the explicit "no value" marker.
pub open spec fn normalizes_to(v: SourceValue, h: HostValue) -> bool
    decreases v,
{
    match v {
        SourceValue::Text(s) => match h {
            HostValue::Text(t) => t@ == s@,
            _ => false,
        },
        SourceValue::Bool(x) => h == HostValue::Bool(x),
        SourceValue::Blob(d) => match h {
            HostValue::Blob(o) => o@ == d@,
            _ => false,
        },
        SourceValue::Real(r) => h == (match normalized_num(r.bits) {
            HostNum::Int(i) => HostValue::Int(i),
            HostNum::Float(f) => HostValue::Float(f),
        }),
        SourceValue::Int(i) => h == HostValue::Int(i),
        SourceValue::Uid(u) => h == HostValue::Uint(u),
        SourceValue::List(items) => match h {
            HostValue::List(out) => {
                &&& out.len() == items.len()
                &&& forall|i: int|
                    0 <= i < items.len() ==> normalizes_to(#[trigger] items[i], out[i])
            },
            _ => false,
        },
        SourceValue::Dict(entries) => match h {
            HostValue::Dict(out) => {
                &&& out.len() == entries.len()
                &&& forall|i: int|
                    0 <= i < entries.len() ==> (#[trigger] out[i]).0 == entries[i].0
                        && normalizes_to(entries[i].1, out[i].1)
            },
            _ => false,
        },
        SourceValue::Unsupported => h == HostValue::Null,
    }
}

/// How a whole property bag projects: the same entries, in the same order,
/// keys kept verbatim, each value normalized. An empty bag projects to an
/// empty map, never to "no value".
pub open spec fn bag_normalizes_to(
    bag: Seq<(String, SourceValue)>,
    out: Seq<(String, HostValue)>,
) -> bool {
    &&& out.len() == bag.len()
    &&& forall|i: int|
        0 <= i < bag.len() ==> (#[trigger] out[i]).0 == bag[i].0 && normalizes_to(
            bag[i].1,
            out[i].1,
        )
}

/// Convert one source value into its host value.
#[verifier::loop_isolation(false)]
pub fn normalize_value(v: &SourceValue) -> (out: HostValue)
    ensures
        normalizes_to(*v, out),
    decreases *v,
{
    match v {
        SourceValue::Text(s) => HostValue::Text(s.clone()),
        SourceValue::Bool(x) => HostValue::Bool(*x),
        SourceValue::Blob(d) => HostValue::Blob(clone_bytes(d)),
        SourceValue::Real(r) => match normalize_real(*r) {
            HostNum::Int(i) => HostValue::Int(i),
            HostNum::Float(f) => HostValue::Float(f),
        },
        SourceValue::Int(i) => HostValue::Int(*i),
        SourceValue::Uid(u) => HostValue::Uint(*u),
        SourceValue::List(items) => {
            let mut out: Vec<HostValue> = Vec::new();
            let mut i: usize = 0;
            while i < items.len()
                invariant
                    i <= items.len(),
                    out.len() == i,
                    forall|j: int| 0 <= j < i ==> normalizes_to(#[trigger] items@[j], out@[j]),
                decreases items.len() - i,
            {
                let h = normalize_value(&items[i]);
                out.push(h);
                i = i + 1;
            }
            HostValue::List(out)
        },
        SourceValue::Dict(entries) => HostValue::Dict(translate_bag(entries)),
        SourceValue::Unsupported => HostValue::Null,
    }
}

/// Translate a property bag: every entry in order, keys verbatim, values
/// through `normalize_value`.
pub fn translate_bag(bag: &Vec<(String, SourceValue)>) -> (out: Vec<(String, HostValue)>)
    ensures
        bag_normalizes_to(bag@, out@),
    decreases *bag,
{
    let mut out: Vec<(String, HostValue)> = Vec::new();
    let mut i: usize = 0;
    while i < bag.len()
        invariant
            i <= bag.len(),
            out.len() == i,
            forall|j: int|
                0 <= j < i ==> (#[trigger] out@[j]).0 == bag@[j].0 && normalizes_to(
                    bag@[j].1,
                    out@[j].1,
                ),
        decreases bag.len() - i,
    {
        let key = bag[i].0.clone();
        let h = normalize_value(&bag[i].1);
        out.push((key, h));
        i = i + 1;
    }
    out
}

/// Copy a byte blob.
fn clone_bytes(d: &Vec<u8>) -> (out: Vec<u8>)
    ensures
        out@ == d@,
{
    let mut out: Vec<u8> = Vec::new();
    let mut i: usize = 0;
    while i < d.len()
        invariant
            i <= d.len(),
            out@ == d@.subrange(0, i as int),
        decreases d.len() - i,
    {
        out.push(d[i]);
        i = i + 1;
    }
    proof {
        assert(out@ =~= d@);
    }
    out
}

/// Structural agreement between a source value and a host value: maps map to
/// maps with identical keys, lists to lists of the same length, nesting
/// matching position by position, and every scalar to a scalar.
pub open spec fn same_shape(v: SourceValue, h: HostValue) -> bool
    decreases v,
{
    match v {
        SourceValue::List(items) => match h {
            HostValue::List(out) => out.len() == items.len() && (forall|i: int|
                0 <= i < items.len() ==> same_shape(#[trigger] items[i], out[i])),
            _ => false,
        },
        SourceValue::Dict(entries) => match h {
            HostValue::Dict(out) => out.len() == entries.len() && (forall|i: int|
                0 <= i < entries.len() ==> (#[trigger] out[i]).0@ == entries[i].0@ && same_shape(
                    entries[i].1,
                    out[i].1,
                )),
            _ => false,
        },
        _ => !(h is List) && !(h is Dict),
    }
}

/// Round trip of property bags, empty half: translating an empty bag yields
/// an empty map, never "no value".
pub proof fn lemma_empty_bag_translates_empty(
    bag: Seq<(String, SourceValue)>,
    out: Seq<(String, HostValue)>,
)
    requires
        bag_normalizes_to(bag, out),
        bag.len() == 0,
    ensures
        out.len() == 0,
{
}

/// Round trip of property bags, nested half: translating a bag reproduces
/// identical key sets and structurally identical nesting, to any depth.
pub proof fn lemma_translation_preserves_shape(v: SourceValue, h: HostValue)
    requires
        normalizes_to(v, h),
    ensures
        same_shape(v, h),
    decreases v,
{
    match v {
        SourceValue::List(items) => {
            let out = h->List_0;
            assert forall|i: int| 0 <= i < items.len() implies same_shape(
                #[trigger] items[i],
                out[i],
            ) by {
                lemma_translation_preserves_shape(items[i], out[i]);
            }
        },
        SourceValue::Dict(entries) => {
            let out = h->Dict_0;
            assert forall|i: int| 0 <= i < entries.len() implies (#[trigger] out[i]).0@
                == entries[i].0@ && same_shape(entries[i].1, out[i].1) by {
                lemma_translation_preserves_shape(entries[i].1, out[i].1);
            }
        },
        _ => {},
    }
}

/// Translating a whole bag preserves every entry's key and shape.
pub proof fn lemma_bag_translation_preserves_shape(
    bag: Seq<(String, SourceValue)>,
    out: Seq<(String, HostValue)>,
)
    requires
        bag_normalizes_to(bag, out),
    ensures
        out.len() == bag.len(),
        forall|i: int|
            0 <= i < bag.len() ==> (#[trigger] out[i]).0@ == bag[i].0@ && same_shape(
                bag[i].1,
                out[i].1,
            ),
{
    assert forall|i: int| 0 <= i < bag.len() implies (#[trigger] out[i]).0@ == bag[i].0@
        && same_shape(bag[i].1, out[i].1) by {
        lemma_translation_preserves_shape(bag[i].1, out[i].1);
    }
}

} // verus!
