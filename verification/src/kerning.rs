//! The kerning builder.
//!
//! The source kerning table is two-level: left name to (right name to
//! adjustment). It flattens into a host table keyed by the (left, right)
//! pair, walking all left rows in order and, within each, all right entries
//! in order. Every adjustment goes through the numeric normalization policy.
//! An absent kerning table projects as an empty table.

use vstd::prelude::*;
use crate::num::{HostNum, Real, normalize_real, normalized_num};

verus! {

/// The flattened entries of one kerning row: the row's left name paired with
/// each right name and adjustment, in order.
pub open spec fn row_entries(row: (String, Vec<(String, Real)>)) -> Seq<(String, String, Real)> {
    row.1@.map(|i: int, p: (String, Real)| (row.0, p.0, p.1))
}

/// The flattened entries of a whole kerning table, row by row, in order.
pub open spec fn flat_kerning(rows: Seq<(String, Vec<(String, Real)>)>) -> Seq<
    (String, String, Real),
>
    decreases rows.len(),
{
    if rows.len() == 0 {
        Seq::empty()
    } else {
        flat_kerning(rows.drop_last()) + row_entries(rows.last())
    }
}

/// One host kerning entry matches one flattened source entry: the pair key
/// keeps both names verbatim, the adjustment is normalized.
pub open spec fn kern_entry_matches(
    out: ((String, String), HostNum),
    exp: (String, String, Real),
) -> bool {
    &&& out.0.0@ == exp.0@
    &&& out.0.1@ == exp.1@
    &&& out.1 == normalized_num(exp.2.bits)
}

/// The whole host kerning table matches the flattened source table.
pub open spec fn kern_entries_match(
    out: Seq<((String, String), HostNum)>,
    exp: Seq<(String, String, Real)>,
) -> bool {
    &&& out.len() == exp.len()
    &&& forall|i: int| 0 <= i < exp.len() ==> kern_entry_matches(#[trigger] out[i], exp[i])
}

/// Appending one row to a prefix of the table extends the flattening by that
/// row's entries.
proof fn lemma_flat_kerning_step(rows: Seq<(String, Vec<(String, Real)>)>, i: int)
    requires
        0 <= i < rows.len(),
    ensures
        flat_kerning(rows.take(i + 1)) == flat_kerning(rows.take(i)) + row_entries(rows[i]),
{
    assert(rows.take(i + 1).drop_last() =~= rows.take(i));
    assert(rows.take(i + 1).last() == rows[i]);
}

/// Flatten the two-level kerning table into pair-keyed entries.
#[verifier::loop_isolation(false)]
pub fn build_kerning(kerning: &Vec<(String, Vec<(String, Real)>)>) -> (out: Vec<
    ((String, String), HostNum),
>)
    ensures
        kern_entries_match(out@, flat_kerning(kerning@)),
{
    let mut out: Vec<((String, String), HostNum)> = Vec::new();
    let mut i: usize = 0;
    while i < kerning.len()
        invariant
            i <= kerning.len(),
            kern_entries_match(out@, flat_kerning(kerning@.take(i as int))),
        decreases kerning.len() - i,
    {
        let mut j: usize = 0;
        while j < kerning[i].1.len()
            invariant
                i < kerning.len(),
                j <= kerning[i as int].1.len(),
                kern_entries_match(
                    out@,
                    flat_kerning(kerning@.take(i as int)) + row_entries(kerning@[i as int]).take(
                        j as int,
                    ),
                ),
            decreases kerning[i as int].1.len() - j,
        {
            let left = kerning[i].0.clone();
            let right = kerning[i].1[j].0.clone();
            let value = normalize_real(kerning[i].1[j].1);
            out.push(((left, right), value));
            proof {
                let row = kerning@[i as int];
                let entry = (row.0, row.1@[j as int].0, row.1@[j as int].1);
                assert(row_entries(row).take(j + 1) =~= row_entries(row).take(j as int).push(
                    entry,
                ));
            }
            j = j + 1;
        }
        proof {
            lemma_flat_kerning_step(kerning@, i as int);
            assert(row_entries(kerning@[i as int]).take(kerning@[i as int].1.len() as int)
                =~= row_entries(kerning@[i as int]));
        }
        i = i + 1;
    }
    proof {
        assert(kerning@.take(kerning.len() as int) =~= kerning@);
    }
    out
}

} // verus!
