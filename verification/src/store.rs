//! The auxiliary store extractor.
//!
//! A document carries sidecar binary files under two stores ("data" and
//! "images"). Each file's relative path is re-keyed for the host: the store's
//! root segment is stripped and the remaining segments are joined with
//! forward slashes, whatever separators the platform wrote. A path whose
//! remaining segments are not all plain names (an empty segment, `.` or `..`)
//! is a corrupted store and fails the whole projection. Files of the images
//! store must additionally begin with the fixed PNG signature.
//!
//! Paths are handled as their UTF-8 bytes; splitting on the ASCII separators
//! is safe there, and the produced key stays valid UTF-8 whenever the path
//! was.

use vstd::prelude::*;

verus! {

/// The forward slash separator, which the host key uses.
pub const SLASH: u8 = 0x2f;

/// The platform separator that must be rewritten.
pub const BACKSLASH: u8 = 0x5c;

/// The dot of the `.` and `..` path components.
pub const DOT: u8 = 0x2e;

/// Why a projection failed. Every failure aborts the whole projection; the
/// payload is the offending sidecar path.
#[derive(Debug)]
pub enum ProjectError {
    /// The backing document or a sidecar file could not be read.
    SourceRead(Vec<u8>),
    /// A sidecar path holds a component that is not a plain name segment.
    PathShape(Vec<u8>),
    /// A file in the images store lacks the PNG signature.
    Format(Vec<u8>),
    /// A path cannot be represented as valid text.
    Encoding(Vec<u8>),
}

/// Whether a byte is a path separator: the forward slash or the platform's
/// backslash.
pub open spec fn is_sep(b: u8) -> bool {
    b == SLASH || b == BACKSLASH
}

/// The position of the first separator at or after `i`, or the length when
/// none remains.
pub open spec fn first_sep_at(s: Seq<u8>, i: int) -> int
    decreases s.len() - i,
{
    if !(0 <= i < s.len()) {
        s.len() as int
    } else if is_sep(s[i]) {
        i
    } else {
        first_sep_at(s, i + 1)
    }
}

/// The segments of `s` from position `i` on, split at separators. Empty
/// segments are kept: they witness doubled, leading or trailing separators.
pub open spec fn split_from(s: Seq<u8>, i: int) -> Seq<Seq<u8>>
    decreases s.len() - i,
{
    let j = first_sep_at(s, i);
    if i <= j && j < s.len() {
        seq![s.subrange(i, j)] + split_from(s, j + 1)
    } else {
        seq![s.subrange(i, s.len() as int)]
    }
}

/// All segments of a path, from its start.
pub open spec fn segments(s: Seq<u8>) -> Seq<Seq<u8>> {
    split_from(s, 0)
}

/// Segments joined with the forward slash.
pub open spec fn join_segments(segs: Seq<Seq<u8>>) -> Seq<u8>
    decreases segs.len(),
{
    if segs.len() == 0 {
        Seq::empty()
    } else if segs.len() == 1 {
        segs[0]
    } else {
        join_segments(segs.drop_last()) + seq![SLASH] + segs.last()
    }
}

/// A plain name segment: not empty, not `.`, not `..`.
pub open spec fn plain_segment(s: Seq<u8>) -> bool {
    &&& s.len() > 0
    &&& s != seq![DOT]
    &&& s != seq![DOT, DOT]
}

/// A well-shaped store path: its first segment is exactly the store's root,
/// at least one segment follows, and every following segment is a plain
/// name.
pub open spec fn path_well_shaped(path: Seq<u8>, root: Seq<u8>) -> bool {
    &&& segments(path).len() >= 2
    &&& segments(path)[0] == root
    &&& forall|k: int| 1 <= k < segments(path).len() ==> plain_segment(#[trigger] segments(path)[k])
}

/// The host key of a well-shaped store path: everything after the root
/// segment, joined with forward slashes.
pub open spec fn store_key(path: Seq<u8>) -> Seq<u8> {
    join_segments(segments(path).skip(1))
}

/// Find the first separator at or after `start`.
#[verifier::loop_isolation(false)]
fn scan_segment(path: &Vec<u8>, start: usize) -> (end: usize)
    requires
        start <= path.len(),
    ensures
        start <= end <= path.len(),
        end == first_sep_at(path@, start as int),
{
    let mut pos: usize = start;
    while pos < path.len()
        invariant
            start <= pos <= path.len(),
            first_sep_at(path@, start as int) == first_sep_at(path@, pos as int),
        decreases path.len() - pos,
    {
        if path[pos] == SLASH || path[pos] == BACKSLASH {
            return pos;
        }
        pos = pos + 1;
    }
    pos
}

/// Whether the segment `path[start..end]` is a plain name.
fn check_plain(path: &Vec<u8>, start: usize, end: usize) -> (r: bool)
    requires
        start <= end <= path.len(),
    ensures
        r == plain_segment(path@.subrange(start as int, end as int)),
{
    let ghost seg = path@.subrange(start as int, end as int);
    if end - start == 0 {
        return false;
    }
    if end - start == 1 && path[start] == DOT {
        proof {
            assert(seg =~= seq![DOT]);
        }
        return false;
    }
    if end - start == 2 && path[start] == DOT && path[start + 1] == DOT {
        proof {
            assert(seg =~= seq![DOT, DOT]);
        }
        return false;
    }
    proof {
        if seg == seq![DOT] {
            assert(seg.len() == 1);
            assert(path@[start as int] == seg[0]);
        }
        if seg == seq![DOT, DOT] {
            assert(seg.len() == 2);
            assert(path@[start as int] == seg[0]);
            assert(path@[start as int + 1] == seg[1]);
        }
    }
    true
}

/// Append the segments of `path` from `start` on to `out`, joined with
/// forward slashes, after checking that each is a plain name. `first` says
/// whether `out` still ends without a separator owed.
#[verifier::loop_isolation(false)]
fn append_segments(path: &Vec<u8>, start: usize, out: &mut Vec<u8>, first: bool) -> (r: bool)
    requires
        start <= path.len(),
    ensures
        r == (forall|k: int|
            0 <= k < split_from(path@, start as int).len() ==> plain_segment(
                #[trigger] split_from(path@, start as int)[k],
            )),
        r ==> final(out)@ == old(out)@ + (if first {
            Seq::<u8>::empty()
        } else {
            seq![SLASH]
        }) + join_segments(split_from(path@, start as int)),
    decreases path.len() - start,
{
    let end = scan_segment(path, start);
    if !check_plain(path, start, end) {
        proof {
            if end < path.len() {
                assert(split_from(path@, start as int)[0] == path@.subrange(
                    start as int,
                    end as int,
                ));
            } else {
                assert(first_sep_at(path@, start as int) == path@.len());
                assert(split_from(path@, start as int)[0] == path@.subrange(
                    start as int,
                    path@.len() as int,
                ));
            }
        }
        return false;
    }
    if !first {
        out.push(SLASH);
    }
    let mut i: usize = start;
    while i < end
        invariant
            start <= i <= end <= path.len(),
            out@ == old(out)@ + (if first {
                Seq::<u8>::empty()
            } else {
                seq![SLASH]
            }) + path@.subrange(start as int, i as int),
        decreases end - i,
    {
        let b = path[i];
        out.push(b);
        proof {
            assert(old(out)@ + (if first {
                Seq::<u8>::empty()
            } else {
                seq![SLASH]
            }) + path@.subrange(start as int, i + 1) =~= (old(out)@ + (if first {
                Seq::<u8>::empty()
            } else {
                seq![SLASH]
            }) + path@.subrange(start as int, i as int)).push(b));
        }
        i = i + 1;
    }
    if end >= path.len() {
        // the final segment: the split has exactly this one segment left
        proof {
            let segs = split_from(path@, start as int);
            assert(segs =~= seq![path@.subrange(start as int, path@.len() as int)]);
            assert(join_segments(segs) == path@.subrange(start as int, end as int));
        }
        true
    } else {
        let r = append_segments(path, end + 1, out, false);
        proof {
            let segs = split_from(path@, start as int);
            let rest = split_from(path@, (end + 1) as int);
            assert(segs == seq![path@.subrange(start as int, end as int)] + rest);
            assert(segs.len() == 1 + rest.len());
            assert forall|k: int| 0 <= k < rest.len() implies segs[k + 1] == rest[k] by {}
            if r {
                assert forall|k: int| 0 <= k < segs.len() implies plain_segment(
                    #[trigger] segs[k],
                ) by {
                    if k == 0 {
                    } else {
                        assert(segs[k] == rest[k - 1]);
                    }
                }
                // the join splits as head + slash + joined tail
                lemma_join_cons(path@.subrange(start as int, end as int), rest);
            } else {
                let k = choose|k: int|
                    0 <= k < rest.len() && !plain_segment(#[trigger] rest[k]);
                assert(segs[k + 1] == rest[k]);
            }
        }
        r
    }
}

/// Joining a head segment onto further segments puts one slash between the
/// head and the joined tail.
proof fn lemma_join_cons(head: Seq<u8>, rest: Seq<Seq<u8>>)
    requires
        rest.len() >= 1,
    ensures
        join_segments(seq![head] + rest) == head + seq![SLASH] + join_segments(rest),
    decreases rest.len(),
{
    let whole = seq![head] + rest;
    if rest.len() == 1 {
        assert(whole.drop_last() =~= seq![head]);
        assert(whole.last() == rest[0]);
        assert(join_segments(seq![head]) == head);
        assert(join_segments(rest) == rest[0]);
    } else {
        lemma_join_cons(head, rest.drop_last());
        assert(whole.drop_last() =~= seq![head] + rest.drop_last());
        assert(whole.last() == rest.last());
        assert(join_segments(whole) == join_segments(seq![head] + rest.drop_last()) + seq![SLASH]
            + rest.last());
        assert(head + seq![SLASH] + (join_segments(rest.drop_last()) + seq![SLASH] + rest.last())
            =~= (head + seq![SLASH] + join_segments(rest.drop_last())) + seq![SLASH] + rest.last());
    }
}

/// Normalize one sidecar path: check its shape against the store root and
/// produce the forward-slash host key with the root stripped. Fails exactly
/// on a path that is not well shaped.
pub fn normalize_store_path(path: &Vec<u8>, root: &Vec<u8>) -> (out: Result<Vec<u8>, ProjectError>)
    ensures
        match out {
            Ok(key) => path_well_shaped(path@, root@) && key@ == store_key(path@),
            Err(e) => !path_well_shaped(path@, root@) && (e matches ProjectError::PathShape(p) &&
            p@ == path@),
        },
{
    let end = scan_segment(path, 0);
    // the first segment must be exactly the store root, and something must
    // follow it
    let root_ok = end < path.len() && segment_equals(path, 0, end, root);
    proof {
        let segs = segments(path@);
        if end < path.len() {
            assert(segs == seq![path@.subrange(0, end as int)] + split_from(path@, end + 1));
            assert(segs[0] == path@.subrange(0, end as int));
            assert(segs.len() >= 2);
        } else {
            assert(segs =~= seq![path@.subrange(0, path@.len() as int)]);
            assert(segs.len() == 1);
        }
    }
    if !root_ok {
        return Err(ProjectError::PathShape(clone_bytes_local(path)));
    }
    let mut key: Vec<u8> = Vec::new();
    let ok = append_segments(path, end + 1, &mut key, true);
    proof {
        let segs = segments(path@);
        let rest = split_from(path@, end + 1);
        assert(segs == seq![path@.subrange(0, end as int)] + rest);
        assert(segs.skip(1) =~= rest);
        assert forall|k: int| 1 <= k < segs.len() implies segs[k] == rest[k - 1] by {}
    }
    if ok {
        proof {
            let rest = split_from(path@, end + 1);
            assert(key@ =~= join_segments(rest));
            assert forall|k: int| 1 <= k < segments(path@).len() implies plain_segment(
                #[trigger] segments(path@)[k],
            ) by {
                assert(segments(path@)[k] == rest[k - 1]);
            }
        }
        Ok(key)
    } else {
        proof {
            let rest = split_from(path@, end + 1);
            let k = choose|k: int| 0 <= k < rest.len() && !plain_segment(#[trigger] rest[k]);
            assert(segments(path@)[k + 1] == rest[k]);
        }
        Err(ProjectError::PathShape(clone_bytes_local(path)))
    }
}

/// Whether the bytes `path[start..end]` equal `other` exactly.
#[verifier::loop_isolation(false)]
fn segment_equals(path: &Vec<u8>, start: usize, end: usize, other: &Vec<u8>) -> (r: bool)
    requires
        start <= end <= path.len(),
    ensures
        r == (path@.subrange(start as int, end as int) == other@),
{
    let ghost seg = path@.subrange(start as int, end as int);
    if end - start != other.len() {
        return false;
    }
    let mut i: usize = 0;
    while i < other.len()
        invariant
            start + other.len() == end <= path.len(),
            i <= other.len(),
            forall|k: int| 0 <= k < i ==> path@[start + k] == other@[k],
        decreases other.len() - i,
    {
        if path[start + i] != other[i] {
            proof {
                assert(seg[i as int] != other@[i as int]);
            }
            return false;
        }
        i = i + 1;
    }
    proof {
        assert(seg =~= other@);
    }
    true
}

/// Copy a byte list.
#[verifier::loop_isolation(false)]
fn clone_bytes_local(d: &Vec<u8>) -> (out: Vec<u8>)
    ensures
        out@ == d@,
{
    let mut out: Vec<u8> = Vec::new();
    let mut i: usize = 0;
    while i < d.len()
        invariant
            i <= d.len(),
            out@ == d@.subrange(0, i as int),
        decreases d.len() - i,
    {
        out.push(d[i]);
        i = i + 1;
    }
    proof {
        assert(out@ =~= d@);
    }
    out
}

/// The fixed eight-byte PNG signature.
pub open spec fn png_signature() -> Seq<u8> {
    seq![0x89u8, 0x50u8, 0x4eu8, 0x47u8, 0x0du8, 0x0au8, 0x1au8, 0x0au8]
}

/// Whether a byte blob begins with the PNG signature.
pub open spec fn is_png(d: Seq<u8>) -> bool {
    d.len() >= 8 && d.subrange(0, 8) == png_signature()
}

/// Check the PNG signature of a byte blob.
pub fn has_png_signature(d: &Vec<u8>) -> (r: bool)
    ensures
        r == is_png(d@),
{
    if d.len() < 8 {
        return false;
    }
    let r = d[0] == 0x89 && d[1] == 0x50 && d[2] == 0x4e && d[3] == 0x47 && d[4] == 0x0d && d[5]
        == 0x0a && d[6] == 0x1a && d[7] == 0x0a;
    proof {
        if r {
            assert(d@.subrange(0, 8) =~= png_signature());
        } else {
            if d@.subrange(0, 8) == png_signature() {
                assert(d@[0] == png_signature()[0]);
                assert(d@[1] == png_signature()[1]);
                assert(d@[2] == png_signature()[2]);
                assert(d@[3] == png_signature()[3]);
                assert(d@[4] == png_signature()[4]);
                assert(d@[5] == png_signature()[5]);
                assert(d@[6] == png_signature()[6]);
                assert(d@[7] == png_signature()[7]);
            }
        }
    }
    r
}

/// Whether one store entry is acceptable: a well-shaped path, and, for the
/// images store, content that begins with the PNG signature.
pub open spec fn entry_ok(entry: (Vec<u8>, Vec<u8>), root: Seq<u8>, require_png: bool) -> bool {
    &&& path_well_shaped(entry.0@, root)
    &&& (require_png ==> is_png(entry.1@))
}

/// A successful extraction: every entry acceptable, every key re-keyed,
/// every content kept verbatim.
pub open spec fn store_extracts_to(
    entries: Seq<(Vec<u8>, Vec<u8>)>,
    root: Seq<u8>,
    require_png: bool,
    o: Seq<(Vec<u8>, Vec<u8>)>,
) -> bool {
    &&& forall|i: int| 0 <= i < entries.len() ==> entry_ok(#[trigger] entries[i], root, require_png)
    &&& o.len() == entries.len()
    &&& forall|i: int|
        0 <= i < entries.len() ==> (#[trigger] o[i]).0@ == store_key(entries[i].0@) && o[i].1@
            == entries[i].1@
}

/// A failed extraction: the error names the first unacceptable entry's path
/// and the kind of its violation.
pub open spec fn store_fails_with(
    entries: Seq<(Vec<u8>, Vec<u8>)>,
    root: Seq<u8>,
    require_png: bool,
    e: ProjectError,
) -> bool {
    exists|i: int|
        {
            &&& 0 <= i < entries.len()
            &&& !entry_ok(#[trigger] entries[i], root, require_png)
            &&& forall|j: int| 0 <= j < i ==> entry_ok(#[trigger] entries[j], root, require_png)
            &&& match e {
                ProjectError::PathShape(p) => p@ == entries[i].0@ && !path_well_shaped(
                    entries[i].0@,
                    root,
                ),
                ProjectError::Format(p) => p@ == entries[i].0@ && path_well_shaped(
                    entries[i].0@,
                    root,
                ) && require_png && !is_png(entries[i].1@),
                _ => false,
            }
        }
}

/// Extract one sidecar store: re-key every entry, validating paths and, when
/// asked, the PNG signature of every content blob. The whole extraction
/// fails on the first unacceptable entry, with the offending path.
#[verifier::loop_isolation(false)]
pub fn extract_store(entries: &Vec<(Vec<u8>, Vec<u8>)>, root: &Vec<u8>, require_png: bool) -> (out:
    Result<Vec<(Vec<u8>, Vec<u8>)>, ProjectError>)
    ensures
        match out {
            Ok(o) => store_extracts_to(entries@, root@, require_png, o@),
            Err(e) => store_fails_with(entries@, root@, require_png, e),
        },
{
    let mut out: Vec<(Vec<u8>, Vec<u8>)> = Vec::new();
    let mut i: usize = 0;
    while i < entries.len()
        invariant
            i <= entries.len(),
            out.len() == i,
            forall|j: int| 0 <= j < i ==> entry_ok(#[trigger] entries[j], root@, require_png),
            forall|j: int|
                0 <= j < i ==> (#[trigger] out[j]).0@ == store_key(entries[j].0@) && out[j].1@
                    == entries[j].1@,
        decreases entries.len() - i,
    {
        let key = match normalize_store_path(&entries[i].0, root) {
            Ok(k) => k,
            Err(e) => {
                return Err(e);
            },
        };
        if require_png && !has_png_signature(&entries[i].1) {
            return Err(ProjectError::Format(clone_bytes_local(&entries[i].0)));
        }
        let content = clone_bytes_local(&entries[i].1);
        out.push((key, content));
        i = i + 1;
    }
    Ok(out)
}

} // verus!
