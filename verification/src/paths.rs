//! Unix path components and whole-component prefixes, as `Path::components`
//! and `Path::starts_with` document them: repeated separators and `.`
//! segments are normalized away (but a leading `.` of a relative path
//! stays), a leading `/` is the root component, and `..` is kept as it is.
use vstd::prelude::*;

verus! {

/// The views of a list of byte vectors.
pub open spec fn byte_views(v: Seq<Vec<u8>>) -> Seq<Seq<u8>> {
    v.map_values(|x: Vec<u8>| x@)
}

/// `done` with the segment `seg` appended, unless `seg` is empty or `.`.
pub open spec fn keep_segment(done: Seq<Seq<u8>>, seg: Seq<u8>) -> Seq<Seq<u8>> {
    if seg.len() == 0 || seg == seq![46u8] {
        done
    } else {
        done.push(seg)
    }
}

/// Reading `p` left to right: the kept segments that a `/` has closed, and
/// the segment still open.
pub open spec fn split_state(p: Seq<u8>) -> (Seq<Seq<u8>>, Seq<u8>)
    decreases p.len(),
{
    if p.len() == 0 {
        (Seq::empty(), Seq::empty())
    } else {
        let (done, cur) = split_state(p.drop_last());
        if p.last() == 47 {
            (keep_segment(done, cur), Seq::empty())
        } else {
            (done, cur.push(p.last()))
        }
    }
}

/// The component before the segments: the root `/` of an absolute path,
/// `.` for a relative path that starts with `./` or is `.`, else none.
pub open spec fn lead_component(p: Seq<u8>) -> Seq<Seq<u8>> {
    if p.len() > 0 && p[0] == 47 {
        seq![seq![47u8]]
    } else if p.len() > 0 && p[0] == 46 && (p.len() == 1 || p[1] == 47) {
        seq![seq![46u8]]
    } else {
        Seq::empty()
    }
}

/// The components of a path, each as its bytes (the root as `/`).
pub open spec fn path_components(p: Seq<u8>) -> Seq<Seq<u8>> {
    lead_component(p) + keep_segment(split_state(p).0, split_state(p).1)
}

/// Whether `path` starts with `base`, whole components compared: `/a/b`
/// starts with `/`, `/a` and `/a//b/`, but not with `/a/bc` nor `/a/b/c`.
pub open spec fn components_prefix(base: Seq<u8>, path: Seq<u8>) -> bool {
    let b = path_components(base);
    let c = path_components(path);
    b.len() <= c.len() && c.take(b.len() as int) == b
}

/// A trailing `/` changes no component: `p/` has the components of `p`.
pub proof fn lemma_trailing_separator(p: Seq<u8>)
    requires
        p.len() > 0,
    ensures
        path_components(p.push(47u8)) == path_components(p),
{
    let q = p.push(47u8);
    assert(q.drop_last() =~= p);
    assert(q[0] == p[0]);
    if p.len() > 1 {
        assert(q[1] == p[1]);
    }
    assert(lead_component(q) == lead_component(p));
}

/// Whether a path lies within a root does not depend on a trailing `/`
/// of the root: `/srv/root/` holds what `/srv/root` holds, and a path
/// equal to the root lies within it (whole components, not bytes).
pub proof fn lemma_within_root_ignores_trailing_separator(root: Seq<u8>, path: Seq<u8>)
    requires
        root.len() > 0,
    ensures
        components_prefix(root.push(47u8), path) == components_prefix(root, path),
        components_prefix(root, root),
        components_prefix(root, root.push(47u8)),
{
    lemma_trailing_separator(root);
    let c = path_components(root);
    assert(c.take(c.len() as int) =~= c);
}

/// Append the segment `seg` to `done` unless it is empty or `.`.
fn push_segment(done: &mut Vec<Vec<u8>>, seg: Vec<u8>)
    ensures
        byte_views(final(done)@) == keep_segment(byte_views(old(done)@), seg@),
{
    let skip = seg.len() == 0 || (seg.len() == 1 && seg[0] == 46u8);
    if skip {
        assert(seg@.len() == 0 || seg@ =~= seq![46u8]);
    } else {
        assert(seg@ != seq![46u8]) by {
            if seg@.len() == 1 {
                assert(seg@[0] != seq![46u8][0]);
            }
        }
        let ghost before = done@;
        done.push(seg);
        assert(byte_views(done@) =~= byte_views(before).push(seg@));
    }
}

/// The components of the path with bytes `p`.
fn components(p: &[u8]) -> (c: Vec<Vec<u8>>)
    ensures
        byte_views(c@) == path_components(p@),
{
    let mut done: Vec<Vec<u8>> = Vec::new();
    if p.len() > 0 && p[0] == 47u8 {
        let mut root: Vec<u8> = Vec::new();
        root.push(47u8);
        done.push(root);
    } else if p.len() > 0 && p[0] == 46u8 && (p.len() == 1 || p[1] == 47u8) {
        let mut cur_dir: Vec<u8> = Vec::new();
        cur_dir.push(46u8);
        done.push(cur_dir);
    }
    let ghost lead = lead_component(p@);
    assert(byte_views(done@) =~= lead);
    assert(p@.take(0) =~= Seq::<u8>::empty());
    let mut cur: Vec<u8> = Vec::new();
    let mut i: usize = 0;
    while i < p.len()
        invariant
            i <= p@.len(),
            lead == lead_component(p@),
            byte_views(done@) == lead + split_state(p@.take(i as int)).0,
            cur@ == split_state(p@.take(i as int)).1,
        decreases p@.len() - i,
    {
        let ghost pre = p@.take(i as int);
        assert(p@.take(i + 1).drop_last() =~= pre);
        assert(p@.take(i + 1).last() == p@[i as int]);
        let ghost (d0, c0) = split_state(pre);
        if p[i] == 47u8 {
            let seg = cur;
            cur = Vec::new();
            push_segment(&mut done, seg);
            assert(keep_segment(lead + d0, c0) =~= lead + keep_segment(d0, c0));
        } else {
            cur.push(p[i]);
        }
        i = i + 1;
    }
    assert(p@.take(i as int) =~= p@);
    let ghost (d1, c1) = split_state(p@);
    push_segment(&mut done, cur);
    assert(keep_segment(lead + d1, c1) =~= lead + keep_segment(d1, c1));
    done
}

/// Whether two byte strings are equal.
fn bytes_equal(a: &[u8], b: &[u8]) -> (r: bool)
    ensures
        r == (a@ == b@),
{
    if a.len() != b.len() {
        return false;
    }
    let mut k: usize = 0;
    while k < a.len()
        invariant
            a@.len() == b@.len(),
            k <= a@.len(),
            forall|j: int| 0 <= j < k ==> a@[j] == b@[j],
        decreases a@.len() - k,
    {
        if a[k] != b[k] {
            return false;
        }
        k = k + 1;
    }
    assert(a@ =~= b@);
    true
}

/// Whether the path with bytes `path` lies within the one with bytes
/// `root`, whole components compared (see [`components_prefix`]).
pub fn path_within(root: &[u8], path: &[u8]) -> (b: bool)
    ensures
        b == components_prefix(root@, path@),
{
    let rc = components(root);
    let pc = components(path);
    let ghost rv = byte_views(rc@);
    let ghost pv = byte_views(pc@);
    if rc.len() > pc.len() {
        return false;
    }
    let mut j: usize = 0;
    while j < rc.len()
        invariant
            rv == byte_views(rc@),
            pv == byte_views(pc@),
            rv == path_components(root@),
            pv == path_components(path@),
            rc@.len() <= pc@.len(),
            j <= rc@.len(),
            forall|k: int| 0 <= k < j ==> pv[k] == rv[k],
        decreases rc@.len() - j,
    {
        let same = bytes_equal(rc[j].as_slice(), pc[j].as_slice());
        assert(rv[j as int] == rc@[j as int]@ && pv[j as int] == pc@[j as int]@);
        if !same {
            assert(pv.take(rv.len() as int)[j as int] == pv[j as int]);
            assert(pv.take(rv.len() as int) != rv);
            return false;
        }
        j = j + 1;
    }
    assert(pv.take(rv.len() as int) =~= rv);
    true
}

} // verus!
