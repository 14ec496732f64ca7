//! Virtual-to-physical path resolution confined to a root directory.
//!
//! The logical working directory is always absolute. A user argument is
//! joined to it (an absolute argument replaces it), the result is split at
//! `/`, and `.` and `..` segments are collapsed lexically, without looking at
//! the file system: a `..` at the top stays at the top. The physical path is
//! the root followed by the surviving segments.

use vstd::prelude::*;

use crate::text::strings_view;

verus! {

/// `cwd` joined with `arg`; an absolute `arg` replaces `cwd`.
pub open spec fn joined(cwd: Seq<char>, arg: Seq<char>) -> Seq<char> {
    if arg.len() > 0 && arg[0] == '/' {
        arg
    } else {
        cwd + seq!['/'] + arg
    }
}

/// The stack of segments after one finished segment is taken into account.
pub open spec fn push_seg(stack: Seq<Seq<char>>, seg: Seq<char>) -> Seq<Seq<char>> {
    if seg.len() == 0 || seg == seq!['.'] {
        stack
    } else if seg == seq!['.', '.'] {
        if stack.len() == 0 { stack } else { stack.drop_last() }
    } else {
        stack.push(seg)
    }
}

/// The segment stack and the unfinished segment after reading `p[0..i]`.
pub open spec fn scan(p: Seq<char>, i: int) -> (Seq<Seq<char>>, Seq<char>)
    decreases i,
{
    if i <= 0 {
        (Seq::empty(), Seq::empty())
    } else {
        let prev = scan(p, i - 1);
        if p[i - 1] == '/' {
            (push_seg(prev.0, prev.1), Seq::empty())
        } else {
            (prev.0, prev.1.push(p[i - 1]))
        }
    }
}

/// The normalized segments of path `p`.
pub open spec fn segments(p: Seq<char>) -> Seq<Seq<char>> {
    let end = scan(p, p.len() as int);
    push_seg(end.0, end.1)
}

/// Each segment preceded by a `/`.
pub open spec fn slashed(segs: Seq<Seq<char>>) -> Seq<char>
    decreases segs.len(),
{
    if segs.len() == 0 {
        Seq::empty()
    } else {
        slashed(segs.drop_last()) + seq!['/'] + segs.last()
    }
}

/// The absolute logical path made of `segs`.
pub open spec fn absolute(segs: Seq<Seq<char>>) -> Seq<char> {
    if segs.len() == 0 { seq!['/'] } else { slashed(segs) }
}

/// The logical path that `arg` names from `cwd`.
pub open spec fn logical_of(cwd: Seq<char>, arg: Seq<char>) -> Seq<char> {
    absolute(segments(joined(cwd, arg)))
}

/// The physical path that `arg` names from `cwd` under `root`.
pub open spec fn physical_of(root: Seq<char>, cwd: Seq<char>, arg: Seq<char>) -> Seq<char> {
    root + slashed(segments(joined(cwd, arg)))
}

/// A segment that can stand in a normalized path.
pub open spec fn plain_segment(s: Seq<char>) -> bool {
    &&& s.len() > 0
    &&& s != seq!['.']
    &&& s != seq!['.', '.']
    &&& !s.contains('/')
}

/// `p` is `root` followed by plain segments only: it names `root` or
/// something below it.
pub open spec fn lies_under(p: Seq<char>, root: Seq<char>) -> bool {
    exists|segs: Seq<Seq<char>>|
        (forall|k: int| 0 <= k < segs.len() ==> plain_segment(#[trigger] segs[k]))
            && p == root + slashed(segs)
}

proof fn lemma_scan_plain(p: Seq<char>, i: int)
    requires
        0 <= i <= p.len(),
    ensures
        forall|k: int| 0 <= k < scan(p, i).0.len() ==> plain_segment(#[trigger] scan(p, i).0[k]),
        !scan(p, i).1.contains('/'),
    decreases i,
{
    if i > 0 {
        lemma_scan_plain(p, i - 1);
        let prev = scan(p, i - 1);
        if p[i - 1] == '/' {
            lemma_push_seg_plain(prev.0, prev.1);
        } else {
            let grown = prev.1.push(p[i - 1]);
            assert forall|j: int| 0 <= j < grown.len() implies #[trigger] grown[j] != '/' by {
                if j < prev.1.len() {
                    assert(prev.1[j] != '/');
                }
            }
        }
    }
}

proof fn lemma_push_seg_plain(stack: Seq<Seq<char>>, seg: Seq<char>)
    requires
        forall|k: int| 0 <= k < stack.len() ==> plain_segment(#[trigger] stack[k]),
        !seg.contains('/'),
    ensures
        forall|k: int| 0 <= k < push_seg(stack, seg).len()
            ==> plain_segment(#[trigger] push_seg(stack, seg)[k]),
{
    let r = push_seg(stack, seg);
    assert forall|k: int| 0 <= k < r.len() implies plain_segment(#[trigger] r[k]) by {
        if seg.len() == 0 || seg == seq!['.'] {
        } else if seg == seq!['.', '.'] {
            if stack.len() > 0 {
                assert(r[k] == stack[k]);
            }
        } else if k < stack.len() {
            assert(r[k] == stack[k]);
        }
    }
}

/// `..` from the top directory stays at the top directory.
pub proof fn lemma_parent_of_top()
    ensures
        logical_of(seq!['/'], seq!['.', '.']) == seq!['/'],
{
    let p = joined(seq!['/'], seq!['.', '.']);
    assert(p =~= seq!['/', '/', '.', '.']);
    assert(p[0] == '/' && p[1] == '/' && p[2] == '.' && p[3] == '.');
    assert(scan(p, 0) == (Seq::<Seq<char>>::empty(), Seq::<char>::empty()));
    assert(push_seg(Seq::<Seq<char>>::empty(), Seq::<char>::empty()) == Seq::<Seq<char>>::empty());
    assert(scan(p, 1) == (Seq::<Seq<char>>::empty(), Seq::<char>::empty()));
    assert(scan(p, 2) == (Seq::<Seq<char>>::empty(), Seq::<char>::empty()));
    assert(scan(p, 3).1 =~= seq!['.']);
    assert(scan(p, 3).0 =~= Seq::<Seq<char>>::empty());
    assert(scan(p, 4).1 =~= seq!['.', '.']);
    assert(scan(p, 4).0 =~= Seq::<Seq<char>>::empty());
    assert(segments(p) =~= Seq::<Seq<char>>::empty());
}

/// Every segment of a normalized path is plain.
pub proof fn lemma_segments_plain(p: Seq<char>)
    ensures
        forall|k: int| 0 <= k < segments(p).len() ==> plain_segment(#[trigger] segments(p)[k]),
{
    lemma_scan_plain(p, p.len() as int);
    let end = scan(p, p.len() as int);
    lemma_push_seg_plain(end.0, end.1);
}

/// Whatever the working directory and the argument, the resolved physical
/// path lies lexically under the root.
pub proof fn lemma_physical_under_root(root: Seq<char>, cwd: Seq<char>, arg: Seq<char>)
    ensures
        lies_under(physical_of(root, cwd, arg), root),
{
    let segs = segments(joined(cwd, arg));
    lemma_segments_plain(joined(cwd, arg));
    assert((forall|k: int| 0 <= k < segs.len() ==> plain_segment(#[trigger] segs[k]))
        && physical_of(root, cwd, arg) == root + slashed(segs));
}

fn push_segment(stack: &mut Vec<String>, seg: String)
    ensures
        strings_view(final(stack)@) == push_seg(strings_view(old(stack)@), seg@),
{
    proof {
        reveal_strlit(".");
    }
    let n = seg.as_str().unicode_len();
    if n == 0 {
        return;
    }
    if n == 1 && seg.as_str().get_char(0) == '.' {
        assert(seg@ =~= seq!['.']);
        return;
    }
    if n == 2 && seg.as_str().get_char(0) == '.' && seg.as_str().get_char(1) == '.' {
        assert(seg@ =~= seq!['.', '.']);
        if stack.len() > 0 {
            stack.pop();
            assert(strings_view(stack@) =~= strings_view(old(stack)@).drop_last());
        }
        return;
    }
    assert(seg@ != seq!['.']) by {
        if n == 1 { assert(seg@[0] != '.'); } else { assert(seg@.len() != 1); }
    }
    assert(seg@ != seq!['.', '.']) by {
        if n == 2 {
            assert(seg@[0] != '.' || seg@[1] != '.');
        } else {
            assert(seg@.len() != 2);
        }
    }
    stack.push(seg);
    assert(strings_view(stack@) =~= strings_view(old(stack)@).push(seg@));
}

/// The normalized segments of `p`.
pub fn split_segments(p: &str) -> (r: Vec<String>)
    ensures
        strings_view(r@) == segments(p@),
{
    let n = p.unicode_len();
    let mut stack: Vec<String> = Vec::new();
    let mut cur = String::new();
    let mut i: usize = 0;
    assert(strings_view(stack@) =~= Seq::<Seq<char>>::empty());
    while i < n
        invariant
            n == p@.len(),
            i <= n,
            strings_view(stack@) == scan(p@, i as int).0,
            cur@ == scan(p@, i as int).1,
        decreases n - i,
    {
        if p.get_char(i) == '/' {
            let seg = cur;
            push_segment(&mut stack, seg);
            cur = String::new();
        } else {
            let c = p.substring_char(i, i + 1);
            cur.append(c);
            assert(cur@ =~= scan(p@, i as int).1.push(p@[i as int]));
        }
        i = i + 1;
    }
    push_segment(&mut stack, cur);
    stack
}

/// Each segment of `segs`, preceded by a `/`.
pub fn join_slashed(segs: &Vec<String>) -> (r: String)
    ensures
        r@ == slashed(strings_view(segs@)),
{
    let mut r = String::new();
    let mut j: usize = 0;
    while j < segs.len()
        invariant
            j <= segs@.len(),
            r@ == slashed(strings_view(segs@).take(j as int)),
        decreases segs@.len() - j,
    {
        r.append("/");
        r.append(segs[j].as_str());
        let ghost v = strings_view(segs@);
        assert(v.take(j + 1).drop_last() =~= v.take(j as int));
        assert(v.take(j + 1).last() == segs@[j as int]@);
        proof {
            reveal_strlit("/");
        }
        assert("/"@ =~= seq!['/']);
        assert(r@ =~= slashed(v.take(j + 1)));
        j = j + 1;
    }
    assert(strings_view(segs@).take(segs@.len() as int) =~= strings_view(segs@));
    r
}

/// `cwd` joined with `arg`; an absolute `arg` replaces `cwd`.
pub fn join_path(cwd: &str, arg: &str) -> (r: String)
    ensures
        r@ == joined(cwd@, arg@),
{
    proof {
        reveal_strlit("/");
    }
    if arg.unicode_len() > 0 && arg.get_char(0) == '/' {
        arg.to_owned()
    } else {
        let mut r = cwd.to_owned();
        r.append("/");
        r.append(arg);
        r
    }
}

/// The absolute logical path that `arg` names from `cwd`.
pub fn resolve_logical(cwd: &str, arg: &str) -> (r: String)
    ensures
        r@ == logical_of(cwd@, arg@),
{
    let j = join_path(cwd, arg);
    let segs = split_segments(j.as_str());
    if segs.len() == 0 {
        proof {
            reveal_strlit("/");
        }
        let r = "/".to_owned();
        assert(r@ =~= seq!['/']);
        r
    } else {
        join_slashed(&segs)
    }
}

/// The physical path that `arg` names from `cwd` under `root`.
pub fn resolve_physical(root: &str, cwd: &str, arg: &str) -> (r: String)
    ensures
        r@ == physical_of(root@, cwd@, arg@),
        lies_under(r@, root@),
{
    let j = join_path(cwd, arg);
    let segs = split_segments(j.as_str());
    let tail = join_slashed(&segs);
    let mut r = root.to_owned();
    r.append(tail.as_str());
    proof {
        lemma_physical_under_root(root@, cwd@, arg@);
    }
    r
}

} // verus!
