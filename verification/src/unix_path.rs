//! Unix paths as text: joining, components, containment.
//!
//! Two paths are compared by their components, so repeated slashes, a trailing
//! slash and a `.` inside a path make no difference.

use crate::text::{cat2, cat3, pieces, same, split, texts};
use crate::text_map::{precedes, text_precedes};
use vstd::prelude::*;

verus! {

pub open spec fn is_absolute_path(path: Seq<char>) -> bool {
    path.len() > 0 && path[0] == '/'
}

/// The path of `part` seen from `base`: an absolute `part` stands alone.
pub open spec fn joined_path(base: Seq<char>, part: Seq<char>) -> Seq<char> {
    if is_absolute_path(part) || base.len() == 0 {
        part
    } else if base.last() == '/' {
        base + part
    } else {
        base + "/"@ + part
    }
}

/// The named steps among the pieces between slashes: empty pieces fall away,
/// and so does a `.` that does not begin a relative path.
pub open spec fn steps(parts: Seq<Seq<char>>) -> Seq<Seq<char>>
    decreases parts.len(),
{
    if parts.len() == 0 {
        Seq::empty()
    } else {
        let before = steps(parts.drop_last());
        let last = parts.last();
        if last.len() == 0 || (last == "."@ && parts.len() > 1) {
            before
        } else {
            before.push(last)
        }
    }
}

/// The components of a path. The root of an absolute path is the component `/`.
pub open spec fn components(path: Seq<char>) -> Seq<Seq<char>> {
    if is_absolute_path(path) {
        seq!["/"@] + steps(pieces(path, '/'))
    } else {
        steps(pieces(path, '/'))
    }
}

/// Whether `path` is `base` or lies below it.
pub open spec fn is_within(path: Seq<char>, base: Seq<char>) -> bool {
    components(base).is_prefix_of(components(path))
}

/// Whether one of the two paths is or contains the other.
pub open spec fn overlaps(a: Seq<char>, b: Seq<char>) -> bool {
    is_within(a, b) || is_within(b, a)
}

/// A component that names a directory entry.
pub open spec fn is_name(component: Seq<char>) -> bool {
    component != "/"@ && component != "."@ && component != ".."@
}

/// The entry that a path names in its parent directory.
pub open spec fn entry_name(path: Seq<char>) -> Option<Seq<char>> {
    let all = components(path);
    if all.len() > 0 && is_name(all.last()) {
        Some(all.last())
    } else {
        None
    }
}

/// The rank by which kinds of components are ordered.
pub open spec fn component_rank(c: Seq<char>) -> int {
    if c == "/"@ {
        0
    } else if c == "."@ {
        1
    } else if c == ".."@ {
        2
    } else {
        3
    }
}

pub open spec fn component_precedes(a: Seq<char>, b: Seq<char>) -> bool {
    component_rank(a) < component_rank(b) || (component_rank(a) == 3 && component_rank(b) == 3
        && precedes(a, b))
}

/// The order of paths: component by component.
pub open spec fn components_precede(a: Seq<Seq<char>>, b: Seq<Seq<char>>) -> bool
    decreases a.len(),
{
    if b.len() == 0 {
        false
    } else if a.len() == 0 {
        true
    } else if a[0] == b[0] {
        components_precede(a.skip(1), b.skip(1))
    } else {
        component_precedes(a[0], b[0])
    }
}

pub open spec fn path_precedes(a: Seq<char>, b: Seq<char>) -> bool {
    components_precede(components(a), components(b))
}

/// A list of paths with one more, put before the first that it precedes.
pub open spec fn with_path(paths: Seq<Seq<char>>, path: Seq<char>) -> Seq<Seq<char>>
    decreases paths.len(),
{
    if paths.len() == 0 {
        seq![path]
    } else if path_precedes(path, paths.last()) {
        with_path(paths.drop_last(), path).push(paths.last())
    } else {
        paths.push(path)
    }
}

/// A path that is absolute, is not the root, and has no empty, `.` or `..` part.
pub open spec fn is_normalized(path: Seq<char>) -> bool {
    &&& is_absolute_path(path)
    &&& forall|i: int|
        0 <= i < pieces(path.skip(1), '/').len() ==> {
            let part = #[trigger] pieces(path.skip(1), '/')[i];
            part.len() > 0 && part != "."@ && part != ".."@
        }
}

/// Every path overlaps itself, and overlap does not depend on the order.
pub proof fn overlap_is_symmetric(a: Seq<char>, b: Seq<char>)
    ensures
        overlaps(a, a),
        overlaps(a, b) == overlaps(b, a),
{
    assert(components(a).is_prefix_of(components(a)));
}

/// What lies within a path within a third lies within the third.
pub proof fn within_is_transitive(a: Seq<char>, b: Seq<char>, c: Seq<char>)
    requires
        is_within(a, b),
        is_within(b, c),
    ensures
        is_within(a, c),
{
    let (x, y, z) = (components(a), components(b), components(c));
    assert(z =~= x.subrange(0, z.len() as int)) by {
        assert forall|i: int| 0 <= i < z.len() implies z[i] == x.subrange(0, z.len() as int)[i] by {
            assert(z[i] == y.subrange(0, z.len() as int)[i]);
            assert(y[i] == x.subrange(0, y.len() as int)[i]);
        }
    }
}

/// Paths that hold no overlap with a base hold none with what lies below it.
pub proof fn no_overlap_below(a: Seq<char>, base: Seq<char>, below: Seq<char>)
    requires
        !is_within(a, base),
        is_within(below, base),
    ensures
        !is_within(a, below),
{
    if is_within(a, below) {
        within_is_transitive(a, below, base);
    }
}

/// The pieces behind others that name a step.
pub open spec fn later_steps(parts: Seq<Seq<char>>) -> Seq<Seq<char>>
    decreases parts.len(),
{
    if parts.len() == 0 {
        Seq::empty()
    } else {
        let before = later_steps(parts.drop_last());
        let last = parts.last();
        if last.len() == 0 || last == "."@ {
            before
        } else {
            before.push(last)
        }
    }
}

proof fn steps_of_both(a: Seq<Seq<char>>, b: Seq<Seq<char>>)
    requires
        a.len() > 0,
    ensures
        steps(a + b) == steps(a) + later_steps(b),
    decreases b.len(),
{
    if b.len() == 0 {
        assert(a + b =~= a);
        assert(steps(a) + Seq::<Seq<char>>::empty() =~= steps(a));
    } else {
        steps_of_both(a, b.drop_last());
        let t = a + b;
        assert(t.drop_last() =~= a + b.drop_last());
        assert(t.last() == b.last());
        assert(steps(a) + later_steps(b.drop_last()).push(b.last()) =~= (steps(a) + later_steps(
            b.drop_last(),
        )).push(b.last()));
    }
}

/// Joining a relative path only adds components.
pub proof fn joining_adds_components(base: Seq<char>, part: Seq<char>)
    requires
        !is_absolute_path(part),
        base.len() > 0,
    ensures
        components(joined_path(base, part)) == components(base) + later_steps(pieces(part, '/')),
{
    reveal_strlit("/");
    assert("/"@ =~= seq!['/']);
    let path = joined_path(base, part);
    crate::text::pieces_hold_no_separator(base, '/');
    if base.last() == '/' {
        let front = base.drop_last();
        assert(base =~= front + seq!['/'] + Seq::<char>::empty());
        assert(path =~= front + seq!['/'] + part);
        crate::text::pieces_of_both(front, Seq::empty(), '/');
        crate::text::pieces_of_both(front, part, '/');
        crate::text::pieces_hold_no_separator(front, '/');
        let f = pieces(front, '/');
        let e = Seq::<char>::empty();
        assert(pieces(e, '/') =~= seq![e]);
        let b = pieces(base, '/');
        assert(b.drop_last() =~= f);
        assert(b.last() == e);
        assert(steps(b) == steps(f));
        steps_of_both(f, pieces(part, '/'));
    } else {
        assert(path =~= base + seq!['/'] + part);
        crate::text::pieces_of_both(base, part, '/');
        steps_of_both(pieces(base, '/'), pieces(part, '/'));
    }
    assert(path[0] == base[0]);
    let more = later_steps(pieces(part, '/'));
    assert(seq!["/"@] + (steps(pieces(base, '/')) + more) =~= (seq!["/"@] + steps(
        pieces(base, '/'),
    )) + more);
}

/// What a list of components looks like: the root and `.` stand in front only,
/// and nothing else holds a slash.
pub open spec fn is_component_list(parts: Seq<Seq<char>>) -> bool {
    forall|i: int|
        0 <= i < parts.len() ==> {
            let part = #[trigger] parts[i];
            &&& part.len() > 0
            &&& part == "/"@ ==> i == 0
            &&& part != "/"@ ==> !part.contains('/')
            &&& part == "."@ ==> i == 0
        }
}

proof fn steps_are_components(parts: Seq<Seq<char>>)
    requires
        forall|i: int| 0 <= i < parts.len() ==> !(#[trigger] parts[i]).contains('/'),
    ensures
        forall|i: int|
            0 <= i < steps(parts).len() ==> {
                let part = #[trigger] steps(parts)[i];
                &&& part.len() > 0
                &&& !part.contains('/')
                &&& part == "."@ ==> i == 0 && parts.len() > 0 && parts[0] == "."@
            },
        steps(parts).len() <= parts.len(),
    decreases parts.len(),
{
    if parts.len() > 0 {
        let front = parts.drop_last();
        assert forall|i: int| 0 <= i < front.len() implies !(#[trigger] front[i]).contains('/') by {
            assert(front[i] == parts[i]);
        }
        steps_are_components(front);
        assert(!parts[parts.len() - 1].contains('/'));
        let all = steps(parts);
        assert forall|i: int| 0 <= i < all.len() implies {
            let part = #[trigger] all[i];
            &&& part.len() > 0
            &&& !part.contains('/')
            &&& part == "."@ ==> i == 0 && parts.len() > 0 && parts[0] == "."@
        } by {
            if i < steps(front).len() {
                assert(all[i] == steps(front)[i]);
                if front.len() > 0 {
                    assert(front[0] == parts[0]);
                }
            } else {
                assert(all[i] == parts.last());
            }
        }
    }
}

proof fn slash_is_one_char(part: Seq<char>)
    requires
        !part.contains('/'),
    ensures
        part != "/"@,
        !is_absolute_path(part),
{
    reveal_strlit("/");
    if part == "/"@ {
        assert(part[0] == '/');
        assert(part.contains(part[0]));
    }
    if part.len() > 0 && part[0] == '/' {
        assert(part.contains(part[0]));
    }
}

/// The components of a path are a list of components.
pub proof fn components_are_a_list(path: Seq<char>)
    ensures
        is_component_list(components(path)),
{
    reveal_strlit("/");
    reveal_strlit(".");
    let all = pieces(path, '/');
    crate::text::pieces_hold_no_separator(path, '/');
    steps_are_components(all);
    let parts = components(path);
    assert forall|i: int| 0 <= i < parts.len() implies {
        let part = #[trigger] parts[i];
        &&& part.len() > 0
        &&& part == "/"@ ==> i == 0
        &&& part != "/"@ ==> !part.contains('/')
        &&& part == "."@ ==> i == 0
    } by {
        if is_absolute_path(path) {
            if i > 0 {
                assert(parts[i] == steps(all)[i - 1]);
                slash_is_one_char(parts[i]);
                if parts[i] == "."@ {
                    crate::text::find_from_bounds(path, '/', 0);
                    assert(crate::text::find_from(path, '/', 0) == 0);
                    assert(all[0] == path.take(0));
                    assert(all[0].len() == 0);
                }
            }
        } else {
            assert(parts[i] == steps(all)[i]);
            slash_is_one_char(parts[i]);
        }
    }
}

/// A component by itself is a path with that component.
proof fn one_component(part: Seq<char>)
    requires
        part.len() > 0,
        part == "/"@ || !part.contains('/'),
    ensures
        components(part) == seq![part],
{
    reveal_with_fuel(steps, 3);
    reveal_strlit("/");
    if part == "/"@ {
        let e = Seq::<char>::empty();
        assert(part =~= e + seq!['/'] + e);
        crate::text::pieces_of_both(e, e, '/');
        assert(pieces(e, '/') =~= seq![e]);
        let two = pieces(part, '/');
        assert(two =~= seq![e, e]);
        assert(two.drop_last() =~= seq![e]);
        assert(seq![e].drop_last() =~= Seq::<Seq<char>>::empty());
        assert(steps(seq![e]) =~= Seq::<Seq<char>>::empty());
        assert(steps(two) =~= Seq::<Seq<char>>::empty());
        assert(components(part) =~= seq![part]);
    } else {
        slash_is_one_char(part);
        crate::text::find_from_bounds(part, '/', 0);
        if crate::text::find_from(part, '/', 0) < part.len() {
            assert(part.contains(part[crate::text::find_from(part, '/', 0)]));
        }
        let one = pieces(part, '/');
        assert(one =~= seq![part]);
        assert(one.drop_last() =~= Seq::<Seq<char>>::empty());
        assert(steps(one) =~= seq![part]);
    }
}

/// A path put together from components.
pub open spec fn rebuilt(parts: Seq<Seq<char>>) -> Seq<char>
    decreases parts.len(),
{
    if parts.len() == 0 {
        Seq::empty()
    } else {
        joined_path(rebuilt(parts.drop_last()), parts.last())
    }
}

/// A path that is put together from components has these components.
pub proof fn rebuilt_paths_keep_components(parts: Seq<Seq<char>>)
    requires
        is_component_list(parts),
    ensures
        components(rebuilt(parts)) == parts,
        parts.len() > 0 ==> rebuilt(parts).len() > 0,
    decreases parts.len(),
{
    reveal_with_fuel(steps, 2);
    reveal_with_fuel(later_steps, 2);
    reveal_strlit("/");
    reveal_strlit(".");
    if parts.len() == 0 {
        let e = Seq::<char>::empty();
        assert(pieces(e, '/') =~= seq![e]);
        assert(seq![e].drop_last() =~= Seq::<Seq<char>>::empty());
        assert(steps(seq![e]) =~= Seq::<Seq<char>>::empty());
        assert(components(e) =~= parts);
    } else {
        let front = parts.drop_last();
        let last = parts.last();
        assert(parts[parts.len() - 1] == last);
        assert forall|i: int| 0 <= i < front.len() implies {
            let part = #[trigger] front[i];
            &&& part.len() > 0
            &&& part == "/"@ ==> i == 0
            &&& part != "/"@ ==> !part.contains('/')
            &&& part == "."@ ==> i == 0
        } by {
            assert(front[i] == parts[i]);
        }
        rebuilt_paths_keep_components(front);
        let r = rebuilt(front);
        one_component(last);
        if front.len() == 0 {
            assert(r =~= Seq::<char>::empty());
            assert(rebuilt(parts) == last);
            assert(parts =~= seq![last]);
        } else {
            slash_is_one_char(last);
            joining_adds_components(r, last);
            crate::text::find_from_bounds(last, '/', 0);
            if crate::text::find_from(last, '/', 0) < last.len() {
                assert(last.contains(last[crate::text::find_from(last, '/', 0)]));
            }
            let one = pieces(last, '/');
            assert(one =~= seq![last]);
            assert(one.drop_last() =~= Seq::<Seq<char>>::empty());
            assert(later_steps(one) =~= seq![last]);
            assert(front + seq![last] =~= parts);
            assert(is_absolute_path(last) == false);
        }
    }
}

pub fn is_absolute(path: &str) -> (r: bool)
    ensures
        r == is_absolute_path(path@),
{
    let n: usize = path.unicode_len();
    n > 0 && path.get_char(0) == '/'
}

/// Joins a path and a part of one.
pub fn join(base: &str, part: &str) -> (r: String)
    ensures
        r@ == joined_path(base@, part@),
{
    let n: usize = base.unicode_len();
    if is_absolute(part) || n == 0 {
        part.to_owned()
    } else if base.get_char(n - 1) == '/' {
        cat2(base, part)
    } else {
        cat3(base, "/", part)
    }
}

/// The components of a path.
pub fn components_of(path: &str) -> (r: Vec<String>)
    ensures
        texts(r@) == components(path@),
{
    let parts = split(path, '/');
    let mut out: Vec<String> = Vec::new();
    if is_absolute(path) {
        out.push("/".to_owned());
    }
    let ghost root = texts(out@);
    let ghost all = texts(parts@);
    let mut i: usize = 0;
    assert(root =~= if is_absolute_path(path@) { seq!["/"@] } else { Seq::empty() });
    assert(all.take(0) =~= Seq::empty());
    assert(texts(out@) =~= root + steps(all.take(0)));
    while i < parts.len()
        invariant
            i <= parts.len(),
            all == texts(parts@),
            texts(out@) == root + steps(all.take(i as int)),
        decreases parts.len() - i,
    {
        proof {
            let next = all.take(i + 1);
            assert(next.drop_last() =~= all.take(i as int));
            assert(next.last() == parts@[i as int]@);
        }
        let part = parts[i].as_str();
        let ghost before = texts(out@);
        if !(part.unicode_len() == 0 || (same(part, ".") && i > 0)) {
            out.push(part.to_owned());
            assert(texts(out@) =~= before.push(part@));
            assert(before.push(part@) =~= root + steps(all.take(i as int)).push(part@));
        }
        i += 1;
    }
    assert(all.take(i as int) =~= all);
    assert(texts(out@) =~= components(path@));
    out
}

fn is_list_prefix(short: &Vec<String>, long: &Vec<String>) -> (r: bool)
    ensures
        r == texts(short@).is_prefix_of(texts(long@)),
{
    if short.len() > long.len() {
        return false;
    }
    let mut i: usize = 0;
    while i < short.len()
        invariant
            i <= short.len() <= long.len(),
            forall|j: int| 0 <= j < i ==> texts(short@)[j] == #[trigger] texts(long@)[j],
        decreases short.len() - i,
    {
        if !same(short[i].as_str(), long[i].as_str()) {
            proof {
                let cut = texts(long@).subrange(0, short@.len() as int);
                assert(cut[i as int] != texts(short@)[i as int]);
            }
            return false;
        }
        i += 1;
    }
    assert(texts(short@) =~= texts(long@).subrange(0, short@.len() as int));
    true
}

/// Whether two paths have the same components.
pub fn same_path(a: &str, b: &str) -> (r: bool)
    ensures
        r == (components(a@) == components(b@)),
{
    let x = components_of(a);
    let y = components_of(b);
    let r = x.len() == y.len() && is_list_prefix(&x, &y);
    proof {
        if r {
            assert(texts(x@) =~= texts(y@));
        } else if components(a@) == components(b@) {
            assert(texts(x@).is_prefix_of(texts(y@)));
        }
    }
    r
}

/// Whether `path` is `base` or lies below it.
pub fn within(path: &str, base: &str) -> (r: bool)
    ensures
        r == is_within(path@, base@),
{
    is_list_prefix(&components_of(base), &components_of(path))
}

/// Whether one of the two paths is or contains the other.
pub fn paths_overlap(a: &str, b: &str) -> (r: bool)
    ensures
        r == overlaps(a@, b@),
{
    within(a, b) || within(b, a)
}

/// The entry that a path names in its parent directory.
pub fn file_name(path: &str) -> (r: Option<String>)
    ensures
        crate::text::opt_text(r) == entry_name(path@),
{
    let mut all = components_of(path);
    let ghost spec_all = texts(all@);
    match all.pop() {
        Some(last) => {
            assert(last@ == spec_all.last());
            if same(last.as_str(), "/") || same(last.as_str(), ".") || same(last.as_str(), "..") {
                None
            } else {
                Some(last)
            }
        },
        None => None,
    }
}

fn rank(c: &str) -> (r: u8)
    ensures
        r == component_rank(c@),
{
    if same(c, "/") {
        0
    } else if same(c, ".") {
        1
    } else if same(c, "..") {
        2
    } else {
        3
    }
}

/// Whether the first path comes before the second.
pub fn precedes_path(a: &str, b: &str) -> (r: bool)
    ensures
        r == path_precedes(a@, b@),
{
    let x = components_of(a);
    let y = components_of(b);
    let ghost p = texts(x@);
    let ghost q = texts(y@);
    let mut i: usize = 0;
    assert(p.skip(0) =~= p);
    assert(q.skip(0) =~= q);
    loop
        invariant
            i <= x.len(),
            i <= y.len(),
            p == texts(x@),
            q == texts(y@),
            p == components(a@),
            q == components(b@),
            path_precedes(a@, b@) == components_precede(p.skip(i as int), q.skip(i as int)),
        decreases x.len() - i,
    {
        if i == y.len() {
            return false;
        }
        if i == x.len() {
            return true;
        }
        assert(p.skip(i as int).skip(1) =~= p.skip(i + 1));
        assert(q.skip(i as int).skip(1) =~= q.skip(i + 1));
        let c = x[i].as_str();
        let d = y[i].as_str();
        if !same(c, d) {
            let m: u8 = rank(c);
            let n: u8 = rank(d);
            return m < n || (m == 3 && n == 3 && text_precedes(c, d));
        }
        i += 1;
    }
}

/// Adds a path to a list, before the first that it precedes.
pub fn add_path(paths: &mut Vec<String>, path: String)
    ensures
        texts(final(paths)@) == with_path(texts(old(paths)@), path@),
{
    let ghost all = texts(paths@);
    let mut i: usize = paths.len();
    assert(all.take(i as int) =~= all);
    assert(with_path(all, path@) =~= with_path(all.take(i as int), path@) + all.skip(i as int));
    while i > 0 && precedes_path(path.as_str(), paths[i - 1].as_str())
        invariant
            i <= paths.len(),
            *paths == *old(paths),
            all == texts(paths@),
            with_path(all, path@) == with_path(all.take(i as int), path@) + all.skip(i as int),
        decreases i,
    {
        proof {
            let cut = all.take(i as int);
            assert(cut.drop_last() =~= all.take(i - 1));
            assert(with_path(cut, path@) == with_path(cut.drop_last(), path@).push(cut.last()));
            assert(with_path(cut.drop_last(), path@).push(cut.last()) + all.skip(i as int)
                =~= with_path(all.take(i - 1), path@) + all.skip(i - 1));
        }
        i -= 1;
    }
    proof {
        let cut = all.take(i as int);
        assert(with_path(cut, path@) =~= cut.push(path@));
        if i > 0 {
            assert(cut.last() == paths@[i - 1]@);
        }
    }
    let ghost p = path@;
    paths.insert(i, path);
    assert(texts(paths@) =~= all.take(i as int).push(p) + all.skip(i as int));
}

/// Whether a path is absolute, not the root, and free of empty, `.` and `..` parts.
pub fn normalized(path: &str) -> (r: bool)
    ensures
        r == is_normalized(path@),
{
    if !is_absolute(path) {
        return false;
    }
    let rest = path.substring_char(1, path.unicode_len());
    assert(rest@ =~= path@.skip(1));
    let parts = split(rest, '/');
    let ghost all = pieces(path@.skip(1), '/');
    let mut i: usize = 0;
    while i < parts.len()
        invariant
            i <= parts.len(),
            all == texts(parts@),
            all == pieces(path@.skip(1), '/'),
            forall|j: int|
                0 <= j < i ==> {
                    let part = #[trigger] all[j];
                    part.len() > 0 && part != "."@ && part != ".."@
                },
        decreases parts.len() - i,
    {
        let part = parts[i].as_str();
        assert(all[i as int] == part@);
        if part.unicode_len() == 0 || same(part, ".") || same(part, "..") {
            return false;
        }
        i += 1;
    }
    true
}

// ---------------------------------------------------------------- laws

/// An absolute path stands alone, and so does one that is seen from nowhere. Any
/// other is put behind the directory that it is seen from, with one slash between
/// the two where the directory does not end with one, and lies within it.
pub proof fn paths_are_seen_from_their_directory(base: Seq<char>, part: Seq<char>)
    ensures
        is_absolute_path(part) ==> joined_path(base, part) == part,
        joined_path(Seq::empty(), part) == part,
        !is_absolute_path(part) && base.len() > 0 ==> {
            &&& joined_path(base, part) == base + part || joined_path(base, part) == base + seq![
                '/',
            ] + part
            &&& joined_path(base, part) == base + part <==> base.last() == '/'
            &&& is_within(joined_path(base, part), base)
            &&& is_absolute_path(joined_path(base, part)) == is_absolute_path(base)
        },
{
    reveal_strlit("/");
    assert("/"@ =~= seq!['/']);
    if !is_absolute_path(part) && base.len() > 0 {
        joining_adds_components(base, part);
        let all = components(joined_path(base, part));
        assert(all.subrange(0, components(base).len() as int) =~= components(base));
        assert(joined_path(base, part)[0] == base[0]);
        if base.last() != '/' {
            assert((base + seq!['/'] + part).len() != (base + part).len());
        }
    }
}

/// A text that can name an entry of a directory.
pub open spec fn can_name(name: Seq<char>) -> bool {
    name.len() > 0 && !name.contains('/') && is_name(name)
}

proof fn named_entries_are_added(base: Seq<char>, name: Seq<char>)
    requires
        base.len() > 0,
        can_name(name),
    ensures
        components(joined_path(base, name)) == components(base).push(name),
{
    reveal_with_fuel(later_steps, 2);
    slash_is_one_char(name);
    joining_adds_components(base, name);
    crate::text::find_from_bounds(name, '/', 0);
    if crate::text::find_from(name, '/', 0) < name.len() {
        assert(name.contains(name[crate::text::find_from(name, '/', 0)]));
    }
    let one = pieces(name, '/');
    assert(one =~= seq![name]);
    assert(one.drop_last() =~= Seq::<Seq<char>>::empty());
    assert(later_steps(one) =~= seq![name]);
    assert(components(base) + seq![name] =~= components(base).push(name));
}

/// The entry of a directory has its name as its last component; two entries of
/// one directory are apart, and one that has another's name is the other. The
/// root names no entry, and neither does a path that is made of dots.
pub proof fn entries_have_their_names(base: Seq<char>, a: Seq<char>, b: Seq<char>)
    requires
        base.len() > 0,
        can_name(a),
        can_name(b),
    ensures
        entry_name(joined_path(base, a)) == Some(a),
        entry_name(a) == Some(a),
        overlaps(joined_path(base, a), joined_path(base, b)) <==> a == b,
        !is_within(base, joined_path(base, a)),
        entry_name("/"@) is None,
        entry_name("."@) is None,
        entry_name(".."@) is None,
{
    named_entries_are_added(base, a);
    named_entries_are_added(base, b);
    one_component(a);
    let (p, q) = (components(joined_path(base, a)), components(joined_path(base, b)));
    assert(p.last() == a && q.last() == b);
    if p.is_prefix_of(q) {
        assert(q.subrange(0, p.len() as int) =~= q);
    }
    if q.is_prefix_of(p) {
        assert(p.subrange(0, q.len() as int) =~= p);
    }
    if a == b {
        assert(q.subrange(0, p.len() as int) =~= p);
    }
    reveal_strlit("/");
    reveal_strlit(".");
    reveal_strlit("..");
    assert(!"."@.contains('/'));
    assert(!".."@.contains('/'));
    one_component("/"@);
    one_component("."@);
    one_component(".."@);
}

/// Nothing relative is normalized, nor is the root. An entry of the root is where
/// its name is none of the dots, and a normalized path stays so exactly when it is
/// continued by such a name.
pub proof fn names_make_normalized_paths(path: Seq<char>, name: Seq<char>)
    requires
        !name.contains('/'),
    ensures
        is_normalized(path) ==> is_absolute_path(path),
        !is_normalized("/"@),
        is_normalized(seq!['/'] + name) <==> can_name(name),
        is_normalized(path + seq!['/'] + name) <==> path.len() > 0 && is_normalized(path)
            && can_name(name) || path.len() == 0 && can_name(name),
{
    slash_is_one_char(name);
    crate::text::find_from_bounds(name, '/', 0);
    if crate::text::find_from(name, '/', 0) < name.len() {
        assert(name.contains(name[crate::text::find_from(name, '/', 0)]));
    }
    let one = pieces(name, '/');
    assert(one =~= seq![name]);
    let t = seq!['/'] + name;
    assert(t.skip(1) =~= name);
    if is_normalized(t) {
        assert(pieces(t.skip(1), '/')[0] == name);
    }
    reveal_strlit("/");
    let none = Seq::<char>::empty();
    assert("/"@.skip(1) =~= none);
    assert(pieces(none, '/') =~= seq![none]);
    if is_normalized("/"@) {
        assert(pieces("/"@.skip(1), '/')[0] == none);
    }
    let longer = path + seq!['/'] + name;
    if path.len() == 0 {
        assert(longer =~= t);
    } else {
        assert(longer[0] == path[0]);
        let front = path.skip(1);
        assert(longer.skip(1) =~= front + seq!['/'] + name);
        crate::text::pieces_of_both(front, name, '/');
        let all = pieces(longer.skip(1), '/');
        let before = pieces(front, '/');
        assert(all =~= before.push(name));
        if is_normalized(longer) {
            assert(all[before.len() as int] == name);
            assert forall|i: int| 0 <= i < before.len() implies {
                let part = #[trigger] before[i];
                part.len() > 0 && part != "."@ && part != ".."@
            } by {
                assert(all[i] == before[i]);
            }
        }
        if is_normalized(path) && can_name(name) {
            assert forall|i: int| 0 <= i < all.len() implies {
                let part = #[trigger] all[i];
                part.len() > 0 && part != "."@ && part != ".."@
            } by {
                if i < before.len() {
                    assert(all[i] == before[i]);
                }
            }
        }
    }
}

proof fn one_component_comes_first(a: Seq<char>, b: Seq<char>)
    ensures
        a != b ==> component_precedes(a, b) != component_precedes(b, a),
{
    reveal_strlit("/");
    reveal_strlit(".");
    reveal_strlit("..");
    crate::text_map::precedes_total(a, b);
}

proof fn components_are_ordered(a: Seq<Seq<char>>, b: Seq<Seq<char>>)
    ensures
        a == b ==> !components_precede(a, b),
        a != b ==> components_precede(a, b) != components_precede(b, a),
        a.is_prefix_of(b) && a != b ==> components_precede(a, b),
    decreases a.len(),
{
    if a.len() == 0 {
        if b.len() == 0 {
            assert(a =~= b);
        }
    } else if b.len() > 0 {
        components_are_ordered(a.skip(1), b.skip(1));
        one_component_comes_first(a[0], b[0]);
        if a[0] == b[0] {
            if a.skip(1) == b.skip(1) {
                assert(a =~= seq![a[0]] + a.skip(1));
                assert(b =~= seq![b[0]] + b.skip(1));
            }
        }
        if a.is_prefix_of(b) {
            assert(b.subrange(0, a.len() as int)[0] == b[0]);
            assert(b.skip(1).subrange(0, a.len() - 1) =~= a.skip(1));
        }
    }
}

/// Of two paths that do not mean the same, exactly one comes first, and a
/// directory comes before what lies below it.
pub proof fn paths_are_in_order(a: Seq<char>, b: Seq<char>)
    ensures
        components(a) == components(b) ==> !path_precedes(a, b) && !path_precedes(b, a),
        components(a) != components(b) ==> path_precedes(a, b) != path_precedes(b, a),
        is_within(b, a) && components(a) != components(b) ==> path_precedes(a, b),
{
    components_are_ordered(components(a), components(b));
    components_are_ordered(components(b), components(a));
}

proof fn same_front_leaves_the_order(
    front: Seq<Seq<char>>,
    a: Seq<Seq<char>>,
    b: Seq<Seq<char>>,
)
    ensures
        components_precede(front + a, front + b) == components_precede(a, b),
    decreases front.len(),
{
    if front.len() == 0 {
        assert(front + a =~= a);
        assert(front + b =~= b);
    } else {
        same_front_leaves_the_order(front.skip(1), a, b);
        assert((front + a).skip(1) =~= front.skip(1) + a);
        assert((front + b).skip(1) =~= front.skip(1) + b);
    }
}

/// The entries of one directory are in the order of their names.
pub proof fn entries_are_in_the_order_of_their_names(base: Seq<char>, a: Seq<char>, b: Seq<char>)
    requires
        base.len() > 0,
        can_name(a),
        can_name(b),
    ensures
        path_precedes(joined_path(base, a), joined_path(base, b)) <==> precedes(a, b),
{
    named_entries_are_added(base, a);
    named_entries_are_added(base, b);
    let front = components(base);
    assert(front.push(a) =~= front + seq![a]);
    assert(front.push(b) =~= front + seq![b]);
    same_front_leaves_the_order(front, seq![a], seq![b]);
    crate::text_map::precedes_irreflexive(a);
    reveal_with_fuel(components_precede, 2);
    assert(seq![a].skip(1) =~= Seq::<Seq<char>>::empty());
    assert(seq![b].skip(1) =~= Seq::<Seq<char>>::empty());
    assert(component_rank(a) == 3 && component_rank(b) == 3);
}

/// Absolute paths come before relative ones; among these, what begins here comes
/// before what begins in the parent directory, and that before what a name begins.
pub proof fn kinds_of_paths_are_in_order(path: Seq<char>, name: Seq<char>)
    requires
        can_name(name),
        is_absolute_path(path),
    ensures
        path_precedes(path, "."@),
        path_precedes("."@, ".."@),
        path_precedes(".."@, name),
{
    reveal_strlit("/");
    reveal_strlit(".");
    reveal_strlit("..");
    assert(!"."@.contains('/'));
    assert(!".."@.contains('/'));
    one_component("."@);
    one_component(".."@);
    one_component(name);
    assert(components(path)[0] == "/"@);
    assert("/"@[0] != "."@[0]);
    assert("."@.len() != ".."@.len());
}

/// A name by itself is a path with one component.
pub proof fn names_are_their_only_component(name: Seq<char>)
    requires
        can_name(name),
    ensures
        components(name) == seq![name],
{
    one_component(name);
}

} // verus!
