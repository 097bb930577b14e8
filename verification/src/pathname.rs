//! Path names as character sequences.
//!
//! The library never touches the file system. It receives path names as
//! strings and takes them apart by their characters. A path name is a run of
//! components separated by `/` or `\`; it is taken as written, without
//! normalising `.`, `..` or a trailing separator.

use vstd::prelude::*;
use crate::text::chars_of;

verus! {

/// Whether `c` separates two components of a path name.
pub open spec fn is_sep(c: char) -> bool {
    c == '/' || c == '\\'
}

/// The index of the last separator in `p`, or -1 where there is none.
pub open spec fn last_sep(p: Seq<char>) -> int
    decreases p.len(),
{
    if p.len() == 0 {
        -1
    } else if is_sep(p.last()) {
        p.len() - 1
    } else {
        last_sep(p.drop_last())
    }
}

/// The index of the last `.` in `p`, or -1 where there is none.
pub open spec fn last_dot(p: Seq<char>) -> int
    decreases p.len(),
{
    if p.len() == 0 {
        -1
    } else if p.last() == '.' {
        p.len() - 1
    } else {
        last_dot(p.drop_last())
    }
}

/// The last component of `p`: what follows its last separator.
pub open spec fn file_name(p: Seq<char>) -> Seq<char> {
    p.subrange(last_sep(p) + 1, p.len() as int)
}

/// The extension of `p`: what follows the last `.` of its file name. There
/// is none where the file name has no `.`, where its only `.` is its first
/// character, and where it is `..`.
pub open spec fn extension(p: Seq<char>) -> Option<Seq<char>> {
    let name = file_name(p);
    let dot = last_dot(name);
    if dot <= 0 || name == seq!['.', '.'] {
        None
    } else {
        Some(name.subrange(dot + 1, name.len() as int))
    }
}

/// The path name of the directory that holds `p`. The empty path and a lone
/// separator have none; a single component has the empty path.
pub open spec fn parent(p: Seq<char>) -> Option<Seq<char>> {
    let cut = last_sep(p);
    if p.len() == 0 {
        None
    } else if cut < 0 {
        Some(Seq::empty())
    } else if cut == 0 {
        if p.len() == 1 {
            None
        } else {
            Some(p.subrange(0, 1))
        }
    } else {
        Some(p.subrange(0, cut))
    }
}

/// `base` extended by the relative path `name`, with one `/` between them
/// unless `base` is empty or already ends in a separator.
pub open spec fn join(base: Seq<char>, name: Seq<char>) -> Seq<char> {
    if base.len() == 0 {
        name
    } else if is_sep(base.last()) {
        base + name
    } else {
        base + seq!['/'] + name
    }
}

/// `path` as seen from `dir`: what is left of `path` once `dir` and the
/// separator after it are taken away. `None` where `path` does not lie under
/// `dir` component by component.
pub open spec fn relative_to(dir: Seq<char>, path: Seq<char>) -> Option<Seq<char>> {
    let rest = path.skip(dir.len() as int);
    if !dir.is_prefix_of(path) {
        None
    } else if rest.len() == 0 || dir.len() == 0 || is_sep(dir.last()) {
        Some(rest)
    } else if is_sep(rest[0]) {
        Some(rest.skip(1))
    } else {
        None
    }
}

/// The number of separators in `p`.
pub open spec fn separators(p: Seq<char>) -> nat
    decreases p.len(),
{
    if p.len() == 0 {
        0
    } else if is_sep(p.last()) {
        separators(p.drop_last()) + 1
    } else {
        separators(p.drop_last())
    }
}

/// How many levels the relative path `rel` leads down: none for the empty
/// path, and else one more than it has separators.
pub open spec fn depth(rel: Seq<char>) -> nat {
    if rel.len() == 0 {
        0
    } else {
        separators(rel) + 1
    }
}

/// `last_sep` points at a separator and no separator follows it.
pub proof fn lemma_last_sep(p: Seq<char>)
    ensures
        -1 <= last_sep(p) < p.len(),
        last_sep(p) >= 0 ==> is_sep(p[last_sep(p)]),
        forall|j: int| last_sep(p) < j < p.len() ==> !is_sep(#[trigger] p[j]),
    decreases p.len(),
{
    if p.len() > 0 && !is_sep(p.last()) {
        let q = p.drop_last();
        lemma_last_sep(q);
        assert forall|j: int| last_sep(p) < j < p.len() implies !is_sep(#[trigger] p[j]) by {
            if j < q.len() {
                assert(q[j] == p[j]);
            }
        }
    }
}

/// `last_dot` points at a `.` and no `.` follows it.
pub proof fn lemma_last_dot(p: Seq<char>)
    ensures
        -1 <= last_dot(p) < p.len(),
        last_dot(p) >= 0 ==> p[last_dot(p)] == '.',
        forall|j: int| last_dot(p) < j < p.len() ==> #[trigger] p[j] != '.',
    decreases p.len(),
{
    if p.len() > 0 && p.last() != '.' {
        let q = p.drop_last();
        lemma_last_dot(q);
        assert forall|j: int| last_dot(p) < j < p.len() implies #[trigger] p[j] != '.' by {
            if j < q.len() {
                assert(q[j] == p[j]);
            }
        }
    }
}

/// An index that holds a separator with none after it is `last_sep`.
pub proof fn lemma_last_sep_unique(p: Seq<char>, i: int)
    requires
        -1 <= i < p.len(),
        i >= 0 ==> is_sep(p[i]),
        forall|j: int| i < j < p.len() ==> !is_sep(#[trigger] p[j]),
    ensures
        last_sep(p) == i,
{
    lemma_last_sep(p);
}

/// An index that holds a `.` with none after it is `last_dot`.
pub proof fn lemma_last_dot_unique(p: Seq<char>, i: int)
    requires
        -1 <= i < p.len(),
        i >= 0 ==> p[i] == '.',
        forall|j: int| i < j < p.len() ==> #[trigger] p[j] != '.',
    ensures
        last_dot(p) == i,
{
    lemma_last_dot(p);
}

/// What was joined to a directory is what is seen from that directory.
pub proof fn lemma_relative_to_join(dir: Seq<char>, rel: Seq<char>)
    ensures
        relative_to(dir, join(dir, rel)) == Some(rel),
{
    let path = join(dir, rel);
    let rest = path.skip(dir.len() as int);
    if dir.len() == 0 {
        assert(rest =~= rel);
    } else if is_sep(dir.last()) {
        assert(dir =~= path.subrange(0, dir.len() as int));
        assert(rest =~= rel);
    } else {
        assert(dir =~= path.subrange(0, dir.len() as int));
        assert(rest =~= seq!['/'] + rel);
        assert(rest.skip(1) =~= rel);
    }
}

/// The index of the last separator in `p`, or `None` where there is none.
fn find_last_sep(p: &Vec<char>) -> (r: Option<usize>)
    ensures
        match r {
            Some(i) => i < p.len() && i as int == last_sep(p@),
            None => last_sep(p@) == -1,
        },
{
    let mut i: usize = p.len();
    while i > 0
        invariant
            i <= p.len(),
            forall|j: int| i <= j < p.len() ==> !is_sep(#[trigger] p@[j]),
        decreases i,
    {
        i -= 1;
        let c: char = p[i];
        if c == '/' || c == '\\' {
            proof {
                lemma_last_sep_unique(p@, i as int);
            }
            return Some(i);
        }
    }
    proof {
        lemma_last_sep_unique(p@, -1);
    }
    None
}

/// The index in `p` of the last `.` at or after `from`, seen as an index
/// into `p@.skip(from)`.
fn find_last_dot_from(p: &Vec<char>, from: usize) -> (r: Option<usize>)
    requires
        from <= p.len(),
    ensures
        match r {
            Some(i) => from <= i < p.len() && i - from == last_dot(p@.skip(from as int)),
            None => last_dot(p@.skip(from as int)) == -1,
        },
{
    let ghost tail = p@.skip(from as int);
    let mut i: usize = p.len();
    while i > from
        invariant
            from <= i <= p.len(),
            tail == p@.skip(from as int),
            forall|j: int| i - from <= j < tail.len() ==> #[trigger] tail[j] != '.',
        decreases i,
    {
        i -= 1;
        let c: char = p[i];
        assert(tail[i - from] == c);
        if c == '.' {
            proof {
                lemma_last_dot_unique(tail, i - from);
            }
            return Some(i);
        }
    }
    proof {
        lemma_last_dot_unique(tail, -1);
    }
    None
}

/// Where the file name of `p` starts and, if it has an extension, where
/// that starts: both as indices into `p`.
pub fn split_points(p: &Vec<char>) -> (r: (usize, Option<usize>))
    ensures
        r.0 as int == last_sep(p@) + 1,
        r.0 <= p@.len(),
        match r.1 {
            Some(e) => {
                &&& r.0 < e <= p@.len()
                &&& extension(p@) == Some(p@.subrange(e as int, p@.len() as int))
            },
            None => extension(p@) is None,
        },
{
    let start: usize = match find_last_sep(p) {
        Some(i) => i + 1,
        None => 0,
    };
    proof {
        lemma_last_sep(p@);
    }
    let ghost name = file_name(p@);
    assert(name == p@.skip(start as int));
    let n: usize = p.len();
    match find_last_dot_from(p, start) {
        None => (start, None),
        Some(d) => {
            let is_dots: bool = n - start == 2 && p[start] == '.' && p[start + 1] == '.';
            assert(is_dots <==> name == seq!['.', '.']) by {
                if is_dots {
                    assert(name =~= seq!['.', '.']);
                }
                if name == seq!['.', '.'] {
                    assert(name.len() == 2);
                    assert(name[0] == '.' && name[1] == '.');
                }
            }
            if d == start || is_dots {
                (start, None)
            } else {
                assert(name.subrange(d - start + 1, name.len() as int) =~= p@.subrange(
                    d + 1,
                    p@.len() as int,
                ));
                (start, Some(d + 1))
            }
        },
    }
}

/// The file name of `path`.
pub fn file_name_of(path: &str) -> (r: String)
    ensures
        r@ == file_name(path@),
{
    let chars = chars_of(path);
    let (start, _) = split_points(&chars);
    path.substring_char(start, chars.len()).to_owned()
}

/// The extension of `path`, if it has one.
pub fn extension_of(path: &str) -> (r: Option<String>)
    ensures
        match r {
            Some(e) => extension(path@) == Some(e@),
            None => extension(path@) is None,
        },
{
    let chars = chars_of(path);
    let (_, ext) = split_points(&chars);
    match ext {
        Some(e) => Some(path.substring_char(e, chars.len()).to_owned()),
        None => None,
    }
}

/// The directory that holds `path`, if it has one.
pub fn parent_of(path: &str) -> (r: Option<String>)
    ensures
        match r {
            Some(d) => parent(path@) == Some(d@),
            None => parent(path@) is None,
        },
{
    let chars = chars_of(path);
    if chars.len() == 0 {
        return None;
    }
    match find_last_sep(&chars) {
        None => {
            let d = path.substring_char(0, 0).to_owned();
            assert(d@ =~= Seq::<char>::empty());
            Some(d)
        },
        Some(cut) => {
            if cut == 0 {
                if chars.len() == 1 {
                    None
                } else {
                    Some(path.substring_char(0, 1).to_owned())
                }
            } else {
                Some(path.substring_char(0, cut).to_owned())
            }
        },
    }
}

/// Whether the relative path `rel` leads down no more than `limit` levels.
pub fn within_depth(rel: &str, limit: usize) -> (r: bool)
    ensures
        r == (depth(rel@) <= limit),
{
    let chars = chars_of(rel);
    if chars.len() == 0 {
        return true;
    }
    let mut count: usize = 0;
    let mut i: usize = 0;
    assert(chars@.take(0) =~= Seq::<char>::empty());
    while i < chars.len()
        invariant
            i <= chars.len(),
            count <= i,
            count == separators(chars@.take(i as int)),
        decreases chars.len() - i,
    {
        assert(chars@.take(i + 1).drop_last() =~= chars@.take(i as int));
        let c: char = chars[i];
        if c == '/' || c == '\\' {
            count += 1;
        }
        i += 1;
    }
    assert(chars@.take(chars.len() as int) =~= chars@);
    count < limit
}

/// `base` extended by the relative path `name`.
pub fn join_path(base: &str, name: &str) -> (r: String)
    ensures
        r@ == join(base@, name@),
{
    let chars = chars_of(base);
    let n: usize = chars.len();
    if n == 0 {
        return name.to_owned();
    }
    let last: char = chars[n - 1];
    let mut out: String = base.to_owned();
    if !(last == '/' || last == '\\') {
        out.append("/");
        proof {
            reveal_strlit("/");
            assert("/"@ =~= seq!['/']);
        }
    }
    out.append(name);
    out
}

/// `path` as seen from `dir`, if it lies under `dir`.
pub fn relative_path(dir: &str, path: &str) -> (r: Option<String>)
    ensures
        match r {
            Some(rel) => relative_to(dir@, path@) == Some(rel@),
            None => relative_to(dir@, path@) is None,
        },
{
    let d = chars_of(dir);
    let p = chars_of(path);
    let dn: usize = d.len();
    let pn: usize = p.len();
    if dn > pn {
        return None;
    }
    let mut i: usize = 0;
    while i < dn
        invariant
            i <= dn <= pn,
            dn == d.len(),
            pn == p.len(),
            d@ == dir@,
            p@ == path@,
            forall|j: int| 0 <= j < i ==> d@[j] == p@[j],
        decreases dn - i,
    {
        if d[i] != p[i] {
            assert(!d@.is_prefix_of(p@)) by {
                let head = p@.subrange(0, d@.len() as int);
                assert(head[i as int] == p@[i as int]);
                assert(d@[i as int] != head[i as int]);
            }
            return None;
        }
        i += 1;
    }
    assert(d@.is_prefix_of(p@)) by {
        assert(d@ =~= p@.subrange(0, d@.len() as int));
    }
    let ghost rest = p@.skip(dn as int);
    if pn == dn || dn == 0 {
        let rel = path.substring_char(dn, pn).to_owned();
        assert(rel@ =~= rest);
        return Some(rel);
    }
    let dl: char = d[dn - 1];
    if dl == '/' || dl == '\\' {
        let rel = path.substring_char(dn, pn).to_owned();
        assert(rel@ =~= rest);
        return Some(rel);
    }
    let next: char = p[dn];
    assert(rest[0] == next);
    if next == '/' || next == '\\' {
        let rel = path.substring_char(dn + 1, pn).to_owned();
        assert(rel@ =~= rest.skip(1));
        Some(rel)
    } else {
        None
    }
}

} // verus!
