//! Paths as text with `/` between components, and the few operations on
//! them that the pipeline needs.
use vstd::prelude::*;

verus! {

/// The index of the last occurrence of `c` in `s`, or -1 when there is none.
pub open spec fn last_index(s: Seq<char>, c: char) -> int
    decreases s.len(),
{
    if s.len() == 0 {
        -1
    } else if s.last() == c {
        s.len() - 1
    } else {
        last_index(s.drop_last(), c)
    }
}

/// `last_index` is the position of the last `c`, or -1 when `c` does not occur.
pub proof fn lemma_last_index(s: Seq<char>, c: char)
    ensures
        -1 <= last_index(s, c) < s.len(),
        last_index(s, c) >= 0 ==> s[last_index(s, c)] == c,
        forall|j: int| last_index(s, c) < j < s.len() ==> s[j] != c,
    decreases s.len(),
{
    if s.len() > 0 && s.last() != c {
        lemma_last_index(s.drop_last(), c);
        assert forall|j: int| last_index(s, c) < j < s.len() implies s[j] != c by {
            if j < s.len() - 1 {
                assert(s[j] == s.drop_last()[j]);
            }
        }
    }
}

/// `base` followed by `part`; an absolute `part` replaces `base`.
pub open spec fn join_of(base: Seq<char>, part: Seq<char>) -> Seq<char> {
    if part.len() > 0 && part[0] == '/' {
        part
    } else if base.len() == 0 || base.last() == '/' {
        base + part
    } else {
        base + seq!['/'] + part
    }
}

/// The last component of `p`.
pub open spec fn file_name_of(p: Seq<char>) -> Seq<char> {
    p.subrange(last_index(p, '/') + 1, p.len() as int)
}

/// `p` without its last component: empty for a bare name, `/` for a name at the root.
pub open spec fn parent_of(p: Seq<char>) -> Seq<char> {
    let k = last_index(p, '/');
    if k < 0 {
        Seq::empty()
    } else if k == 0 {
        seq!['/']
    } else {
        p.subrange(0, k)
    }
}

/// The index of the dot that starts the extension of `p`, or -1 when the
/// last component has none (a leading dot starts no extension).
pub open spec fn dot_of(p: Seq<char>) -> int {
    let d = last_index(p, '.');
    if d > last_index(p, '/') + 1 {
        d
    } else {
        -1
    }
}

/// The extension of the last component of `p`.
pub open spec fn extension_of(p: Seq<char>) -> Option<Seq<char>> {
    if dot_of(p) < 0 {
        None
    } else {
        Some(p.subrange(dot_of(p) + 1, p.len() as int))
    }
}

/// `p` without the extension of its last component.
pub open spec fn stem_path_of(p: Seq<char>) -> Seq<char> {
    if dot_of(p) < 0 {
        p
    } else {
        p.subrange(0, dot_of(p))
    }
}

/// `p` with the extension of its last component replaced by `ext`
/// (removed when `ext` is empty); a path without a last component stays as it is.
pub open spec fn with_extension_of(p: Seq<char>, ext: Seq<char>) -> Seq<char> {
    if file_name_of(p).len() == 0 {
        p
    } else if ext.len() == 0 {
        stem_path_of(p)
    } else {
        stem_path_of(p) + seq!['.'] + ext
    }
}

/// The position of the last `c` in `s`.
pub fn find_last(s: &str, c: char) -> (r: Option<usize>)
    ensures
        r is None <==> last_index(s@, c) == -1,
        r matches Some(k) ==> k == last_index(s@, c),
        s@.len() <= usize::MAX,
{
    let n = s.unicode_len();
    let mut i: usize = n;
    while i > 0
        invariant
            i <= n,
            n == s@.len(),
            forall|j: int| i <= j < n ==> s@[j] != c,
        decreases i,
    {
        if s.get_char(i - 1) == c {
            proof {
                lemma_last_index(s@, c);
            }
            return Some(i - 1);
        }
        i = i - 1;
    }
    proof {
        lemma_last_index(s@, c);
    }
    None
}

/// Text from `from` up to the end of `s`.
fn tail(s: &str, from: usize) -> (r: String)
    requires
        from <= s@.len(),
    ensures
        r@ == s@.subrange(from as int, s@.len() as int),
{
    let n = s.unicode_len();
    String::from_str(s.substring_char(from, n))
}

/// Text of `s` before `to`.
fn head(s: &str, to: usize) -> (r: String)
    requires
        to <= s@.len(),
    ensures
        r@ == s@.subrange(0, to as int),
{
    String::from_str(s.substring_char(0, to))
}

/// `part` joined onto `base`.
pub fn join(base: &str, part: &str) -> (r: String)
    ensures
        r@ == join_of(base@, part@),
{
    let nb = base.unicode_len();
    let np = part.unicode_len();
    if np > 0 && part.get_char(0) == '/' {
        return String::from_str(part);
    }
    let mut r = String::from_str(base);
    if !(nb == 0 || base.get_char(nb - 1) == '/') {
        r.append("/");
        proof {
            reveal_strlit("/");
        }
    }
    r.append(part);
    r
}

/// The last component of `p`.
pub fn file_name(p: &str) -> (r: String)
    ensures
        r@ == file_name_of(p@),
{
    proof {
        lemma_last_index(p@, '/');
    }
    match find_last(p, '/') {
        Some(k) => tail(p, k + 1),
        None => tail(p, 0),
    }
}

/// `p` without its last component.
pub fn parent(p: &str) -> (r: String)
    ensures
        r@ == parent_of(p@),
{
    proof {
        lemma_last_index(p@, '/');
        reveal_strlit("/");
    }
    match find_last(p, '/') {
        None => String::new(),
        Some(k) => {
            if k == 0 {
                String::from_str("/")
            } else {
                head(p, k)
            }
        },
    }
}

/// The index of the dot that starts the extension of `p`.
fn find_dot(p: &str) -> (r: Option<usize>)
    ensures
        r is None <==> dot_of(p@) < 0,
        r matches Some(d) ==> d == dot_of(p@),
        p@.len() <= usize::MAX,
{
    proof {
        lemma_last_index(p@, '/');
        lemma_last_index(p@, '.');
    }
    let start: usize = match find_last(p, '/') {
        Some(k) => k + 1,
        None => 0,
    };
    match find_last(p, '.') {
        Some(d) => {
            if d > start {
                Some(d)
            } else {
                None
            }
        },
        None => None,
    }
}

/// The extension of the last component of `p`.
pub fn extension(p: &str) -> (r: Option<String>)
    ensures
        r is None <==> extension_of(p@) is None,
        r matches Some(e) ==> extension_of(p@) == Some(e@),
{
    proof {
        lemma_last_index(p@, '.');
    }
    match find_dot(p) {
        Some(d) => Some(tail(p, d + 1)),
        None => None,
    }
}

/// Whether the extension of the last component of `p` is `ext`.
pub fn has_extension(p: &str, ext: &str) -> (r: bool)
    ensures
        r == (extension_of(p@) == Some(ext@)),
{
    match extension(p) {
        Some(e) => e == String::from_str(ext),
        None => false,
    }
}

/// `p` with the extension of its last component replaced by `ext`.
pub fn with_extension(p: &str, ext: &str) -> (r: String)
    ensures
        r@ == with_extension_of(p@, ext@),
{
    proof {
        lemma_last_index(p@, '.');
        lemma_last_index(p@, '/');
        reveal_strlit(".");
    }
    let name = file_name(p);
    if name.unicode_len() == 0 {
        return String::from_str(p);
    }
    let mut r = match find_dot(p) {
        Some(d) => head(p, d),
        None => String::from_str(p),
    };
    if ext.unicode_len() > 0 {
        r.append(".");
        r.append(ext);
    }
    r
}

/// Whether `p` has a `..` component starting at `i`.
pub open spec fn parent_step_at(p: Seq<char>, i: int) -> bool {
    &&& 0 <= i
    &&& i + 1 < p.len()
    &&& p[i] == '.'
    &&& p[i + 1] == '.'
    &&& (i == 0 || p[i - 1] == '/')
    &&& (i + 2 == p.len() || p[i + 2] == '/')
}

/// Whether `p`, joined onto a directory, names something inside it: it is
/// not empty, not absolute, and has no `..` component.
pub open spec fn stays_inside(p: Seq<char>) -> bool {
    &&& p.len() > 0
    &&& p[0] != '/'
    &&& forall|i: int| !#[trigger] parent_step_at(p, i)
}

/// Whether `p`, joined onto a directory, names something inside it.
pub fn is_inside_path(p: &str) -> (r: bool)
    ensures
        r == stays_inside(p@),
{
    let n = p.unicode_len();
    if n == 0 || p.get_char(0) == '/' {
        return false;
    }
    let mut i: usize = 0;
    while i < n - 1
        invariant
            n == p@.len(),
            n > 0,
            forall|j: int| 0 <= j < i ==> !#[trigger] parent_step_at(p@, j),
        decreases n - i,
    {
        if p.get_char(i) == '.' && p.get_char(i + 1) == '.' && (i == 0 || p.get_char(i - 1) == '/')
            && (i + 2 == n || p.get_char(i + 2) == '/') {
            assert(parent_step_at(p@, i as int));
            return false;
        }
        i = i + 1;
    }
    assert forall|j: int| !#[trigger] parent_step_at(p@, j) by {
        if 0 <= j && j + 1 < n {
            assert(j < i || i >= n - 1);
        }
    }
    true
}

} // verus!
