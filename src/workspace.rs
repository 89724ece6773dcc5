//! The scratch directory of one run: a root with an `old` and a `new` tree,
//! removed at the end unless asked to keep it.
use vstd::prelude::*;

use crate::error::{Error, ErrorKind};
use crate::paths::{join, join_of, stays_inside};

verus! {

/// The decimal text of `n`.
pub open spec fn digits_of(n: nat) -> Seq<char>
    decreases n,
{
    let d = seq![(('0' as u8) + (n % 10) as u8) as char];
    if n < 10 {
        d
    } else {
        digits_of(n / 10) + d
    }
}

/// The decimal text of `n`, with a minus sign when negative.
pub open spec fn decimal_of(n: int) -> Seq<char> {
    if n < 0 {
        seq!['-'] + digits_of((-n) as nat)
    } else {
        digits_of(n as nat)
    }
}

/// Relies on the `Display` of `i64` (through `ToString`): the decimal
/// digits of `n`, after a minus sign when it is negative.
#[verifier::external_body]
fn decimal(n: i64) -> (r: String)
    ensures
        r@ == decimal_of(n as int),
{
    n.to_string()
}

/// Relies on chrono's `Utc::now` and `DateTime::timestamp`: the seconds
/// since the Unix epoch at the time of the call. Nothing is promised of the
/// value.
#[verifier::external_body]
fn now_timestamp() -> (r: i64) {
    chrono::Utc::now().timestamp()
}

/// The scratch root under `base` for a run started at `stamp`:
/// `base/build/tmp/git_latexdiff_<stamp>`.
pub open spec fn scratch_root_of(base: Seq<char>, stamp: int) -> Seq<char> {
    join_of(join_of(join_of(base, "build"@), "tmp"@), "git_latexdiff_"@ + decimal_of(stamp))
}

/// The scratch root under `base` for a run started at `stamp`.
pub fn scratch_root(base: &str, stamp: i64) -> (r: String)
    ensures
        r@ == scratch_root_of(base@, stamp as int),
{
    let build = join(base, "build");
    let tmp = join(build.as_str(), "tmp");
    let mut name = String::from_str("git_latexdiff_");
    name.append(decimal(stamp).as_str());
    join(tmp.as_str(), name.as_str())
}

/// A scratch root under `base` named after the time now; the run-unique
/// part keeps concurrent runs apart.
pub fn fresh_scratch_root(base: &str) -> (r: String)
    ensures
        exists|stamp: i64| r@ == scratch_root_of(base@, stamp as int),
{
    let stamp = now_timestamp();
    scratch_root(base, stamp)
}

/// Whether `p` is `root` or lies below it.
pub open spec fn covers(root: Seq<char>, p: Seq<char>) -> bool {
    ||| p == root
    ||| (p.len() > root.len() && p.subrange(0, root.len() as int) == root && (root.len() > 0
        && root.last() == '/' || p[root.len() as int] == '/'))
}

/// Whether deleting `root` would be unsafe: it is empty, the filesystem
/// root, or `protected` holds a path at or below it.
pub open spec fn unsafe_root(root: Seq<char>, protected: Seq<Seq<char>>) -> bool {
    ||| root.len() == 0
    ||| root == "/"@
    ||| exists|i: int| 0 <= i < protected.len() && covers(root, #[trigger] protected[i])
}

/// Whether `p` is `root` or lies below it.
pub fn is_within(root: &str, p: &str) -> (r: bool)
    ensures
        r == covers(root@, p@),
{
    let nr = root.unicode_len();
    let np = p.unicode_len();
    if nr > np {
        return false;
    }
    let mut i: usize = 0;
    while i < nr
        invariant
            i <= nr <= np,
            nr == root@.len(),
            np == p@.len(),
            forall|j: int| 0 <= j < i ==> p@[j] == root@[j],
        decreases nr - i,
    {
        if root.get_char(i) != p.get_char(i) {
            assert(p@.subrange(0, nr as int)[i as int] != root@[i as int]);
            return false;
        }
        i = i + 1;
    }
    assert(p@.subrange(0, nr as int) =~= root@);
    if nr == np {
        assert(p@ =~= root@);
        return true;
    }
    (nr > 0 && root.get_char(nr - 1) == '/') || p.get_char(nr) == '/'
}

/// The scratch directory of one run.
pub struct Workspace {
    pub root: String,
    pub old: String,
    pub new: String,
}

impl Workspace {
    /// The workspace rooted at `root`, with trees `root/old` and `root/new`.
    pub fn create(root: String) -> (r: Workspace)
        ensures
            r.root == root,
            r.old@ == join_of(root@, "old"@),
            r.new@ == join_of(root@, "new"@),
    {
        let old = join(root.as_str(), "old");
        let new = join(root.as_str(), "new");
        Workspace { root, old, new }
    }

    /// What ending the run does with the workspace: `UnsafeTeardown` when
    /// deleting the root would be unsafe (checked first, whatever `retain`
    /// says), nothing when `retain`, else the root to remove recursively.
    pub fn teardown(&self, retain: bool, protected: &Vec<String>) -> (r: Result<Option<String>, Error>)
        ensures
            unsafe_root(self.root@, protected@.map_values(|p: String| p@)) ==> (r matches Err(e)
                && e.kind == ErrorKind::UnsafeTeardown(self.root)),
            !unsafe_root(self.root@, protected@.map_values(|p: String| p@)) && retain ==> r
                == Ok::<Option<String>, Error>(None),
            !unsafe_root(self.root@, protected@.map_values(|p: String| p@)) && !retain ==> r
                == Ok::<Option<String>, Error>(Some(self.root)),
    {
        let ghost prot = protected@.map_values(|p: String| p@);
        let n = self.root.unicode_len();
        proof {
            reveal_strlit("/");
        }
        let mut bad = n == 0 || self.root == String::from_str("/");
        let mut i: usize = 0;
        while i < protected.len()
            invariant
                i <= protected@.len(),
                prot == protected@.map_values(|p: String| p@),
                bad == (self.root@.len() == 0 || self.root@ == "/"@ || exists|j: int|
                    0 <= j < i && covers(self.root@, #[trigger] prot[j])),
            decreases protected@.len() - i,
        {
            assert(prot[i as int] == protected@[i as int]@);
            if is_within(self.root.as_str(), protected[i].as_str()) {
                bad = true;
            }
            i = i + 1;
            assert(bad == (self.root@.len() == 0 || self.root@ == "/"@ || exists|j: int|
                0 <= j < i && covers(self.root@, #[trigger] prot[j]))) by {
                if covers(self.root@, prot[i - 1]) {
                    assert(0 <= i - 1 < i);
                }
            }
        }
        if bad {
            return Err(Error::new(ErrorKind::UnsafeTeardown(self.root.clone())));
        }
        if retain {
            Ok(None)
        } else {
            Ok(Some(self.root.clone()))
        }
    }
}

/// Removing the root of a workspace removes both of its trees: after
/// `create` and a `teardown` that keeps nothing, no part of the workspace
/// is left.
pub proof fn lemma_teardown_covers_trees(root: Seq<char>)
    requires
        root.len() > 0,
    ensures
        covers(root, join_of(root, "old"@)),
        covers(root, join_of(root, "new"@)),
{
    reveal_strlit("old");
    reveal_strlit("new");
    let o = join_of(root, "old"@);
    let n = join_of(root, "new"@);
    assert(o.subrange(0, root.len() as int) =~= root);
    assert(n.subrange(0, root.len() as int) =~= root);
}

/// A path that stays inside, joined onto a non-empty directory, lies
/// within that directory.
pub proof fn lemma_join_stays_within(root: Seq<char>, p: Seq<char>)
    requires
        root.len() > 0,
        stays_inside(p),
    ensures
        covers(root, join_of(root, p)),
{
    let j = join_of(root, p);
    assert(j.subrange(0, root.len() as int) =~= root);
}

/// The trees of a workspace are never empty paths.
pub proof fn lemma_tree_not_empty(root: Seq<char>)
    ensures
        join_of(root, "old"@).len() > 0,
        join_of(root, "new"@).len() > 0,
{
    reveal_strlit("old");
    reveal_strlit("new");
}

} // verus!
