//! Filesystem paths as sequences of components, and the target-root rules
//! that work on them: common ancestors, bundle roots, and pruning ancestors
//! out of a candidate list.

use vstd::prelude::*;
use crate::strings::{is_blank, opt_view, str_eq, to_owned, trim};

verus! {

/// A filesystem path as its components, as `Path::components` lists them on
/// Unix: `/` for the root of an absolute path, `.` for a leading current
/// directory, `..` for a parent, and the names.
pub struct PathComponents {
    pub parts: Vec<String>,
}

impl View for PathComponents {
    type V = Seq<Seq<char>>;

    open spec fn view(&self) -> Seq<Seq<char>> {
        self.parts@.map_values(|s: String| s@)
    }
}

/// Whether `p` starts with the components of `base` (`Path::starts_with`).
pub open spec fn path_starts_with(p: Seq<Seq<char>>, base: Seq<Seq<char>>) -> bool {
    base.len() <= p.len() && p.take(base.len() as int) == base
}

/// Whether a path has a parent: its last component is not the root.
pub open spec fn has_parent(p: Seq<Seq<char>>) -> bool {
    p.len() > 0 && p.last() != "/"@
}

/// The parent of a path (`Path::parent`).
pub open spec fn path_parent(p: Seq<Seq<char>>) -> Option<Seq<Seq<char>>> {
    if has_parent(p) {
        Some(p.drop_last())
    } else {
        None
    }
}

/// Shortens `c` until `p` starts with it; `None` when it runs out of
/// parents first.
pub open spec fn shrink_to_ancestor(c: Seq<Seq<char>>, p: Seq<Seq<char>>) -> Option<Seq<Seq<char>>>
    decreases c.len(),
{
    if path_starts_with(p, c) {
        Some(c)
    } else if has_parent(c) {
        shrink_to_ancestor(c.drop_last(), p)
    } else {
        None
    }
}

/// The common ancestor of the first `n` paths, found by shortening the
/// first one.
pub open spec fn common_ancestor_upto(paths: Seq<Seq<Seq<char>>>, n: nat) -> Option<Seq<Seq<char>>>
    decreases n,
{
    if n == 0 {
        None
    } else if n == 1 {
        Some(paths[0])
    } else {
        match common_ancestor_upto(paths, (n - 1) as nat) {
            Some(c) => shrink_to_ancestor(c, paths[n - 1]),
            None => None,
        }
    }
}

/// The common ancestor of a list of paths; `None` for no paths or where the
/// first path runs out of parents.
pub open spec fn spec_common_path_ancestor(paths: Seq<Seq<Seq<char>>>) -> Option<Seq<Seq<char>>> {
    common_ancestor_upto(paths, paths.len())
}

/// The views of a list of paths.
pub open spec fn paths_view(paths: Seq<PathComponents>) -> Seq<Seq<Seq<char>>> {
    paths.map_values(|p: PathComponents| p@)
}

/// The view of an optional path.
pub open spec fn opt_path_view(p: Option<PathComponents>) -> Option<Seq<Seq<char>>> {
    match p {
        Some(x) => Some(x@),
        None => None,
    }
}

impl PathComponents {
    /// A copy of this path.
    pub fn duplicate(&self) -> (r: PathComponents)
        ensures
            r@ == self@,
    {
        let mut parts: Vec<String> = Vec::new();
        let mut i: usize = 0;
        while i < self.parts.len()
            invariant
                i <= self.parts.len(),
                parts@.map_values(|s: String| s@) == self@.take(i as int),
            decreases self.parts.len() - i,
        {
            let ghost before = parts@.map_values(|s: String| s@);
            let part = self.parts[i].clone();
            assert(part@ == self@[i as int]);
            parts.push(part);
            assert(parts@.map_values(|s: String| s@) =~= before.push(part@));
            assert(self@.take(i + 1) =~= self@.take(i as int).push(self@[i as int]));
            i = i + 1;
        }
        assert(self@.take(self.parts.len() as int) =~= self@);
        PathComponents { parts }
    }

    /// Whether this path starts with `base`.
    pub fn starts_with(&self, base: &PathComponents) -> (r: bool)
        ensures
            r == path_starts_with(self@, base@),
    {
        if base.parts.len() > self.parts.len() {
            return false;
        }
        let mut i: usize = 0;
        while i < base.parts.len()
            invariant
                i <= base.parts.len() <= self.parts.len(),
                forall|k: int| 0 <= k < i ==> self@[k] == base@[k],
            decreases base.parts.len() - i,
        {
            if !str_eq(self.parts[i].as_str(), base.parts[i].as_str()) {
                assert(self@.take(base@.len() as int)[i as int] != base@[i as int]);
                return false;
            }
            i = i + 1;
        }
        assert(self@.take(base@.len() as int) =~= base@);
        true
    }

    /// Whether this path has the same components as `other`.
    pub fn same_as(&self, other: &PathComponents) -> (r: bool)
        ensures
            r == (self@ == other@),
    {
        let r = self.parts.len() == other.parts.len() && self.starts_with(other);
        proof {
            if r {
                assert(self@ =~= self@.take(other@.len() as int));
            }
            if self@ == other@ {
                assert(self@.take(other@.len() as int) =~= other@);
            }
        }
        r
    }

    /// Removes the last component where the path has a parent
    /// (`PathBuf::pop`); reports whether it did.
    pub fn pop(&mut self) -> (r: bool)
        ensures
            r == has_parent(old(self)@),
            final(self)@ == if r {
                old(self)@.drop_last()
            } else {
                old(self)@
            },
    {
        let n = self.parts.len();
        if n == 0 {
            return false;
        }
        if str_eq(self.parts[n - 1].as_str(), "/") {
            return false;
        }
        let ghost before = self@;
        self.parts.pop();
        assert(self@ =~= before.drop_last());
        true
    }

    /// Appends a component (`PathBuf::push` of a single name).
    pub fn push_name(&mut self, name: &str)
        ensures
            final(self)@ == old(self)@.push(name@),
    {
        let ghost before = self@;
        self.parts.push(to_owned(name));
        assert(self@ =~= before.push(name@));
    }
}

proof fn lemma_no_ancestor_stays(paths: Seq<Seq<Seq<char>>>, m: nat, n: nat)
    requires
        1 <= m <= n,
        common_ancestor_upto(paths, m) is None,
    ensures
        common_ancestor_upto(paths, n) is None,
    decreases n - m,
{
    if m < n {
        lemma_no_ancestor_stays(paths, m, (n - 1) as nat);
    }
}

/// The common ancestor of a list of paths (shortening the first path until
/// every path starts with it).
pub fn common_path_ancestor(paths: &[PathComponents]) -> (r: Option<PathComponents>)
    ensures
        opt_path_view(r) == spec_common_path_ancestor(paths_view(paths@)),
{
    let ghost pv = paths_view(paths@);
    if paths.len() == 0 {
        return None;
    }
    let mut common = paths[0].duplicate();
    let mut i: usize = 1;
    while i < paths.len()
        invariant
            1 <= i <= paths.len(),
            pv == paths_view(paths@),
            common_ancestor_upto(pv, i as nat) == Some(common@),
        decreases paths.len() - i,
    {
        let path = &paths[i];
        assert(pv[i as int] == path@);
        let ghost start = common@;
        while !path.starts_with(&common)
            invariant
                1 <= i < paths.len(),
                pv == paths_view(paths@),
                pv[i as int] == path@,
                common_ancestor_upto(pv, i as nat) == Some(start),
                shrink_to_ancestor(start, path@) == shrink_to_ancestor(common@, path@),
            decreases common@.len(),
        {
            if !common.pop() {
                proof {
                    assert(common_ancestor_upto(pv, (i + 1) as nat) is None);
                    lemma_no_ancestor_stays(pv, (i + 1) as nat, pv.len());
                }
                return None;
            }
        }
        i = i + 1;
    }
    Some(common)
}

/// The common root of several document roots: their common ancestor,
/// unless there are fewer than two, or it is the workspace itself or has
/// fewer than two components.
pub open spec fn spec_document_bundle_common_root(
    roots: Seq<Seq<Seq<char>>>,
    workspace: Seq<Seq<char>>,
) -> Option<Seq<Seq<char>>> {
    if roots.len() < 2 {
        None
    } else {
        match spec_common_path_ancestor(roots) {
            Some(c) => if c == workspace || c.len() < 2 {
                None
            } else {
                Some(c)
            },
            None => None,
        }
    }
}

pub fn document_bundle_common_root(
    document_roots: &[PathComponents],
    workspace_dir: &PathComponents,
) -> (r: Option<PathComponents>)
    ensures
        opt_path_view(r) == spec_document_bundle_common_root(paths_view(document_roots@), workspace_dir@),
{
    if document_roots.len() < 2 {
        return None;
    }
    let common = match common_path_ancestor(document_roots) {
        Some(c) => c,
        None => {
            return None;
        },
    };
    if common.same_as(workspace_dir) || common.parts.len() < 2 {
        return None;
    }
    Some(common)
}

/// Whether some other candidate lies strictly below `c`.
pub open spec fn has_deeper_candidate(cs: Seq<Seq<Seq<char>>>, c: Seq<Seq<char>>) -> bool {
    exists|k: int|
        0 <= k < cs.len() && #[trigger] cs[k] != c && path_starts_with(cs[k], c) && cs[k].len()
            > c.len()
}

/// The candidates that no other candidate lies below, in order.
pub open spec fn spec_remove_ancestor_target_candidates(cs: Seq<Seq<Seq<char>>>) -> Seq<Seq<Seq<char>>> {
    cs.filter(|c: Seq<Seq<char>>| !has_deeper_candidate(cs, c))
}

fn has_deeper_candidate_exec(candidates: &Vec<PathComponents>, c: &PathComponents) -> (r: bool)
    ensures
        r == has_deeper_candidate(paths_view(candidates@), c@),
{
    let ghost cv = paths_view(candidates@);
    let mut i: usize = 0;
    while i < candidates.len()
        invariant
            i <= candidates.len(),
            cv == paths_view(candidates@),
            forall|k: int|
                0 <= k < i ==> !(#[trigger] cv[k] != c@ && path_starts_with(cv[k], c@) && cv[k].len()
                    > c@.len()),
        decreases candidates.len() - i,
    {
        let other = &candidates[i];
        assert(cv[i as int] == other@);
        if !other.same_as(c) && other.starts_with(c) && other.parts.len() > c.parts.len() {
            return true;
        }
        i = i + 1;
    }
    false
}

/// The candidates without those that are ancestors of another candidate.
pub fn remove_ancestor_target_candidates(candidates: Vec<PathComponents>) -> (r: Vec<PathComponents>)
    ensures
        paths_view(r@) == spec_remove_ancestor_target_candidates(paths_view(candidates@)),
{
    let ghost cv = paths_view(candidates@);
    let ghost f = |c: Seq<Seq<char>>| !has_deeper_candidate(cv, c);
    let mut out: Vec<PathComponents> = Vec::new();
    let mut i: usize = 0;
    assert(cv.take(0).filter(f) =~= Seq::<Seq<Seq<char>>>::empty()) by {
        reveal(Seq::filter);
    }
    assert(paths_view(out@) =~= Seq::<Seq<Seq<char>>>::empty());
    while i < candidates.len()
        invariant
            i <= candidates.len(),
            cv == paths_view(candidates@),
            f == (|c: Seq<Seq<char>>| !has_deeper_candidate(cv, c)),
            paths_view(out@) == cv.take(i as int).filter(f),
        decreases candidates.len() - i,
    {
        let c = &candidates[i];
        let ghost before = paths_view(out@);
        proof {
            assert(cv.take(i + 1).drop_last() =~= cv.take(i as int));
            assert(cv.take(i + 1).last() == c@);
            reveal(Seq::filter);
        }
        if !has_deeper_candidate_exec(&candidates, c) {
            out.push(c.duplicate());
            assert(paths_view(out@) =~= before.push(c@));
        }
        i = i + 1;
    }
    assert(cv.take(candidates.len() as int) =~= cv);
    out
}

/// The document root of a target path: its parent when the target is a
/// file (itself when it has none), the path itself otherwise.
pub open spec fn spec_target_document_root(p: Seq<Seq<char>>, is_file: bool) -> Seq<Seq<char>> {
    if is_file && has_parent(p) {
        p.drop_last()
    } else {
        p
    }
}

/// The document root of a target path, given whether it names a file.
pub fn target_document_root(path: &PathComponents, is_file: bool) -> (r: PathComponents)
    ensures
        r@ == spec_target_document_root(path@, is_file),
{
    let mut root = path.duplicate();
    if is_file {
        root.pop();
    }
    root
}

/// Where the latest app-panel artifacts of a run go: under the workspace
/// two levels above the run directory, else under the run directory itself.
pub open spec fn spec_latest_artifact_directory(run: Seq<Seq<char>>) -> Seq<Seq<char>> {
    let base = match path_parent(run) {
        Some(p) => match path_parent(p) {
            Some(w) => w,
            None => run,
        },
        None => run,
    };
    base.push("temp-artifacts"@).push("app-panel"@)
}

pub fn latest_artifact_directory(run_directory: &PathComponents) -> (r: PathComponents)
    ensures
        r@ == spec_latest_artifact_directory(run_directory@),
{
    let mut base = run_directory.duplicate();
    let mut parent = run_directory.duplicate();
    if parent.pop() {
        if parent.pop() {
            base = parent;
        }
    }
    base.push_name("temp-artifacts");
    base.push_name("app-panel");
    base
}

proof fn lemma_starts_with_trans(x: Seq<Seq<char>>, c: Seq<Seq<char>>, r: Seq<Seq<char>>)
    requires
        path_starts_with(x, c),
        path_starts_with(c, r),
    ensures
        path_starts_with(x, r),
{
    assert(x.take(r.len() as int) =~= c.take(r.len() as int)) by {
        assert forall|k: int| 0 <= k < r.len() implies x[k] == c[k] by {
            assert(x.take(c.len() as int)[k] == x[k]);
        }
    }
}

proof fn lemma_shrink_is_ancestor(c: Seq<Seq<char>>, p: Seq<Seq<char>>)
    ensures
        shrink_to_ancestor(c, p) matches Some(r) ==> path_starts_with(p, r) && path_starts_with(c, r),
    decreases c.len(),
{
    if path_starts_with(p, c) {
        assert(c.take(c.len() as int) =~= c);
    } else if has_parent(c) {
        lemma_shrink_is_ancestor(c.drop_last(), p);
        if let Some(r) = shrink_to_ancestor(c, p) {
            assert(path_starts_with(c, c.drop_last())) by {
                assert(c.take(c.drop_last().len() as int) =~= c.drop_last());
            }
            lemma_starts_with_trans(c, c.drop_last(), r);
        }
    }
}

proof fn lemma_ancestor_upto(paths: Seq<Seq<Seq<char>>>, n: nat)
    requires
        n <= paths.len(),
    ensures
        common_ancestor_upto(paths, n) matches Some(c) ==> forall|i: int|
            0 <= i < n ==> path_starts_with(#[trigger] paths[i], c),
    decreases n,
{
    if n == 1 {
        assert(paths[0].take(paths[0].len() as int) =~= paths[0]);
    } else if n > 1 {
        lemma_ancestor_upto(paths, (n - 1) as nat);
        if let Some(c) = common_ancestor_upto(paths, (n - 1) as nat) {
            lemma_shrink_is_ancestor(c, paths[n - 1]);
            if let Some(r) = shrink_to_ancestor(c, paths[n - 1]) {
                assert forall|i: int| 0 <= i < n implies path_starts_with(#[trigger] paths[i], r) by {
                    if i < n - 1 {
                        lemma_starts_with_trans(paths[i], c, r);
                    }
                }
            }
        }
    }
}

/// The common ancestor of a list of paths is an ancestor of each of them.
pub proof fn lemma_common_ancestor_is_ancestor(paths: Seq<Seq<Seq<char>>>)
    ensures
        spec_common_path_ancestor(paths) matches Some(c) ==> forall|i: int|
            0 <= i < paths.len() ==> path_starts_with(#[trigger] paths[i], c),
{
    lemma_ancestor_upto(paths, paths.len());
}

/// After pruning, no remaining candidate lies strictly below another
/// remaining candidate.
pub proof fn lemma_pruned_candidates_are_not_ancestors(cs: Seq<Seq<Seq<char>>>)
    ensures
        ({
            let kept = spec_remove_ancestor_target_candidates(cs);
            forall|a: int, b: int|
                0 <= a < kept.len() && 0 <= b < kept.len() ==> !(#[trigger] kept[b] != #[trigger] kept[a]
                    && path_starts_with(kept[b], kept[a]) && kept[b].len() > kept[a].len())
        }),
{
    let f = |c: Seq<Seq<char>>| !has_deeper_candidate(cs, c);
    let kept = cs.filter(f);
    assert forall|a: int, b: int| 0 <= a < kept.len() && 0 <= b < kept.len() implies !(
    #[trigger] kept[b] != #[trigger] kept[a] && path_starts_with(kept[b], kept[a]) && kept[b].len()
        > kept[a].len()) by {
        cs.lemma_filter_pred(f, a);
        assert(f(kept[a]));
        assert(kept.contains(kept[b]));
        cs.lemma_filter_contains_rev(f, kept[b]);
        assert(cs.contains(kept[b]));
        let k = choose|k: int| 0 <= k < cs.len() && cs[k] == kept[b];
        if kept[b] != kept[a] && path_starts_with(kept[b], kept[a]) && kept[b].len() > kept[a].len() {
            assert(has_deeper_candidate(cs, kept[a])) by {
                assert(cs[k] == kept[b]);
            }
        }
    }
}

/// The final component of a path text as std's `Path::file_name` reads it,
/// where it is UTF-8.
pub uninterp spec fn path_text_file_name(text: Seq<char>) -> Option<Seq<char>>;

/// std's `Path::new(text).file_name()`, as text. The result is trusted to
/// be `path_text_file_name(text)`: a function of the text alone (`None` for
/// a root, an empty path or one ending in `..`).
#[verifier::external_body]
fn file_name_of(text: &str) -> (r: Option<&str>)
    ensures
        opt_view(r) == path_text_file_name(text@),
{
    std::path::Path::new(text).file_name().and_then(|name| name.to_str())
}

/// The label of a target-root candidate: its final component when it has a
/// non-blank one, else the whole candidate.
pub open spec fn spec_target_root_candidate_label(candidate: Seq<char>) -> Seq<char> {
    match path_text_file_name(candidate) {
        Some(name) => if trim(name).len() > 0 {
            name
        } else {
            candidate
        },
        None => candidate,
    }
}

pub fn target_root_candidate_label(candidate: &str) -> (r: String)
    ensures
        r@ == spec_target_root_candidate_label(candidate@),
{
    match file_name_of(candidate) {
        Some(name) => if !is_blank(name) {
            to_owned(name)
        } else {
            to_owned(candidate)
        },
        None => to_owned(candidate),
    }
}

} // verus!
