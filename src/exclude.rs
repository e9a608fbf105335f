//! Exclude patterns and the test of a changed file against them.

use vstd::prelude::*;

verus! {

/// Whether `pattern` is a well-formed glob pattern.
pub uninterp spec fn glob_valid(pattern: Seq<char>) -> bool;

/// Whether the well-formed glob `pattern` matches `path` under the default
/// match options (case-sensitive; `*` may cross `/`).
pub uninterp spec fn glob_match(pattern: Seq<char>, path: Seq<char>) -> bool;

/// Relies on `glob::Pattern::new`: it accepts or rejects the pattern text.
#[verifier::external_body]
fn pattern_is_valid(pattern: &str) -> (r: bool)
    ensures
        r == glob_valid(pattern@),
{
    glob::Pattern::new(pattern).is_ok()
}

/// Relies on `glob::Pattern::matches` (on the pattern that
/// `glob::Pattern::new` compiled): whether the path matches.
#[verifier::external_body]
fn pattern_matches(pattern: &str, path: &str) -> (r: bool)
    requires
        glob_valid(pattern@),
    ensures
        r == glob_match(pattern@, path@),
{
    match glob::Pattern::new(pattern) {
        Ok(p) => p.matches(path),
        Err(_) => false,
    }
}

/// A file touched by a diff: its path before and after the change. Either
/// is absent when the file was added or deleted.
pub struct ChangedFile {
    pub old_path: Option<String>,
    pub new_path: Option<String>,
}

/// The pattern that is always excluded: the dependency lockfile.
pub const DEFAULT_EXCLUDE: &'static str = "Cargo.lock";

/// The characters of an optional path.
pub open spec fn path_view(p: Option<String>) -> Option<Seq<char>> {
    match p {
        Some(s) => Some(s@),
        None => None,
    }
}

/// Some well-formed pattern among `excludes` matches `path`. A malformed
/// pattern matches nothing.
pub open spec fn matches_any(path: Seq<char>, excludes: Seq<String>) -> bool {
    exists|i: int|
        0 <= i < excludes.len() && #[trigger] glob_valid(excludes[i]@) && glob_match(
            excludes[i]@,
            path,
        )
}

/// A path is excluded when it is present and some pattern matches it.
pub open spec fn path_excluded(path: Option<Seq<char>>, excludes: Seq<String>) -> bool {
    match path {
        Some(p) => matches_any(p, excludes),
        None => false,
    }
}

/// A changed file is excluded when its old or its new path is.
pub open spec fn file_excluded(file: ChangedFile, excludes: Seq<String>) -> bool {
    path_excluded(path_view(file.old_path), excludes) || path_excluded(
        path_view(file.new_path),
        excludes,
    )
}

/// The exclude set: the default pattern, then the user's patterns in order.
pub open spec fn exclude_set(user: Seq<String>) -> Seq<Seq<char>> {
    seq![DEFAULT_EXCLUDE@] + user.map_values(|s: String| s@)
}

/// Builds the exclude set from the user's patterns.
pub fn exclude_patterns(user: Vec<String>) -> (r: Vec<String>)
    ensures
        r@.map_values(|s: String| s@) == exclude_set(user@),
{
    let ghost u = user@;
    let mut r: Vec<String> = Vec::new();
    r.push(String::from_str(DEFAULT_EXCLUDE));
    let mut user = user;
    r.append(&mut user);
    assert(r@.map_values(|s: String| s@) =~= exclude_set(u));
    r
}

/// The patterns among `excludes` that are not well-formed, in order.
pub fn invalid_patterns(excludes: &Vec<String>) -> (r: Vec<String>)
    ensures
        r@ == excludes@.filter(|s: String| !glob_valid(s@)),
{
    let mut r: Vec<String> = Vec::new();
    let mut i: usize = 0;
    while i < excludes.len()
        invariant
            i <= excludes@.len(),
            r@ == excludes@.subrange(0, i as int).filter(|s: String| !glob_valid(s@)),
        decreases excludes@.len() - i,
    {
        let p = &excludes[i];
        let ok = pattern_is_valid(p.as_str());
        let ghost pred = |s: String| !glob_valid(s@);
        let ghost pre = excludes@.subrange(0, i as int);
        let ghost next = excludes@.subrange(0, i + 1);
        proof {
            assert(next.drop_last() =~= pre);
            assert(next.last() == excludes@[i as int]);
            reveal(Seq::filter);
            assert(next.filter(pred) == pre.filter(pred) + (if pred(excludes@[i as int]) {
                seq![excludes@[i as int]]
            } else {
                Seq::empty()
            }));
        }
        if !ok {
            r.push(p.clone());
        }
        assert(r@ =~= next.filter(pred));
        i = i + 1;
    }
    assert(excludes@.subrange(0, excludes@.len() as int) =~= excludes@);
    r
}

/// Whether some well-formed pattern among `excludes` matches `path`.
fn matches_some(path: &str, excludes: &Vec<String>) -> (r: bool)
    ensures
        r == matches_any(path@, excludes@),
{
    let mut i: usize = 0;
    while i < excludes.len()
        invariant
            i <= excludes@.len(),
            forall|j: int|
                0 <= j < i ==> !(#[trigger] glob_valid(excludes@[j]@) && glob_match(
                    excludes@[j]@,
                    path@,
                )),
        decreases excludes@.len() - i,
    {
        let p = excludes[i].as_str();
        if pattern_is_valid(p) && pattern_matches(p, path) {
            return true;
        }
        i = i + 1;
    }
    false
}

/// Whether an optional path is excluded.
fn path_is_excluded(path: &Option<String>, excludes: &Vec<String>) -> (r: bool)
    ensures
        r == path_excluded(path_view(*path), excludes@),
{
    match path {
        Some(p) => matches_some(p.as_str(), excludes),
        None => false,
    }
}

/// Whether a changed file is excluded: its old or its new path matches some
/// well-formed pattern.
pub fn is_excluded(file: &ChangedFile, excludes: &Vec<String>) -> (r: bool)
    ensures
        r == file_excluded(*file, excludes@),
{
    path_is_excluded(&file.old_path, excludes) || path_is_excluded(&file.new_path, excludes)
}

} // verus!
