//! Path sanitising: one pass that removes what a generator tends to put in
//! front of a project-relative path.

use vstd::prelude::*;
use crate::text::{chars_of, has_prefix_at, lowercase_of, string_of, trim_spec};

verus! {

/// `s` without the prefix `p`, or `s` itself where it does not start with
/// `p`.
pub open spec fn strip_prefix_once(s: Seq<char>, p: Seq<char>) -> Seq<char> {
    if p.is_prefix_of(s) {
        s.skip(p.len() as int)
    } else {
        s
    }
}

/// `s` with each space replaced by a hyphen.
pub open spec fn kebab(s: Seq<char>) -> Seq<char> {
    Seq::new(
        s.len(),
        |i: int|
            if s[i] == ' ' {
                '-'
            } else {
                s[i]
            },
    )
}

/// The two characters `./`.
pub open spec fn dot_slash() -> Seq<char> {
    seq!['.', '/']
}

/// The path left when, in this order and each at most once, a leading `./`,
/// a leading `<project>/` and a leading `<alternative>/` are removed, the
/// alternative being `lowered` with hyphens for spaces.
pub open spec fn strip_redundant_prefixes_spec(
    path: Seq<char>,
    project: Seq<char>,
    lowered: Seq<char>,
) -> Seq<char> {
    let a = strip_prefix_once(path, dot_slash());
    let b = strip_prefix_once(a, project.push('/'));
    strip_prefix_once(b, kebab(lowered).push('/'))
}

/// Whether one of the two forms of the project name is removed from `path`
/// by `strip_redundant_prefixes_spec`.
pub open spec fn has_project_prefix_spec(
    path: Seq<char>,
    project: Seq<char>,
    lowered: Seq<char>,
) -> bool {
    let a = strip_prefix_once(path, dot_slash());
    let b = strip_prefix_once(a, project.push('/'));
    project.push('/').is_prefix_of(a) || kebab(lowered).push('/').is_prefix_of(b)
}

/// What `clean_path` returns: the trimmed path without its redundant
/// prefixes.
pub open spec fn clean_path_spec(path: Seq<char>, project: Seq<char>) -> Seq<char> {
    strip_redundant_prefixes_spec(trim_spec(path), project, lowercase_of(project))
}

/// A path that sanitising leaves alone: it has no white space at either end
/// and starts with none of the prefixes that are removed.
pub open spec fn is_clean(path: Seq<char>, project: Seq<char>) -> bool {
    &&& trim_spec(path) == path
    &&& !dot_slash().is_prefix_of(path)
    &&& !project.push('/').is_prefix_of(path)
    &&& !kebab(lowercase_of(project)).push('/').is_prefix_of(path)
}

/// `s` with a hyphen for each space.
pub fn kebab_chars(s: &Vec<char>) -> (r: Vec<char>)
    ensures
        r@ == kebab(s@),
{
    let mut r: Vec<char> = Vec::new();
    let mut i: usize = 0;
    while i < s.len()
        invariant
            i <= s.len(),
            r@ == kebab(s@).take(i as int),
        decreases s.len() - i,
    {
        let c = s[i];
        r.push(if c == ' ' { '-' } else { c });
        i += 1;
    }
    r
}

/// The position in `s` behind the prefixes that
/// `strip_redundant_prefixes_spec` removes, and whether one of them was a
/// form of the project name.
fn redundant_prefix_end(s: &Vec<char>, project_name: &str, project_lower: &str) -> (r: (
    usize,
    bool,
))
    ensures
        r.0 <= s.len(),
        s@.skip(r.0 as int) == strip_redundant_prefixes_spec(
            s@,
            project_name@,
            project_lower@,
        ),
        r.1 == has_project_prefix_spec(s@, project_name@, project_lower@),
{
    let mut at: usize = 0;
    let mut named = false;
    assert(s@.skip(0) =~= s@);
    let marker: Vec<char> = vec!['.', '/'];
    if has_prefix_at(s, at, &marker) {
        at = at + marker.len();
    }
    let mut literal = chars_of(project_name);
    literal.push('/');
    if has_prefix_at(s, at, &literal) {
        at = at + literal.len();
        named = true;
    }
    let lowered = chars_of(project_lower);
    let mut alternative = kebab_chars(&lowered);
    alternative.push('/');
    if has_prefix_at(s, at, &alternative) {
        at = at + alternative.len();
        named = true;
    }
    (at, named)
}

/// Removes the redundant prefixes from a path that is already trimmed.
/// `project_lower` is the lower-case form of the project name.
pub fn strip_redundant_prefixes(path: &str, project_name: &str, project_lower: &str) -> (r:
    String)
    ensures
        r@ == strip_redundant_prefixes_spec(path@, project_name@, project_lower@),
{
    let s = chars_of(path);
    let (at, _) = redundant_prefix_end(&s, project_name, project_lower);
    string_of(&s, at, s.len())
}

/// Cleans a path: trims it, then removes one leading `./`, one leading
/// `<project>/` and one leading `<project in lower case, hyphens for
/// spaces>/`, in this order. Nothing is removed twice.
pub fn clean_path(path: &str, project_name: &str) -> (r: String)
    ensures
        r@ == clean_path_spec(path@, project_name@),
        is_clean(path@, project_name@) ==> r@ == path@,
{
    let lowered = project_name.to_lowercase();
    strip_redundant_prefixes(path.trim(), project_name, lowered.as_str())
}

/// Whether `clean_path` removes a form of the project name from `path`: the
/// sign that a generator has put the project directory in front of a
/// relative path.
pub fn has_redundant_project_prefix(path: &str, project_name: &str) -> (b: bool)
    ensures
        b == has_project_prefix_spec(
            trim_spec(path@),
            project_name@,
            lowercase_of(project_name@),
        ),
{
    let lowered = project_name.to_lowercase();
    let s = chars_of(path.trim());
    let (_, named) = redundant_prefix_end(&s, project_name, lowered.as_str());
    named
}

/// Sanitising a clean path returns it unchanged.
pub proof fn lemma_clean_path_keeps_clean(path: Seq<char>, project: Seq<char>)
    requires
        is_clean(path, project),
    ensures
        clean_path_spec(path, project) == path,
{
}

} // verus!
