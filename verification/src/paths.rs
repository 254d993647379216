//! Plain-text path arithmetic for backend discovery.
//!
//! Paths are modelled as character sequences with `/` as the separator; a
//! parent is everything before the last separator (the lone separator itself
//! when the path is a root child). This is deliberately simple-minded — it
//! does not normalise, resolve symlinks, or follow any platform's full path
//! grammar — but it is exactly the arithmetic discovery needs to climb at
//! most two levels above the working directory.

use vstd::prelude::*;

verus! {

/// The largest index holding `/`, or `-1` where the path has none.
pub open spec fn spec_last_slash(s: Seq<char>) -> int
    decreases s.len(),
{
    if s.len() == 0 {
        -1
    } else if s[s.len() - 1] == '/' {
        s.len() - 1
    } else {
        spec_last_slash(s.take(s.len() - 1))
    }
}

/// The parent of a path: the prefix before the last `/`, or the root `/`
/// itself when that slash is the first character; `None` for a bare name.
pub open spec fn spec_parent(s: Seq<char>) -> Option<Seq<char>> {
    let i = spec_last_slash(s);
    if i < 0 {
        None
    } else if i == 0 {
        Some(s.take(1))
    } else {
        Some(s.take(i))
    }
}

/// `spec_last_slash` is pinned down by exhibiting the last slash position:
/// a slash at `m` (or none at all for `m == -1`) with none after it.
proof fn lemma_last_slash_at(s: Seq<char>, m: int)
    requires
        -1 <= m < s.len(),
        m >= 0 ==> s[m] == '/',
        forall|k: int| m < k < s.len() ==> s[k] != '/',
    ensures
        spec_last_slash(s) == m,
    decreases s.len(),
{
    if s.len() == 0 {
    } else if s[s.len() - 1] == '/' {
        if m < s.len() - 1 {
            assert(s[s.len() - 1] != '/');
        }
    } else {
        assert(m < s.len() - 1);
        let t = s.take(s.len() - 1);
        assert(forall|k: int| m < k < t.len() ==> t[k] != '/');
        lemma_last_slash_at(t, m);
    }
}

/// The parent directory of `path` under the model above.
pub fn parent_dir(path: &str) -> (parent: Option<String>)
    ensures
        (match parent {
            Some(p) => spec_parent(path@) == Some(p@),
            None => spec_parent(path@) is None,
        }),
{
    let n = path.unicode_len();
    let mut j = n;
    while j > 0 && path.get_char(j - 1) != '/'
        invariant
            j <= n,
            n == path@.len(),
            forall|k: int| j <= k < n ==> path@[k] != '/',
        decreases j,
    {
        j = j - 1;
    }
    if j == 0 {
        proof {
            lemma_last_slash_at(path@, -1);
        }
        None
    } else {
        proof {
            lemma_last_slash_at(path@, j as int - 1);
        }
        let end = if j == 1 {
            1
        } else {
            j - 1
        };
        Some(path.substring_char(0, end).to_owned())
    }
}

/// The ordered candidate base directories for discovery, derived from the
/// working directory: its grandparent first, then its parent, skipping
/// levels that do not exist.
pub open spec fn spec_candidate_dirs(cwd: Seq<char>) -> Seq<Seq<char>> {
    match spec_parent(cwd) {
        None => Seq::empty(),
        Some(p) => match spec_parent(p) {
            None => seq![p],
            Some(g) => seq![g, p],
        },
    }
}

/// Builds the candidate list of [`spec_candidate_dirs`] for a working
/// directory.
pub fn candidate_dirs(cwd: &str) -> (dirs: Vec<String>)
    ensures
        dirs@.map_values(|d: String| d@) == spec_candidate_dirs(cwd@),
{
    let mut dirs: Vec<String> = Vec::new();
    match parent_dir(cwd) {
        None => {},
        Some(p) => {
            match parent_dir(p.as_str()) {
                None => {
                    dirs.push(p);
                },
                Some(g) => {
                    dirs.push(g);
                    dirs.push(p);
                },
            }
        },
    }
    proof {
        assert(dirs@.map_values(|d: String| d@) =~= spec_candidate_dirs(cwd@));
    }
    dirs
}

} // verus!
