//! The application-path query: the parent directory of the running
//! executable, with `"."` as the fallback when none can be found.
//!
//! Paths are modelled as sequences of characters with `'/'` as the
//! component separator. The parent of a path is what remains after the
//! final component and the separators around it are removed; when nothing
//! remains but the root, the parent is `"/"` itself. The empty path, a
//! separator-only path, and a bare name have no parent.

use vstd::prelude::*;
use vstd::string::StrSliceExecFns;
use vstd::string::StringExecFns;

verus! {

/// `s` with every trailing separator removed.
pub open spec fn drop_trailing_seps(s: Seq<char>) -> Seq<char>
    decreases s.len(),
{
    if s.len() > 0 && s.last() == '/' {
        drop_trailing_seps(s.drop_last())
    } else {
        s
    }
}

/// `s` with its trailing run of non-separator characters removed.
pub open spec fn drop_last_component(s: Seq<char>) -> Seq<char>
    decreases s.len(),
{
    if s.len() > 0 && s.last() != '/' {
        drop_last_component(s.drop_last())
    } else {
        s
    }
}

/// The parent directory of the path `s`, if it has one.
pub open spec fn parent_of(s: Seq<char>) -> Option<Seq<char>> {
    let trimmed = drop_trailing_seps(s);
    if trimmed.len() == 0 {
        // the path is empty, or is the root itself
        None
    } else {
        let dir = drop_last_component(trimmed);
        if dir.len() == 0 {
            // a bare name: no directory part at all
            None
        } else {
            let parent = drop_trailing_seps(dir);
            if parent.len() == 0 {
                // the final component sits directly under the root
                Some(seq!['/'])
            } else {
                Some(parent)
            }
        }
    }
}

/// The view of an optionally resolved executable path.
pub open spec fn exe_view(exe_path: Option<&str>) -> Option<Seq<char>> {
    match exe_path {
        Some(s) => Some(s@),
        None => None,
    }
}

/// What the application-path query answers: the parent directory of the
/// executable's path, or `"."` when the path is unknown or has no parent.
pub open spec fn app_path_of(exe: Option<Seq<char>>) -> Seq<char> {
    match exe {
        None => seq!['.'],
        Some(s) => match parent_of(s) {
            None => seq!['.'],
            Some(p) => p,
        },
    }
}

/// A parent directory is never empty: it is either the root `"/"` or a
/// prefix that was required to have at least one character.
pub proof fn lemma_parent_nonempty(s: Seq<char>)
    ensures
        parent_of(s) matches Some(p) ==> p.len() > 0,
{
    assert(seq!['/'].len() == 1);
}

/// The application path is never empty, whatever the executable path
/// resolved to: every parent directory has at least one character, and the
/// fallback `"."` has exactly one.
pub proof fn lemma_app_path_nonempty(exe: Option<Seq<char>>)
    ensures
        app_path_of(exe).len() > 0,
{
    assert(seq!['.'].len() == 1);
    match exe {
        None => {
        },
        Some(s) => {
            lemma_parent_nonempty(s);
        },
    }
}

/// When the executable path could not be determined, the query falls back
/// to the current directory `"."`.
pub proof fn lemma_app_path_fallback(exe: Option<Seq<char>>)
    requires
        exe is None,
    ensures
        app_path_of(exe) == seq!['.'],
{
}

/// The parent directory of `path`, or `None` when the path has none
/// (it is empty, the root, or a bare name).
pub fn parent_dir(path: &str) -> (r: Option<String>)
    ensures
        r is Some <==> parent_of(path@) is Some,
        r matches Some(p) ==> parent_of(path@) == Some(p@),
{
    let n: usize = path.unicode_len();
    proof {
        assert(path@.take(n as int) =~= path@);
    }

    // drop the trailing separators
    let mut i: usize = n;
    while i > 0 && path.get_char(i - 1) == '/'
        invariant
            i <= n,
            n == path@.len(),
            drop_trailing_seps(path@) == drop_trailing_seps(path@.take(i as int)),
        decreases i,
    {
        proof {
            assert(path@.take(i as int).drop_last() =~= path@.take(i - 1));
        }
        i = i - 1;
    }

    // drop the final component
    let mut j: usize = i;
    while j > 0 && path.get_char(j - 1) != '/'
        invariant
            j <= i <= n,
            n == path@.len(),
            drop_last_component(path@.take(i as int)) == drop_last_component(path@.take(j as int)),
        decreases j,
    {
        proof {
            assert(path@.take(j as int).drop_last() =~= path@.take(j - 1));
        }
        j = j - 1;
    }

    // drop the separators before it
    let mut k: usize = j;
    while k > 0 && path.get_char(k - 1) == '/'
        invariant
            k <= j <= n,
            n == path@.len(),
            drop_trailing_seps(path@.take(j as int)) == drop_trailing_seps(path@.take(k as int)),
        decreases k,
    {
        proof {
            assert(path@.take(k as int).drop_last() =~= path@.take(k - 1));
        }
        k = k - 1;
    }

    proof {
        assert(drop_trailing_seps(path@) == path@.take(i as int));
        assert(drop_last_component(path@.take(i as int)) == path@.take(j as int));
        assert(drop_trailing_seps(path@.take(j as int)) == path@.take(k as int));
    }

    if i == 0 {
        None
    } else if j == 0 {
        None
    } else if k == 0 {
        let root = String::from_str("/");
        proof {
            reveal_strlit("/");
            assert(root@ =~= seq!['/']);
        }
        Some(root)
    } else {
        let sub = path.substring_char(0, k);
        proof {
            assert(sub@ =~= path@.take(k as int));
        }
        Some(String::from_str(sub))
    }
}

/// The directory the application lives in: the parent directory of the
/// executable's path, or `"."` when the path could not be determined or
/// has no parent. The answer is never empty.
pub fn get_app_path(exe_path: Option<&str>) -> (r: String)
    ensures
        r@ == app_path_of(exe_view(exe_path)),
        r@.len() > 0,
        exe_path is None ==> r@ == seq!['.'],
{
    proof {
        lemma_app_path_nonempty(exe_view(exe_path));
    }
    match exe_path {
        None => {
            let dot = String::from_str(".");
            proof {
                reveal_strlit(".");
                assert(dot@ =~= seq!['.']);
            }
            dot
        },
        Some(p) => {
            match parent_dir(p) {
                Some(d) => d,
                None => {
                    let dot = String::from_str(".");
                    proof {
                        reveal_strlit(".");
                        assert(dot@ =~= seq!['.']);
                    }
                    dot
                },
            }
        },
    }
}

} // verus!
