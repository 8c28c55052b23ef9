//! The engine's path model.
//!
//! A path is a string of characters in which `/` separates components.
//! Trailing separators are ignored (except in the root path `/` itself),
//! and dot components receive no special treatment. The parent of a
//! single-component relative path is the empty string, and joining a name
//! onto the empty string yields the name alone.

use vstd::prelude::*;
use crate::errors::FsError;

verus! {

/// The path separator.
pub open spec fn sep() -> char {
    '/'
}

/// `s` with its trailing separators removed; a lone `/` is kept.
pub open spec fn trimmed(s: Seq<char>) -> Seq<char>
    decreases s.len(),
{
    if s.len() > 1 && s.last() == sep() {
        trimmed(s.drop_last())
    } else {
        s
    }
}

/// The index of the last separator in `s`, or `-1` if there is none.
pub open spec fn last_sep(s: Seq<char>) -> int
    decreases s.len(),
{
    if s.len() == 0 {
        -1
    } else if s.last() == sep() {
        s.len() - 1
    } else {
        last_sep(s.drop_last())
    }
}

/// Whether `s`, after trimming, is the root path or empty, so that it has
/// neither a parent nor a base name.
pub open spec fn is_rootlike(s: Seq<char>) -> bool {
    trimmed(s).len() == 0 || trimmed(s) == seq![sep()]
}

/// The parent directory component of `s`, if any.
pub open spec fn parent_view(s: Seq<char>) -> Option<Seq<char>> {
    let t = trimmed(s);
    if is_rootlike(s) {
        None
    } else {
        let i = last_sep(t);
        if i == -1 {
            Some(Seq::empty())
        } else if i == 0 {
            Some(seq![sep()])
        } else {
            Some(t.subrange(0, i))
        }
    }
}

/// The base name of `s`: everything after the last separator, if any.
pub open spec fn base_view(s: Seq<char>) -> Option<Seq<char>> {
    let t = trimmed(s);
    if is_rootlike(s) {
        None
    } else {
        Some(t.subrange(last_sep(t) + 1, t.len() as int))
    }
}

/// `name` appended to `dir` with exactly one separator between them.
pub open spec fn join_view(dir: Seq<char>, name: Seq<char>) -> Seq<char> {
    if dir.len() == 0 {
        name
    } else if dir.last() == sep() {
        dir + name
    } else {
        dir + seq![sep()] + name
    }
}

/// The length of `path` once trailing separators are dropped.
fn trimmed_len(path: &str) -> (n: usize)
    ensures
        n <= path@.len(),
        trimmed(path@) == path@.subrange(0, n as int),
{
    let mut n = path.unicode_len();
    proof {
        assert(path@.subrange(0, n as int) =~= path@);
    }
    while n > 1 && path.get_char(n - 1) == '/'
        invariant
            n <= path@.len(),
            trimmed(path@) == trimmed(path@.subrange(0, n as int)),
        decreases n,
    {
        proof {
            let t = path@.subrange(0, n as int);
            assert(t.last() == sep());
            assert(t.drop_last() =~= path@.subrange(0, n - 1 as int));
        }
        n = n - 1;
    }
    proof {
        let t = path@.subrange(0, n as int);
        assert(trimmed(t) == t);
    }
    n
}

/// The last separator position strictly below `n`, scanning `path`.
fn last_sep_below(path: &str, n: usize) -> (r: Option<usize>)
    requires
        n <= path@.len(),
    ensures
        match r {
            Some(i) => i < n && last_sep(path@.subrange(0, n as int)) == i,
            None => last_sep(path@.subrange(0, n as int)) == -1,
        },
{
    let mut j = n;
    while j > 0
        invariant
            j <= n <= path@.len(),
            last_sep(path@.subrange(0, n as int)) == last_sep(path@.subrange(0, j as int)),
        decreases j,
    {
        let c = path.get_char(j - 1);
        proof {
            let t = path@.subrange(0, j as int);
            assert(t.last() == path@[j - 1]);
            assert(t.drop_last() =~= path@.subrange(0, j - 1 as int));
        }
        if c == '/' {
            return Some(j - 1);
        }
        j = j - 1;
    }
    proof {
        assert(path@.subrange(0, 0) =~= Seq::<char>::empty());
    }
    None
}

/// The parent directory of `path`, or `NoParent` if the path is the root
/// or empty.
pub fn get_parent_dir(path: &str) -> (r: Result<String, FsError>)
    ensures
        match r {
            Ok(p) => parent_view(path@) == Some(p@),
            Err(e) => e == FsError::NoParent && parent_view(path@) is None,
        },
{
    let n = trimmed_len(path);
    if n == 0 {
        return Err(FsError::NoParent);
    }
    if n == 1 && path.get_char(0) == '/' {
        proof {
            assert(trimmed(path@) =~= seq![sep()]);
        }
        return Err(FsError::NoParent);
    }
    proof {
        let t = trimmed(path@);
        assert(t.len() == n);
        if t == seq![sep()] {
            assert(t[0] == sep());
            assert(path@[0] == sep());
        }
        assert(!is_rootlike(path@));
    }
    match last_sep_below(path, n) {
        None => Ok(String::new()),
        Some(0) => {
            let r = String::from_str("/");
            proof {
                reveal_strlit("/");
                assert(r@ =~= seq![sep()]);
            }
            Ok(r)
        },
        Some(i) => {
            let p = path.substring_char(0, i);
            proof {
                assert(path@.subrange(0, i as int)
                    =~= trimmed(path@).subrange(0, i as int));
            }
            Ok(p.to_owned())
        },
    }
}

/// The base name of `path`, or `NoFileName` if the path is the root or
/// empty.
pub fn base_name(path: &str) -> (r: Result<String, FsError>)
    ensures
        match r {
            Ok(b) => base_view(path@) == Some(b@),
            Err(e) => e == FsError::NoFileName && base_view(path@) is None,
        },
{
    let n = trimmed_len(path);
    if n == 0 {
        return Err(FsError::NoFileName);
    }
    if n == 1 && path.get_char(0) == '/' {
        proof {
            assert(trimmed(path@) =~= seq![sep()]);
        }
        return Err(FsError::NoFileName);
    }
    proof {
        let t = trimmed(path@);
        assert(t.len() == n);
        if t == seq![sep()] {
            assert(t[0] == sep());
            assert(path@[0] == sep());
        }
        assert(!is_rootlike(path@));
    }
    let start: usize = match last_sep_below(path, n) {
        None => 0,
        Some(i) => i + 1,
    };
    let b = path.substring_char(start, n);
    proof {
        let t = trimmed(path@);
        assert(path@.subrange(start as int, n as int)
            =~= t.subrange(last_sep(t) + 1, t.len() as int));
    }
    Ok(b.to_owned())
}

/// `name` joined onto the directory `dir` with exactly one separator.
pub fn join_path(dir: &str, name: &str) -> (r: String)
    ensures
        r@ == join_view(dir@, name@),
{
    let n = dir.unicode_len();
    if n == 0 {
        return String::from_str(name);
    }
    let mut out = dir.to_owned();
    if dir.get_char(n - 1) != '/' {
        out.append("/");
        proof {
            reveal_strlit("/");
            assert(dir@ + "/"@ =~= dir@ + seq![sep()]);
        }
    }
    out.append(name);
    proof {
        if dir@.last() == sep() {
            assert(out@ =~= dir@ + name@);
        } else {
            assert(out@ =~= dir@ + seq![sep()] + name@);
        }
    }
    out
}

} // verus!
