//! Small verified helpers over strings: suffix tests, suffix trimming and
//! the file-name part of a path, each with a direct mathematical statement.

use vstd::prelude::*;
use vstd::string::StrSliceExecFns;
use vstd::string::StringExecFns;

verus! {

/// `s` ends with `suffix`.
pub open spec fn ends_with(s: Seq<char>, suffix: Seq<char>) -> bool {
    s.len() >= suffix.len() && s.subrange(s.len() - suffix.len(), s.len() as int) == suffix
}

/// `s` with every trailing copy of `suffix` removed, one after the other,
/// until `s` no longer ends with `suffix`.
pub open spec fn trim_suffix(s: Seq<char>, suffix: Seq<char>) -> Seq<char>
    decreases s.len(),
{
    if suffix.len() > 0 && ends_with(s, suffix) {
        trim_suffix(s.subrange(0, s.len() - suffix.len()), suffix)
    } else {
        s
    }
}

/// The file-name part of a path: what follows the last `'/'`; the whole
/// path when it holds no `'/'`; empty when the path is empty or ends in `'/'`.
pub open spec fn file_name_of(p: Seq<char>) -> Seq<char>
    decreases p.len(),
{
    if p.len() == 0 {
        Seq::<char>::empty()
    } else if p.last() == '/' {
        Seq::<char>::empty()
    } else {
        file_name_of(p.drop_last()).push(p.last())
    }
}

/// The suffix of `p` that starts at `i` is exactly its file-name part,
/// provided no `'/'` occurs at or after `i` and `i` sits right after a
/// `'/'` or at the start.
proof fn lemma_file_name_is_suffix(p: Seq<char>, i: int)
    requires
        0 <= i <= p.len(),
        forall|j: int| i <= j < p.len() ==> p[j] != '/',
        i == 0 || p[i - 1] == '/',
    ensures
        file_name_of(p) == p.subrange(i, p.len() as int),
    decreases p.len(),
{
    if i == p.len() {
        if i == 0 {
            assert(file_name_of(p) =~= p.subrange(i, p.len() as int));
        } else {
            assert(p.last() == '/');
            assert(file_name_of(p) =~= p.subrange(i, p.len() as int));
        }
    } else {
        assert(p.last() != '/');
        lemma_file_name_is_suffix(p.drop_last(), i);
        assert(p.drop_last().subrange(i, p.len() - 1).push(p.last()) =~= p.subrange(
            i,
            p.len() as int,
        ));
    }
}

/// Decides whether `s` ends with `suffix`.
pub fn str_ends_with(s: &str, suffix: &str) -> (b: bool)
    ensures
        b == ends_with(s@, suffix@),
{
    let n: usize = s.unicode_len();
    let m: usize = suffix.unicode_len();
    if m > n {
        return false;
    }
    let mut i: usize = 0;
    while i < m
        invariant
            0 <= i <= m <= n,
            n == s@.len(),
            m == suffix@.len(),
            forall|j: int| 0 <= j < i ==> s@[n - m + j] == suffix@[j],
        decreases m - i,
    {
        if s.get_char(n - m + i) != suffix.get_char(i) {
            assert(s@.subrange(n - m, n as int)[i as int] != suffix@[i as int]);
            return false;
        }
        i = i + 1;
    }
    assert(s@.subrange(n - m, n as int) =~= suffix@);
    true
}

/// The file-name part of `p`: what follows its last `'/'`.
pub fn file_name<'a>(p: &'a str) -> (r: &'a str)
    ensures
        r@ == file_name_of(p@),
{
    let n: usize = p.unicode_len();
    let mut i: usize = n;
    while i > 0 && p.get_char(i - 1) != '/'
        invariant
            0 <= i <= n,
            n == p@.len(),
            forall|j: int| i <= j < n ==> p@[j] != '/',
        decreases i,
    {
        i = i - 1;
    }
    proof {
        lemma_file_name_is_suffix(p@, i as int);
    }
    p.substring_char(i, n)
}

/// `s` with every trailing copy of `suffix` trimmed off, as `trim_suffix`
/// states it.
pub fn trim_suffix_of(s: &str, suffix: &str) -> (r: String)
    requires
        suffix@.len() > 0,
    ensures
        r@ == trim_suffix(s@, suffix@),
{
    let mut stem = String::from_str(s);
    let m: usize = suffix.unicode_len();
    while str_ends_with(stem.as_str(), suffix)
        invariant
            m == suffix@.len(),
            m > 0,
            trim_suffix(stem@, suffix@) == trim_suffix(s@, suffix@),
        decreases stem@.len(),
    {
        let l: usize = stem.as_str().unicode_len();
        let shorter = stem.as_str().substring_char(0, l - m);
        let next = String::from_str(shorter);
        stem = next;
    }
    stem
}

/// `dir` and `name` joined with a single `'/'` between them.
pub open spec fn join_path(dir: Seq<char>, name: Seq<char>) -> Seq<char> {
    if dir.len() > 0 && dir.last() == '/' {
        dir + name
    } else {
        dir + "/"@ + name
    }
}

/// Joins a directory and a file name, inserting `'/'` unless `dir`
/// already ends with one.
pub fn join(dir: &str, name: &str) -> (r: String)
    ensures
        r@ == join_path(dir@, name@),
{
    let n: usize = dir.unicode_len();
    if n > 0 && dir.get_char(n - 1) == '/' {
        String::from_str(dir).concat(name)
    } else {
        String::from_str(dir).concat("/").concat(name)
    }
}

} // verus!
