//! Verified text utilities: string equality, whitespace trimming, path
//! cleaning (quote stripping and separator normalization) and the parent
//! directory of a path string.

use vstd::prelude::*;
use vstd::string::StrSliceExecFns;

verus! {

/// The whitespace characters trimmed from operator input lines.
pub open spec fn is_space_spec(c: char) -> bool {
    c == ' ' || c == '\t' || c == '\r' || c == '\n'
}

fn is_space(c: char) -> (r: bool)
    ensures
        r == is_space_spec(c),
{
    c == ' ' || c == '\t' || c == '\r' || c == '\n'
}

/// The sequence with its longest prefix of characters satisfying `p` removed.
pub open spec fn drop_leading(s: Seq<char>, p: spec_fn(char) -> bool) -> Seq<char>
    decreases s.len(),
{
    if s.len() > 0 && p(s[0]) {
        drop_leading(s.subrange(1, s.len() as int), p)
    } else {
        s
    }
}

/// The sequence with its longest suffix of characters satisfying `p` removed.
pub open spec fn drop_trailing(s: Seq<char>, p: spec_fn(char) -> bool) -> Seq<char>
    decreases s.len(),
{
    if s.len() > 0 && p(s[s.len() - 1]) {
        drop_trailing(s.subrange(0, s.len() - 1), p)
    } else {
        s
    }
}

/// If the first `k` characters satisfy `p` and the one after them (if any)
/// does not, then dropping the leading run keeps exactly the tail from `k`.
proof fn lemma_drop_leading(s: Seq<char>, p: spec_fn(char) -> bool, k: int)
    requires
        0 <= k <= s.len(),
        forall|t: int| 0 <= t < k ==> p(s[t]),
        k == s.len() || !p(s[k]),
    ensures
        drop_leading(s, p) == s.subrange(k, s.len() as int),
    decreases k,
{
    if k == 0 {
        assert(s.subrange(0, s.len() as int) =~= s);
    } else {
        let tail = s.subrange(1, s.len() as int);
        lemma_drop_leading(tail, p, k - 1);
        assert(tail.subrange(k - 1, tail.len() as int) =~= s.subrange(k, s.len() as int));
    }
}

/// If the last `s.len() - k` characters satisfy `p` and the one before them
/// (if any) does not, then dropping the trailing run keeps exactly the
/// prefix up to `k`.
proof fn lemma_drop_trailing(s: Seq<char>, p: spec_fn(char) -> bool, k: int)
    requires
        0 <= k <= s.len(),
        forall|t: int| k <= t < s.len() ==> p(s[t]),
        k == 0 || !p(s[k - 1]),
    ensures
        drop_trailing(s, p) == s.subrange(0, k),
    decreases s.len() - k,
{
    if k == s.len() {
        assert(s.subrange(0, s.len() as int) =~= s);
    } else {
        let head = s.subrange(0, s.len() - 1);
        lemma_drop_trailing(head, p, k);
        assert(head.subrange(0, k) =~= s.subrange(0, k));
    }
}

/// The string with leading and trailing whitespace removed.
pub open spec fn trim_spec(s: Seq<char>) -> Seq<char> {
    drop_trailing(drop_leading(s, |c: char| is_space_spec(c)), |c: char| is_space_spec(c))
}

/// Whether two string slices hold the same characters.
pub fn str_eq(a: &str, b: &str) -> (r: bool)
    ensures
        r == (a@ == b@),
{
    let alen = a.unicode_len();
    let blen = b.unicode_len();
    if alen != blen {
        return false;
    }
    let mut i: usize = 0;
    while i < alen
        invariant
            0 <= i <= alen,
            alen == a@.len(),
            blen == b@.len(),
            alen == blen,
            forall|k: int| 0 <= k < i ==> a@[k] == b@[k],
        decreases alen - i,
    {
        if a.get_char(i) != b.get_char(i) {
            return false;
        }
        i += 1;
    }
    proof {
        assert(a@ =~= b@);
    }
    true
}

/// The copy of `s` with leading and trailing whitespace removed.
pub fn trim(s: &str) -> (r: String)
    ensures
        r@ == trim_spec(s@),
{
    let n = s.unicode_len();
    let mut i: usize = 0;
    while i < n && is_space(s.get_char(i))
        invariant
            0 <= i <= n,
            n == s@.len(),
            forall|t: int| 0 <= t < i ==> is_space_spec(s@[t]),
        decreases n - i,
    {
        i += 1;
    }
    let mut j: usize = n;
    while j > i && is_space(s.get_char(j - 1))
        invariant
            i <= j <= n,
            n == s@.len(),
            forall|t: int| 0 <= t < i ==> is_space_spec(s@[t]),
            forall|t: int| j <= t < n ==> is_space_spec(s@[t]),
        decreases j,
    {
        j -= 1;
    }
    let r = s.substring_char(i, j).to_owned();
    proof {
        let p = |c: char| is_space_spec(c);
        lemma_drop_leading(s@, p, i as int);
        let mid = s@.subrange(i as int, n as int);
        lemma_drop_trailing(mid, p, j - i);
        assert(mid.subrange(0, j - i) =~= s@.subrange(i as int, j as int));
    }
    r
}

/// A double-quote character, the decoration stripped from configured paths.
pub open spec fn is_quote_spec(c: char) -> bool {
    c == '"'
}

/// Each backslash replaced by a forward slash; other characters unchanged.
pub open spec fn normalize_separators(s: Seq<char>) -> Seq<char> {
    Seq::new(s.len(), |i: int| if s[i] == '\\' { '/' } else { s[i] })
}

/// A configured path after cleaning: whitespace trimmed, surrounding double
/// quotes stripped, and backslashes replaced by forward slashes.
pub open spec fn clean_path_spec(s: Seq<char>) -> Seq<char> {
    normalize_separators(
        drop_trailing(
            drop_leading(trim_spec(s), |c: char| is_quote_spec(c)),
            |c: char| is_quote_spec(c),
        ),
    )
}

/// Relies on String::push: appends the given character at the end of the
/// string.
#[verifier::external_body]
fn push_char(s: &mut String, c: char)
    ensures
        final(s)@ == old(s)@.push(c),
{
    s.push(c);
}

/// Cleans a configured path: trims whitespace, strips surrounding double
/// quotes, and replaces backslashes with forward slashes.
pub fn clean_path(path: &str) -> (r: String)
    ensures
        r@ == clean_path_spec(path@),
{
    let t = trim(path);
    let s = t.as_str();
    let n = s.unicode_len();
    let mut i: usize = 0;
    while i < n && s.get_char(i) == '"'
        invariant
            0 <= i <= n,
            n == s@.len(),
            forall|t0: int| 0 <= t0 < i ==> is_quote_spec(s@[t0]),
        decreases n - i,
    {
        i += 1;
    }
    let mut j: usize = n;
    while j > i && s.get_char(j - 1) == '"'
        invariant
            i <= j <= n,
            n == s@.len(),
            forall|t0: int| 0 <= t0 < i ==> is_quote_spec(s@[t0]),
            forall|t0: int| j <= t0 < n ==> is_quote_spec(s@[t0]),
        decreases j,
    {
        j -= 1;
    }
    let mut out = String::new();
    let mut k: usize = i;
    while k < j
        invariant
            i <= k <= j <= n,
            n == s@.len(),
            out@.len() == k - i,
            forall|t0: int| 0 <= t0 < k - i ==> out@[t0] == (if s@[i + t0] == '\\' {
                '/'
            } else {
                s@[i + t0]
            }),
        decreases j - k,
    {
        let c = s.get_char(k);
        if c == '\\' {
            push_char(&mut out, '/');
        } else {
            push_char(&mut out, c);
        }
        k += 1;
    }
    proof {
        let q = |c: char| is_quote_spec(c);
        lemma_drop_leading(s@, q, i as int);
        let mid = s@.subrange(i as int, n as int);
        lemma_drop_trailing(mid, q, j - i);
        assert(mid.subrange(0, j - i) =~= s@.subrange(i as int, j as int));
        assert(out@ =~= normalize_separators(s@.subrange(i as int, j as int)));
    }
    out
}

/// The index of the last forward slash of `s`, or `-1` if there is none.
pub open spec fn last_slash(s: Seq<char>) -> int
    decreases s.len(),
{
    if s.len() == 0 {
        -1
    } else if s[s.len() - 1] == '/' {
        s.len() - 1
    } else {
        last_slash(s.subrange(0, s.len() - 1))
    }
}

/// The directory part of a path: everything before the last forward slash,
/// the empty string for a bare file name, and nothing for an empty path.
pub open spec fn parent_dir_spec(s: Seq<char>) -> Option<Seq<char>> {
    if s.len() == 0 {
        None
    } else if last_slash(s) < 0 {
        Some(Seq::<char>::empty())
    } else {
        Some(s.subrange(0, last_slash(s)))
    }
}

/// If no slash occurs at or after index `j` and the character before `j`
/// (if any) is a slash, then the last slash of `s` is at `j - 1`.
proof fn lemma_last_slash(s: Seq<char>, j: int)
    requires
        0 <= j <= s.len(),
        forall|t: int| j <= t < s.len() ==> s[t] != '/',
        j == 0 || s[j - 1] == '/',
    ensures
        last_slash(s) == j - 1,
    decreases s.len(),
{
    if j == s.len() {
        if j != 0 {
            assert(last_slash(s) == s.len() - 1);
        }
    } else {
        let head = s.subrange(0, s.len() - 1);
        lemma_last_slash(head, j);
    }
}

/// The directory part of a path string — the server process is started in
/// its executable's directory.  Returns `None` only for an empty path.
pub fn parent_dir(path: &str) -> (r: Option<String>)
    ensures
        match r {
            Some(d) => parent_dir_spec(path@) == Some(d@),
            None => parent_dir_spec(path@) is None,
        },
{
    let n = path.unicode_len();
    if n == 0 {
        return None;
    }
    let mut j: usize = n;
    while j > 0 && path.get_char(j - 1) != '/'
        invariant
            0 <= j <= n,
            n == path@.len(),
            forall|t: int| j <= t < n ==> path@[t] != '/',
        decreases j,
    {
        j -= 1;
    }
    proof {
        lemma_last_slash(path@, j as int);
    }
    if j == 0 {
        Some(String::new())
    } else {
        Some(path.substring_char(0, j - 1).to_owned())
    }
}

} // verus!
