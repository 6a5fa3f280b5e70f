//! Request paths: the normal form in which they are matched.

use vstd::prelude::*;
use crate::text::{from_chars, to_chars};

verus! {

/// Whether `c` is white space: a character with the Unicode property
/// `White_Space`.
pub open spec fn is_whitespace(c: char) -> bool {
    let u = c as u32;
    ||| 0x09 <= u <= 0x0D
    ||| u == 0x20
    ||| u == 0x85
    ||| u == 0xA0
    ||| u == 0x1680
    ||| 0x2000 <= u <= 0x200A
    ||| u == 0x2028
    ||| u == 0x2029
    ||| u == 0x202F
    ||| u == 0x205F
    ||| u == 0x3000
}

/// Whether `c` is the path separator.
pub open spec fn is_slash(c: char) -> bool {
    c == '/'
}

/// `s` without its longest prefix of characters that satisfy `p`.
pub open spec fn skip_leading(s: Seq<char>, p: spec_fn(char) -> bool) -> Seq<char>
    decreases s.len(),
{
    if s.len() > 0 && p(s[0]) {
        skip_leading(s.skip(1), p)
    } else {
        s
    }
}

/// `s` without its longest suffix of characters that satisfy `p`.
pub open spec fn drop_trailing(s: Seq<char>, p: spec_fn(char) -> bool) -> Seq<char>
    decreases s.len(),
{
    if s.len() > 0 && p(s.last()) {
        drop_trailing(s.drop_last(), p)
    } else {
        s
    }
}

/// `s` without leading and trailing white space.
pub open spec fn trimmed(s: Seq<char>) -> Seq<char> {
    drop_trailing(skip_leading(s, |c: char| is_whitespace(c)), |c: char| is_whitespace(c))
}

/// The normal form of a path: white space around it is dropped, and then,
/// unless a single character is left, every trailing slash.
pub open spec fn normalized(path: Seq<char>) -> Seq<char> {
    let t = trimmed(path);
    if t.len() > 1 && t.last() == '/' {
        drop_trailing(t, |c: char| is_slash(c))
    } else {
        t
    }
}

/// Whether a path is in normal form as far as its ends show: it starts with a
/// slash, ends with no white space and, unless it is the root, with no slash.
pub open spec fn is_normal(path: Seq<char>) -> bool {
    &&& path.len() > 0
    &&& path[0] == '/'
    &&& !is_whitespace(path.last())
    &&& (path.len() == 1 || path.last() != '/')
}

/// Whether a path begins with a slash.
pub open spec fn is_rooted(path: Seq<char>) -> bool {
    path.len() > 0 && path[0] == '/'
}

/// Where the first `k` characters satisfy `p` and the next one, if any, does
/// not, `skip_leading` drops exactly those `k`.
pub proof fn lemma_skip_leading(s: Seq<char>, p: spec_fn(char) -> bool, k: int)
    requires
        0 <= k <= s.len(),
        forall|j: int| 0 <= j < k ==> p(#[trigger] s[j]),
        k < s.len() ==> !p(s[k]),
    ensures
        skip_leading(s, p) == s.skip(k),
    decreases k,
{
    if k == 0 {
        assert(s.skip(0) =~= s);
    } else {
        let rest = s.skip(1);
        assert forall|j: int| 0 <= j < k - 1 implies p(#[trigger] rest[j]) by {
            assert(rest[j] == s[j + 1]);
        }
        lemma_skip_leading(rest, p, k - 1);
        assert(rest.skip(k - 1) =~= s.skip(k));
    }
}

/// Where the characters from `k` on satisfy `p` and the one before, if any,
/// does not, `drop_trailing` keeps exactly the first `k`.
pub proof fn lemma_drop_trailing(s: Seq<char>, p: spec_fn(char) -> bool, k: int)
    requires
        0 <= k <= s.len(),
        forall|j: int| k <= j < s.len() ==> p(#[trigger] s[j]),
        k > 0 ==> !p(s[k - 1]),
    ensures
        drop_trailing(s, p) == s.take(k),
    decreases s.len() - k,
{
    if k == s.len() {
        assert(s.take(k) =~= s);
    } else {
        let rest = s.drop_last();
        lemma_drop_trailing(rest, p, k);
        assert(rest.take(k) =~= s.take(k));
    }
}

/// What `drop_trailing` leaves does not end with a character that satisfies
/// `p`.
pub proof fn lemma_drop_trailing_ends(s: Seq<char>, p: spec_fn(char) -> bool)
    ensures
        drop_trailing(s, p).len() == 0 || !p(drop_trailing(s, p).last()),
        drop_trailing(s, p).len() <= s.len(),
    decreases s.len(),
{
    if s.len() > 0 && p(s.last()) {
        lemma_drop_trailing_ends(s.drop_last(), p);
    }
}

/// Whether `c` is white space.
pub fn char_is_whitespace(c: char) -> (r: bool)
    ensures
        r == is_whitespace(c),
{
    let u: u32 = c as u32;
    (0x09 <= u && u <= 0x0D) || u == 0x20 || u == 0x85 || u == 0xA0 || u == 0x1680 || (0x2000 <= u
        && u <= 0x200A) || u == 0x2028 || u == 0x2029 || u == 0x202F || u == 0x205F || u == 0x3000
}

/// Whether `path` begins with a slash.
pub fn starts_with_slash(path: &str) -> (r: bool)
    ensures
        r == is_rooted(path@),
{
    let chars = to_chars(path);
    chars.len() > 0 && chars[0] == '/'
}

/// The normal form of `path`, in which it is matched against the routes. It
/// ends with a slash only where it is the root.
pub fn normalize_path(path: &str) -> (r: String)
    ensures
        r@ == normalized(path@),
        r@.len() > 0 && r@.last() == '/' ==> r@ == seq!['/'],
{
    proof {
        law_normal_form_has_no_trailing_slash(path@);
    }
    let chars = to_chars(path);
    let ghost ws = |c: char| is_whitespace(c);
    let ghost slash = |c: char| is_slash(c);
    let mut start: usize = 0;
    while start < chars.len() && char_is_whitespace(chars[start])
        invariant
            start <= chars.len(),
            forall|j: int| 0 <= j < start ==> is_whitespace(#[trigger] chars@[j]),
        decreases chars.len() - start,
    {
        start += 1;
    }
    let mut end: usize = chars.len();
    while end > start && char_is_whitespace(chars[end - 1])
        invariant
            start <= end <= chars.len(),
            forall|j: int| end <= j < chars.len() ==> is_whitespace(#[trigger] chars@[j]),
        decreases end,
    {
        end -= 1;
    }
    proof {
        let s = chars@;
        assert forall|j: int| 0 <= j < start implies ws(#[trigger] s[j]) by {
            assert(is_whitespace(s[j]));
        }
        lemma_skip_leading(s, ws, start as int);
        let rest = s.skip(start as int);
        assert forall|j: int| end - start <= j < rest.len() implies ws(#[trigger] rest[j]) by {
            assert(rest[j] == s[j + start]);
            assert(is_whitespace(s[j + start]));
        }
        lemma_drop_trailing(rest, ws, end - start);
        assert(rest.take(end - start) =~= s.subrange(start as int, end as int));
        assert(trimmed(s) == s.subrange(start as int, end as int));
    }
    let trimmed_end = end;
    if end - start > 1 && chars[end - 1] == '/' {
        while end > start && chars[end - 1] == '/'
            invariant
                start <= end <= trimmed_end <= chars.len(),
                forall|j: int| end <= j < trimmed_end ==> #[trigger] chars@[j] == '/',
            decreases end,
        {
            end -= 1;
        }
        proof {
            let t = chars@.subrange(start as int, trimmed_end as int);
            assert forall|j: int| end - start <= j < t.len() implies slash(#[trigger] t[j]) by {
                assert(t[j] == chars@[j + start]);
            }
            lemma_drop_trailing(t, slash, end - start);
            assert(t.take(end - start) =~= chars@.subrange(start as int, end as int));
        }
    }
    from_chars(&chars, start, end)
}

/// A path in normal form is its own normal form: to normalize it again changes
/// nothing.
pub proof fn law_normalize_keeps_normal(path: Seq<char>)
    requires
        is_normal(path),
    ensures
        normalized(path) == path,
{
    let ws = |c: char| is_whitespace(c);
    assert(!is_whitespace('/'));
    lemma_skip_leading(path, ws, 0);
    assert(path.skip(0) =~= path);
    lemma_drop_trailing(path, ws, path.len() as int);
    assert(path.take(path.len() as int) =~= path);
}

/// A normal form ends with a slash only where it is the root.
pub proof fn law_normal_form_has_no_trailing_slash(path: Seq<char>)
    ensures
        normalized(path).len() > 0 && normalized(path).last() == '/' ==> normalized(path)
            == seq!['/'],
{
    let t = trimmed(path);
    let slash = |c: char| is_slash(c);
    if t.len() > 1 && t.last() == '/' {
        lemma_drop_trailing_ends(t, slash);
    } else if t.len() == 1 && t.last() == '/' {
        assert(t =~= seq!['/']);
    }
}

/// The root path is in normal form, and stays as it is.
pub proof fn law_root_is_normal()
    ensures
        normalized(seq!['/']) == seq!['/'],
{
    law_normalize_keeps_normal(seq!['/']);
}

} // verus!
