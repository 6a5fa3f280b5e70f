//! Strings as sequences of characters: views and conversions.

use vstd::prelude::*;
use vstd::string::StringExecFns;

verus! {

/// `String::push` appends the character to the end of the string.
pub assume_specification[ String::push ](s: &mut String, c: char)
    ensures
        final(s)@ == old(s)@.push(c),
;

/// The view of a list of strings: the list of their character sequences.
pub open spec fn names_view(v: Seq<String>) -> Seq<Seq<char>> {
    v.map_values(|s: String| s@)
}

/// The characters of `s`, in order.
pub fn to_chars(s: &str) -> (v: Vec<char>)
    ensures
        v@ == s@,
{
    let mut v: Vec<char> = Vec::new();
    for c in it: s.chars()
        invariant
            v@ == it.seq().take(it.index() as int),
            it.seq() == s@,
    {
        v.push(c);
    }
    v
}

/// The string made of the characters `v[from..to]`.
pub fn from_chars(v: &Vec<char>, from: usize, to: usize) -> (s: String)
    requires
        from <= to <= v.len(),
    ensures
        s@ == v@.subrange(from as int, to as int),
{
    let mut s = String::new();
    let mut i: usize = from;
    while i < to
        invariant
            from <= i <= to <= v.len(),
            s@ == v@.subrange(from as int, i as int),
        decreases to - i,
    {
        s.push(v[i]);
        i += 1;
    }
    s
}

/// The copies of the strings of `v`, in their order.
pub fn clone_strings(v: &Vec<String>) -> (r: Vec<String>)
    ensures
        names_view(r@) == names_view(v@),
{
    let mut r: Vec<String> = Vec::new();
    let mut i: usize = 0;
    while i < v.len()
        invariant
            i <= v.len(),
            r@.len() == i,
            forall|j: int| 0 <= j < i ==> (#[trigger] r@[j])@ == v@[j]@,
        decreases v.len() - i,
    {
        let item = v[i].clone();
        r.push(item);
        i += 1;
    }
    assert(names_view(r@) =~= names_view(v@));
    r
}

/// Whether `s` ends with `suffix`.
pub open spec fn ends_with(s: Seq<char>, suffix: Seq<char>) -> bool {
    s.len() >= suffix.len() && s.skip(s.len() - suffix.len()) == suffix
}

/// Whether `s` ends with `suffix`.
pub fn str_ends_with(s: &str, suffix: &str) -> (r: bool)
    ensures
        r == ends_with(s@, suffix@),
{
    let a = to_chars(s);
    let b = to_chars(suffix);
    if a.len() < b.len() {
        return false;
    }
    let offset = a.len() - b.len();
    let mut i: usize = 0;
    while i < b.len()
        invariant
            i <= b.len(),
            a@ == s@,
            b@ == suffix@,
            offset + b.len() == a.len(),
            forall|j: int| 0 <= j < i ==> a@[offset + j] == b@[j],
        decreases b.len() - i,
    {
        if a[offset + i] != b[i] {
            assert(a@.skip(offset as int)[i as int] != b@[i as int]);
            return false;
        }
        i += 1;
    }
    assert(a@.skip(offset as int) =~= b@);
    true
}

/// Whether `c` occurs in `s`.
pub fn str_contains(s: &str, c: char) -> (r: bool)
    ensures
        r == s@.contains(c),
{
    let chars = to_chars(s);
    let mut i: usize = 0;
    while i < chars.len()
        invariant
            i <= chars.len(),
            chars@ == s@,
            forall|j: int| 0 <= j < i ==> chars@[j] != c,
        decreases chars.len() - i,
    {
        if chars[i] == c {
            assert(s@[i as int] == c);
            return true;
        }
        i += 1;
    }
    false
}

/// The parts of `s` between the occurrences of `sep`: one more part than there
/// are separators, each possibly empty.
pub open spec fn split(s: Seq<char>, sep: char) -> Seq<Seq<char>>
    decreases s.len(),
{
    if s.len() == 0 {
        seq![Seq::empty()]
    } else {
        let before = split(s.drop_last(), sep);
        if s.last() == sep {
            before.push(Seq::empty())
        } else {
            before.drop_last().push(before.last().push(s.last()))
        }
    }
}

/// The parts of `s` between the occurrences of `sep`.
pub fn split_str(s: &str, sep: char) -> (parts: Vec<String>)
    ensures
        names_view(parts@) == split(s@, sep),
        parts@.len() >= 1,
{
    let chars = to_chars(s);
    let mut parts: Vec<String> = Vec::new();
    let mut current = String::new();
    let mut i: usize = 0;
    proof {
        assert(chars@.take(0) =~= Seq::empty());
        assert(names_view(parts@).push(current@) =~= split(chars@.take(0), sep));
    }
    while i < chars.len()
        invariant
            i <= chars.len(),
            chars@ == s@,
            names_view(parts@).push(current@) == split(chars@.take(i as int), sep),
        decreases chars.len() - i,
    {
        let ghost done = names_view(parts@);
        let ghost open = current@;
        proof {
            assert(chars@.take(i as int + 1).drop_last() =~= chars@.take(i as int));
            assert(chars@.take(i as int + 1).last() == chars@[i as int]);
            assert(done.push(open).last() == open);
            assert(done.push(open).drop_last() =~= done);
        }
        if chars[i] == sep {
            parts.push(current);
            current = String::new();
            proof {
                assert(names_view(parts@) =~= done.push(open));
            }
        } else {
            current.push(chars[i]);
        }
        i += 1;
    }
    proof {
        assert(chars@.take(chars.len() as int) =~= chars@);
    }
    let ghost done = names_view(parts@);
    let ghost open = current@;
    parts.push(current);
    assert(names_view(parts@) =~= done.push(open));
    parts
}

/// The character of the decimal digit `d`.
pub open spec fn digit_char(d: nat) -> char {
    if d == 0 {
        '0'
    } else if d == 1 {
        '1'
    } else if d == 2 {
        '2'
    } else if d == 3 {
        '3'
    } else if d == 4 {
        '4'
    } else if d == 5 {
        '5'
    } else if d == 6 {
        '6'
    } else if d == 7 {
        '7'
    } else if d == 8 {
        '8'
    } else {
        '9'
    }
}

/// Whether `c` is a decimal digit.
pub open spec fn is_digit(c: char) -> bool {
    '0' <= c <= '9'
}

/// The value of the decimal digit `c`.
pub open spec fn digit_value(c: char) -> nat {
    (c as u32 - '0' as u32) as nat
}

/// The decimal notation of `n`, without sign or leading zeros.
pub open spec fn decimal(n: nat) -> Seq<char>
    decreases n,
{
    if n < 10 {
        seq![digit_char(n)]
    } else {
        decimal(n / 10).push(digit_char(n % 10))
    }
}

/// The number that the digits of `s` denote. A character that is no digit
/// counts as zero.
pub open spec fn digits_value(s: Seq<char>) -> nat
    decreases s.len(),
{
    if s.len() == 0 {
        0
    } else {
        digits_value(s.drop_last()) * 10 + if is_digit(s.last()) {
            digit_value(s.last())
        } else {
            0
        }
    }
}

/// Whether `s` is a non-empty run of decimal digits.
pub open spec fn is_number(s: Seq<char>) -> bool {
    s.len() > 0 && forall|i: int| 0 <= i < s.len() ==> is_digit(#[trigger] s[i])
}

/// The digits of `s`: `s` itself, without the plus sign that may stand first.
pub open spec fn unsigned_part(s: Seq<char>) -> Seq<char> {
    if s.len() > 0 && s[0] == '+' {
        s.skip(1)
    } else {
        s
    }
}

/// The number that `s` denotes in decimal notation: an optional plus sign and
/// then digits only, whose value fits in 32 bits.
pub open spec fn parsed_u32(s: Seq<char>) -> Option<u32> {
    let digits = unsigned_part(s);
    if is_number(digits) && digits_value(digits) <= u32::MAX {
        Some(digits_value(digits) as u32)
    } else {
        None
    }
}

/// The digits of a prefix denote no more than the digits of the whole.
pub proof fn lemma_digits_value_grows(s: Seq<char>, k: int)
    requires
        0 <= k <= s.len(),
    ensures
        digits_value(s.take(k)) <= digits_value(s),
    decreases s.len() - k,
{
    if k == s.len() {
        assert(s.take(k) =~= s);
    } else {
        lemma_digits_value_grows(s.drop_last(), k);
        assert(s.drop_last().take(k) =~= s.take(k));
        assert(digits_value(s.drop_last()) <= digits_value(s)) by (nonlinear_arith)
            requires
                digits_value(s) >= digits_value(s.drop_last()) * 10,
        ;
    }
}

/// The character of the digit `d`.
pub fn digit_to_char(d: u32) -> (c: char)
    requires
        d < 10,
    ensures
        c == digit_char(d as nat),
{
    if d == 0 {
        '0'
    } else if d == 1 {
        '1'
    } else if d == 2 {
        '2'
    } else if d == 3 {
        '3'
    } else if d == 4 {
        '4'
    } else if d == 5 {
        '5'
    } else if d == 6 {
        '6'
    } else if d == 7 {
        '7'
    } else if d == 8 {
        '8'
    } else {
        '9'
    }
}

/// Appends the decimal notation of `n` to `s`.
pub fn push_decimal(s: &mut String, n: u32)
    ensures
        final(s)@ == old(s)@ + decimal(n as nat),
    decreases n,
{
    if n >= 10 {
        push_decimal(s, n / 10);
    }
    s.push(digit_to_char(n % 10));
    proof {
        if n >= 10 {
            assert(final(s)@ =~= old(s)@ + decimal(n as nat));
        } else {
            assert(final(s)@ =~= old(s)@ + decimal(n as nat));
        }
    }
}

/// The decimal notation of `n`.
pub fn u32_to_string(n: u32) -> (s: String)
    ensures
        s@ == decimal(n as nat),
{
    let mut s = String::new();
    push_decimal(&mut s, n);
    assert(s@ =~= decimal(n as nat));
    s
}

/// The number that `s` denotes in decimal notation, if it denotes one that
/// fits in 32 bits.
pub fn parse_u32(s: &str) -> (r: Option<u32>)
    ensures
        r == parsed_u32(s@),
{
    let chars = to_chars(s);
    let start: usize = if chars.len() > 0 && chars[0] == '+' {
        1
    } else {
        0
    };
    let ghost digits = unsigned_part(chars@);
    proof {
        assert(digits =~= chars@.skip(start as int));
    }
    if chars.len() == start {
        return None;
    }
    let mut value: u32 = 0;
    let mut i: usize = start;
    proof {
        assert(digits.take(0) =~= Seq::empty());
    }
    while i < chars.len()
        invariant
            start <= i <= chars.len(),
            chars@ == s@,
            digits == chars@.skip(start as int),
            digits == unsigned_part(s@),
            forall|j: int| 0 <= j < i - start ==> is_digit(#[trigger] digits[j]),
            value == digits_value(digits.take(i - start)),
        decreases chars.len() - i,
    {
        let c = chars[i];
        proof {
            assert(digits[i - start] == c);
            assert(digits.take(i - start + 1).drop_last() =~= digits.take(i - start));
            assert(digits.take(i - start + 1).last() == c);
        }
        if !('0' <= c && c <= '9') {
            return None;
        }
        let d: u32 = c as u32 - '0' as u32;
        proof {
            assert(is_digit(c));
            assert(digit_value(c) == d);
            assert(digits_value(digits.take(i - start + 1)) == value * 10 + d);
        }
        if value > (u32::MAX - d) / 10 {
            proof {
                lemma_digits_value_grows(digits, i - start + 1);
                assert(value * 10 + d > u32::MAX);
            }
            return None;
        }
        value = value * 10 + d;
        i += 1;
    }
    proof {
        assert(digits.take(digits.len() as int) =~= digits);
    }
    Some(value)
}

/// The texts of `lines`, with a line feed between each two.
pub open spec fn joined_lines(lines: Seq<Seq<char>>) -> Seq<char>
    decreases lines.len(),
{
    if lines.len() == 0 {
        Seq::empty()
    } else if lines.len() == 1 {
        lines[0]
    } else {
        joined_lines(lines.drop_last()) + seq!['\n'] + lines.last()
    }
}

/// The texts of `lines`, with a line feed between each two.
pub fn join_lines(lines: &Vec<String>) -> (s: String)
    ensures
        s@ == joined_lines(names_view(lines@)),
{
    let mut s = String::new();
    let mut i: usize = 0;
    proof {
        assert(names_view(lines@).take(0) =~= Seq::empty());
    }
    while i < lines.len()
        invariant
            i <= lines.len(),
            s@ == joined_lines(names_view(lines@).take(i as int)),
        decreases lines.len() - i,
    {
        let ghost all = names_view(lines@);
        let ghost before = s@;
        if i > 0 {
            s.push('\n');
        }
        s.append(lines[i].as_str());
        proof {
            assert(all.take(i as int + 1).drop_last() =~= all.take(i as int));
            assert(all.take(i as int + 1).last() == lines@[i as int]@);
            if i == 0 {
                assert(all.take(1)[0] == lines@[0]@);
                assert(s@ =~= lines@[0]@);
            } else {
                assert(s@ =~= before + seq!['\n'] + lines@[i as int]@);
            }
        }
        i += 1;
    }
    proof {
        assert(names_view(lines@).take(lines@.len() as int) =~= names_view(lines@));
    }
    s
}

/// `split` yields at least one part.
pub proof fn lemma_split_nonempty(s: Seq<char>, sep: char)
    ensures
        split(s, sep).len() >= 1,
    decreases s.len(),
{
    if s.len() > 0 {
        lemma_split_nonempty(s.drop_last(), sep);
    }
}

/// A text that is appended without a separator in it lengthens the last part.
pub proof fn lemma_split_append(s: Seq<char>, t: Seq<char>, sep: char)
    requires
        !t.contains(sep),
    ensures
        split(s + t, sep) == split(s, sep).drop_last().push(split(s, sep).last() + t),
    decreases t.len(),
{
    lemma_split_nonempty(s, sep);
    let parts = split(s, sep);
    if t.len() == 0 {
        assert(s + t =~= s);
        assert(parts.last() + t =~= parts.last());
        assert(parts.drop_last().push(parts.last()) =~= parts);
    } else {
        let init = t.drop_last();
        assert(!init.contains(sep)) by {
            if init.contains(sep) {
                let i = choose|i: int| 0 <= i < init.len() && init[i] == sep;
                assert(t[i] == sep);
            }
        }
        assert(t.last() != sep) by {
            if t.last() == sep {
                assert(t[t.len() - 1] == sep);
            }
        }
        lemma_split_append(s, init, sep);
        assert((s + t).drop_last() =~= s + init);
        assert((s + t).last() == t.last());
        let before = parts.drop_last().push(parts.last() + init);
        assert(before.drop_last() =~= parts.drop_last());
        assert(before.last() == parts.last() + init);
        assert((parts.last() + init).push(t.last()) =~= parts.last() + t);
    }
}

/// A separator that is appended begins a new, empty part.
pub proof fn lemma_split_separator(s: Seq<char>, sep: char)
    ensures
        split(s.push(sep), sep) == split(s, sep).push(Seq::empty()),
{
    assert(s.push(sep).drop_last() =~= s);
}

/// The decimal notation of a number is made of digits, and denotes the
/// number.
pub proof fn lemma_decimal_denotes(n: nat)
    ensures
        is_number(decimal(n)),
        digits_value(decimal(n)) == n,
        !decimal(n).contains('.'),
        decimal(n)[0] != '+',
    decreases n,
{
    let d = digit_char(n % 10);
    assert(is_digit(d) && digit_value(d) == n % 10);
    if n < 10 {
        let s = decimal(n);
        assert(s =~= seq![d]);
        assert(s.drop_last() =~= Seq::<char>::empty());
        assert(digits_value(s.drop_last()) == 0);
    } else {
        lemma_decimal_denotes(n / 10);
        let head = decimal(n / 10);
        let s = decimal(n);
        assert(s.drop_last() =~= head);
        assert(s.last() == d);
        assert(s[0] == head[0]);
        assert forall|i: int| 0 <= i < s.len() implies is_digit(#[trigger] s[i]) by {
            if i < head.len() {
                assert(s[i] == head[i]);
            }
        }
    }
    assert(!decimal(n).contains('.')) by {
        if decimal(n).contains('.') {
            let i = choose|i: int| 0 <= i < decimal(n).len() && decimal(n)[i] == '.';
            assert(is_digit(decimal(n)[i]));
        }
    }
}

/// To read the decimal notation of a number gives the number back.
pub proof fn law_decimal_parses_back(n: u32)
    ensures
        parsed_u32(decimal(n as nat)) == Some(n),
{
    lemma_decimal_denotes(n as nat);
}

} // verus!
