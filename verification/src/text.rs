//! Character and string helpers shared by the rest of the crate.

use vstd::prelude::*;
use vstd::string::StringExecFns;

verus! {

/// Whether `c` has the Unicode property White_Space.
pub open spec fn is_space(c: char) -> bool {
    let n = c as u32;
    (0x09 <= n <= 0x0D) || n == 0x20 || n == 0x85 || n == 0xA0 || n == 0x1680
        || (0x2000 <= n <= 0x200A) || n == 0x2028 || n == 0x2029 || n == 0x202F
        || n == 0x205F || n == 0x3000
}

/// Executable form of [`is_space`].
pub fn char_is_space(c: char) -> (r: bool)
    ensures
        r == is_space(c),
{
    let n: u32 = c as u32;
    (0x09 <= n && n <= 0x0D) || n == 0x20 || n == 0x85 || n == 0xA0 || n == 0x1680
        || (0x2000 <= n && n <= 0x200A) || n == 0x2028 || n == 0x2029 || n == 0x202F
        || n == 0x205F || n == 0x3000
}

/// Appends one character to `s` through `String::push`, which adds the
/// character at the end and leaves the rest as it was.
#[verifier::external_body]
pub(crate) fn push_char(s: &mut String, c: char)
    ensures
        final(s)@ == old(s)@.push(c),
{
    s.push(c);
}

/// The decimal digit for `d`.
pub open spec fn digit_of(d: nat) -> char
    recommends
        d < 10,
{
    if d == 0 {
        '0'
    } else if d == 1 {
        '1'
    } else if d == 2 {
        '2'
    } else if d == 3 {
        '3'
    } else if d == 4 {
        '4'
    } else if d == 5 {
        '5'
    } else if d == 6 {
        '6'
    } else if d == 7 {
        '7'
    } else if d == 8 {
        '8'
    } else {
        '9'
    }
}

/// The decimal numeral of `n`, without leading zeros; `0` is written "0".
pub open spec fn decimal(n: nat) -> Seq<char>
    decreases n,
{
    if n < 10 {
        seq![digit_of(n)]
    } else {
        decimal(n / 10).push(digit_of(n % 10))
    }
}

fn digit_char(d: u64) -> (c: char)
    requires
        d < 10,
    ensures
        c == digit_of(d as nat),
{
    if d == 0 {
        '0'
    } else if d == 1 {
        '1'
    } else if d == 2 {
        '2'
    } else if d == 3 {
        '3'
    } else if d == 4 {
        '4'
    } else if d == 5 {
        '5'
    } else if d == 6 {
        '6'
    } else if d == 7 {
        '7'
    } else if d == 8 {
        '8'
    } else {
        '9'
    }
}

/// Writes `n` in decimal.
pub fn decimal_text(n: u64) -> (r: String)
    ensures
        r@ == decimal(n as nat),
    decreases n,
{
    if n < 10 {
        let mut s = String::new();
        push_char(&mut s, digit_char(n));
        s
    } else {
        let mut s = decimal_text(n / 10);
        push_char(&mut s, digit_char(n % 10));
        s
    }
}

/// `s` without the whitespace at its end.
pub open spec fn trim_end(s: Seq<char>) -> Seq<char>
    decreases s.len(),
{
    if s.len() > 0 && is_space(s.last()) {
        trim_end(s.drop_last())
    } else {
        s
    }
}

/// The longest run of characters other than whitespace that `s` ends with.
pub open spec fn last_word(s: Seq<char>) -> Seq<char>
    decreases s.len(),
{
    if s.len() == 0 || is_space(s.last()) {
        Seq::empty()
    } else {
        last_word(s.drop_last()).push(s.last())
    }
}

/// The last whitespace-delimited token of `s`, if `s` holds anything but
/// whitespace.
pub open spec fn last_token_of(s: Seq<char>) -> Option<Seq<char>> {
    let t = trim_end(s);
    if t.len() == 0 {
        None
    } else {
        Some(last_word(t))
    }
}

/// Where the text of `s` ends: the length of `s` without the whitespace at
/// its end.
fn end_of_text(s: &str) -> (end: usize)
    ensures
        end <= s@.len(),
        trim_end(s@) == s@.subrange(0, end as int),
{
    let n: usize = s.unicode_len();
    let mut end: usize = n;
    assert(s@.subrange(0, n as int) =~= s@);
    while end > 0 && char_is_space(s.get_char(end - 1))
        invariant
            end <= n == s@.len(),
            trim_end(s@) == trim_end(s@.subrange(0, end as int)),
        decreases end,
    {
        proof {
            let cur = s@.subrange(0, end as int);
            assert(cur.last() == s@[end - 1]);
            assert(cur.drop_last() =~= s@.subrange(0, end - 1));
        }
        end = end - 1;
    }
    proof {
        let trimmed = s@.subrange(0, end as int);
        if end > 0 {
            assert(trimmed.last() == s@[end - 1]);
        }
        assert(trim_end(trimmed) == trimmed);
    }
    end
}

/// Extracts the last whitespace-delimited token of `s`.
pub fn last_token(s: &str) -> (r: Option<String>)
    ensures
        match r {
            Some(t) => last_token_of(s@) == Some(t@),
            None => last_token_of(s@) is None,
        },
{
    let n: usize = s.unicode_len();
    let end: usize = end_of_text(s);
    let ghost trimmed = s@.subrange(0, end as int);
    if end == 0 {
        return None;
    }
    let mut start: usize = end;
    proof {
        assert(s@.subrange(end as int, end as int) =~= Seq::<char>::empty());
    }
    while start > 0 && !char_is_space(s.get_char(start - 1))
        invariant
            start <= end <= n == s@.len(),
            trimmed == s@.subrange(0, end as int),
            last_word(trimmed) == last_word(s@.subrange(0, start as int)) + s@.subrange(
                start as int,
                end as int,
            ),
        decreases start,
    {
        proof {
            let cur = s@.subrange(0, start as int);
            assert(cur.last() == s@[start - 1]);
            assert(cur.drop_last() =~= s@.subrange(0, start - 1));
            assert(last_word(cur.drop_last()).push(cur.last()) + s@.subrange(
                start as int,
                end as int,
            ) =~= last_word(cur.drop_last()) + s@.subrange(start - 1, end as int));
        }
        start = start - 1;
    }
    proof {
        let cur = s@.subrange(0, start as int);
        if start > 0 {
            assert(cur.last() == s@[start - 1]);
        }
        assert(last_word(cur) =~= Seq::<char>::empty());
        assert(last_word(trimmed) =~= s@.subrange(start as int, end as int));
    }
    let token = s.substring_char(start, end);
    Some(token.to_owned())
}

/// Whether `s` ends with `suffix`.
pub open spec fn ends_with(s: Seq<char>, suffix: Seq<char>) -> bool {
    suffix.len() <= s.len() && s.subrange(s.len() - suffix.len(), s.len() as int) == suffix
}

/// Executable form of [`ends_with`].
pub fn str_ends_with(s: &str, suffix: &str) -> (r: bool)
    ensures
        r == ends_with(s@, suffix@),
{
    let n: usize = s.unicode_len();
    let m: usize = suffix.unicode_len();
    if m > n {
        false
    } else {
        let tail: String = s.substring_char(n - m, n).to_owned();
        let want: String = suffix.to_owned();
        tail == want
    }
}

/// `s` without `suffix` at its end; all of `s` where it does not end with
/// `suffix`.
pub open spec fn without_suffix(s: Seq<char>, suffix: Seq<char>) -> Seq<char> {
    if ends_with(s, suffix) {
        s.subrange(0, s.len() - suffix.len())
    } else {
        s
    }
}

/// Executable form of [`without_suffix`].
pub fn str_without_suffix<'a>(s: &'a str, suffix: &str) -> (r: &'a str)
    ensures
        r@ == without_suffix(s@, suffix@),
{
    if str_ends_with(s, suffix) {
        s.substring_char(0, s.unicode_len() - suffix.unicode_len())
    } else {
        s
    }
}

/// `s` without its first character; the empty string stays empty.
pub open spec fn without_first(s: Seq<char>) -> Seq<char> {
    if s.len() == 0 {
        s
    } else {
        s.subrange(1, s.len() as int)
    }
}

/// Executable form of [`without_first`].
pub fn str_without_first(s: &str) -> (r: &str)
    ensures
        r@ == without_first(s@),
{
    let n: usize = s.unicode_len();
    if n == 0 {
        s
    } else {
        s.substring_char(1, n)
    }
}

/// `s` without the whitespace at its start.
pub open spec fn trim_start(s: Seq<char>) -> Seq<char>
    decreases s.len(),
{
    if s.len() > 0 && is_space(s[0]) {
        trim_start(s.skip(1))
    } else {
        s
    }
}

/// `s` without the whitespace at its two ends.
pub open spec fn trim(s: Seq<char>) -> Seq<char> {
    trim_start(trim_end(s))
}

/// Executable form of [`trim`].
pub fn str_trim(s: &str) -> (r: &str)
    ensures
        r@ == trim(s@),
{
    let n: usize = s.unicode_len();
    let end: usize = end_of_text(s);
    let ghost trimmed = s@.subrange(0, end as int);
    let mut start: usize = 0;
    proof {
        assert(s@.subrange(0, end as int) =~= trimmed);
    }
    while start < end && char_is_space(s.get_char(start))
        invariant
            start <= end <= n == s@.len(),
            trimmed == s@.subrange(0, end as int),
            trim_start(trimmed) == trim_start(s@.subrange(start as int, end as int)),
        decreases end - start,
    {
        proof {
            let cur = s@.subrange(start as int, end as int);
            assert(cur[0] == s@[start as int]);
            assert(cur.skip(1) =~= s@.subrange(start + 1, end as int));
        }
        start = start + 1;
    }
    proof {
        let cur = s@.subrange(start as int, end as int);
        if start < end {
            assert(cur[0] == s@[start as int]);
        }
        assert(trim_start(cur) == cur);
    }
    s.substring_char(start, end)
}

/// The decimal numeral of `n`, with a minus sign before it where `n` is
/// negative.
pub open spec fn signed_decimal(n: int) -> Seq<char> {
    if n < 0 {
        seq!['-'] + decimal((-n) as nat)
    } else {
        decimal(n as nat)
    }
}

/// Writes `n` in decimal.
pub fn signed_decimal_text(n: i32) -> (r: String)
    ensures
        r@ == signed_decimal(n as int),
{
    let wide: i64 = n as i64;
    if wide < 0 {
        let mut s = String::new();
        push_char(&mut s, '-');
        s.append(decimal_text((0 - wide) as u64).as_str());
        proof {
            assert(s@ =~= signed_decimal(n as int));
        }
        s
    } else {
        decimal_text(wide as u64)
    }
}

} // verus!
