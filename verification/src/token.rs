use vstd::prelude::*;

verus! {

// ------------------------------------------------------------------
// The text of a command token, as characters
// ------------------------------------------------------------------

/// `s` without the prefix `p`, when `s` starts with it.
pub open spec fn strip_prefix(s: Seq<char>, p: Seq<char>) -> Option<Seq<char>> {
    if p.is_prefix_of(s) {
        Some(s.skip(p.len() as int))
    } else {
        None
    }
}

/// Index of the first `c` in `s` at or after `i`.
pub open spec fn find_from(s: Seq<char>, c: char, i: int) -> Option<int>
    decreases s.len() - i,
{
    if i < 0 || i >= s.len() {
        None
    } else if s[i] == c {
        Some(i)
    } else {
        find_from(s, c, i + 1)
    }
}

/// The parts of `s` before and after the first `c`.
pub open spec fn split_once(s: Seq<char>, c: char) -> Option<(Seq<char>, Seq<char>)> {
    match find_from(s, c, 0) {
        Some(k) => Some((s.take(k), s.skip(k + 1))),
        None => None,
    }
}

/// The characters with the Unicode `White_Space` property.
pub open spec fn is_white_space(c: char) -> bool {
    let v = c as u32;
    ||| 0x09 <= v <= 0x0d
    ||| v == 0x20
    ||| v == 0x85
    ||| v == 0xa0
    ||| v == 0x1680
    ||| 0x2000 <= v <= 0x200a
    ||| v == 0x2028
    ||| v == 0x2029
    ||| v == 0x202f
    ||| v == 0x205f
    ||| v == 0x3000
}

/// `s` without its leading white space.
pub open spec fn trim_start(s: Seq<char>) -> Seq<char>
    decreases s.len(),
{
    if s.len() > 0 && is_white_space(s[0]) {
        trim_start(s.drop_first())
    } else {
        s
    }
}

/// `s` without its trailing white space.
pub open spec fn trim_end(s: Seq<char>) -> Seq<char>
    decreases s.len(),
{
    if s.len() > 0 && is_white_space(s.last()) {
        trim_end(s.drop_last())
    } else {
        s
    }
}

/// `s` without leading and trailing white space.
pub open spec fn trim(s: Seq<char>) -> Seq<char> {
    trim_end(trim_start(s))
}

pub open spec fn is_digit(c: char) -> bool {
    '0' <= c <= '9'
}

pub open spec fn all_digits(s: Seq<char>) -> bool {
    forall|i: int| 0 <= i < s.len() ==> is_digit(#[trigger] s[i])
}

/// The number that the decimal digits `s` spell.
pub open spec fn digits_value(s: Seq<char>) -> int
    decreases s.len(),
{
    if s.len() == 0 {
        0
    } else {
        digits_value(s.drop_last()) * 10 + (s.last() as int - '0' as int)
    }
}

/// A nonempty run of digits whose value is at most `max`.
pub open spec fn digits_within(d: Seq<char>, max: int) -> Option<int> {
    if d.len() > 0 && all_digits(d) && digits_value(d) <= max {
        Some(digits_value(d))
    } else {
        None
    }
}

/// An unsigned decimal number, optionally preceded by `+`, that is at most
/// `max`; nothing else (no white space, no `-`).
pub open spec fn parse_unsigned(s: Seq<char>, max: int) -> Option<int> {
    if s.len() > 0 && s[0] == '+' {
        digits_within(s.drop_first(), max)
    } else {
        digits_within(s, max)
    }
}

/// A signed decimal number, optionally preceded by `+` or `-`, within
/// `min..=max`; nothing else.
pub open spec fn parse_signed(s: Seq<char>, min: int, max: int) -> Option<int> {
    if s.len() > 0 && s[0] == '-' {
        match digits_within(s.drop_first(), -min) {
            Some(v) => Some(-v),
            None => None,
        }
    } else {
        parse_unsigned(s, max)
    }
}

// ------------------------------------------------------------------
// Executable pieces, on a character range `lo..hi` of a token
// ------------------------------------------------------------------

/// The characters of `s`.
pub fn chars_of(s: &str) -> (v: Vec<char>)
    ensures
        v@ == s@,
{
    let n = s.unicode_len();
    let mut v: Vec<char> = Vec::new();
    let mut i: usize = 0;
    while i < n
        invariant
            i <= n,
            n == s@.len(),
            v@ == s@.take(i as int),
        decreases n - i,
    {
        v.push(s.get_char(i));
        assert(v@ =~= s@.take(i + 1));
        i = i + 1;
    }
    assert(v@ =~= s@);
    v
}

/// The range `lo..hi` of `t` spells `w`.
pub fn range_is(t: &Vec<char>, lo: usize, hi: usize, w: &str) -> (r: bool)
    requires
        lo <= hi <= t@.len(),
    ensures
        r == (t@.subrange(lo as int, hi as int) == w@),
{
    let n = w.unicode_len();
    if hi - lo != n {
        assert(t@.subrange(lo as int, hi as int).len() != w@.len());
        return false;
    }
    let mut i: usize = 0;
    while i < n
        invariant
            i <= n,
            n == w@.len(),
            hi - lo == n,
            lo <= hi <= t@.len(),
            forall|j: int| 0 <= j < i ==> t@[lo + j] == w@[j],
        decreases n - i,
    {
        if t[lo + i] != w.get_char(i) {
            assert(t@.subrange(lo as int, hi as int)[i as int] != w@[i as int]);
            return false;
        }
        i = i + 1;
    }
    assert(t@.subrange(lo as int, hi as int) =~= w@);
    true
}

/// `s` spells `w`.
pub fn same_text(s: &str, w: &str) -> (r: bool)
    ensures
        r == (s@ == w@),
{
    let t = chars_of(s);
    let n = t.len();
    assert(t@.subrange(0, n as int) =~= t@);
    range_is(&t, 0, n, w)
}

/// The range `lo..hi` of `t` starts with `p`.
pub fn range_starts_with(t: &Vec<char>, lo: usize, hi: usize, p: &str) -> (r: bool)
    requires
        lo <= hi <= t@.len(),
    ensures
        r == p@.is_prefix_of(t@.subrange(lo as int, hi as int)),
{
    let n = p.unicode_len();
    if n > hi - lo {
        return false;
    }
    let r = range_is(t, lo, lo + n, p);
    assert(t@.subrange(lo as int, hi as int).subrange(0, n as int) =~= t@.subrange(
        lo as int,
        lo + n,
    ));
    r
}

/// Index of the first `c` in the range `lo..hi` of `t`.
pub fn find_in_range(t: &Vec<char>, lo: usize, hi: usize, c: char) -> (r: Option<usize>)
    requires
        lo <= hi <= t@.len(),
    ensures
        match r {
            Some(k) => lo <= k < hi && find_from(t@.subrange(lo as int, hi as int), c, 0) == Some(
                k - lo,
            ),
            None => find_from(t@.subrange(lo as int, hi as int), c, 0) is None,
        },
{
    let ghost s = t@.subrange(lo as int, hi as int);
    let mut k: usize = lo;
    while k < hi
        invariant
            lo <= k <= hi <= t@.len(),
            s == t@.subrange(lo as int, hi as int),
            find_from(s, c, 0) == find_from(s, c, k - lo),
        decreases hi - k,
    {
        if t[k] == c {
            assert(s[k - lo] == c);
            return Some(k);
        }
        k = k + 1;
    }
    None
}

/// White space, as `char::is_whitespace` defines it.
pub fn white_space(c: char) -> (r: bool)
    ensures
        r == is_white_space(c),
{
    let v = c as u32;
    (0x09 <= v && v <= 0x0d) || v == 0x20 || v == 0x85 || v == 0xa0 || v == 0x1680 || (0x2000 <= v
        && v <= 0x200a) || v == 0x2028 || v == 0x2029 || v == 0x202f || v == 0x205f || v == 0x3000
}

/// The range `lo..hi` without leading and trailing white space.
pub fn trim_range(t: &Vec<char>, lo: usize, hi: usize) -> (r: (usize, usize))
    requires
        lo <= hi <= t@.len(),
    ensures
        lo <= r.0 <= r.1 <= hi,
        t@.subrange(r.0 as int, r.1 as int) == trim(t@.subrange(lo as int, hi as int)),
{
    let mut a: usize = lo;
    while a < hi && white_space(t[a])
        invariant
            lo <= a <= hi <= t@.len(),
            trim_start(t@.subrange(lo as int, hi as int)) == trim_start(
                t@.subrange(a as int, hi as int),
            ),
        decreases hi - a,
    {
        assert(t@.subrange(a as int, hi as int).drop_first() =~= t@.subrange(a + 1, hi as int));
        a = a + 1;
    }
    assert(trim_start(t@.subrange(a as int, hi as int)) == t@.subrange(a as int, hi as int));
    let mut b: usize = hi;
    while b > a && white_space(t[b - 1])
        invariant
            lo <= a <= b <= hi <= t@.len(),
            trim_end(t@.subrange(a as int, hi as int)) == trim_end(t@.subrange(a as int, b as int)),
        decreases b - a,
    {
        assert(t@.subrange(a as int, b as int).drop_last() =~= t@.subrange(a as int, b - 1));
        b = b - 1;
    }
    assert(trim_end(t@.subrange(a as int, b as int)) == t@.subrange(a as int, b as int));
    (a, b)
}

/// The digits of the range `lo..hi` and their value at most `max`, or `None`.
fn digits_in_range(t: &Vec<char>, lo: usize, hi: usize, max: u64) -> (r: Option<u64>)
    requires
        lo <= hi <= t@.len(),
    ensures
        match r {
            Some(v) => digits_within(t@.subrange(lo as int, hi as int), max as int) == Some(
                v as int,
            ),
            None => digits_within(t@.subrange(lo as int, hi as int), max as int) is None,
        },
{
    let ghost s = t@.subrange(lo as int, hi as int);
    if lo == hi {
        return None;
    }
    let cap: u128 = max as u128 + 1;
    let mut acc: u128 = 0;
    let mut k: usize = lo;
    while k < hi
        invariant
            lo <= k <= hi <= t@.len(),
            s == t@.subrange(lo as int, hi as int),
            cap == max + 1,
            all_digits(s.take(k - lo)),
            acc == (if digits_value(s.take(k - lo)) < cap {
                digits_value(s.take(k - lo))
            } else {
                cap as int
            }),
            0 <= digits_value(s.take(k - lo)),
        decreases hi - k,
    {
        let c = t[k];
        if !('0' <= c && c <= '9') {
            assert(!is_digit(s[k - lo]));
            return None;
        }
        let d: u128 = (c as u32 - '0' as u32) as u128;
        let ghost prev = s.take(k - lo);
        let ghost next = s.take(k - lo + 1);
        assert(next.drop_last() =~= prev);
        assert(digits_value(next) == digits_value(prev) * 10 + d);
        if acc < cap {
            let v = acc * 10 + d;
            acc = if v < cap {
                v
            } else {
                cap
            };
        }
        assert(all_digits(next)) by {
            assert forall|j: int| 0 <= j < next.len() implies is_digit(#[trigger] next[j]) by {
                if j < prev.len() {
                    assert(next[j] == prev[j]);
                }
            }
        }
        k = k + 1;
    }
    assert(s.take(hi - lo) =~= s);
    if acc < cap {
        Some(acc as u64)
    } else {
        None
    }
}

/// An unsigned number at most `max` in the range `lo..hi`, as `str::parse`
/// reads one.
pub fn parse_unsigned_range(t: &Vec<char>, lo: usize, hi: usize, max: u64) -> (r: Option<u64>)
    requires
        lo <= hi <= t@.len(),
    ensures
        match r {
            Some(v) => parse_unsigned(t@.subrange(lo as int, hi as int), max as int) == Some(
                v as int,
            ),
            None => parse_unsigned(t@.subrange(lo as int, hi as int), max as int) is None,
        },
{
    if lo < hi && t[lo] == '+' {
        assert(t@.subrange(lo as int, hi as int).drop_first() =~= t@.subrange(lo + 1, hi as int));
        digits_in_range(t, lo + 1, hi, max)
    } else {
        digits_in_range(t, lo, hi, max)
    }
}

/// An `i16` in the range `lo..hi`, as `str::parse` reads one.
pub fn parse_i16_range(t: &Vec<char>, lo: usize, hi: usize) -> (r: Option<i16>)
    requires
        lo <= hi <= t@.len(),
    ensures
        match r {
            Some(v) => parse_signed(t@.subrange(lo as int, hi as int), i16::MIN as int, i16::MAX as int)
                == Some(v as int),
            None => parse_signed(t@.subrange(lo as int, hi as int), i16::MIN as int, i16::MAX as int) is None,
        },
{
    if lo < hi && t[lo] == '-' {
        assert(t@.subrange(lo as int, hi as int).drop_first() =~= t@.subrange(lo + 1, hi as int));
        match digits_in_range(t, lo + 1, hi, 32768) {
            Some(v) => Some((0 - (v as i32)) as i16),
            None => None,
        }
    } else {
        match parse_unsigned_range(t, lo, hi, 32767) {
            Some(v) => Some(v as i16),
            None => None,
        }
    }
}

} // verus!
