//! Character-level text handling shared by the probes: Unicode whitespace,
//! trimming, word splitting, substring tests and unsigned number parsing.
//!
//! Every operation is specified over the character sequence of its input
//! (`s@`), with the same meaning as the `str` method it stands for.

use vstd::prelude::*;

verus! {

/// The Unicode `White_Space` property, the one `char::is_whitespace` tests.
pub open spec fn is_ws(c: char) -> bool {
    let u = c as u32;
    ||| 0x09 <= u <= 0x0d
    ||| u == 0x20
    ||| u == 0x85
    ||| u == 0xa0
    ||| u == 0x1680
    ||| 0x2000 <= u <= 0x200a
    ||| u == 0x2028
    ||| u == 0x2029
    ||| u == 0x202f
    ||| u == 0x205f
    ||| u == 0x3000
}

/// Whether `c` is whitespace in the sense of `char::is_whitespace`.
pub fn is_whitespace(c: char) -> (b: bool)
    ensures
        b == is_ws(c),
{
    let u = c as u32;
    (0x09 <= u && u <= 0x0d) || u == 0x20 || u == 0x85 || u == 0xa0 || u == 0x1680 || (0x2000
        <= u && u <= 0x200a) || u == 0x2028 || u == 0x2029 || u == 0x202f || u == 0x205f || u
        == 0x3000
}

/// The characters of `s`, in order.
pub fn chars_of(s: &str) -> (v: Vec<char>)
    ensures
        v@ == s@,
{
    let mut v: Vec<char> = Vec::new();
    for c in it: s.chars()
        invariant
            it.seq() == s@,
            v@ == it.seq().take(it.index() as int),
    {
        v.push(c);
    }
    v
}

/// The first position at or after `i` that does not hold whitespace
/// (the length of `s` if there is none).
pub open spec fn skip_ws_from(s: Seq<char>, i: int) -> int
    decreases s.len() - i,
{
    if 0 <= i < s.len() && is_ws(s[i]) {
        skip_ws_from(s, i + 1)
    } else {
        i
    }
}

/// The first position at or after `i` that holds whitespace
/// (the length of `s` if there is none): the end of the word starting at `i`.
pub open spec fn word_end_from(s: Seq<char>, i: int) -> int
    decreases s.len() - i,
{
    if 0 <= i < s.len() && !is_ws(s[i]) {
        word_end_from(s, i + 1)
    } else {
        i
    }
}

/// The end of `s.take(j)` once trailing whitespace is removed.
pub open spec fn trim_end_to(s: Seq<char>, j: int) -> int
    decreases j,
{
    if 0 < j <= s.len() && is_ws(s[j - 1]) {
        trim_end_to(s, j - 1)
    } else {
        j
    }
}

/// `s` without leading and trailing whitespace, as `str::trim` gives it.
pub open spec fn trimmed(s: Seq<char>) -> Seq<char> {
    let a = skip_ws_from(s, 0);
    let b = trim_end_to(s, s.len() as int);
    if a < b {
        s.subrange(a, b)
    } else {
        Seq::empty()
    }
}

/// The `n`-th whitespace-separated word of `s` (`n` counted from 0) as a pair of
/// positions, the way `str::split_whitespace` yields words.
pub open spec fn word_bounds(s: Seq<char>, n: nat) -> (int, int)
    decreases n,
{
    let from = if n == 0 {
        0
    } else {
        word_bounds(s, (n - 1) as nat).1
    };
    let a = skip_ws_from(s, from);
    (a, word_end_from(s, a))
}

/// The `n`-th whitespace-separated word of `s`; empty when `s` has fewer words.
pub open spec fn nth_word(s: Seq<char>, n: nat) -> Seq<char> {
    s.subrange(word_bounds(s, n).0, word_bounds(s, n).1)
}

/// `pat` occurs in `s` starting at position `i`.
pub open spec fn occurs_at(s: Seq<char>, pat: Seq<char>, i: int) -> bool {
    0 <= i && i + pat.len() <= s.len() && s.subrange(i, i + pat.len()) == pat
}

/// `pat` occurs somewhere in `s`, as `str::contains` decides.
pub open spec fn contains(s: Seq<char>, pat: Seq<char>) -> bool {
    exists|i: int| occurs_at(s, pat, i)
}

/// `s` begins with `pat`, as `str::starts_with` decides.
pub open spec fn starts_with(s: Seq<char>, pat: Seq<char>) -> bool {
    occurs_at(s, pat, 0)
}

/// ASCII upper-case letters mapped to lower case; every other character kept.
pub open spec fn ascii_lower(c: char) -> int {
    if 'A' as u32 <= c as u32 <= 'Z' as u32 {
        c as u32 + 32
    } else {
        c as u32 as int
    }
}

/// `a` and `b` are equal up to ASCII case, as `str::eq_ignore_ascii_case` decides.
pub open spec fn eq_ignore_ascii_case(a: Seq<char>, b: Seq<char>) -> bool {
    &&& a.len() == b.len()
    &&& forall|i: int| 0 <= i < a.len() ==> ascii_lower(#[trigger] a[i]) == ascii_lower(b[i])
}

/// The value of `c` as a digit in base `radix`, as `char::to_digit` gives it.
pub open spec fn char_digit(c: char, radix: nat) -> Option<nat> {
    let d: int = if '0' <= c <= '9' {
        c as int - '0' as int
    } else if 'a' <= c <= 'z' {
        c as int - 'a' as int + 10
    } else if 'A' <= c <= 'Z' {
        c as int - 'A' as int + 10
    } else {
        radix as int
    };
    if d < radix {
        Some(d as nat)
    } else {
        None
    }
}

/// Every character of `d` is a digit in base `radix`.
pub open spec fn all_digits(d: Seq<char>, radix: nat) -> bool {
    forall|i: int| 0 <= i < d.len() ==> (#[trigger] char_digit(d[i], radix)) is Some
}

/// The number that the digits `d` denote in base `radix`.
pub open spec fn digits_value(d: Seq<char>, radix: nat) -> nat
    decreases d.len(),
{
    if d.len() == 0 {
        0
    } else {
        digits_value(d.drop_last(), radix) * radix + match char_digit(d.last(), radix) {
            Some(x) => x,
            None => 0,
        }
    }
}

/// What `from_str_radix` gives for an unsigned integer type whose largest value
/// is `max`: an optional `+`, then at least one digit, and no overflow.
pub open spec fn parse_unsigned(w: Seq<char>, radix: nat, max: nat) -> Option<nat> {
    let d = if w.len() > 1 && w[0] == '+' {
        w.drop_first()
    } else {
        w
    };
    if d.len() > 0 && all_digits(d, radix) && digits_value(d, radix) <= max {
        Some(digits_value(d, radix))
    } else {
        None
    }
}

/// What `str::parse::<u64>` gives for `w`.
pub open spec fn parse_u64(w: Seq<char>) -> Option<u64> {
    match parse_unsigned(w, 10, u64::MAX as nat) {
        Some(n) => Some(n as u64),
        None => None,
    }
}

/// Position after whitespace, starting at `from`.
pub fn skip_ws(s: &Vec<char>, from: usize) -> (r: usize)
    requires
        from <= s.len(),
    ensures
        r as int == skip_ws_from(s@, from as int),
        from <= r <= s.len(),
{
    let mut i = from;
    while i < s.len() && is_whitespace(s[i])
        invariant
            from <= i <= s.len(),
            skip_ws_from(s@, from as int) == skip_ws_from(s@, i as int),
        decreases s.len() - i,
    {
        i = i + 1;
    }
    i
}

/// End of the word that starts at `from`.
pub fn word_end(s: &Vec<char>, from: usize) -> (r: usize)
    requires
        from <= s.len(),
    ensures
        r as int == word_end_from(s@, from as int),
        from <= r <= s.len(),
{
    let mut i = from;
    while i < s.len() && !is_whitespace(s[i])
        invariant
            from <= i <= s.len(),
            word_end_from(s@, from as int) == word_end_from(s@, i as int),
        decreases s.len() - i,
    {
        i = i + 1;
    }
    i
}

/// Positions that delimit the trimmed part of `s`.
pub fn trim_bounds(s: &Vec<char>) -> (r: (usize, usize))
    ensures
        r.0 <= r.1 <= s.len(),
        s@.subrange(r.0 as int, r.1 as int) == trimmed(s@),
{
    let a = skip_ws(s, 0);
    let mut j = s.len();
    while j > 0 && is_whitespace(s[j - 1])
        invariant
            j <= s.len(),
            trim_end_to(s@, s@.len() as int) == trim_end_to(s@, j as int),
        decreases j,
    {
        j = j - 1;
    }
    if a < j {
        (a, j)
    } else {
        assert(s@.subrange(a as int, a as int) =~= Seq::<char>::empty());
        (a, a)
    }
}

/// `s` without leading and trailing whitespace (`str::trim`).
pub fn trim(s: &str) -> (r: &str)
    ensures
        r@ == trimmed(s@),
{
    let v = chars_of(s);
    let (a, b) = trim_bounds(&v);
    s.substring_char(a, b)
}

/// Whether `pat` occurs in `s` at position `i`.
pub fn occurs_at_exec(s: &Vec<char>, pat: &Vec<char>, i: usize) -> (b: bool)
    ensures
        b == occurs_at(s@, pat@, i as int),
{
    if i > s.len() || pat.len() > s.len() - i {
        return false;
    }
    let mut k: usize = 0;
    while k < pat.len()
        invariant
            i + pat.len() <= s.len(),
            k <= pat.len(),
            forall|m: int| 0 <= m < k ==> s@[i + m] == pat@[m],
        decreases pat.len() - k,
    {
        if s[i + k] != pat[k] {
            assert(s@.subrange(i as int, i + pat.len())[k as int] != pat@[k as int]);
            return false;
        }
        k = k + 1;
    }
    assert(s@.subrange(i as int, i + pat.len()) =~= pat@);
    true
}

/// Whether `pat` occurs in `s` (`str::contains`).
pub fn contains_exec(s: &Vec<char>, pat: &Vec<char>) -> (b: bool)
    ensures
        b == contains(s@, pat@),
{
    if pat.len() > s.len() {
        assert forall|i: int| !occurs_at(s@, pat@, i) by {}
        return false;
    }
    if pat.len() == 0 {
        assert(s@.subrange(0, 0) =~= pat@);
        assert(occurs_at(s@, pat@, 0));
        return true;
    }
    let last = s.len() - pat.len();
    let mut i: usize = 0;
    while i <= last
        invariant
            last == s.len() - pat.len(),
            pat.len() > 0,
            i <= last + 1,
            forall|j: int| 0 <= j < i ==> !occurs_at(s@, pat@, j),
        decreases last + 1 - i,
    {
        if occurs_at_exec(s, pat, i) {
            return true;
        }
        i = i + 1;
    }
    assert forall|j: int| !occurs_at(s@, pat@, j) by {
        if 0 <= j < i {
        }
    }
    false
}

/// Whether `pat` occurs in `s` (`str::contains`).
pub fn str_contains(s: &str, pat: &str) -> (b: bool)
    ensures
        b == contains(s@, pat@),
{
    let sv = chars_of(s);
    let pv = chars_of(pat);
    contains_exec(&sv, &pv)
}

/// Whether `s` begins with `pat` (`str::starts_with`).
pub fn str_starts_with(s: &str, pat: &str) -> (b: bool)
    ensures
        b == starts_with(s@, pat@),
{
    let sv = chars_of(s);
    let pv = chars_of(pat);
    occurs_at_exec(&sv, &pv, 0)
}

/// The digit value of `c` in base `radix` (`char::to_digit`).
pub fn char_digit_exec(c: char, radix: u32) -> (r: Option<u32>)
    requires
        2 <= radix <= 36,
    ensures
        match char_digit(c, radix as nat) {
            Some(d) => r == Some(d as u32),
            None => r is None,
        },
{
    let u = c as u32;
    let d: u32 = if '0' <= c && c <= '9' {
        u - ('0' as u32)
    } else if 'a' <= c && c <= 'z' {
        u - ('a' as u32) + 10
    } else if 'A' <= c && c <= 'Z' {
        u - ('A' as u32) + 10
    } else {
        radix
    };
    if d < radix {
        Some(d)
    } else {
        None
    }
}

/// One more digit: the value of the digits up to position `i + 1`.
proof fn lemma_digits_push(s: Seq<char>, a: int, i: int, radix: nat)
    requires
        0 <= a <= i < s.len(),
    ensures
        digits_value(s.subrange(a, i + 1), radix) == digits_value(s.subrange(a, i), radix) * radix
            + match char_digit(s[i], radix) {
            Some(x) => x,
            None => 0,
        },
{
    assert(s.subrange(a, i + 1).drop_last() =~= s.subrange(a, i));
}

/// `parse_unsigned` applied to the characters `s[start..end]`.
pub fn parse_unsigned_range(s: &Vec<char>, start: usize, end: usize, radix: u32, max: u64) -> (r:
    Option<u64>)
    requires
        start <= end <= s.len(),
        2 <= radix <= 36,
        radix <= max,
    ensures
        match parse_unsigned(s@.subrange(start as int, end as int), radix as nat, max as nat) {
            Some(n) => r == Some(n as u64),
            None => r is None,
        },
{
    let ghost w = s@.subrange(start as int, end as int);
    let mut i = start;
    if end - start > 1 && s[start] == '+' {
        i = start + 1;
        assert(w.drop_first() =~= s@.subrange(i as int, end as int));
    } else {
        assert(w =~= s@.subrange(i as int, end as int));
    }
    let ghost ds = i as int;
    let ghost d = if w.len() > 1 && w[0] == '+' {
        w.drop_first()
    } else {
        w
    };
    assert(d == s@.subrange(ds, end as int));
    if i == end {
        return None;
    }
    let mut val: u64 = 0;
    let mut over = false;
    assert(s@.subrange(ds, ds) =~= Seq::<char>::empty());
    while i < end
        invariant
            start <= ds <= i <= end <= s.len(),
            d == s@.subrange(ds, end as int),
            w == s@.subrange(start as int, end as int),
            d == (if w.len() > 1 && w[0] == '+' {
                w.drop_first()
            } else {
                w
            }),
            2 <= radix <= 36,
            radix <= max,
            all_digits(s@.subrange(ds, i as int), radix as nat),
            !over ==> val as nat == digits_value(s@.subrange(ds, i as int), radix as nat) && val
                <= max,
            over ==> digits_value(s@.subrange(ds, i as int), radix as nat) > max,
        decreases end - i,
    {
        let ghost prev = digits_value(s@.subrange(ds, i as int), radix as nat);
        match char_digit_exec(s[i], radix) {
            None => {
                assert(s@.subrange(ds, end as int)[i - ds] == s@[i as int]);
                assert(char_digit(s@.subrange(ds, end as int)[i - ds], radix as nat) is None);
                assert(!all_digits(s@.subrange(ds, end as int), radix as nat));
                return None;
            },
            Some(dv) => {
                proof {
                    lemma_digits_push(s@, ds, i as int, radix as nat);
                    assert forall|m: int| 0 <= m < i + 1 - ds implies (#[trigger] char_digit(
                        s@.subrange(ds, i + 1)[m],
                        radix as nat,
                    )) is Some by {
                        if m < i - ds {
                            assert(s@.subrange(ds, i + 1)[m] == s@.subrange(ds, i as int)[m]);
                        }
                    }
                }
                if !over {
                    let q = (max - dv as u64) / (radix as u64);
                    if val <= q {
                        assert(val * radix + dv <= max) by (nonlinear_arith)
                            requires
                                val <= q,
                                q == (max - dv) / (radix as int),
                                radix >= 2,
                                dv < radix,
                                radix <= max,
                        ;
                        val = val * (radix as u64) + (dv as u64);
                    } else {
                        assert(val * radix + dv > max) by (nonlinear_arith)
                            requires
                                val > q,
                                q == (max - dv) / (radix as int),
                                radix >= 2,
                                dv < radix,
                                radix <= max,
                        ;
                        over = true;
                    }
                } else {
                    assert(prev * radix + dv > max) by (nonlinear_arith)
                        requires
                            prev > max,
                            radix >= 2,
                    ;
                }
            },
        }
        i = i + 1;
    }
    if over {
        None
    } else {
        Some(val)
    }
}

/// Whether `a` and `b` hold the same characters (`==` on `str`).
pub fn str_equal(a: &str, b: &str) -> (r: bool)
    ensures
        r == (a@ == b@),
{
    let av = chars_of(a);
    let bv = chars_of(b);
    if av.len() != bv.len() {
        return false;
    }
    let r = occurs_at_exec(&av, &bv, 0);
    assert(av@.subrange(0, av@.len() as int) =~= av@);
    r
}

/// Whether `a` and `b` are equal up to ASCII case (`str::eq_ignore_ascii_case`).
pub fn str_eq_ignore_ascii_case(a: &str, b: &str) -> (r: bool)
    ensures
        r == eq_ignore_ascii_case(a@, b@),
{
    let av = chars_of(a);
    let bv = chars_of(b);
    if av.len() != bv.len() {
        return false;
    }
    let mut i: usize = 0;
    while i < av.len()
        invariant
            av@ == a@,
            bv@ == b@,
            av.len() == bv.len(),
            i <= av.len(),
            forall|k: int| 0 <= k < i ==> ascii_lower(#[trigger] av@[k]) == ascii_lower(bv@[k]),
        decreases av.len() - i,
    {
        let x = av[i];
        let y = bv[i];
        let xu = x as u32;
        let yu = y as u32;
        let lx: u32 = if 0x41 <= xu && xu <= 0x5a {
            xu + 32
        } else {
            xu
        };
        let ly: u32 = if 0x41 <= yu && yu <= 0x5a {
            yu + 32
        } else {
            yu
        };
        assert(lx == ascii_lower(x) && ly == ascii_lower(y));
        if lx != ly {
            assert(ascii_lower(av@[i as int]) != ascii_lower(bv@[i as int]));
            return false;
        }
        i = i + 1;
    }
    true
}

} // verus!
