//! Character-level text helpers: whitespace, trimming, integer parsing and
//! printing, substring tests. Strings are handled as `Seq<char>` in specs.

use vstd::prelude::*;

verus! {

// ---------------------------------------------------------------------
// Whitespace and trimming
// ---------------------------------------------------------------------

/// Unicode `White_Space` characters (the set `char::is_whitespace` accepts).
pub open spec fn spec_is_ws(c: char) -> bool {
    let u = c as u32;
    ||| (0x9 <= u && u <= 0xD)
    ||| u == 0x20
    ||| u == 0x85
    ||| u == 0xA0
    ||| u == 0x1680
    ||| (0x2000 <= u && u <= 0x200A)
    ||| u == 0x2028
    ||| u == 0x2029
    ||| u == 0x202F
    ||| u == 0x205F
    ||| u == 0x3000
}

/// A text is blank when it holds whitespace only (`s.trim().is_empty()`).
pub open spec fn spec_is_blank(s: Seq<char>) -> bool {
    forall|i: int| 0 <= i < s.len() ==> spec_is_ws(#[trigger] s[i])
}

/// `s` with leading whitespace removed.
pub open spec fn spec_trim_start(s: Seq<char>) -> Seq<char>
    decreases s.len(),
{
    if s.len() > 0 && spec_is_ws(s[0]) {
        spec_trim_start(s.drop_first())
    } else {
        s
    }
}

/// `s` with trailing whitespace removed.
pub open spec fn spec_trim_end(s: Seq<char>) -> Seq<char>
    decreases s.len(),
{
    if s.len() > 0 && spec_is_ws(s.last()) {
        spec_trim_end(s.drop_last())
    } else {
        s
    }
}

/// `s` with leading and trailing whitespace removed (`str::trim`).
pub open spec fn spec_trim(s: Seq<char>) -> Seq<char> {
    spec_trim_end(spec_trim_start(s))
}

/// Whether `c` is a whitespace character.
pub fn is_ws(c: char) -> (r: bool)
    ensures
        r == spec_is_ws(c),
{
    let u = c as u32;
    (0x9 <= u && u <= 0xD) || u == 0x20 || u == 0x85 || u == 0xA0 || u == 0x1680 || (0x2000 <= u
        && u <= 0x200A) || u == 0x2028 || u == 0x2029 || u == 0x202F || u == 0x205F || u == 0x3000
}

/// The characters of a string slice, in order.
pub fn chars_of(s: &str) -> (v: Vec<char>)
    ensures
        v@ == s@,
{
    let mut v: Vec<char> = Vec::new();
    for c in it: s.chars()
        invariant
            v.len() == it.index(),
            forall|j: int| 0 <= j < v.len() ==> v@[j] == it.seq()[j],
            it.seq() == s@,
    {
        v.push(c);
    }
    proof {
        assert(v@ =~= s@);
    }
    v
}

/// Whether the text holds whitespace only.
pub fn is_blank(s: &[char]) -> (r: bool)
    ensures
        r == spec_is_blank(s@),
{
    let mut i: usize = 0;
    while i < s.len()
        invariant
            i <= s.len(),
            forall|j: int| 0 <= j < i ==> spec_is_ws(#[trigger] s@[j]),
        decreases s.len() - i,
    {
        if !is_ws(s[i]) {
            return false;
        }
        i += 1;
    }
    true
}

/// Whether a string holds whitespace only (`s.trim().is_empty()`).
pub fn str_is_blank(s: &str) -> (r: bool)
    ensures
        r == spec_is_blank(s@),
{
    let v = chars_of(s);
    is_blank(v.as_slice())
}

proof fn lemma_trim_start_skip(s: Seq<char>, i: int)
    requires
        0 <= i <= s.len(),
        forall|j: int| 0 <= j < i ==> spec_is_ws(#[trigger] s[j]),
    ensures
        spec_trim_start(s) == spec_trim_start(s.subrange(i, s.len() as int)),
    decreases i,
{
    if i > 0 {
        assert(spec_is_ws(s[0]));
        lemma_trim_start_skip(s.drop_first(), i - 1);
        assert(s.drop_first().subrange(i - 1, s.drop_first().len() as int) =~= s.subrange(
            i,
            s.len() as int,
        ));
    } else {
        assert(s.subrange(0, s.len() as int) =~= s);
    }
}

proof fn lemma_trim_end_skip(s: Seq<char>, k: int)
    requires
        0 <= k <= s.len(),
        forall|j: int| k <= j < s.len() ==> spec_is_ws(#[trigger] s[j]),
    ensures
        spec_trim_end(s) == spec_trim_end(s.subrange(0, k)),
    decreases s.len() - k,
{
    if k < s.len() {
        assert(spec_is_ws(s.last()));
        assert(s.drop_last() =~= s.subrange(0, s.len() - 1));
        lemma_trim_end_skip(s.drop_last(), k);
        assert(s.drop_last().subrange(0, k) =~= s.subrange(0, k));
    } else {
        assert(s.subrange(0, s.len() as int) =~= s);
    }
}

/// The text with leading and trailing whitespace removed.
pub fn trim(s: &[char]) -> (r: Vec<char>)
    ensures
        r@ == spec_trim(s@),
{
    let mut lo: usize = 0;
    while lo < s.len() && is_ws(s[lo])
        invariant
            lo <= s.len(),
            forall|j: int| 0 <= j < lo ==> spec_is_ws(#[trigger] s@[j]),
        decreases s.len() - lo,
    {
        lo += 1;
    }
    proof {
        lemma_trim_start_skip(s@, lo as int);
        let t = s@.subrange(lo as int, s@.len() as int);
        if t.len() > 0 {
            assert(t[0] == s@[lo as int]);
        }
        assert(spec_trim_start(t) == t);
    }
    let mut hi: usize = s.len();
    while hi > lo && is_ws(s[hi - 1])
        invariant
            lo <= hi <= s.len(),
            forall|j: int| hi <= j < s.len() ==> spec_is_ws(#[trigger] s@[j]),
        decreases hi,
    {
        hi -= 1;
    }
    let mut r: Vec<char> = Vec::new();
    let mut i: usize = lo;
    while i < hi
        invariant
            lo <= i <= hi <= s.len(),
            r@ == s@.subrange(lo as int, i as int),
        decreases hi - i,
    {
        r.push(s[i]);
        i += 1;
        proof {
            assert(r@ =~= s@.subrange(lo as int, i as int));
        }
    }
    proof {
        let t = s@.subrange(lo as int, s@.len() as int);
        let k = hi - lo;
        assert forall|j: int| k <= j < t.len() implies spec_is_ws(#[trigger] t[j]) by {
            assert(t[j] == s@[lo + j]);
        }
        lemma_trim_end_skip(t, k as int);
        let u = t.subrange(0, k as int);
        assert(u =~= s@.subrange(lo as int, hi as int));
        if u.len() > 0 {
            assert(u.last() == s@[hi - 1]);
        }
        assert(spec_trim_end(u) == u);
    }
    r
}

// ---------------------------------------------------------------------
// Decimal integers
// ---------------------------------------------------------------------

/// ASCII decimal digit.
pub open spec fn spec_is_digit(c: char) -> bool {
    '0' <= c && c <= '9'
}

pub open spec fn spec_digit_value(c: char) -> int {
    (c as u32) - ('0' as u32)
}

pub open spec fn spec_all_digits(s: Seq<char>) -> bool {
    forall|i: int| 0 <= i < s.len() ==> spec_is_digit(#[trigger] s[i])
}

/// The number that a run of decimal digits denotes.
pub open spec fn spec_digits_value(s: Seq<char>) -> int
    decreases s.len(),
{
    if s.len() == 0 {
        0
    } else {
        spec_digits_value(s.drop_last()) * 10 + spec_digit_value(s.last())
    }
}

/// The `i32` that `str::parse::<i32>` reads from `s`: an optional `+` or
/// `-`, then one or more ASCII digits, with the value inside the `i32` range.
pub open spec fn spec_parse_i32(s: Seq<char>) -> Option<i32> {
    let neg = s.len() > 0 && s[0] == '-';
    let signed = s.len() > 0 && (s[0] == '-' || s[0] == '+');
    let ds = if signed {
        s.drop_first()
    } else {
        s
    };
    if ds.len() > 0 && spec_all_digits(ds) {
        let v = if neg {
            -spec_digits_value(ds)
        } else {
            spec_digits_value(ds)
        };
        if i32::MIN <= v && v <= i32::MAX {
            Some(v as i32)
        } else {
            None
        }
    } else {
        None
    }
}

proof fn lemma_digits_value_nonneg(s: Seq<char>)
    requires
        spec_all_digits(s),
    ensures
        spec_digits_value(s) >= 0,
    decreases s.len(),
{
    if s.len() > 0 {
        lemma_digits_value_nonneg(s.drop_last());
        assert(spec_is_digit(s.last()));
    }
}

proof fn lemma_digits_value_mono(s: Seq<char>, i: int)
    requires
        spec_all_digits(s),
        0 <= i <= s.len(),
    ensures
        spec_digits_value(s.subrange(0, i)) <= spec_digits_value(s),
    decreases s.len(),
{
    if i == s.len() {
        assert(s.subrange(0, i) =~= s);
    } else {
        assert(s.drop_last().subrange(0, i) =~= s.subrange(0, i));
        lemma_digits_value_mono(s.drop_last(), i);
        lemma_digits_value_nonneg(s.drop_last());
        assert(spec_is_digit(s.last()));
    }
}

/// Reads an `i32` as `str::parse::<i32>` does.
#[verifier::loop_isolation(false)]
pub fn parse_i32(s: &[char]) -> (r: Option<i32>)
    ensures
        r == spec_parse_i32(s@),
{
    let n = s.len();
    if n == 0 {
        return None;
    }
    let neg = s[0] == '-';
    let signed = s[0] == '-' || s[0] == '+';
    let start: usize = if signed {
        1
    } else {
        0
    };
    let ghost ds = if signed {
        s@.drop_first()
    } else {
        s@
    };
    proof {
        assert(ds =~= s@.subrange(start as int, n as int));
    }
    if start == n {
        return None;
    }
    let mut acc: i64 = 0;
    let mut i: usize = start;
    while i < n
        invariant
            start <= i <= n,
            n == s@.len(),
            ds =~= s@.subrange(start as int, n as int),
            spec_all_digits(ds.subrange(0, i - start)),
            acc == spec_digits_value(ds.subrange(0, i - start)),
            0 <= acc <= 0x8000_0000,
        decreases n - i,
    {
        let c = s[i];
        if !('0' <= c && c <= '9') {
            proof {
                assert(ds[i - start] == c);
                assert(!spec_all_digits(ds));
            }
            return None;
        }
        let d = (c as u32 - '0' as u32) as i64;
        let next = acc * 10 + d;
        proof {
            let p = ds.subrange(0, i + 1 - start);
            assert(p.drop_last() =~= ds.subrange(0, i - start));
            assert(p.last() == c);
            assert(spec_all_digits(p));
        }
        if next > 0x8000_0000 {
            // Whatever follows, the value is out of range or not a number.
            let mut j: usize = i + 1;
            while j < n
                invariant
                    i < j <= n,
                    n == s@.len(),
                    ds =~= s@.subrange(start as int, n as int),
                    spec_all_digits(ds.subrange(0, j - start)),
                    spec_digits_value(ds.subrange(0, j - start)) > 0x8000_0000,
                decreases n - j,
            {
                let c2 = s[j];
                if !('0' <= c2 && c2 <= '9') {
                    proof {
                        assert(ds[j - start] == c2);
                    }
                    return None;
                }
                proof {
                    let p = ds.subrange(0, j + 1 - start);
                    assert(p.drop_last() =~= ds.subrange(0, j - start));
                    assert(spec_all_digits(p));
                }
                j += 1;
            }
            proof {
                assert(ds.subrange(0, n - start) =~= ds);
            }
            return None;
        }
        acc = next;
        i += 1;
    }
    proof {
        assert(ds.subrange(0, n - start) =~= ds);
    }
    let v: i64 = if neg {
        -acc
    } else {
        acc
    };
    if v < -0x8000_0000 || v > 0x7fff_ffff {
        None
    } else {
        Some(v as i32)
    }
}

/// The decimal digit character for `d < 10`.
pub open spec fn spec_digit_char(d: int) -> char {
    (d + 48) as char
}

/// The decimal digits of a natural number, without leading zeros.
pub open spec fn spec_nat_text(n: nat) -> Seq<char>
    decreases n,
{
    if n < 10 {
        seq![spec_digit_char(n as int)]
    } else {
        spec_nat_text(n / 10).push(spec_digit_char((n % 10) as int))
    }
}

/// The text `i32::to_string` gives: an optional `-` and the decimal digits.
pub open spec fn spec_int_text(n: int) -> Seq<char> {
    if n < 0 {
        seq!['-'] + spec_nat_text((-n) as nat)
    } else {
        spec_nat_text(n as nat)
    }
}

fn digit_char(d: u64) -> (c: char)
    requires
        d < 10,
    ensures
        c == spec_digit_char(d as int),
{
    let c = if d == 0 { '0' } else if d == 1 { '1' } else if d == 2 { '2' } else if d == 3 {
        '3'
    } else if d == 4 { '4' } else if d == 5 { '5' } else if d == 6 { '6' } else if d == 7 {
        '7'
    } else if d == 8 { '8' } else { '9' };
    c
}

fn nat_text(n: u64) -> (v: Vec<char>)
    ensures
        v@ == spec_nat_text(n as nat),
    decreases n,
{
    if n < 10 {
        let mut v: Vec<char> = Vec::new();
        v.push(digit_char(n));
        proof {
            assert(v@ =~= seq![spec_digit_char(n as int)]);
        }
        v
    } else {
        let mut v = nat_text(n / 10);
        v.push(digit_char(n % 10));
        v
    }
}

/// The characters of `n.to_string()`.
pub fn int_chars(n: i64) -> (v: Vec<char>)
    requires
        n > i64::MIN,
    ensures
        v@ == spec_int_text(n as int),
{
    if n < 0 {
        let mut v: Vec<char> = Vec::new();
        v.push('-');
        let d = nat_text((-n) as u64);
        let mut i: usize = 0;
        while i < d.len()
            invariant
                i <= d@.len(),
                v@ == seq!['-'] + d@.subrange(0, i as int),
            decreases d.len() - i,
        {
            v.push(d[i]);
            i += 1;
            proof {
                assert(v@ =~= seq!['-'] + d@.subrange(0, i as int));
            }
        }
        proof {
            assert(d@.subrange(0, d@.len() as int) =~= d@);
        }
        v
    } else {
        nat_text(n as u64)
    }
}

proof fn lemma_digit_char(d: int)
    requires
        0 <= d < 10,
    ensures
        spec_is_digit(spec_digit_char(d)),
        spec_digit_value(spec_digit_char(d)) == d,
        spec_digit_char(d) != '-',
        spec_digit_char(d) != '+',
{
}

proof fn lemma_nat_text_digits(n: nat)
    ensures
        spec_all_digits(spec_nat_text(n)),
        spec_nat_text(n).len() > 0,
        spec_digits_value(spec_nat_text(n)) == n,
        spec_nat_text(n)[0] != '-',
        spec_nat_text(n)[0] != '+',
    decreases n,
{
    if n < 10 {
        lemma_digit_char(n as int);
        let t = spec_nat_text(n);
        assert(t.drop_last() =~= Seq::<char>::empty());
        assert(spec_digits_value(t.drop_last()) == 0);
        assert(t.last() == spec_digit_char(n as int));
    } else {
        lemma_digit_char((n % 10) as int);
        lemma_nat_text_digits(n / 10);
        let t = spec_nat_text(n);
        assert(t.drop_last() =~= spec_nat_text(n / 10));
        assert forall|i: int| 0 <= i < t.len() implies spec_is_digit(#[trigger] t[i]) by {
            if i < t.len() - 1 {
                assert(t[i] == spec_nat_text(n / 10)[i]);
            }
        }
        assert(t[0] == spec_nat_text(n / 10)[0]);
        assert(t.last() == spec_digit_char((n % 10) as int));
        assert(spec_digits_value(t) == spec_digits_value(spec_nat_text(n / 10)) * 10 + (n % 10));
        assert((n / 10) * 10 + n % 10 == n) by (nonlinear_arith);
    }
}

/// The text of an integer is made of digits and a leading minus sign only,
/// and ends with a digit.
pub(crate) proof fn lemma_int_text_shape(n: int)
    ensures
        spec_int_text(n).len() > 0,
        forall|i: int| 0 <= i < spec_int_text(n).len() ==> spec_is_digit(#[trigger] spec_int_text(n)[i]) || spec_int_text(n)[i] == '-',
        spec_is_digit(spec_int_text(n).last()),
        spec_is_digit(spec_int_text(n)[0]) || spec_int_text(n)[0] == '-',
{
    let m: nat = if n < 0 { (-n) as nat } else { n as nat };
    lemma_nat_text_digits(m);
    let d = spec_nat_text(m);
    assert(spec_is_digit(d.last()));
    if n < 0 {
        let t = spec_int_text(n);
        assert(t == seq!['-'] + d);
        assert forall|i: int| 0 <= i < t.len() implies spec_is_digit(#[trigger] t[i]) || t[i] == '-' by {
            if i > 0 {
                assert(t[i] == d[i - 1]);
            }
        }
        assert(t.last() == d.last());
    }
}

/// Trimming whitespace leaves the text of an integer as it is.
pub(crate) proof fn lemma_trim_int_text(n: int)
    ensures
        spec_trim(spec_int_text(n)) == spec_int_text(n),
{
    lemma_int_text_shape(n);
    let t = spec_int_text(n);
    assert(!spec_is_ws(t[0]));
    assert(spec_trim_start(t) == t);
    assert(!spec_is_ws(t.last()));
    assert(spec_trim_end(t) == t);
}

/// Reading back the text of an integer gives the integer.
pub proof fn lemma_parse_int_text(n: i32)
    ensures
        spec_parse_i32(spec_int_text(n as int)) == Some(n),
{
    if n < 0 {
        let m = (-(n as int)) as nat;
        lemma_nat_text_digits(m);
        let t = spec_int_text(n as int);
        assert(t.drop_first() =~= spec_nat_text(m));
    } else {
        lemma_nat_text_digits(n as nat);
    }
}

/// Reads an `i32` from a string as `str::parse::<i32>` does.
pub fn parse_i32_str(s: &str) -> (r: Option<i32>)
    ensures
        r == spec_parse_i32(s@),
{
    let v = chars_of(s);
    parse_i32(v.as_slice())
}

// ---------------------------------------------------------------------
// Substrings
// ---------------------------------------------------------------------

pub open spec fn spec_starts_with(s: Seq<char>, p: Seq<char>) -> bool {
    p.len() <= s.len() && s.subrange(0, p.len() as int) == p
}

pub open spec fn spec_ends_with(s: Seq<char>, p: Seq<char>) -> bool {
    p.len() <= s.len() && s.subrange(s.len() - p.len(), s.len() as int) == p
}

pub open spec fn spec_occurs_at(s: Seq<char>, p: Seq<char>, i: int) -> bool {
    0 <= i && i + p.len() <= s.len() && s.subrange(i, i + p.len()) == p
}

pub open spec fn spec_contains(s: Seq<char>, p: Seq<char>) -> bool {
    exists|i: int| spec_occurs_at(s, p, i)
}

fn matches_at(s: &[char], p: &[char], i: usize) -> (r: bool)
    requires
        i + p@.len() <= s@.len(),
    ensures
        r == (s@.subrange(i as int, i + p@.len()) == p@),
{
    let mut k: usize = 0;
    while k < p.len()
        invariant
            k <= p@.len(),
            i + p.len() <= s.len(),
            i + p@.len() <= s@.len(),
            forall|j: int| 0 <= j < k ==> s@[i + j] == p@[j],
        decreases p.len() - k,
    {
        if s[i + k] != p[k] {
            proof {
                assert(s@.subrange(i as int, i + p@.len())[k as int] != p@[k as int]);
            }
            return false;
        }
        k += 1;
    }
    proof {
        assert(s@.subrange(i as int, i + p@.len()) =~= p@);
    }
    true
}

/// Whether `s` begins with `p`.
pub fn starts_with(s: &[char], p: &[char]) -> (r: bool)
    ensures
        r == spec_starts_with(s@, p@),
{
    if p.len() > s.len() {
        return false;
    }
    matches_at(s, p, 0)
}

/// Whether `s` ends with `p`.
pub fn ends_with(s: &[char], p: &[char]) -> (r: bool)
    ensures
        r == spec_ends_with(s@, p@),
{
    if p.len() > s.len() {
        return false;
    }
    matches_at(s, p, s.len() - p.len())
}

/// Whether `p` occurs in `s`.
pub fn contains(s: &[char], p: &[char]) -> (r: bool)
    ensures
        r == spec_contains(s@, p@),
{
    if p.len() > s.len() {
        return false;
    }
    let last: usize = s.len() - p.len();
    let mut i: usize = 0;
    while i < last
        invariant
            p@.len() <= s@.len(),
            last == s@.len() - p@.len(),
            i <= last,
            forall|j: int| 0 <= j < i ==> !spec_occurs_at(s@, p@, j),
        decreases last - i,
    {
        if matches_at(s, p, i) {
            assert(spec_occurs_at(s@, p@, i as int));
            return true;
        }
        i += 1;
    }
    if matches_at(s, p, last) {
        assert(spec_occurs_at(s@, p@, last as int));
        return true;
    }
    proof {
        assert forall|j: int| !spec_occurs_at(s@, p@, j) by {
            if 0 <= j && j + p@.len() <= s@.len() && j != last {
                assert(j < i);
            }
        }
    }
    false
}


/// Whether two texts are equal.
pub fn same_text(a: &[char], b: &[char]) -> (r: bool)
    ensures
        r == (a@ == b@),
{
    if a.len() != b.len() {
        return false;
    }
    let r = matches_at(a, b, 0);
    proof {
        assert(a@.subrange(0, b@.len() as int) =~= a@);
    }
    r
}

/// Whether a text equals a string.
pub fn text_is(a: &[char], b: &str) -> (r: bool)
    ensures
        r == (a@ == b@),
{
    let v = chars_of(b);
    same_text(a, v.as_slice())
}

// ---------------------------------------------------------------------
// Splitting and rewriting
// ---------------------------------------------------------------------

/// The index of the first occurrence of `c` in `s`, if any.
pub open spec fn spec_first_index(s: Seq<char>, c: char) -> Option<int>
    decreases s.len(),
{
    if s.len() == 0 {
        None
    } else if s[0] == c {
        Some(0)
    } else {
        match spec_first_index(s.drop_first(), c) {
            Some(i) => Some(i + 1),
            None => None,
        }
    }
}

/// The pieces of `s` between occurrences of `c` (`str::split(c)`).
pub open spec fn spec_split(s: Seq<char>, c: char) -> Seq<Seq<char>>
    decreases s.len(),
{
    match spec_first_index(s, c) {
        None => seq![s],
        Some(i) => if 0 <= i < s.len() {
            seq![s.take(i)] + spec_split(s.skip(i + 1), c)
        } else {
            seq![s]
        },
    }
}

pub(crate) proof fn lemma_first_index_none(s: Seq<char>, c: char)
    requires
        !s.contains(c),
    ensures
        spec_first_index(s, c) is None,
    decreases s.len(),
{
    if s.len() > 0 {
        assert(s[0] != c);
        assert forall|i: int| 0 <= i < s.drop_first().len() implies s.drop_first()[i] != c by {
            assert(s.drop_first()[i] == s[i + 1]);
        }
        lemma_first_index_none(s.drop_first(), c);
    }
}

pub(crate) proof fn lemma_first_index_at(s: Seq<char>, c: char, i: int)
    requires
        0 <= i < s.len(),
        s[i] == c,
        !s.take(i).contains(c),
    ensures
        spec_first_index(s, c) == Some(i),
    decreases s.len(),
{
    if i > 0 {
        assert(s[0] == s.take(i)[0]);
        assert(s.drop_first().take(i - 1) =~= s.take(i).drop_first());
        let t = s.drop_first().take(i - 1);
        assert forall|j: int| 0 <= j < t.len() implies #[trigger] t[j] != c by {
            assert(t[j] == s.take(i)[j + 1]);
        }
        lemma_first_index_at(s.drop_first(), c, i - 1);
    }
}

/// Splits a text at every occurrence of `c` (`str::split(c)`).
pub fn split(s: &[char], c: char) -> (r: Vec<Vec<char>>)
    ensures
        r@.len() == spec_split(s@, c).len(),
        forall|k: int| 0 <= k < r@.len() ==> #[trigger] r@[k]@ == spec_split(s@, c)[k],
{
    let mut r: Vec<Vec<char>> = Vec::new();
    let mut cur: Vec<char> = Vec::new();
    let mut start: usize = 0;
    let mut i: usize = 0;
    proof {
        assert(s@.skip(0) =~= s@);
    }
    while i < s.len()
        invariant
            start <= i <= s@.len(),
            cur@ == s@.subrange(start as int, i as int),
            !cur@.contains(c),
            r@.len() + spec_split(s@.skip(start as int), c).len() == spec_split(s@, c).len(),
            forall|k: int| 0 <= k < r@.len() ==> #[trigger] r@[k]@ == spec_split(s@, c)[k],
            forall|k: int|
                0 <= k < spec_split(s@.skip(start as int), c).len() ==> #[trigger] spec_split(
                    s@.skip(start as int),
                    c,
                )[k] == spec_split(s@, c)[r@.len() + k],
        decreases s.len() - i,
    {
        let ch = s[i];
        let ghost rest = s@.skip(start as int);
        if ch == c {
            proof {
                assert(rest.take(i - start) =~= cur@);
                assert(rest[i - start] == c);
                lemma_first_index_at(rest, c, i - start);
                assert(rest.skip(i - start + 1) =~= s@.skip(i + 1));
                assert(spec_split(rest, c) == seq![rest.take(i - start)] + spec_split(
                    rest.skip(i - start + 1),
                    c,
                ));
                assert(spec_split(rest, c)[0] == cur@);
            }
            r.push(cur);
            cur = Vec::new();
            start = i + 1;
            proof {
                assert(cur@ =~= s@.subrange(start as int, (i + 1) as int));
                let nrest = s@.skip(start as int);
                assert forall|k: int| 0 <= k < spec_split(nrest, c).len() implies #[trigger] spec_split(
                    nrest,
                    c,
                )[k] == spec_split(s@, c)[r@.len() + k] by {
                    assert(spec_split(rest, c)[k + 1] == spec_split(nrest, c)[k]);
                }
            }
        } else {
            let ghost prev = cur@;
            cur.push(ch);
            proof {
                assert(cur@ =~= s@.subrange(start as int, (i + 1) as int));
                assert forall|j: int| 0 <= j < cur@.len() implies cur@[j] != c by {
                    if j < cur@.len() - 1 {
                        assert(cur@[j] == prev[j]);
                    }
                }
            }
        }
        i += 1;
    }
    proof {
        let rest = s@.skip(start as int);
        assert(rest =~= cur@);
        lemma_first_index_none(rest, c);
        assert(spec_split(rest, c) == seq![rest]);
        assert(spec_split(rest, c)[0] == spec_split(s@, c)[r@.len() as int]);
    }
    let ghost r0 = r@;
    r.push(cur);
    proof {
        assert forall|k: int| 0 <= k < r@.len() implies #[trigger] r@[k]@ == spec_split(s@, c)[k] by {
            if k < r0.len() {
                assert(r@[k] == r0[k]);
            }
        }
    }
    r
}

/// `s` with every character equal to `c` removed.
pub open spec fn spec_remove_char(s: Seq<char>, c: char) -> Seq<char> {
    s.filter(|x: char| x != c)
}

/// Removes every occurrence of `c` (`str::replace(c, "")`).
pub fn remove_char(s: &[char], c: char) -> (r: Vec<char>)
    ensures
        r@ == spec_remove_char(s@, c),
{
    let mut r: Vec<char> = Vec::new();
    let mut i: usize = 0;
    while i < s.len()
        invariant
            i <= s@.len(),
            r@ == spec_remove_char(s@.take(i as int), c),
        decreases s.len() - i,
    {
        proof {
            assert(s@.take(i + 1).drop_last() =~= s@.take(i as int));
            reveal_with_fuel(Seq::filter, 1);
        }
        if s[i] != c {
            r.push(s[i]);
        }
        i += 1;
    }
    proof {
        assert(s@.take(s@.len() as int) =~= s@);
    }
    r
}

/// `s` with every `a` immediately followed by `b` replaced by `to`,
/// scanning from the left (`str::replace` with a two-character pattern).
pub open spec fn spec_replace_pair(s: Seq<char>, a: char, b: char, to: char) -> Seq<char>
    decreases s.len(),
{
    if s.len() == 0 {
        s
    } else if s.len() >= 2 && s[0] == a && s[1] == b {
        seq![to] + spec_replace_pair(s.skip(2), a, b, to)
    } else {
        seq![s[0]] + spec_replace_pair(s.drop_first(), a, b, to)
    }
}

/// Replaces the two-character pattern `a b` by `to`, scanning from the left.
pub fn replace_pair(s: &[char], a: char, b: char, to: char) -> (r: Vec<char>)
    ensures
        r@ == spec_replace_pair(s@, a, b, to),
{
    let mut r: Vec<char> = Vec::new();
    let mut i: usize = 0;
    proof {
        assert(s@.skip(0) =~= s@);
        assert(r@ + spec_replace_pair(s@, a, b, to) =~= spec_replace_pair(s@, a, b, to));
    }
    while i < s.len()
        invariant
            i <= s@.len(),
            r@ + spec_replace_pair(s@.skip(i as int), a, b, to) == spec_replace_pair(s@, a, b, to),
        decreases s.len() - i,
    {
        let ghost rest = s@.skip(i as int);
        if i + 1 < s.len() && s[i] == a && s[i + 1] == b {
            proof {
                assert(rest[0] == a && rest[1] == b);
                assert(rest.skip(2) =~= s@.skip(i + 2));
            }
            let ghost prev = r@;
            r.push(to);
            i += 2;
            proof {
                assert(r@ + spec_replace_pair(s@.skip(i as int), a, b, to) =~= prev + (seq![to]
                    + spec_replace_pair(s@.skip(i as int), a, b, to)));
            }
        } else {
            proof {
                assert(rest.drop_first() =~= s@.skip(i + 1));
                assert(rest[0] == s@[i as int]);
            }
            let ghost prev = r@;
            r.push(s[i]);
            i += 1;
            proof {
                assert(r@ + spec_replace_pair(s@.skip(i as int), a, b, to) =~= prev + (seq![
                    s@[i - 1]] + spec_replace_pair(s@.skip(i as int), a, b, to)));
            }
        }
    }
    proof {
        assert(s@.skip(i as int) =~= Seq::<char>::empty());
        assert(r@ + Seq::<char>::empty() =~= r@);
    }
    r
}

/// `s` without its leading run of `c` (`str::trim_start_matches(c)`).
pub open spec fn spec_trim_start_char(s: Seq<char>, c: char) -> Seq<char>
    decreases s.len(),
{
    if s.len() > 0 && s[0] == c {
        spec_trim_start_char(s.drop_first(), c)
    } else {
        s
    }
}

/// `s` without its trailing run of `c` (`str::trim_end_matches(c)`).
pub open spec fn spec_trim_end_char(s: Seq<char>, c: char) -> Seq<char>
    decreases s.len(),
{
    if s.len() > 0 && s.last() == c {
        spec_trim_end_char(s.drop_last(), c)
    } else {
        s
    }
}

/// Removes the leading run of `c`.
pub fn trim_start_char(s: &[char], c: char) -> (r: Vec<char>)
    ensures
        r@ == spec_trim_start_char(s@, c),
{
    let mut i: usize = 0;
    proof {
        assert(s@.skip(0) =~= s@);
    }
    while i < s.len() && s[i] == c
        invariant
            i <= s@.len(),
            spec_trim_start_char(s@, c) == spec_trim_start_char(s@.skip(i as int), c),
        decreases s.len() - i,
    {
        proof {
            assert(s@.skip(i as int).drop_first() =~= s@.skip(i + 1));
        }
        i += 1;
    }
    let mut r: Vec<char> = Vec::new();
    let mut j: usize = i;
    while j < s.len()
        invariant
            i <= j <= s@.len(),
            r@ == s@.subrange(i as int, j as int),
        decreases s.len() - j,
    {
        r.push(s[j]);
        j += 1;
        proof {
            assert(r@ =~= s@.subrange(i as int, j as int));
        }
    }
    proof {
        assert(r@ =~= s@.skip(i as int));
    }
    r
}

/// Removes the trailing run of `c`.
pub fn trim_end_char(s: &[char], c: char) -> (r: Vec<char>)
    ensures
        r@ == spec_trim_end_char(s@, c),
{
    let mut k: usize = s.len();
    proof {
        assert(s@.take(s@.len() as int) =~= s@);
    }
    while k > 0 && s[k - 1] == c
        invariant
            k <= s@.len(),
            spec_trim_end_char(s@, c) == spec_trim_end_char(s@.take(k as int), c),
        decreases k,
    {
        proof {
            assert(s@.take(k as int).drop_last() =~= s@.take(k - 1));
        }
        k -= 1;
    }
    let mut r: Vec<char> = Vec::new();
    let mut j: usize = 0;
    while j < k
        invariant
            j <= k <= s@.len(),
            r@ == s@.subrange(0, j as int),
        decreases k - j,
    {
        r.push(s[j]);
        j += 1;
        proof {
            assert(r@ =~= s@.subrange(0, j as int));
        }
    }
    proof {
        assert(r@ =~= s@.take(k as int));
    }
    r
}

// ---------------------------------------------------------------------
// Building strings
// ---------------------------------------------------------------------

/// Appends a character to a string (`String::push`).
#[verifier::external_body]
pub(crate) fn push_char(s: &mut String, c: char)
    ensures
        final(s)@ == old(s)@.push(c),
{
    s.push(c);
}

/// Appends a string slice to a string (`String::push_str`).
#[verifier::external_body]
pub(crate) fn push_str(s: &mut String, t: &str)
    ensures
        final(s)@ == old(s)@ + t@,
{
    s.push_str(t);
}

/// Appends characters to a string.
pub fn push_chars(s: &mut String, t: &[char])
    ensures
        final(s)@ == old(s)@ + t@,
{
    let ghost s0 = s@;
    let mut i: usize = 0;
    while i < t.len()
        invariant
            i <= t@.len(),
            s@ == s0 + t@.subrange(0, i as int),
        decreases t.len() - i,
    {
        push_char(s, t[i]);
        i += 1;
        proof {
            assert(s@ =~= s0 + t@.subrange(0, i as int));
        }
    }
    proof {
        assert(t@.subrange(0, t@.len() as int) =~= t@);
    }
}

/// A string holding the given characters.
pub fn string_of(t: &[char]) -> (s: String)
    ensures
        s@ == t@,
{
    let mut s = String::new();
    push_chars(&mut s, t);
    proof {
        assert(s@ =~= t@);
    }
    s
}

/// The text of an integer, as `to_string` writes it.
pub fn int_string(n: i32) -> (s: String)
    ensures
        s@ == spec_int_text(n as int),
{
    let v = int_chars(n as i64);
    string_of(v.as_slice())
}

/// The lower-case form of a text, as `str::to_lowercase` gives it.
pub uninterp spec fn spec_lowercase(s: Seq<char>) -> Seq<char>;

/// Lower-cases a string with `str::to_lowercase` (full Unicode mapping);
/// the result is named by `spec_lowercase` and is a function of the text.
#[verifier::external_body]
pub(crate) fn lowercase(s: &str) -> (r: String)
    ensures
        r@ == spec_lowercase(s@),
{
    s.to_lowercase()
}

} // verus!
