//! Text helpers over `Seq<char>`: the searching, splitting, parsing and
//! formatting that building and activating launcher items needs.

use vstd::prelude::*;
use vstd::string::*;

verus! {

broadcast use vstd::string::group_string_axioms;

// ---------------------------------------------------------------------------
// Specifications
// ---------------------------------------------------------------------------

/// `needle` occurs in `hay` starting at index `i`.
pub open spec fn occurs_at(hay: Seq<char>, needle: Seq<char>, i: int) -> bool {
    &&& 0 <= i
    &&& i + needle.len() <= hay.len()
    &&& hay.subrange(i, i + needle.len()) == needle
}

/// `needle` occurs somewhere in `hay` (`str::contains`).
pub open spec fn contains_text(hay: Seq<char>, needle: Seq<char>) -> bool {
    exists|i: int| occurs_at(hay, needle, i)
}

/// `s` ends with `suffix`.
pub open spec fn ends_with(s: Seq<char>, suffix: Seq<char>) -> bool {
    suffix.len() <= s.len() && s.skip(s.len() - suffix.len()) == suffix
}

/// Index of the first occurrence of `needle` in `hay` at or after `k`, or -1.
pub open spec fn first_occurrence_from(hay: Seq<char>, needle: Seq<char>, k: int) -> int
    decreases hay.len() + 1 - k,
{
    if k < 0 || k + needle.len() > hay.len() {
        -1
    } else if occurs_at(hay, needle, k) {
        k
    } else {
        first_occurrence_from(hay, needle, k + 1)
    }
}

/// Index of the first `c` in `s` at or after `k`, or -1.
pub open spec fn first_index_from(s: Seq<char>, c: char, k: int) -> int
    decreases s.len() - k,
{
    if k < 0 || k >= s.len() {
        -1
    } else if s[k] == c {
        k
    } else {
        first_index_from(s, c, k + 1)
    }
}

/// Index of the last `c` in `s` before index `k`, or -1.
pub open spec fn last_index_before(s: Seq<char>, c: char, k: int) -> int
    decreases k,
{
    if k <= 0 || k > s.len() {
        -1
    } else if s[k - 1] == c {
        k - 1
    } else {
        last_index_before(s, c, k - 1)
    }
}

/// Index of the last `c` in `s`, or -1 (`str::rfind`).
pub open spec fn last_index(s: Seq<char>, c: char) -> int {
    last_index_before(s, c, s.len() as int)
}

/// The three parts of `str::splitn(3, sep)`, when there are three.
pub open spec fn split_three(s: Seq<char>, sep: char) -> Option<(Seq<char>, Seq<char>, Seq<char>)> {
    let i = first_index_from(s, sep, 0);
    let j = first_index_from(s, sep, i + 1);
    if i < 0 || j < 0 {
        None
    } else {
        Some((s.take(i), s.subrange(i + 1, j), s.skip(j + 1)))
    }
}

/// The text after the last `sep`, or all of `s` when there is none
/// (the first item of `str::rsplit(sep)`).
pub open spec fn last_segment(s: Seq<char>, sep: char) -> Seq<char> {
    s.skip(last_index(s, sep) + 1)
}

/// `str::split_once(pat)`: the text before and after the first `pat`.
pub open spec fn split_once(s: Seq<char>, pat: Seq<char>) -> Option<(Seq<char>, Seq<char>)> {
    let i = first_occurrence_from(s, pat, 0);
    if i < 0 {
        None
    } else {
        Some((s.take(i), s.skip(i + pat.len())))
    }
}

/// `s` without its trailing run of `c` (`str::trim_end_matches(c)`).
pub open spec fn trim_end_char(s: Seq<char>, c: char) -> Seq<char>
    decreases s.len(),
{
    if s.len() > 0 && s.last() == c {
        trim_end_char(s.drop_last(), c)
    } else {
        s
    }
}

/// `s` with every `from` replaced by `to`.
pub open spec fn replace_char(s: Seq<char>, from: char, to: char) -> Seq<char> {
    Seq::new(s.len(), |i: int| if s[i] == from { to } else { s[i] })
}

/// The ASCII digit for `d < 10`.
pub open spec fn digit_char(d: nat) -> char {
    ((48 + d) as u32) as char
}

/// The decimal text of `n`, without leading zeros.
pub open spec fn decimal(n: nat) -> Seq<char>
    decreases n,
{
    if n < 10 {
        seq![digit_char(n)]
    } else {
        decimal(n / 10).push(digit_char(n % 10))
    }
}

pub open spec fn is_digit(c: char) -> bool {
    '0' <= c && c <= '9'
}

pub open spec fn all_digits(s: Seq<char>) -> bool {
    forall|i: int| 0 <= i < s.len() ==> is_digit(#[trigger] s[i])
}

/// The value of a run of decimal digits.
pub open spec fn digits_value(s: Seq<char>) -> nat
    decreases s.len(),
{
    if s.len() == 0 {
        0
    } else {
        digits_value(s.drop_last()) * 10 + ((s.last() as nat) - 48) as nat
    }
}

/// What `str::parse::<u32>` accepts: an optional `+`, then one or more
/// decimal digits whose value fits in a `u32`.
pub open spec fn u32_text_value(s: Seq<char>) -> Option<u32> {
    let d = if s.len() > 0 && s[0] == '+' { s.drop_first() } else { s };
    if d.len() > 0 && all_digits(d) && digits_value(d) <= u32::MAX {
        Some(digits_value(d) as u32)
    } else {
        None
    }
}

/// The result of `str::to_lowercase` on `s`.
pub uninterp spec fn lowercase(s: Seq<char>) -> Seq<char>;

/// All characters of `s` are ASCII.
pub open spec fn all_ascii(s: Seq<char>) -> bool {
    forall|i: int| 0 <= i < s.len() ==> (#[trigger] s[i] as u32) < 128
}

/// `s` with the ASCII capitals `A`..`Z` turned into `a`..`z`.
pub open spec fn ascii_lowercase(s: Seq<char>) -> Seq<char> {
    Seq::new(
        s.len(),
        |i: int| if 'A' <= s[i] && s[i] <= 'Z' { ((s[i] as u32) + 32) as char } else { s[i] },
    )
}

/// A character with the Unicode `White_Space` property, the white space
/// that `char::is_whitespace` and `str::trim` go by.
pub open spec fn is_white_space(c: char) -> bool {
    ||| '\u{9}' <= c && c <= '\u{d}'
    ||| c == ' '
    ||| c == '\u{85}'
    ||| c == '\u{a0}'
    ||| c == '\u{1680}'
    ||| '\u{2000}' <= c && c <= '\u{200a}'
    ||| c == '\u{2028}'
    ||| c == '\u{2029}'
    ||| c == '\u{202f}'
    ||| c == '\u{205f}'
    ||| c == '\u{3000}'
}

/// `s` without its leading white space.
pub open spec fn trim_start_ws(s: Seq<char>) -> Seq<char>
    decreases s.len(),
{
    if s.len() > 0 && is_white_space(s[0]) {
        trim_start_ws(s.drop_first())
    } else {
        s
    }
}

/// `s` without its trailing white space.
pub open spec fn trim_end_ws(s: Seq<char>) -> Seq<char>
    decreases s.len(),
{
    if s.len() > 0 && is_white_space(s.last()) {
        trim_end_ws(s.drop_last())
    } else {
        s
    }
}

/// `s` without leading and trailing white space (`str::trim`).
pub open spec fn trimmed(s: Seq<char>) -> Seq<char> {
    trim_end_ws(trim_start_ws(s))
}

// ---------------------------------------------------------------------------
// Calls into std that vstd does not specify
// ---------------------------------------------------------------------------

/// `String::push`: appends `c` to `s`. Trusted: the contract states what the
/// std documentation says, that `c` is added at the end.
#[verifier::external_body]
fn push_char(s: &mut String, c: char)
    ensures
        final(s)@ == old(s)@.push(c),
{
    s.push(c);
}

/// `str::to_lowercase`. Trusted: the contract names the result (`lowercase`
/// of the input's characters) and states the ASCII case, where `A`..`Z`
/// become `a`..`z` and every other character stays; the Unicode case mapping
/// of other characters is left unstated.
#[verifier::external_body]
pub(crate) fn to_lowercase(s: &str) -> (r: String)
    ensures
        r@ == lowercase(s@),
        all_ascii(s@) ==> r@ == ascii_lowercase(s@),
{
    s.to_lowercase()
}

// ---------------------------------------------------------------------------
// Conversions
// ---------------------------------------------------------------------------

/// The characters of `s`, in order.
pub fn chars_of(s: &str) -> (v: Vec<char>)
    ensures
        v@ == s@,
{
    let mut v: Vec<char> = Vec::new();
    for c in it: s.chars()
        invariant
            v@ == it.seq().take(it.index() as int),
            it.seq() == s@,
    {
        v.push(c);
    }
    v
}

/// The string made of `v[from..to]`.
pub fn string_of_range(v: &Vec<char>, from: usize, to: usize) -> (s: String)
    requires
        from <= to <= v.len(),
    ensures
        s@ == v@.subrange(from as int, to as int),
{
    let mut s = String::new();
    let mut i = from;
    while i < to
        invariant
            from <= i <= to <= v.len(),
            s@ == v@.subrange(from as int, i as int),
        decreases to - i,
    {
        push_char(&mut s, v[i]);
        assert(v@.subrange(from as int, i + 1) == v@.subrange(from as int, i as int).push(v@[i as int]));
        i = i + 1;
    }
    s
}

/// The string made of all of `v`.
pub fn string_of(v: &Vec<char>) -> (s: String)
    ensures
        s@ == v@,
{
    let s = string_of_range(v, 0, v.len());
    assert(v@.subrange(0, v@.len() as int) == v@);
    s
}

/// `a` followed by `b`.
pub fn concat(a: &str, b: &str) -> (s: String)
    ensures
        s@ == a@ + b@,
{
    let mut s = String::from_str(a);
    s.append(b);
    s
}

/// `a`, `b` and `c` one after another.
pub fn concat3(a: &str, b: &str, c: &str) -> (s: String)
    ensures
        s@ == a@ + b@ + c@,
{
    let mut s = String::from_str(a);
    s.append(b);
    s.append(c);
    s
}

/// A fresh copy of `s`.
pub fn owned(s: &str) -> (r: String)
    ensures
        r@ == s@,
{
    String::from_str(s)
}

/// Whether `c` is white space (`char::is_whitespace`).
pub fn is_whitespace(c: char) -> (r: bool)
    ensures
        r == is_white_space(c),
{
    ('\u{9}' <= c && c <= '\u{d}') || c == ' ' || c == '\u{85}' || c == '\u{a0}' || c == '\u{1680}'
        || ('\u{2000}' <= c && c <= '\u{200a}') || c == '\u{2028}' || c == '\u{2029}' || c
        == '\u{202f}' || c == '\u{205f}' || c == '\u{3000}'
}

/// `s` without leading and trailing white space (`s.trim()`).
pub fn trim(s: &str) -> (r: String)
    ensures
        r@ == trimmed(s@),
{
    let v = chars_of(s);
    let mut i: usize = 0;
    assert(v@.skip(0) =~= v@);
    while i < v.len() && is_whitespace(v[i])
        invariant
            i <= v.len(),
            trim_start_ws(v@) == trim_start_ws(v@.skip(i as int)),
        decreases v.len() - i,
    {
        assert(v@.skip(i as int).drop_first() =~= v@.skip(i + 1));
        i = i + 1;
    }
    assert(trim_start_ws(v@) == v@.skip(i as int));
    let mut k: usize = v.len();
    assert(v@.subrange(i as int, k as int) =~= v@.skip(i as int));
    while k > i && is_whitespace(v[k - 1])
        invariant
            i <= k <= v.len(),
            trim_end_ws(v@.skip(i as int)) == trim_end_ws(v@.subrange(i as int, k as int)),
        decreases k,
    {
        assert(v@.subrange(i as int, k as int).drop_last() =~= v@.subrange(i as int, k - 1));
        k = k - 1;
    }
    string_of_range(&v, i, k)
}

// ---------------------------------------------------------------------------
// Searching
// ---------------------------------------------------------------------------

/// Whether `needle` occurs in `hay` at index `i`.
pub fn matches_at(hay: &Vec<char>, needle: &Vec<char>, i: usize) -> (r: bool)
    ensures
        r == occurs_at(hay@, needle@, i as int),
{
    if needle.len() > hay.len() || i > hay.len() - needle.len() {
        return false;
    }
    let mut j: usize = 0;
    while j < needle.len()
        invariant
            i + needle.len() <= hay.len(),
            j <= needle.len(),
            forall|k: int| 0 <= k < j ==> hay@[i + k] == needle@[k],
        decreases needle.len() - j,
    {
        if hay[i + j] != needle[j] {
            assert(hay@.subrange(i as int, i + needle.len())[j as int] != needle@[j as int]);
            return false;
        }
        j = j + 1;
    }
    assert(hay@.subrange(i as int, i + needle.len()) =~= needle@);
    true
}

pub proof fn lemma_first_occurrence_found(hay: Seq<char>, needle: Seq<char>, k: int)
    requires
        0 <= k,
        first_occurrence_from(hay, needle, k) >= 0,
    ensures
        occurs_at(hay, needle, first_occurrence_from(hay, needle, k)),
    decreases hay.len() + 1 - k,
{
    if k + needle.len() <= hay.len() && !occurs_at(hay, needle, k) {
        lemma_first_occurrence_found(hay, needle, k + 1);
    }
}

proof fn lemma_no_occurrence_from(hay: Seq<char>, needle: Seq<char>, k: int, m: int)
    requires
        0 <= k <= m,
        first_occurrence_from(hay, needle, k) < 0,
    ensures
        !occurs_at(hay, needle, m),
    decreases m - k,
{
    if k < m && k + needle.len() <= hay.len() {
        lemma_no_occurrence_from(hay, needle, k + 1, m);
    }
}

/// The index of the first occurrence of `needle` in `hay`, if any.
pub fn find_text(hay: &Vec<char>, needle: &Vec<char>) -> (r: Option<usize>)
    ensures
        match r {
            Some(i) => i + needle@.len() <= hay@.len() && i as int == first_occurrence_from(
                hay@,
                needle@,
                0,
            ),
            None => first_occurrence_from(hay@, needle@, 0) < 0,
        },
{
    if needle.len() > hay.len() {
        return None;
    }
    let last = hay.len() - needle.len();
    let mut i: usize = 0;
    loop
        invariant
            last + needle.len() == hay.len(),
            i <= last,
            first_occurrence_from(hay@, needle@, 0) == first_occurrence_from(hay@, needle@, i as int),
        decreases last - i,
    {
        if matches_at(hay, needle, i) {
            return Some(i);
        }
        if i == last {
            assert(first_occurrence_from(hay@, needle@, i + 1) == -1);
            return None;
        }
        i = i + 1;
    }
}

/// Whether `needle` occurs in `hay` (`str::contains`).
pub fn contains(hay: &str, needle: &str) -> (r: bool)
    ensures
        r == contains_text(hay@, needle@),
{
    let h = chars_of(hay);
    let n = chars_of(needle);
    match find_text(&h, &n) {
        Some(i) => {
            proof {
                lemma_first_occurrence_found(h@, n@, 0);
            }
            true
        },
        None => {
            assert forall|m: int| !occurs_at(hay@, needle@, m) by {
                if m >= 0 {
                    lemma_no_occurrence_from(h@, n@, 0, m);
                }
            }
            false
        },
    }
}

/// The index of the first `c` in `v` at or after `from`, if any.
pub fn find_char_from(v: &Vec<char>, c: char, from: usize) -> (r: Option<usize>)
    ensures
        match r {
            Some(i) => i < v@.len() && i as int == first_index_from(v@, c, from as int),
            None => first_index_from(v@, c, from as int) == -1,
        },
{
    let mut i = from;
    while i < v.len()
        invariant
            from <= i,
            first_index_from(v@, c, from as int) == first_index_from(v@, c, i as int),
        decreases v.len() - i,
    {
        if v[i] == c {
            return Some(i);
        }
        i = i + 1;
    }
    None
}

/// The index of the last `c` in `v`, if any.
pub fn find_last_char(v: &Vec<char>, c: char) -> (r: Option<usize>)
    ensures
        match r {
            Some(i) => i < v@.len() && i as int == last_index(v@, c),
            None => last_index(v@, c) == -1,
        },
{
    let mut k = v.len();
    while k > 0
        invariant
            k <= v.len(),
            last_index(v@, c) == last_index_before(v@, c, k as int),
        decreases k,
    {
        if v[k - 1] == c {
            return Some(k - 1);
        }
        k = k - 1;
    }
    None
}

// ---------------------------------------------------------------------------
// Splitting and trimming
// ---------------------------------------------------------------------------

/// `s.splitn(3, sep)` when it yields three parts.
pub fn split_in_three(s: &str, sep: char) -> (r: Option<(String, String, String)>)
    ensures
        match r {
            Some((a, b, c)) => split_three(s@, sep) == Some((a@, b@, c@)),
            None => split_three(s@, sep) is None,
        },
{
    let v = chars_of(s);
    match find_char_from(&v, sep, 0) {
        None => None,
        Some(i) => match find_char_from(&v, sep, i + 1) {
            None => None,
            Some(j) => {
                proof {
                    lemma_first_index_bounds(v@, sep, i as int + 1);
                }
                let a = string_of_range(&v, 0, i);
                let b = string_of_range(&v, i + 1, j);
                let c = string_of_range(&v, j + 1, v.len());
                assert(v@.subrange(0, i as int) == v@.take(i as int));
                assert(v@.subrange(j + 1, v@.len() as int) == v@.skip(j + 1));
                Some((a, b, c))
            },
        },
    }
}

proof fn lemma_first_index_bounds(s: Seq<char>, c: char, k: int)
    requires
        first_index_from(s, c, k) >= 0,
    ensures
        k <= first_index_from(s, c, k) < s.len(),
    decreases s.len() - k,
{
    if 0 <= k < s.len() && s[k] != c {
        lemma_first_index_bounds(s, c, k + 1);
    }
}

/// The text after the last `sep`, or all of `s` (`s.rsplit(sep).next()`).
pub fn after_last(s: &str, sep: char) -> (r: String)
    ensures
        r@ == last_segment(s@, sep),
{
    let v = chars_of(s);
    match find_last_char(&v, sep) {
        Some(i) => {
            assert(i < v.len());
            let r = string_of_range(&v, i + 1, v.len());
            assert(v@.subrange(i + 1, v@.len() as int) == v@.skip(i + 1));
            r
        },
        None => {
            assert(v@.skip(0) == v@);
            owned(s)
        },
    }
}

/// `s.trim_end_matches(c)`.
pub fn trim_end_matches(s: &str, c: char) -> (r: String)
    ensures
        r@ == trim_end_char(s@, c),
{
    let v = chars_of(s);
    let mut k = v.len();
    assert(v@.take(k as int) == v@);
    while k > 0 && v[k - 1] == c
        invariant
            k <= v.len(),
            trim_end_char(v@, c) == trim_end_char(v@.take(k as int), c),
        decreases k,
    {
        assert(v@.take(k as int).drop_last() == v@.take(k - 1));
        k = k - 1;
    }
    string_of_range(&v, 0, k)
}

/// `s` with every `from` replaced by `to`.
pub fn replace(s: &str, from: char, to: char) -> (r: String)
    ensures
        r@ == replace_char(s@, from, to),
{
    let v = chars_of(s);
    let mut out = String::new();
    for i in 0..v.len()
        invariant
            out@ == replace_char(v@, from, to).take(i as int),
    {
        let c = if v[i] == from { to } else { v[i] };
        push_char(&mut out, c);
        assert(replace_char(v@, from, to).take(i + 1)
            == replace_char(v@, from, to).take(i as int).push(c));
    }
    assert(replace_char(v@, from, to).take(v.len() as int) == replace_char(v@, from, to));
    out
}

// ---------------------------------------------------------------------------
// Numbers
// ---------------------------------------------------------------------------

fn digit(d: u32) -> (c: char)
    requires
        d < 10,
    ensures
        c == digit_char(d as nat),
{
    match d {
        0 => '0',
        1 => '1',
        2 => '2',
        3 => '3',
        4 => '4',
        5 => '5',
        6 => '6',
        7 => '7',
        8 => '8',
        _ => '9',
    }
}

fn push_decimal(n: u32, out: &mut String)
    ensures
        final(out)@ == old(out)@ + decimal(n as nat),
    decreases n,
{
    if n >= 10 {
        push_decimal(n / 10, out);
    }
    push_char(out, digit(n % 10));
}

/// The decimal text of `n` (`n.to_string()`).
pub fn u32_to_text(n: u32) -> (s: String)
    ensures
        s@ == decimal(n as nat),
{
    let mut s = String::new();
    push_decimal(n, &mut s);
    s
}

/// `s.parse::<u32>().ok()`.
pub fn parse_u32(s: &str) -> (r: Option<u32>)
    ensures
        r == u32_text_value(s@),
{
    let v = chars_of(s);
    let start: usize = if v.len() > 0 && v[0] == '+' { 1 } else { 0 };
    let ghost d = if v@.len() > 0 && v@[0] == '+' { v@.drop_first() } else { v@ };
    assert(d == v@.skip(start as int));
    if start >= v.len() {
        assert(d.len() == 0);
        return None;
    }
    let mut acc: u64 = 0;
    let mut i = start;
    while i < v.len()
        invariant
            start <= i <= v.len(),
            v@ == s@,
            d == (if v@.len() > 0 && v@[0] == '+' { v@.drop_first() } else { v@ }),
            d == v@.skip(start as int),
            all_digits(v@.subrange(start as int, i as int)),
            acc == if digits_value(v@.subrange(start as int, i as int)) <= u32::MAX {
                digits_value(v@.subrange(start as int, i as int))
            } else {
                u32::MAX as nat + 1
            },
        decreases v.len() - i,
    {
        let c = v[i];
        if !('0' <= c && c <= '9') {
            assert(d[i - start] == c);
            assert(!is_digit(d[i - start]));
            assert(!all_digits(d));
            return None;
        }
        let dv = (c as u32 - 48) as u64;
        let next = acc * 10 + dv;
        acc = if next > 4294967295 { 4294967296 } else { next };
        let ghost prev = v@.subrange(start as int, i as int);
        let ghost cur = v@.subrange(start as int, i + 1);
        assert(cur.drop_last() == prev);
        i = i + 1;
    }
    assert(v@.subrange(start as int, v@.len() as int) == d);
    if acc > 4294967295 {
        None
    } else {
        Some(acc as u32)
    }
}


// ---------------------------------------------------------------------------
// Laws
// ---------------------------------------------------------------------------

proof fn lemma_digit_char(d: nat)
    requires
        d < 10,
    ensures
        is_digit(digit_char(d)),
        digit_char(d) as nat == 48 + d,
{
}

/// The decimal text of `n` is a nonempty run of digits whose value is `n`.
pub proof fn lemma_decimal_digits(n: nat)
    ensures
        decimal(n).len() > 0,
        all_digits(decimal(n)),
        digits_value(decimal(n)) == n,
    decreases n,
{
    if n < 10 {
        lemma_digit_char(n);
        let s = decimal(n);
        assert(s.drop_last() =~= Seq::<char>::empty());
        assert(digits_value(s.drop_last()) == 0);
        assert(s.last() == digit_char(n));
        assert(digits_value(s) == digits_value(s.drop_last()) * 10 + ((s.last() as nat) - 48) as nat);
    } else {
        lemma_decimal_digits(n / 10);
        lemma_digit_char(n % 10);
        let s = decimal(n);
        assert(s.drop_last() =~= decimal(n / 10));
        assert(s.last() == digit_char(n % 10));
        assert(digits_value(s) == digits_value(s.drop_last()) * 10 + ((s.last() as nat) - 48) as nat);
        assert(digits_value(s) == (n / 10) * 10 + n % 10);
        assert forall|i: int| 0 <= i < s.len() implies is_digit(#[trigger] s[i]) by {
            if i < s.len() - 1 {
                assert(s[i] == decimal(n / 10)[i]);
            }
        }
    }
}

/// Reading back the decimal text of a `u32` gives the number:
/// `u32_to_text(n).parse::<u32>() == Ok(n)`.
pub proof fn parse_reads_back_decimal(n: u32)
    ensures
        u32_text_value(decimal(n as nat)) == Some(n),
{
    lemma_decimal_digits(n as nat);
    assert(is_digit(decimal(n as nat)[0]));
}


/// `first_index_from` finds the first `c` at or after `from`.
pub proof fn lemma_first_index_is(s: Seq<char>, c: char, from: int, k: int)
    requires
        0 <= from <= k < s.len(),
        s[k] == c,
        forall|m: int| from <= m < k ==> s[m] != c,
    ensures
        first_index_from(s, c, from) == k,
    decreases k - from,
{
    if from < k {
        lemma_first_index_is(s, c, from + 1, k);
    }
}

/// Splitting `a:b:rest` in three at `:` gives `a`, `b` and `rest` when
/// neither `a` nor `b` holds the separator.
pub proof fn lemma_split_three_parts(a: Seq<char>, b: Seq<char>, rest: Seq<char>, sep: char)
    requires
        !a.contains(sep),
        !b.contains(sep),
    ensures
        split_three(a + seq![sep] + b + seq![sep] + rest, sep) == Some((a, b, rest)),
{
    let s = a + seq![sep] + b + seq![sep] + rest;
    let la = a.len() as int;
    let lb = b.len() as int;
    assert forall|m: int| 0 <= m < a.len() implies s[m] != sep by {
        assert(s[m] == a[m]);
    }
    lemma_first_index_is(s, sep, 0, a.len() as int);
    assert forall|m: int| a.len() + 1 <= m < a.len() + 1 + b.len() implies s[m] != sep by {
        assert(s[m] == b[m - a.len() - 1]);
    }
    lemma_first_index_is(s, sep, la + 1, la + 1 + lb);
    assert(s.take(a.len() as int) =~= a);
    assert(s.subrange(la + 1, la + 1 + lb) =~= b);
    assert(s.skip(la + 1 + lb + 1) =~= rest);
}


pub proof fn lemma_last_index_is(s: Seq<char>, c: char, k: int, idx: int)
    requires
        0 <= idx < k <= s.len(),
        s[idx] == c,
        forall|m: int| idx < m < k ==> s[m] != c,
    ensures
        last_index_before(s, c, k) == idx,
    decreases k - idx,
{
    if k - 1 > idx {
        lemma_last_index_is(s, c, k - 1, idx);
    }
}

/// `last_index_before` is -1 when no `c` stands before `k`.
pub proof fn lemma_last_index_none(s: Seq<char>, c: char, k: int)
    requires
        0 <= k <= s.len(),
        forall|m: int| 0 <= m < k ==> s[m] != c,
    ensures
        last_index_before(s, c, k) == -1,
    decreases k,
{
    if k > 0 {
        lemma_last_index_none(s, c, k - 1);
    }
}

/// The text after the last separator of `a:b` is `b` when `b` holds no
/// separator.
pub proof fn lemma_last_segment_is(a: Seq<char>, b: Seq<char>, sep: char)
    requires
        !b.contains(sep),
    ensures
        last_segment(a + seq![sep] + b, sep) == b,
{
    let s = a + seq![sep] + b;
    assert forall|m: int| a.len() < m < s.len() implies s[m] != sep by {
        assert(s[m] == b[m - a.len() - 1]);
    }
    lemma_last_index_is(s, sep, s.len() as int, a.len() as int);
    assert(s.skip(a.len() as int + 1) =~= b);
}


/// Trimming the start drops a run of leading white space.
pub proof fn lemma_trim_start(s: Seq<char>) -> (j: int)
    ensures
        0 <= j <= s.len(),
        trim_start_ws(s) == s.skip(j),
        j < s.len() ==> !is_white_space(s[j]),
        forall|m: int| 0 <= m < j ==> is_white_space(#[trigger] s[m]),
    decreases s.len(),
{
    if s.len() > 0 && is_white_space(s[0]) {
        let j0 = lemma_trim_start(s.drop_first());
        assert(s.drop_first().skip(j0) =~= s.skip(j0 + 1));
        assert forall|m: int| 0 <= m < j0 + 1 implies is_white_space(#[trigger] s[m]) by {
            if m > 0 {
                assert(s[m] == s.drop_first()[m - 1]);
            }
        }
        j0 + 1
    } else {
        assert(s.skip(0) =~= s);
        0
    }
}

/// Trimming the end drops a run of trailing white space.
pub proof fn lemma_trim_end(s: Seq<char>) -> (j: int)
    ensures
        0 <= j <= s.len(),
        trim_end_ws(s) == s.take(j),
        j > 0 ==> !is_white_space(s[j - 1]),
        forall|m: int| j <= m < s.len() ==> is_white_space(#[trigger] s[m]),
    decreases s.len(),
{
    if s.len() > 0 && is_white_space(s.last()) {
        let j0 = lemma_trim_end(s.drop_last());
        assert(s.drop_last().take(j0) =~= s.take(j0));
        assert forall|m: int| j0 <= m < s.len() implies is_white_space(#[trigger] s[m]) by {
            if m < s.len() - 1 {
                assert(s[m] == s.drop_last()[m]);
            }
        }
        j0
    } else {
        assert(s.take(s.len() as int) =~= s);
        s.len() as int
    }
}

/// The trimmed text is the part of `s` between its leading and trailing
/// white space, and neither starts nor ends with white space.
pub proof fn lemma_trimmed_range(s: Seq<char>) -> (ab: (int, int))
    ensures
        0 <= ab.0 <= ab.1 <= s.len(),
        trimmed(s) == s.subrange(ab.0, ab.1),
        ab.0 < ab.1 ==> !is_white_space(s[ab.0]) && !is_white_space(s[ab.1 - 1]),
{
    let a = lemma_trim_start(s);
    let t = s.skip(a);
    let k = lemma_trim_end(t);
    assert(t.take(k) =~= s.subrange(a, a + k));
    if k > 0 {
        assert(t[0] == s[a]);
        assert(t[k - 1] == s[a + k - 1]);
    }
    (a, a + k)
}

/// Text that neither starts nor ends with white space is its own trim.
pub proof fn lemma_trimmed_clean(s: Seq<char>)
    requires
        s.len() > 0 ==> !is_white_space(s[0]) && !is_white_space(s.last()),
    ensures
        trimmed(s) == s,
{
}

/// Trimming twice trims no more than once.
pub proof fn trim_is_idempotent(s: Seq<char>)
    ensures
        trimmed(trimmed(s)) == trimmed(s),
{
    let (a, b) = lemma_trimmed_range(s);
    let t = trimmed(s);
    if t.len() > 0 {
        assert(t[0] == s[a]);
        assert(t.last() == s[b - 1]);
    }
    lemma_trimmed_clean(t);
}

/// Trimmed text followed by white space trims back to itself.
pub proof fn lemma_trimmed_push_white_space(n: Seq<char>, c: char)
    requires
        trimmed(n) == n,
        is_white_space(c),
    ensures
        trimmed(n.push(c)) == n,
{
    let (a, b) = lemma_trimmed_range(n);
    let m = n.push(c);
    if n.len() == 0 {
        assert(m.drop_first() =~= Seq::<char>::empty());
        assert(trim_start_ws(m) == trim_start_ws(m.drop_first()));
        assert(trim_start_ws(m) =~= Seq::<char>::empty());
    } else {
        assert(a == 0 && b == n.len());
        assert(!is_white_space(n[0]) && !is_white_space(n.last()));
        assert(m[0] == n[0]);
        assert(trim_start_ws(m) == m);
        assert(m.last() == c);
        assert(m.drop_last() =~= n);
        assert(trim_end_ws(m) == trim_end_ws(n));
        assert(trim_end_ws(n) == n);
    }
}


/// No occurrence stands between `k` and the first one found from `k`.
pub proof fn lemma_first_occurrence_minimal(hay: Seq<char>, needle: Seq<char>, k: int, m: int)
    requires
        0 <= k <= m,
        first_occurrence_from(hay, needle, k) < 0 || m < first_occurrence_from(hay, needle, k),
    ensures
        !occurs_at(hay, needle, m),
    decreases m - k,
{
    if k < m && k + needle.len() <= hay.len() {
        lemma_first_occurrence_minimal(hay, needle, k + 1, m);
    }
}

/// `first_occurrence_from` finds an occurrence at `i` when none stands
/// between `k` and `i`.
pub proof fn lemma_first_occurrence_is(hay: Seq<char>, needle: Seq<char>, k: int, i: int)
    requires
        0 <= k <= i,
        occurs_at(hay, needle, i),
        forall|m: int| k <= m < i ==> !occurs_at(hay, needle, m),
    ensures
        first_occurrence_from(hay, needle, k) == i,
    decreases i - k,
{
    if k < i {
        lemma_first_occurrence_is(hay, needle, k + 1, i);
    }
}

/// No `c` stands after the last one found before `k`.
pub proof fn lemma_last_index_after(s: Seq<char>, c: char, k: int, m: int)
    requires
        0 <= k <= s.len(),
        last_index_before(s, c, k) < m < k,
    ensures
        s[m] != c,
    decreases k,
{
    if k > 0 && s[k - 1] != c && m < k - 1 {
        lemma_last_index_after(s, c, k - 1, m);
    }
}

/// Dropping trailing `c`s keeps a prefix.
pub proof fn lemma_trim_end_char_prefix(s: Seq<char>, c: char) -> (j: int)
    ensures
        0 <= j <= s.len(),
        trim_end_char(s, c) == s.take(j),
    decreases s.len(),
{
    if s.len() > 0 && s.last() == c {
        let j0 = lemma_trim_end_char_prefix(s.drop_last(), c);
        assert(s.drop_last().take(j0) =~= s.take(j0));
        j0
    } else {
        assert(s.take(s.len() as int) =~= s);
        s.len() as int
    }
}

/// A slice of `s` occurs in `s`.
pub proof fn lemma_slice_occurs(s: Seq<char>, a: int, b: int)
    requires
        0 <= a <= b <= s.len(),
    ensures
        contains_text(s, s.subrange(a, b)),
{
    assert(occurs_at(s, s.subrange(a, b), a));
}


/// The last `c` before `k`, when there is one, stands before `k`.
pub proof fn lemma_last_index_bounds(s: Seq<char>, c: char, k: int)
    requires
        last_index_before(s, c, k) >= 0,
    ensures
        0 <= last_index_before(s, c, k) < k <= s.len(),
        s[last_index_before(s, c, k)] == c,
    decreases k,
{
    if 0 < k <= s.len() && s[k - 1] != c {
        lemma_last_index_bounds(s, c, k - 1);
    }
}

} // verus!
