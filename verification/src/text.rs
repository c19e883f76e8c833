//! Small text operations that the rest of the library builds on: the ways
//! `str` trims and splits text, stated over sequences of characters.

use vstd::prelude::*;

verus! {

/// Appends one character to a `String`, as `String::push` does.
#[verifier::external_body]
pub(crate) fn push_char(s: &mut String, c: char)
    ensures
        final(s)@ == old(s)@.push(c),
{
    s.push(c)
}

/// A character with the Unicode `White_Space` property, which is what
/// `char::is_whitespace` and `str::trim` go by.
pub open spec fn is_whitespace(c: char) -> bool {
    ||| ('\u{9}' <= c && c <= '\u{d}')
    ||| c == ' '
    ||| c == '\u{85}'
    ||| c == '\u{a0}'
    ||| c == '\u{1680}'
    ||| ('\u{2000}' <= c && c <= '\u{200a}')
    ||| c == '\u{2028}'
    ||| c == '\u{2029}'
    ||| c == '\u{202f}'
    ||| c == '\u{205f}'
    ||| c == '\u{3000}'
}

/// Whether `c` has the Unicode `White_Space` property.
pub fn is_whitespace_exec(c: char) -> (b: bool)
    ensures
        b == is_whitespace(c),
{
    ('\u{9}' <= c && c <= '\u{d}') || c == ' ' || c == '\u{85}' || c == '\u{a0}' || c == '\u{1680}'
        || ('\u{2000}' <= c && c <= '\u{200a}') || c == '\u{2028}' || c == '\u{2029}' || c
        == '\u{202f}' || c == '\u{205f}' || c == '\u{3000}'
}

/// `s` with every leading copy of `p` removed, as `str::trim_start_matches`
/// does with a non-empty text pattern.
pub open spec fn strip_prefixes(s: Seq<char>, p: Seq<char>) -> Seq<char>
    decreases s.len(),
{
    if p.len() > 0 && p.len() <= s.len() && s.subrange(0, p.len() as int) == p {
        strip_prefixes(s.subrange(p.len() as int, s.len() as int), p)
    } else {
        s
    }
}

/// `s` with every trailing copy of `p` removed, as `str::trim_end_matches`
/// does with a non-empty text pattern.
pub open spec fn strip_suffixes(s: Seq<char>, p: Seq<char>) -> Seq<char>
    decreases s.len(),
{
    if p.len() > 0 && p.len() <= s.len() && s.subrange(s.len() - p.len(), s.len() as int) == p {
        strip_suffixes(s.subrange(0, s.len() - p.len()), p)
    } else {
        s
    }
}

/// `s` without its leading characters that satisfy `f`.
pub open spec fn trim_start_where(s: Seq<char>, f: spec_fn(char) -> bool) -> Seq<char>
    decreases s.len(),
{
    if s.len() > 0 && f(s[0]) {
        trim_start_where(s.drop_first(), f)
    } else {
        s
    }
}

/// `s` without its trailing characters that satisfy `f`.
pub open spec fn trim_end_where(s: Seq<char>, f: spec_fn(char) -> bool) -> Seq<char>
    decreases s.len(),
{
    if s.len() > 0 && f(s[s.len() - 1]) {
        trim_end_where(s.drop_last(), f)
    } else {
        s
    }
}

/// The test for white space.
pub open spec fn ws_pred() -> spec_fn(char) -> bool {
    |x: char| is_whitespace(x)
}

/// The test for the character `c`.
pub open spec fn char_pred(c: char) -> spec_fn(char) -> bool {
    |x: char| x == c
}

/// `s` as `str::trim` leaves it: without leading or trailing white space.
pub open spec fn trim_whitespace(s: Seq<char>) -> Seq<char> {
    trim_end_where(trim_start_where(s, ws_pred()), ws_pred())
}

/// `s` as `str::trim_matches` with a character leaves it: without leading or
/// trailing copies of `c`.
pub open spec fn trim_char(s: Seq<char>, c: char) -> Seq<char> {
    trim_end_where(trim_start_where(s, char_pred(c)), char_pred(c))
}

/// The characters of `s`.
pub fn chars_of(s: &str) -> (v: Vec<char>)
    ensures
        v@ == s@,
{
    let n = s.unicode_len();
    let mut v: Vec<char> = Vec::new();
    let mut i: usize = 0;
    while i < n
        invariant
            n == s@.len(),
            i <= n,
            v@ == s@.subrange(0, i as int),
        decreases n - i,
    {
        v.push(s.get_char(i));
        i = i + 1;
        assert(v@ =~= s@.subrange(0, i as int));
    }
    assert(v@ =~= s@);
    v
}

/// The text made of `v[lo..hi]`.
pub fn string_of(v: &Vec<char>, lo: usize, hi: usize) -> (s: String)
    requires
        lo <= hi <= v.len(),
    ensures
        s@ == v@.subrange(lo as int, hi as int),
{
    let mut s = String::new();
    let mut i: usize = lo;
    while i < hi
        invariant
            lo <= i <= hi <= v.len(),
            s@ == v@.subrange(lo as int, i as int),
        decreases hi - i,
    {
        push_char(&mut s, v[i]);
        i = i + 1;
        assert(s@ =~= v@.subrange(lo as int, i as int));
    }
    s
}

/// Whether `v[at..at + p.len()]` is `p`.
pub fn matches_at(v: &Vec<char>, at: usize, hi: usize, p: &Vec<char>) -> (b: bool)
    requires
        at <= hi <= v.len(),
    ensures
        b == (p.len() <= hi - at && v@.subrange(at as int, at + p.len()) == p@),
{
    if p.len() > hi - at {
        return false;
    }
    let mut j: usize = 0;
    while j < p.len()
        invariant
            at + p.len() <= hi <= v.len(),
            j <= p.len(),
            forall|k: int| 0 <= k < j ==> v@[at + k] == p@[k],
        decreases p.len() - j,
    {
        if v[at + j] != p[j] {
            assert(v@.subrange(at as int, at + p.len())[j as int] != p@[j as int]);
            return false;
        }
        j = j + 1;
    }
    assert(v@.subrange(at as int, at + p.len()) =~= p@);
    true
}

/// The start of what `strip_prefixes` leaves of `v[lo..hi]`.
pub fn skip_prefixes(v: &Vec<char>, lo: usize, hi: usize, p: &Vec<char>) -> (r: usize)
    requires
        lo <= hi <= v.len(),
    ensures
        lo <= r <= hi,
        strip_prefixes(v@.subrange(lo as int, hi as int), p@) == v@.subrange(r as int, hi as int),
{
    let mut k = lo;
    while p.len() > 0 && matches_at(v, k, hi, p)
        invariant
            lo <= k <= hi <= v.len(),
            strip_prefixes(v@.subrange(lo as int, hi as int), p@) == strip_prefixes(
                v@.subrange(k as int, hi as int),
                p@,
            ),
        decreases hi - k,
    {
        let ghost w = v@.subrange(k as int, hi as int);
        assert(w.subrange(0, p@.len() as int) =~= v@.subrange(k as int, k + p.len()));
        assert(w.subrange(p@.len() as int, w.len() as int) =~= v@.subrange(k + p.len(), hi as int));
        k = k + p.len();
    }
    let ghost w = v@.subrange(k as int, hi as int);
    if p.len() > 0 && p.len() <= hi - k {
        assert(w.subrange(0, p@.len() as int) =~= v@.subrange(k as int, k + p.len()));
    }
    k
}

/// The end of what `strip_suffixes` leaves of `v[lo..hi]`.
pub fn skip_suffixes(v: &Vec<char>, lo: usize, hi: usize, p: &Vec<char>) -> (r: usize)
    requires
        lo <= hi <= v.len(),
    ensures
        lo <= r <= hi,
        strip_suffixes(v@.subrange(lo as int, hi as int), p@) == v@.subrange(lo as int, r as int),
{
    let mut k = hi;
    while p.len() > 0 && p.len() <= k - lo && matches_at(v, k - p.len(), k, p)
        invariant
            lo <= k <= hi <= v.len(),
            strip_suffixes(v@.subrange(lo as int, hi as int), p@) == strip_suffixes(
                v@.subrange(lo as int, k as int),
                p@,
            ),
        decreases k - lo,
    {
        let ghost w = v@.subrange(lo as int, k as int);
        assert(w.subrange(w.len() - p@.len(), w.len() as int) =~= v@.subrange(k - p.len(), k as int));
        assert(w.subrange(0, w.len() - p@.len()) =~= v@.subrange(lo as int, k - p.len()));
        k = k - p.len();
    }
    let ghost w = v@.subrange(lo as int, k as int);
    if p.len() > 0 && p.len() <= k - lo {
        assert(w.subrange(w.len() - p@.len(), w.len() as int) =~= v@.subrange(k - p.len(), k as int));
    }
    k
}

/// Whether `x` is trimmed: white space when `ws`, else `c`.
fn trims(x: char, ws: bool, c: char) -> (b: bool)
    ensures
        b == (if ws {
            is_whitespace(x)
        } else {
            x == c
        }),
{
    if ws {
        is_whitespace_exec(x)
    } else {
        x == c
    }
}

/// The start of what `trim_start_where` leaves of `v[lo..hi]`, for white
/// space (`ws`) or for the character `c`.
pub fn skip_start(v: &Vec<char>, lo: usize, hi: usize, ws: bool, c: char) -> (r: usize)
    requires
        lo <= hi <= v.len(),
    ensures
        lo <= r <= hi,
        ws ==> trim_start_where(v@.subrange(lo as int, hi as int), ws_pred())
            == v@.subrange(r as int, hi as int),
        !ws ==> trim_start_where(v@.subrange(lo as int, hi as int), char_pred(c)) == v@.subrange(
            r as int,
            hi as int,
        ),
{
    let ghost f = if ws {
        ws_pred()
    } else {
        char_pred(c)
    };
    let mut k = lo;
    while k < hi && trims(v[k], ws, c)
        invariant
            lo <= k <= hi <= v.len(),
            f == (if ws {
                ws_pred()
            } else {
                char_pred(c)
            }),
            trim_start_where(v@.subrange(lo as int, hi as int), f) == trim_start_where(
                v@.subrange(k as int, hi as int),
                f,
            ),
        decreases hi - k,
    {
        assert(v@.subrange(k as int, hi as int).drop_first() =~= v@.subrange(k + 1, hi as int));
        k = k + 1;
    }
    k
}

/// The end of what `trim_end_where` leaves of `v[lo..hi]`, for white space
/// (`ws`) or for the character `c`.
pub fn skip_end(v: &Vec<char>, lo: usize, hi: usize, ws: bool, c: char) -> (r: usize)
    requires
        lo <= hi <= v.len(),
    ensures
        lo <= r <= hi,
        ws ==> trim_end_where(v@.subrange(lo as int, hi as int), ws_pred())
            == v@.subrange(lo as int, r as int),
        !ws ==> trim_end_where(v@.subrange(lo as int, hi as int), char_pred(c)) == v@.subrange(
            lo as int,
            r as int,
        ),
{
    let ghost f = if ws {
        ws_pred()
    } else {
        char_pred(c)
    };
    let mut k = hi;
    while k > lo && trims(v[k - 1], ws, c)
        invariant
            lo <= k <= hi <= v.len(),
            f == (if ws {
                ws_pred()
            } else {
                char_pred(c)
            }),
            trim_end_where(v@.subrange(lo as int, hi as int), f) == trim_end_where(
                v@.subrange(lo as int, k as int),
                f,
            ),
        decreases k - lo,
    {
        assert(v@.subrange(lo as int, k as int).drop_last() =~= v@.subrange(lo as int, k - 1));
        k = k - 1;
    }
    k
}

/// Whether `a` and `b` hold the same characters.
pub fn str_equals(a: &str, b: &str) -> (r: bool)
    ensures
        r == (a@ == b@),
{
    let n = a.unicode_len();
    if n != b.unicode_len() {
        return false;
    }
    let mut i: usize = 0;
    while i < n
        invariant
            n == a@.len() == b@.len(),
            i <= n,
            forall|j: int| 0 <= j < i ==> a@[j] == b@[j],
        decreases n - i,
    {
        if a.get_char(i) != b.get_char(i) {
            return false;
        }
        i = i + 1;
    }
    assert(a@ =~= b@);
    true
}

/// A copy of `s` as an owned text.
pub fn owned(s: &str) -> (r: String)
    ensures
        r@ == s@,
{
    String::from_str(s)
}

/// The text of an optional text.
pub open spec fn opt_text(s: Option<String>) -> Option<Seq<char>> {
    match s {
        Some(t) => Some(t@),
        None => None,
    }
}

/// The text of an optional borrowed text.
pub open spec fn opt_str(s: Option<&str>) -> Option<Seq<char>> {
    match s {
        Some(t) => Some(t@),
        None => None,
    }
}

/// The texts of a list of texts.
pub open spec fn texts(v: Seq<String>) -> Seq<Seq<char>> {
    v.map_values(|n: String| n@)
}

/// The texts of an optional list of texts.
pub open spec fn opt_texts(v: Option<Vec<String>>) -> Option<Seq<Seq<char>>> {
    match v {
        Some(t) => Some(texts(t@)),
        None => None,
    }
}

/// The bytes of optional bytes.
pub open spec fn opt_bytes(v: Option<Vec<u8>>) -> Option<Seq<u8>> {
    match v {
        Some(t) => Some(t@),
        None => None,
    }
}

/// The text of an optional borrowed text, the empty text where there is
/// none.
pub open spec fn str_or_empty(s: Option<&str>) -> Seq<char> {
    match s {
        Some(t) => t@,
        None => Seq::empty(),
    }
}

/// The text of an optional text, the empty text where there is none.
pub open spec fn text_or_empty(s: Option<String>) -> Seq<char> {
    match s {
        Some(t) => t@,
        None => Seq::empty(),
    }
}

/// An owned copy of an optional borrowed text.
pub fn opt_owned(s: Option<&str>) -> (r: Option<String>)
    ensures
        opt_text(r) == opt_str(s),
{
    match s {
        Some(t) => Some(owned(t)),
        None => None,
    }
}

/// An owned copy of an optional borrowed text, the empty text where there
/// is none.
pub fn owned_or_empty(s: Option<&str>) -> (r: String)
    ensures
        r@ == str_or_empty(s),
{
    match s {
        Some(t) => owned(t),
        None => String::new(),
    }
}

/// An optional text, the empty text where there is none.
pub fn string_or_empty(s: Option<String>) -> (r: String)
    ensures
        r@ == text_or_empty(s),
{
    match s {
        Some(t) => t,
        None => String::new(),
    }
}

/// A copy of an optional text.
pub fn copy_opt_text(s: &Option<String>) -> (r: Option<String>)
    ensures
        opt_text(r) == opt_text(*s),
{
    match s {
        Some(t) => Some(owned(t.as_str())),
        None => None,
    }
}

/// The character of a decimal digit.
pub open spec fn digit_char(d: nat) -> char {
    if d == 0 {
        '0'
    } else if d == 1 {
        '1'
    } else if d == 2 {
        '2'
    } else if d == 3 {
        '3'
    } else if d == 4 {
        '4'
    } else if d == 5 {
        '5'
    } else if d == 6 {
        '6'
    } else if d == 7 {
        '7'
    } else if d == 8 {
        '8'
    } else {
        '9'
    }
}

/// The decimal text of a number, without leading zeros.
pub open spec fn decimal_text(n: nat) -> Seq<char>
    decreases n,
{
    if n < 10 {
        seq![digit_char(n)]
    } else {
        decimal_text(n / 10).push(digit_char(n % 10))
    }
}

fn digit(d: u64) -> (c: char)
    requires
        d < 10,
    ensures
        c == digit_char(d as nat),
{
    if d == 0 {
        '0'
    } else if d == 1 {
        '1'
    } else if d == 2 {
        '2'
    } else if d == 3 {
        '3'
    } else if d == 4 {
        '4'
    } else if d == 5 {
        '5'
    } else if d == 6 {
        '6'
    } else if d == 7 {
        '7'
    } else if d == 8 {
        '8'
    } else {
        '9'
    }
}

/// Appends the decimal text of `n` to `s`.
pub fn push_decimal(s: &mut String, n: u64)
    ensures
        final(s)@ == old(s)@ + decimal_text(n as nat),
    decreases n,
{
    if n >= 10 {
        push_decimal(s, n / 10);
    }
    push_char(s, digit(n % 10));
    proof {
        assert(old(s)@ + decimal_text(n as nat) =~= if n >= 10 {
            old(s)@ + decimal_text((n / 10) as nat) + seq![digit_char((n % 10) as nat)]
        } else {
            old(s)@ + seq![digit_char((n % 10) as nat)]
        });
    }
}

} // verus!
