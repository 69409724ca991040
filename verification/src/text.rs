//! Character-level text operations on lines of the relay protocol.

use vstd::prelude::*;

verus! {

broadcast use vstd::string::group_string_axioms;

/// The characters with the Unicode property `White_Space`.
pub open spec fn is_whitespace(c: char) -> bool {
    let u = c as u32;
    ||| 0x09 <= u <= 0x0D
    ||| u == 0x20
    ||| u == 0x85
    ||| u == 0xA0
    ||| u == 0x1680
    ||| 0x2000 <= u <= 0x200A
    ||| u == 0x2028
    ||| u == 0x2029
    ||| u == 0x202F
    ||| u == 0x205F
    ||| u == 0x3000
}

/// `s` without its leading whitespace.
pub open spec fn trim_start(s: Seq<char>) -> Seq<char>
    decreases s.len(),
{
    if s.len() > 0 && is_whitespace(s[0]) {
        trim_start(s.drop_first())
    } else {
        s
    }
}

/// `s` without its trailing whitespace.
pub open spec fn trim_end(s: Seq<char>) -> Seq<char>
    decreases s.len(),
{
    if s.len() > 0 && is_whitespace(s.last()) {
        trim_end(s.drop_last())
    } else {
        s
    }
}

/// `s` without leading and trailing whitespace.
pub open spec fn trim(s: Seq<char>) -> Seq<char> {
    trim_end(trim_start(s))
}

/// Whether `s` begins with `p`.
pub open spec fn has_prefix(s: Seq<char>, p: Seq<char>) -> bool {
    p.len() <= s.len() && s.subrange(0, p.len() as int) == p
}

/// What follows the first `n` characters of `s`.
pub open spec fn after(s: Seq<char>, n: nat) -> Seq<char> {
    s.subrange(n as int, s.len() as int)
}

/// The characters of `s`, in order.
pub fn chars_of(s: &str) -> (v: Vec<char>)
    ensures
        v@ == s@,
{
    let mut v: Vec<char> = Vec::new();
    for c in it: s.chars()
        invariant
            it.seq() == s@,
            v@ == s@.take(it.index() as int),
    {
        v.push(c);
    }
    v
}

/// Whether `c` is whitespace.
pub fn is_space(c: char) -> (b: bool)
    ensures
        b == is_whitespace(c),
{
    let u: u32 = c as u32;
    (0x09 <= u && u <= 0x0D) || u == 0x20 || u == 0x85 || u == 0xA0 || u == 0x1680 || (0x2000 <= u
        && u <= 0x200A) || u == 0x2028 || u == 0x2029 || u == 0x202F || u == 0x205F || u == 0x3000
}

/// The bounds of `v[lo..hi]` once its leading and trailing whitespace is
/// left out.
pub fn trim_bounds(v: &Vec<char>, lo: usize, hi: usize) -> (r: (usize, usize))
    requires
        lo <= hi <= v.len(),
    ensures
        lo <= r.0 <= r.1 <= hi,
        v@.subrange(r.0 as int, r.1 as int) == trim(v@.subrange(lo as int, hi as int)),
{
    let mut a: usize = lo;
    while a < hi && is_space(v[a])
        invariant
            lo <= a <= hi <= v.len(),
            trim_start(v@.subrange(lo as int, hi as int)) == trim_start(
                v@.subrange(a as int, hi as int),
            ),
        decreases hi - a,
    {
        assert(v@.subrange(a as int, hi as int).drop_first() =~= v@.subrange(
            a as int + 1,
            hi as int,
        ));
        a = a + 1;
    }
    assert(trim_start(v@.subrange(a as int, hi as int)) == v@.subrange(a as int, hi as int));
    let mut b: usize = hi;
    while a < b && is_space(v[b - 1])
        invariant
            a <= b <= hi <= v.len(),
            trim_end(v@.subrange(a as int, hi as int)) == trim_end(v@.subrange(a as int, b as int)),
        decreases b - a,
    {
        assert(v@.subrange(a as int, b as int).drop_last() =~= v@.subrange(
            a as int,
            b as int - 1,
        ));
        b = b - 1;
    }
    assert(trim_end(v@.subrange(a as int, b as int)) == v@.subrange(a as int, b as int));
    (a, b)
}

/// Whether `v[lo..hi]` begins with `p`.
pub fn starts_with(v: &Vec<char>, lo: usize, hi: usize, p: &Vec<char>) -> (b: bool)
    requires
        lo <= hi <= v.len(),
    ensures
        b == has_prefix(v@.subrange(lo as int, hi as int), p@),
{
    if p.len() > hi - lo {
        return false;
    }
    let mut i: usize = 0;
    while i < p.len()
        invariant
            lo <= hi <= v.len(),
            i <= p.len() <= hi - lo,
            forall|j: int| 0 <= j < i ==> v@[lo + j] == p@[j],
        decreases p.len() - i,
    {
        if v[lo + i] != p[i] {
            assert(v@.subrange(lo as int, hi as int).subrange(0, p.len() as int)[i as int]
                != p@[i as int]);
            return false;
        }
        i = i + 1;
    }
    assert(v@.subrange(lo as int, hi as int).subrange(0, p.len() as int) =~= p@);
    true
}

/// Whether `c` ends a word: whitespace, and the full stop where `dots` is set.
pub open spec fn is_separator(c: char, dots: bool) -> bool {
    is_whitespace(c) || (dots && c == '.')
}

/// The word `cur` as a list of its own, or no word where `cur` is empty.
pub open spec fn close_word(cur: Seq<char>) -> Seq<Seq<char>> {
    if cur.len() > 0 {
        seq![cur]
    } else {
        Seq::empty()
    }
}

/// The words of `cur` followed by `s`, where `cur` is the word that is open
/// when `s` begins.
pub open spec fn words_from(s: Seq<char>, cur: Seq<char>, dots: bool) -> Seq<Seq<char>>
    decreases s.len(),
{
    if s.len() == 0 {
        close_word(cur)
    } else if is_separator(s[0], dots) {
        close_word(cur) + words_from(s.drop_first(), Seq::empty(), dots)
    } else {
        words_from(s.drop_first(), cur.push(s[0]), dots)
    }
}

/// The maximal runs of characters of `s` that hold no separator, in order.
pub open spec fn words(s: Seq<char>, dots: bool) -> Seq<Seq<char>> {
    words_from(s, Seq::empty(), dots)
}

/// The parts of `v` that the ranges `r` cut out.
pub open spec fn pieces(v: Seq<char>, r: Seq<(usize, usize)>) -> Seq<Seq<char>> {
    Seq::new(r.len(), |k: int| v.subrange(r[k].0 as int, r[k].1 as int))
}

/// Whether `c` ends a word.
pub fn is_word_end(c: char, dots: bool) -> (b: bool)
    ensures
        b == is_separator(c, dots),
{
    is_space(c) || (dots && c == '.')
}

/// The ranges of the words of `v[lo..hi]`.
pub fn split_words(v: &Vec<char>, lo: usize, hi: usize, dots: bool) -> (r: Vec<(usize, usize)>)
    requires
        lo <= hi <= v.len(),
    ensures
        forall|k: int| 0 <= k < r.len() ==> lo <= (#[trigger] r[k]).0 < r[k].1 <= hi,
        pieces(v@, r@) == words(v@.subrange(lo as int, hi as int), dots),
{
    let mut out: Vec<(usize, usize)> = Vec::new();
    let mut start: usize = lo;
    let mut i: usize = lo;
    assert(v@.subrange(lo as int, lo as int) =~= Seq::<char>::empty());
    assert(pieces(v@, out@) =~= Seq::<Seq<char>>::empty());
    while i < hi
        invariant
            lo <= start <= i <= hi <= v.len(),
            forall|k: int| 0 <= k < out.len() ==> lo <= (#[trigger] out[k]).0 < out[k].1 <= hi,
            words(v@.subrange(lo as int, hi as int), dots) == pieces(v@, out@) + words_from(
                v@.subrange(i as int, hi as int),
                v@.subrange(start as int, i as int),
                dots,
            ),
        decreases hi - i,
    {
        let ghost rest = v@.subrange(i as int, hi as int);
        let ghost cur = v@.subrange(start as int, i as int);
        let ghost done = pieces(v@, out@);
        assert(rest.drop_first() =~= v@.subrange(i as int + 1, hi as int));
        assert(rest[0] == v@[i as int]);
        if is_word_end(v[i], dots) {
            if start < i {
                out.push((start, i));
                assert(pieces(v@, out@) =~= done + close_word(cur));
            } else {
                assert(pieces(v@, out@) =~= done + close_word(cur));
            }
            start = i + 1;
            assert(v@.subrange(start as int, i as int + 1) =~= Seq::<char>::empty());
            assert(done + (close_word(cur) + words_from(rest.drop_first(), Seq::empty(), dots))
                =~= (done + close_word(cur)) + words_from(rest.drop_first(), Seq::empty(), dots));
        } else {
            assert(cur.push(rest[0]) =~= v@.subrange(start as int, i as int + 1));
        }
        i = i + 1;
    }
    let ghost cur = v@.subrange(start as int, i as int);
    let ghost done = pieces(v@, out@);
    assert(v@.subrange(i as int, hi as int) =~= Seq::<char>::empty());
    if start < i {
        out.push((start, i));
    }
    assert(pieces(v@, out@) =~= done + close_word(cur));
    out
}

/// Whether `c` is one of the ten ASCII digits.
pub open spec fn is_digit(c: char) -> bool {
    48 <= c as u32 <= 57
}

/// The number that the digit `c` stands for.
pub open spec fn digit_value(c: char) -> nat {
    (c as u32 - 48) as nat
}

/// Whether `s` holds ASCII digits only.
pub open spec fn all_digits(s: Seq<char>) -> bool {
    forall|i: int| 0 <= i < s.len() ==> is_digit(#[trigger] s[i])
}

/// The number that the digits `s` write in base ten.
pub open spec fn decimal_value(s: Seq<char>) -> nat
    decreases s.len(),
{
    if s.len() == 0 {
        0
    } else {
        decimal_value(s.drop_last()) * 10 + digit_value(s.last())
    }
}

/// `s` without one leading plus sign.
pub open spec fn unsigned_part(s: Seq<char>) -> Seq<char> {
    if s.len() > 0 && s[0] == '+' {
        s.drop_first()
    } else {
        s
    }
}

/// The `u64` that `s` writes: an optional plus sign, then at least one digit,
/// and a value that fits.
pub open spec fn parse_u64(s: Seq<char>) -> Option<u64> {
    let d = unsigned_part(s);
    if d.len() > 0 && all_digits(d) && decimal_value(d) <= u64::MAX {
        Some(decimal_value(d) as u64)
    } else {
        None
    }
}

/// A number is at least as large as what any prefix of its digits writes.
pub proof fn lemma_decimal_value_prefix(s: Seq<char>, k: int)
    requires
        0 <= k <= s.len(),
    ensures
        decimal_value(s.subrange(0, k)) <= decimal_value(s),
    decreases s.len(),
{
    if k == s.len() {
        assert(s.subrange(0, k) =~= s);
    } else {
        lemma_decimal_value_prefix(s.drop_last(), k);
        assert(s.drop_last().subrange(0, k) =~= s.subrange(0, k));
    }
}

/// Whether `c` is an ASCII digit.
pub fn is_ascii_digit(c: char) -> (b: bool)
    ensures
        b == is_digit(c),
{
    let u: u32 = c as u32;
    48 <= u && u <= 57
}

/// Whether `v[lo..hi]` holds ASCII digits only.
pub fn only_digits(v: &Vec<char>, lo: usize, hi: usize) -> (b: bool)
    requires
        lo <= hi <= v.len(),
    ensures
        b == all_digits(v@.subrange(lo as int, hi as int)),
{
    let mut i: usize = lo;
    while i < hi
        invariant
            lo <= i <= hi <= v.len(),
            forall|j: int| lo <= j < i ==> is_digit(#[trigger] v@[j]),
        decreases hi - i,
    {
        if !is_ascii_digit(v[i]) {
            assert(v@.subrange(lo as int, hi as int)[i - lo] == v@[i as int]);
            return false;
        }
        i = i + 1;
    }
    true
}

/// Reads `v[lo..hi]` as a `u64`.
pub fn parse_decimal(v: &Vec<char>, lo: usize, hi: usize) -> (r: Option<u64>)
    requires
        lo <= hi <= v.len(),
    ensures
        r == parse_u64(v@.subrange(lo as int, hi as int)),
{
    let ghost whole = v@.subrange(lo as int, hi as int);
    let start: usize = if lo < hi && v[lo] == '+' {
        lo + 1
    } else {
        lo
    };
    let ghost d = v@.subrange(start as int, hi as int);
    assert(unsigned_part(whole) =~= d);
    if start == hi {
        return None;
    }
    let mut acc: u64 = 0;
    let mut i: usize = start;
    assert(v@.subrange(start as int, start as int) =~= Seq::<char>::empty());
    while i < hi
        invariant
            lo <= start <= i <= hi <= v.len(),
            start < hi,
            d == v@.subrange(start as int, hi as int),
            unsigned_part(v@.subrange(lo as int, hi as int)) == d,
            forall|j: int| start <= j < i ==> is_digit(#[trigger] v@[j]),
            acc == decimal_value(v@.subrange(start as int, i as int)),
        decreases hi - i,
    {
        let c = v[i];
        if !is_ascii_digit(c) {
            assert(d[i - start] == v@[i as int]);
            return None;
        }
        let digit: u64 = (c as u32 - 48) as u64;
        let ghost next = v@.subrange(start as int, i as int + 1);
        assert(next.drop_last() =~= v@.subrange(start as int, i as int));
        assert(next.last() == c);
        assert(decimal_value(next) == acc * 10 + digit);
        if acc > (u64::MAX - digit) / 10 {
            proof {
                assert(d.subrange(0, i + 1 - start) =~= next);
                lemma_decimal_value_prefix(d, i + 1 - start);
            }
            return None;
        }
        acc = acc * 10 + digit;
        i = i + 1;
    }
    assert(v@.subrange(start as int, i as int) =~= d);
    assert forall|j: int| 0 <= j < d.len() implies is_digit(#[trigger] d[j]) by {
        assert(d[j] == v@[start + j]);
    }
    Some(acc)
}

/// The code of `c`, with the upper-case ASCII letters moved onto their
/// lower-case forms.
pub open spec fn ascii_fold(c: char) -> u32 {
    let u = c as u32;
    if 65 <= u <= 90 {
        (u + 32) as u32
    } else {
        u
    }
}

/// Whether `a` and `b` are equal up to the case of their ASCII letters.
pub open spec fn eq_ignore_ascii_case(a: Seq<char>, b: Seq<char>) -> bool {
    a.len() == b.len() && forall|i: int| 0 <= i < a.len() ==> ascii_fold(#[trigger] a[i]) == ascii_fold(b[i])
}

/// The code of `c` with upper-case ASCII letters folded onto lower case.
pub fn fold_ascii(c: char) -> (u: u32)
    ensures
        u == ascii_fold(c),
{
    let u: u32 = c as u32;
    if 65 <= u && u <= 90 {
        u + 32
    } else {
        u
    }
}

/// Whether `v[lo..hi]` equals `p` up to the case of ASCII letters.
pub fn matches_ignoring_case(v: &Vec<char>, lo: usize, hi: usize, p: &Vec<char>) -> (b: bool)
    requires
        lo <= hi <= v.len(),
    ensures
        b == eq_ignore_ascii_case(v@.subrange(lo as int, hi as int), p@),
{
    if p.len() != hi - lo {
        return false;
    }
    let ghost a = v@.subrange(lo as int, hi as int);
    let mut i: usize = 0;
    while i < p.len()
        invariant
            lo <= hi <= v.len(),
            i <= p.len() == hi - lo,
            a == v@.subrange(lo as int, hi as int),
            forall|j: int| 0 <= j < i ==> ascii_fold(#[trigger] a[j]) == ascii_fold(p@[j]),
        decreases p.len() - i,
    {
        if fold_ascii(v[lo + i]) != fold_ascii(p[i]) {
            assert(a[i as int] == v@[lo + i]);
            return false;
        }
        assert(a[i as int] == v@[lo + i]);
        i = i + 1;
    }
    true
}

/// How many characters of `s` stand before the first `c`; the length of `s`
/// where it holds none.
pub open spec fn index_of_char(s: Seq<char>, c: char) -> nat
    decreases s.len(),
{
    if s.len() == 0 || s[0] == c {
        0
    } else {
        1 + index_of_char(s.drop_first(), c)
    }
}

/// The place of the first `c` in `v[lo..hi]`, or `hi`.
pub fn find_char(v: &Vec<char>, lo: usize, hi: usize, c: char) -> (r: usize)
    requires
        lo <= hi <= v.len(),
    ensures
        lo <= r <= hi,
        r - lo == index_of_char(v@.subrange(lo as int, hi as int), c),
{
    let mut i: usize = lo;
    while i < hi && v[i] != c
        invariant
            lo <= i <= hi <= v.len(),
            index_of_char(v@.subrange(lo as int, hi as int), c) == (i - lo) + index_of_char(
                v@.subrange(i as int, hi as int),
                c,
            ),
        decreases hi - i,
    {
        assert(v@.subrange(i as int, hi as int).drop_first() =~= v@.subrange(
            i as int + 1,
            hi as int,
        ));
        i = i + 1;
    }
    i
}

/// The character that writes the digit `d`.
pub open spec fn digit_char(d: nat) -> char {
    if d == 0 {
        '0'
    } else if d == 1 {
        '1'
    } else if d == 2 {
        '2'
    } else if d == 3 {
        '3'
    } else if d == 4 {
        '4'
    } else if d == 5 {
        '5'
    } else if d == 6 {
        '6'
    } else if d == 7 {
        '7'
    } else if d == 8 {
        '8'
    } else {
        '9'
    }
}

/// `n` written in base ten, without leading zeros.
pub open spec fn decimal_digits(n: nat) -> Seq<char>
    decreases n,
{
    if n < 10 {
        seq![digit_char(n)]
    } else {
        decimal_digits(n / 10).push(digit_char(n % 10))
    }
}

fn digit_text(d: u64) -> (s: &'static str)
    requires
        d < 10,
    ensures
        s@ == seq![digit_char(d as nat)],
{
    proof {
        reveal_strlit("0");
        reveal_strlit("1");
        reveal_strlit("2");
        reveal_strlit("3");
        reveal_strlit("4");
        reveal_strlit("5");
        reveal_strlit("6");
        reveal_strlit("7");
        reveal_strlit("8");
        reveal_strlit("9");
    }
    let s = if d == 0 {
        "0"
    } else if d == 1 {
        "1"
    } else if d == 2 {
        "2"
    } else if d == 3 {
        "3"
    } else if d == 4 {
        "4"
    } else if d == 5 {
        "5"
    } else if d == 6 {
        "6"
    } else if d == 7 {
        "7"
    } else if d == 8 {
        "8"
    } else {
        "9"
    };
    assert(s@ =~= seq![digit_char(d as nat)]);
    s
}

/// `n` as decimal text.
pub fn decimal_text(n: u64) -> (s: String)
    ensures
        s@ == decimal_digits(n as nat),
    decreases n,
{
    if n < 10 {
        String::from_str(digit_text(n))
    } else {
        let mut s = decimal_text(n / 10);
        s.append(digit_text(n % 10));
        assert(s@ =~= decimal_digits(n as nat / 10).push(digit_char(n as nat % 10)));
        s
    }
}

/// The texts of a list of strings.
pub open spec fn texts(v: Seq<String>) -> Seq<Seq<char>> {
    Seq::new(v.len(), |i: int| v[i]@)
}

/// Whether `a` and `b` are the same text.
pub fn text_equals(a: &str, b: &str) -> (r: bool)
    ensures
        r == (a@ == b@),
{
    let x = String::from_str(a);
    let y = String::from_str(b);
    x == y
}

/// The text of `s` from character `lo` up to character `hi`.
pub fn slice_text(s: &str, lo: usize, hi: usize) -> (r: String)
    requires
        lo <= hi <= s@.len(),
    ensures
        r@ == s@.subrange(lo as int, hi as int),
{
    String::from_str(s.substring_char(lo, hi))
}

} // verus!
