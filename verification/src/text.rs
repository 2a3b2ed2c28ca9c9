//! Text helpers shared by the parsers: comparison of strings and conversion between octets and
//! characters.
use vstd::prelude::*;
use vstd::string::StringSliceAdditionalSpecFns;
use vstd::utf8::{valid_utf8, decode_utf8, encode_utf8};
use vstd::string::StrSliceExecFns;

verus! {

/// Whether two strings hold the same characters.
pub fn str_eq(a: &str, b: &str) -> (r: bool)
    ensures
        r == (a@ == b@),
{
    let x = a.as_bytes();
    let y = b.as_bytes();
    proof {
        vstd::utf8::encode_utf8_decode_utf8(a@);
        vstd::utf8::encode_utf8_decode_utf8(b@);
    }
    if x.len() != y.len() {
        return false;
    }
    let mut i: usize = 0;
    while i < x.len()
        invariant
            x@.len() == y@.len(),
            x@ == a.spec_bytes(),
            y@ == b.spec_bytes(),
            i <= x@.len(),
            forall|j: int| 0 <= j < i ==> x@[j] == y@[j],
        decreases x@.len() - i,
    {
        if x[i] != y[i] {
            return false;
        }
        i += 1;
    }
    assert(x@ =~= y@);
    true
}

/// `std::str::from_utf8`: the octets as a string slice when they are valid UTF-8 and nothing
/// otherwise. The string slice holds exactly the given octets.
#[verifier::external_body]
pub fn utf8_str(bytes: &[u8]) -> (r: Option<&str>)
    ensures
        r is Some <==> valid_utf8(bytes@),
        r matches Some(s) ==> s.spec_bytes() == bytes@,
{
    std::str::from_utf8(bytes).ok()
}

/// The characters that the valid UTF-8 octets `bytes` encode.
pub proof fn lemma_utf8_chars(s: &str, bytes: Seq<u8>)
    requires
        s.spec_bytes() == bytes,
    ensures
        s@ == decode_utf8(bytes),
        valid_utf8(bytes),
{
    vstd::utf8::encode_utf8_decode_utf8(s@);
    vstd::utf8::encode_utf8_valid_utf8(s@);
}

/// `String::push`: appends one character.
#[verifier::external_body]
pub fn push_char(s: &mut String, c: char)
    ensures
        final(s)@ == old(s)@.push(c),
{
    s.push(c)
}

/// The decimal digit of `d` (below 10).
pub open spec fn digit_char(d: nat) -> char {
    if d == 0 { '0' }
    else if d == 1 { '1' }
    else if d == 2 { '2' }
    else if d == 3 { '3' }
    else if d == 4 { '4' }
    else if d == 5 { '5' }
    else if d == 6 { '6' }
    else if d == 7 { '7' }
    else if d == 8 { '8' }
    else { '9' }
}

fn digit(d: u64) -> (c: char)
    requires
        d < 10,
    ensures
        c == digit_char(d as nat),
{
    if d == 0 { '0' }
    else if d == 1 { '1' }
    else if d == 2 { '2' }
    else if d == 3 { '3' }
    else if d == 4 { '4' }
    else if d == 5 { '5' }
    else if d == 6 { '6' }
    else if d == 7 { '7' }
    else if d == 8 { '8' }
    else { '9' }
}

/// The decimal text of `n`, without leading zeros.
pub open spec fn decimal(n: nat) -> Seq<char>
    decreases n,
{
    if n < 10 {
        seq![digit_char(n)]
    } else {
        decimal(n / 10).push(digit_char(n % 10))
    }
}

/// Appends the decimal text of `v`.
pub fn push_decimal(out: &mut String, v: u64)
    ensures
        final(out)@ == old(out)@ + decimal(v as nat),
    decreases v,
{
    if v >= 10 {
        push_decimal(out, v / 10);
    }
    push_char(out, digit(v % 10));
    assert(final(out)@ =~= old(out)@ + decimal(v as nat));
}

/// Whether every character of `s` is a decimal digit.
pub open spec fn all_digits(s: Seq<char>) -> bool {
    forall|i: int| 0 <= i < s.len() ==> '0' <= #[trigger] s[i] <= '9'
}

/// The value of the decimal digits `s`.
pub open spec fn digits_value(s: Seq<char>) -> nat
    decreases s.len(),
{
    if s.len() == 0 {
        0
    } else {
        (digits_value(s.drop_last()) * 10 + (s.last() as int - 0x30)) as nat
    }
}

/// The value that `str::parse::<usize>` reads from `s`: an optional `+`, then one or more
/// decimal digits of a value that fits; nothing otherwise.
pub open spec fn usize_text(s: Seq<char>) -> Option<usize> {
    let d = if s.len() > 0 && s[0] == '+' { s.skip(1) } else { s };
    if d.len() > 0 && all_digits(d) && digits_value(d) <= usize::MAX {
        Some(digits_value(d) as usize)
    } else {
        None
    }
}

/// Reads a `usize` from its decimal text: an optional `+`, then one or more decimal digits, of
/// a value that fits.
pub fn parse_usize(s: &str) -> (r: Option<usize>)
    ensures
        r == usize_text(s@),
{
    let n = s.unicode_len();
    let mut i: usize = 0;
    if n > 0 && s.get_char(0) == '+' {
        i = 1;
    }
    let start = i;
    let ghost d = s@.skip(start as int);
    proof {
        let dd = if s@.len() > 0 && s@[0] == '+' { s@.skip(1) } else { s@ };
        assert(dd =~= d);
    }
    if i == n {
        return None;
    }
    let mut v: usize = 0;
    while i < n
        invariant
            n == s@.len(),
            start <= i <= n,
            start < n,
            d == s@.skip(start as int),
            d == (if s@.len() > 0 && s@[0] == '+' { s@.skip(1) } else { s@ }),
            all_digits(s@.subrange(start as int, i as int)),
            v == digits_value(s@.subrange(start as int, i as int)),
        decreases n - i,
    {
        let c = s.get_char(i);
        if c < '0' || c > '9' {
            proof {
                assert(d[i - start] == c);
                assert(!all_digits(d));
            }
            return None;
        }
        let dv = (c as u32 - 0x30) as usize;
        let ghost prefix = s@.subrange(start as int, i + 1);
        proof {
            assert(prefix.drop_last() =~= s@.subrange(start as int, i as int));
            assert(all_digits(prefix));
        }
        if v > (usize::MAX - dv) / 10 {
            proof {
                assert(d.subrange(0, (i + 1 - start) as int) =~= prefix);
                assert(digits_value(prefix) > usize::MAX) by (nonlinear_arith)
                    requires v > (usize::MAX - dv) / 10, digits_value(prefix) == v * 10 + dv, dv <= 9;
                if all_digits(d) {
                    lemma_digits_value_mono(d, (i + 1 - start) as nat);
                    assert(digits_value(d) > usize::MAX);
                }
            }
            return None;
        }
        assert(v * 10 + dv <= usize::MAX) by (nonlinear_arith)
            requires v <= (usize::MAX - dv) / 10, dv <= 9;
        v = v * 10 + dv;
        i += 1;
    }
    proof {
        assert(s@.subrange(start as int, n as int) =~= d);
    }
    Some(v)
}

/// The value that `str::parse::<u64>` reads from `s`: an optional `+`, then one or more
/// decimal digits of a value that fits; nothing otherwise.
pub open spec fn u64_text(s: Seq<char>) -> Option<u64> {
    let d = if s.len() > 0 && s[0] == '+' { s.skip(1) } else { s };
    if d.len() > 0 && all_digits(d) && digits_value(d) <= u64::MAX {
        Some(digits_value(d) as u64)
    } else {
        None
    }
}

/// Reads a `u64` from its decimal text: an optional `+`, then one or more decimal digits, of
/// a value that fits.
pub fn parse_u64(s: &str) -> (r: Option<u64>)
    ensures
        r == u64_text(s@),
{
    let n = s.unicode_len();
    let mut i: usize = 0;
    if n > 0 && s.get_char(0) == '+' {
        i = 1;
    }
    let start = i;
    let ghost d = s@.skip(start as int);
    proof {
        let dd = if s@.len() > 0 && s@[0] == '+' { s@.skip(1) } else { s@ };
        assert(dd =~= d);
    }
    if i == n {
        return None;
    }
    let mut v: u64 = 0;
    while i < n
        invariant
            n == s@.len(),
            start <= i <= n,
            start < n,
            d == s@.skip(start as int),
            d == (if s@.len() > 0 && s@[0] == '+' { s@.skip(1) } else { s@ }),
            all_digits(s@.subrange(start as int, i as int)),
            v == digits_value(s@.subrange(start as int, i as int)),
        decreases n - i,
    {
        let c = s.get_char(i);
        if c < '0' || c > '9' {
            proof {
                assert(d[i - start] == c);
                assert(!all_digits(d));
            }
            return None;
        }
        let dv = (c as u32 - 0x30) as u64;
        let ghost prefix = s@.subrange(start as int, i + 1);
        proof {
            assert(prefix.drop_last() =~= s@.subrange(start as int, i as int));
            assert(all_digits(prefix));
        }
        if v > (u64::MAX - dv) / 10 {
            proof {
                assert(d.subrange(0, (i + 1 - start) as int) =~= prefix);
                assert(digits_value(prefix) > u64::MAX) by (nonlinear_arith)
                    requires v > (u64::MAX - dv) / 10, digits_value(prefix) == v * 10 + dv, dv <= 9;
                if all_digits(d) {
                    lemma_digits_value_mono(d, (i + 1 - start) as nat);
                    assert(digits_value(d) > u64::MAX);
                }
            }
            return None;
        }
        assert(v * 10 + dv <= u64::MAX) by (nonlinear_arith)
            requires v <= (u64::MAX - dv) / 10, dv <= 9;
        v = v * 10 + dv;
        i += 1;
    }
    proof {
        assert(s@.subrange(start as int, n as int) =~= d);
    }
    Some(v)
}

/// The value of a prefix of digits is at most the value of the whole.
proof fn lemma_digits_value_mono(d: Seq<char>, k: nat)
    requires
        k <= d.len(),
        all_digits(d),
    ensures
        digits_value(d.subrange(0, k as int)) <= digits_value(d),
    decreases d.len(),
{
    if k < d.len() {
        assert(d.drop_last().subrange(0, k as int) =~= d.subrange(0, k as int));
        assert(all_digits(d.drop_last()));
        lemma_digits_value_mono(d.drop_last(), k);
    } else {
        assert(d.subrange(0, k as int) =~= d);
    }
}

/// The index of the first `c` in `s` from `i` on, or -1.
pub open spec fn index_of_from(s: Seq<char>, c: char, i: int) -> int
    decreases s.len() - i,
{
    if i < 0 || i >= s.len() { -1 } else if s[i] == c { i } else { index_of_from(s, c, i + 1) }
}

pub proof fn lemma_index_of_from(s: Seq<char>, c: char, i: int, j: int)
    requires
        0 <= i <= j <= s.len(),
        forall|m: int| i <= m < j ==> s[m] != c,
    ensures
        index_of_from(s, c, i) == index_of_from(s, c, j),
    decreases j - i,
{
    if i < j {
        lemma_index_of_from(s, c, i + 1, j);
    }
}

/// The decimal text of a number reads back as the number: one or more digits, no sign.
pub proof fn lemma_decimal_digits(n: nat)
    ensures
        decimal(n).len() > 0,
        all_digits(decimal(n)),
        decimal(n)[0] != '+',
        digits_value(decimal(n)) == n,
    decreases n,
{
    let d = decimal(n);
    assert(digit_char(n % 10) as int - 0x30 == n % 10);
    if n >= 10 {
        lemma_decimal_digits(n / 10);
        assert(d.drop_last() =~= decimal(n / 10));
        assert(d[0] == decimal(n / 10)[0]);
        assert(d.last() == digit_char(n % 10));
    } else {
        assert(d.drop_last() =~= Seq::<char>::empty());
        assert(digits_value(Seq::<char>::empty()) == 0);
    }
}

/// The decimal text of a value that fits reads back as the value.
pub proof fn lemma_usize_text_decimal(n: usize)
    ensures
        usize_text(decimal(n as nat)) == Some(n),
{
    lemma_decimal_digits(n as nat);
}

/// The index of the last `c` in `s` before `j`, or -1.
pub open spec fn last_index_before(s: Seq<char>, c: char, j: int) -> int
    decreases j,
{
    if j <= 0 || j > s.len() { -1 } else if s[j - 1] == c { j - 1 } else { last_index_before(s, c, j - 1) }
}

/// Splits `s` at the first `c`: the text before it and the text after it, or nothing when
/// there is no `c`.
pub fn split_once<'a>(s: &'a str, c: char) -> (r: Option<(&'a str, &'a str)>)
    ensures
        index_of_from(s@, c, 0) < 0 ==> r is None,
        index_of_from(s@, c, 0) >= 0 ==> (r matches Some((a, b))
            && a@ == s@.take(index_of_from(s@, c, 0))
            && b@ == s@.skip(index_of_from(s@, c, 0) + 1)),
{
    let n = s.unicode_len();
    let mut i: usize = 0;
    while i < n && s.get_char(i) != c
        invariant
            n == s@.len(),
            i <= n,
            forall|m: int| 0 <= m < i ==> s@[m] != c,
        decreases n - i,
    {
        i += 1;
    }
    proof {
        lemma_index_of_from(s@, c, 0, i as int);
    }
    if i == n {
        return None;
    }
    let a = s.substring_char(0, i);
    let b = s.substring_char(i + 1, n);
    proof {
        assert(a@ =~= s@.take(i as int));
        assert(b@ =~= s@.skip(i + 1));
    }
    Some((a, b))
}


/// An ASCII whitespace character: space, tab, line feed, form feed or carriage return.
pub open spec fn ascii_ws(c: char) -> bool {
    c == ' ' || c == '\t' || c == '\n' || c == '\x0C' || c == '\r'
}

/// The words of `s` from `i` on, separated by ASCII whitespace, where the word in progress
/// began at `start`.
pub open spec fn words_from(s: Seq<char>, start: int, i: int) -> Seq<Seq<char>>
    decreases s.len() - i,
{
    if i >= s.len() {
        if start < i { seq![s.subrange(start, i)] } else { Seq::empty() }
    } else if ascii_ws(s[i]) {
        (if start < i { seq![s.subrange(start, i)] } else { Seq::empty() }) + words_from(s, i + 1, i + 1)
    } else {
        words_from(s, start, i + 1)
    }
}

/// The words of `s`: the runs of characters between ASCII whitespace.
pub open spec fn words(s: Seq<char>) -> Seq<Seq<char>> {
    words_from(s, 0, 0)
}

/// The texts of the string slices in `v`.
pub open spec fn texts(v: Seq<&str>) -> Seq<Seq<char>> {
    v.map_values(|w: &str| w@)
}

/// `str::split_ascii_whitespace`: the words of `s` (see `words`).
pub fn split_ascii_whitespace<'a>(s: &'a str) -> (r: Vec<&'a str>)
    ensures
        texts(r@) == words(s@),
{
    let n = s.unicode_len();
    let mut out: Vec<&'a str> = Vec::new();
    let mut start: usize = 0;
    let mut i: usize = 0;
    while i < n
        invariant
            n == s@.len(),
            start <= i <= n,
            texts(out@) + words_from(s@, start as int, i as int) == words(s@),
        decreases n - i,
    {
        let c = s.get_char(i);
        if c == ' ' || c == '\t' || c == '\n' || c == '\x0C' || c == '\r' {
            if start < i {
                let w = s.substring_char(start, i);
                let ghost before = texts(out@);
                out.push(w);
                proof {
                    assert(texts(out@) =~= before.push(w@));
                    assert(before + words_from(s@, start as int, i as int) =~= texts(out@)
                        + words_from(s@, i + 1, i + 1));
                }
            } else {
                proof {
                    assert(texts(out@) + words_from(s@, start as int, i as int) =~= texts(out@)
                        + words_from(s@, i + 1, i + 1));
                }
            }
            i += 1;
            start = i;
        } else {
            i += 1;
        }
    }
    if start < n {
        let w = s.substring_char(start, n);
        let ghost before = texts(out@);
        out.push(w);
        proof {
            assert(texts(out@) =~= before.push(w@));
            assert(before + words_from(s@, start as int, n as int) =~= texts(out@));
        }
    } else {
        proof {
            assert(texts(out@) + words_from(s@, start as int, n as int) =~= texts(out@));
        }
    }
    out
}

/// A line without the carriage return that ends it, if one does.
pub open spec fn line_body(t: Seq<char>) -> Seq<char> {
    if t.len() > 0 && t.last() == '\r' { t.drop_last() } else { t }
}

/// The lines of `s` from `i` on, where the line in progress began at `start`.
pub open spec fn lines_from(s: Seq<char>, start: int, i: int) -> Seq<Seq<char>>
    decreases s.len() - i,
{
    if i >= s.len() {
        if start < s.len() { seq![s.subrange(start, s.len() as int)] } else { Seq::empty() }
    } else if s[i] == '\n' {
        seq![line_body(s.subrange(start, i))] + lines_from(s, i + 1, i + 1)
    } else {
        lines_from(s, start, i + 1)
    }
}

/// The lines of `s`: split at each line feed, a carriage return before it dropped; a last line
/// without a line feed counts where it is not empty.
pub open spec fn lines(s: Seq<char>) -> Seq<Seq<char>> {
    lines_from(s, 0, 0)
}

/// `str::lines`: the lines of `s` (see `lines`).
pub fn split_lines<'a>(s: &'a str) -> (r: Vec<&'a str>)
    ensures
        texts(r@) == lines(s@),
{
    let n = s.unicode_len();
    let mut out: Vec<&'a str> = Vec::new();
    let mut start: usize = 0;
    let mut i: usize = 0;
    while i < n
        invariant
            n == s@.len(),
            start <= i <= n,
            texts(out@) + lines_from(s@, start as int, i as int) == lines(s@),
        decreases n - i,
    {
        if s.get_char(i) == '\n' {
            let end = if start < i && s.get_char(i - 1) == '\r' { i - 1 } else { i };
            let w = s.substring_char(start, end);
            let ghost before = texts(out@);
            proof {
                assert(w@ =~= line_body(s@.subrange(start as int, i as int)));
            }
            out.push(w);
            proof {
                assert(texts(out@) =~= before.push(w@));
                assert(before + lines_from(s@, start as int, i as int) =~= texts(out@)
                    + lines_from(s@, i + 1, i + 1));
            }
            i += 1;
            start = i;
        } else {
            i += 1;
        }
    }
    if start < n {
        let w = s.substring_char(start, n);
        let ghost before = texts(out@);
        out.push(w);
        proof {
            assert(texts(out@) =~= before.push(w@));
            assert(before + lines_from(s@, start as int, n as int) =~= texts(out@));
        }
    } else {
        proof {
            assert(texts(out@) + lines_from(s@, start as int, n as int) =~= texts(out@));
        }
    }
    out
}


/// Scanning characters that are not ASCII whitespace keeps the word in progress going.
pub proof fn lemma_words_scan(s: Seq<char>, start: int, i: int, j: int)
    requires
        0 <= start <= i <= j <= s.len(),
        forall|m: int| i <= m < j ==> !ascii_ws(#[trigger] s[m]),
    ensures
        words_from(s, start, i) == words_from(s, start, j),
    decreases j - i,
{
    if i < j {
        lemma_words_scan(s, start, i + 1, j);
    }
}

/// Two words without whitespace, joined by a space, are those two words.
pub proof fn lemma_two_words(a: Seq<char>, b: Seq<char>)
    requires
        a.len() > 0,
        b.len() > 0,
        forall|m: int| 0 <= m < a.len() ==> !ascii_ws(#[trigger] a[m]),
        forall|m: int| 0 <= m < b.len() ==> !ascii_ws(#[trigger] b[m]),
    ensures
        words(a + " "@ + b) == seq![a, b],
{
    reveal_strlit(" ");
    assert(" "@.len() == 1 && " "@[0] == ' ');
    let s = a + " "@ + b;
    let n = a.len() as int;
    assert forall|m: int| 0 <= m < n implies !ascii_ws(#[trigger] s[m]) by {
        assert(s[m] == a[m]);
    }
    lemma_words_scan(s, 0, 0, n);
    assert(s[n] == ' ');
    assert(s.subrange(0, n) =~= a);
    assert(words_from(s, 0, n) == seq![a] + words_from(s, n + 1, n + 1));
    assert forall|m: int| n + 1 <= m < s.len() implies !ascii_ws(#[trigger] s[m]) by {
        assert(s[m] == b[m - n - 1]);
    }
    lemma_words_scan(s, n + 1, n + 1, s.len() as int);
    assert(s.subrange(n + 1, s.len() as int) =~= b);
    assert(words_from(s, n + 1, s.len() as int) == seq![b]);
    assert(seq![a] + seq![b] =~= seq![a, b]);
}

/// Splitting into words from an offset `k` on is splitting the text after `k`.
pub proof fn lemma_words_shift(s: Seq<char>, k: int, start: int, i: int)
    requires
        0 <= k <= start <= i <= s.len(),
    ensures
        words_from(s, start, i) == words_from(s.skip(k), start - k, i - k),
    decreases s.len() - i,
{
    let t = s.skip(k);
    if i < s.len() {
        assert(t[i - k] == s[i]);
        if ascii_ws(s[i]) {
            lemma_words_shift(s, k, i + 1, i + 1);
            assert(s.subrange(start, i) =~= t.subrange(start - k, i - k));
        } else {
            lemma_words_shift(s, k, start, i + 1);
        }
    } else {
        assert(s.subrange(start, i) =~= t.subrange(start - k, i - k));
    }
}

/// A word without whitespace, a space and more text are that word and the words of the rest.
pub proof fn lemma_words_cons(a: Seq<char>, rest: Seq<char>)
    requires
        a.len() > 0,
        forall|m: int| 0 <= m < a.len() ==> !ascii_ws(#[trigger] a[m]),
    ensures
        words(a + " "@ + rest) == seq![a] + words(rest),
{
    reveal_strlit(" ");
    assert(" "@.len() == 1 && " "@[0] == ' ');
    let s = a + " "@ + rest;
    let n = a.len() as int;
    assert forall|m: int| 0 <= m < n implies !ascii_ws(#[trigger] s[m]) by {
        assert(s[m] == a[m]);
    }
    lemma_words_scan(s, 0, 0, n);
    assert(s[n] == ' ');
    assert(s.subrange(0, n) =~= a);
    lemma_words_shift(s, n + 1, n + 1, n + 1);
    assert(s.skip(n + 1) =~= rest);
}

/// A word without whitespace is that one word.
pub proof fn lemma_words_single(a: Seq<char>)
    requires
        a.len() > 0,
        forall|m: int| 0 <= m < a.len() ==> !ascii_ws(#[trigger] a[m]),
    ensures
        words(a) == seq![a],
{
    lemma_words_scan(a, 0, 0, a.len() as int);
    assert(a.subrange(0, a.len() as int) =~= a);
}

/// Scanning characters that are no line feed keeps the line in progress going.
pub proof fn lemma_lines_scan(s: Seq<char>, start: int, i: int, j: int)
    requires
        0 <= start <= i <= j <= s.len(),
        forall|m: int| i <= m < j ==> #[trigger] s[m] != '\n',
    ensures
        lines_from(s, start, i) == lines_from(s, start, j),
    decreases j - i,
{
    if i < j {
        lemma_lines_scan(s, start, i + 1, j);
    }
}

/// Two lines, each ended by a line feed, are those two lines, where neither holds a line feed
/// nor ends with a carriage return.
pub proof fn lemma_two_lines(a: Seq<char>, b: Seq<char>)
    requires
        forall|m: int| 0 <= m < a.len() ==> #[trigger] a[m] != '\n',
        forall|m: int| 0 <= m < b.len() ==> #[trigger] b[m] != '\n',
        a.len() == 0 || a.last() != '\r',
        b.len() == 0 || b.last() != '\r',
    ensures
        lines(a + "\n"@ + b + "\n"@) == seq![a, b],
{
    reveal_strlit("\n");
    assert("\n"@.len() == 1 && "\n"@[0] == '\n');
    let s = a + "\n"@ + b + "\n"@;
    let n = a.len() as int;
    let e = n + 1 + b.len();
    assert forall|m: int| 0 <= m < n implies #[trigger] s[m] != '\n' by {
        assert(s[m] == a[m]);
    }
    lemma_lines_scan(s, 0, 0, n);
    assert(s[n] == '\n');
    assert(s.subrange(0, n) =~= a);
    assert(line_body(a) == a);
    assert forall|m: int| n + 1 <= m < e implies #[trigger] s[m] != '\n' by {
        assert(s[m] == b[m - n - 1]);
    }
    lemma_lines_scan(s, n + 1, n + 1, e);
    assert(s[e] == '\n');
    assert(s.subrange(n + 1, e) =~= b);
    assert(line_body(b) == b);
    assert(s.len() == e + 1);
    assert(lines_from(s, e + 1, e + 1) == Seq::<Seq<char>>::empty());
    assert(lines_from(s, n + 1, e) == seq![b] + Seq::<Seq<char>>::empty());
    assert(lines_from(s, 0, n) == seq![a] + lines_from(s, n + 1, n + 1));
    assert(seq![a] + (seq![b] + Seq::<Seq<char>>::empty()) =~= seq![a, b]);
}


/// The pieces of `s` from `i` on, cut at each `c`, where the piece in progress began at
/// `start`.
pub open spec fn pieces_from(s: Seq<char>, c: char, start: int, i: int) -> Seq<Seq<char>>
    decreases s.len() - i,
{
    if i >= s.len() {
        seq![s.subrange(start, s.len() as int)]
    } else if s[i] == c {
        seq![s.subrange(start, i)] + pieces_from(s, c, i + 1, i + 1)
    } else {
        pieces_from(s, c, start, i + 1)
    }
}

/// The pieces of `s` cut at each `c`, empty ones included: one more than there are `c`.
pub open spec fn pieces(s: Seq<char>, c: char) -> Seq<Seq<char>> {
    pieces_from(s, c, 0, 0)
}

/// `str::split` at a character: the pieces of `s` (see `pieces`).
pub fn split_char<'a>(s: &'a str, c: char) -> (r: Vec<&'a str>)
    ensures
        texts(r@) == pieces(s@, c),
        r@.len() > 0,
{
    let n = s.unicode_len();
    let mut out: Vec<&'a str> = Vec::new();
    let mut start: usize = 0;
    let mut i: usize = 0;
    while i < n
        invariant
            n == s@.len(),
            start <= i <= n,
            texts(out@) + pieces_from(s@, c, start as int, i as int) == pieces(s@, c),
        decreases n - i,
    {
        if s.get_char(i) == c {
            let w = s.substring_char(start, i);
            let ghost before = texts(out@);
            out.push(w);
            proof {
                assert(texts(out@) =~= before.push(w@));
                assert(before + pieces_from(s@, c, start as int, i as int) =~= texts(out@)
                    + pieces_from(s@, c, i + 1, i + 1));
            }
            i += 1;
            start = i;
        } else {
            i += 1;
        }
    }
    let w = s.substring_char(start, n);
    let ghost before = texts(out@);
    out.push(w);
    proof {
        assert(texts(out@) =~= before.push(w@));
        assert(before + pieces_from(s@, c, start as int, n as int) =~= texts(out@));
    }
    out
}

/// A setting `key=value` cut at its first `=`: the key and the value, or the whole text and
/// no value where there is no `=`.
pub open spec fn key_value(s: Seq<char>) -> (Seq<char>, Option<Seq<char>>) {
    let i = index_of_from(s, '=', 0);
    if i < 0 { (s, None) } else { (s.take(i), Some(s.skip(i + 1))) }
}

/// Cuts a setting at its first `=` (see `key_value`).
pub fn split_key_value<'a>(s: &'a str) -> (r: (&'a str, Option<&'a str>))
    ensures
        r.0@ == key_value(s@).0,
        match key_value(s@).1 {
            Some(v) => r.1 matches Some(x) && x@ == v,
            None => r.1 is None,
        },
{
    match split_once(s, '=') {
        Some((k, v)) => (k, Some(v)),
        None => (s, None),
    }
}

/// Whether `s` begins with `prefix`.
pub open spec fn has_prefix(s: Seq<char>, prefix: Seq<char>) -> bool {
    prefix.len() <= s.len() && s.take(prefix.len() as int) == prefix
}

/// `str::starts_with`: whether `s` begins with `prefix`.
pub fn starts_with(s: &str, prefix: &str) -> (r: bool)
    ensures
        r == has_prefix(s@, prefix@),
{
    let n = s.unicode_len();
    let m = prefix.unicode_len();
    if m > n {
        return false;
    }
    let mut i: usize = 0;
    while i < m
        invariant
            n == s@.len(),
            m == prefix@.len(),
            m <= n,
            i <= m,
            forall|q: int| 0 <= q < i ==> s@[q] == prefix@[q],
        decreases m - i,
    {
        if s.get_char(i) != prefix.get_char(i) {
            assert(s@.take(m as int)[i as int] != prefix@[i as int]);
            return false;
        }
        i += 1;
    }
    assert(s@.take(m as int) =~= prefix@);
    true
}


/// `str::strip_prefix`: the rest of `s` after `prefix`, where it begins with it.
pub fn strip_prefix<'a>(s: &'a str, prefix: &str) -> (r: Option<&'a str>)
    ensures
        has_prefix(s@, prefix@) ==> (r matches Some(x) && x@ == s@.skip(prefix@.len() as int)),
        !has_prefix(s@, prefix@) ==> r is None,
{
    if starts_with(s, prefix) {
        let x = s.substring_char(prefix.unicode_len(), s.unicode_len());
        proof {
            assert(x@ =~= s@.skip(prefix@.len() as int));
        }
        Some(x)
    } else {
        None
    }
}

/// The position of the first `c` in `s`, if there is one (see `index_of_from`).
pub fn find_char(s: &str, c: char) -> (r: Option<usize>)
    ensures
        index_of_from(s@, c, 0) < 0 ==> r is None,
        index_of_from(s@, c, 0) >= 0 ==> (r matches Some(i) && i as int == index_of_from(s@, c, 0)),
        r matches Some(i) ==> i < s@.len() && s@[i as int] == c,
{
    let n = s.unicode_len();
    let mut i: usize = 0;
    while i < n && s.get_char(i) != c
        invariant
            n == s@.len(),
            i <= n,
            forall|q: int| 0 <= q < i ==> s@[q] != c,
        decreases n - i,
    {
        i += 1;
    }
    proof {
        lemma_index_of_from(s@, c, 0, i as int);
    }
    if i == n { None } else { Some(i) }
}

/// Whether the text `t` stands in `s` at `k`.
pub open spec fn occurs_at(s: Seq<char>, t: Seq<char>, k: int) -> bool {
    0 <= k && k + t.len() <= s.len() && s.subrange(k, k + t.len()) == t
}

/// The first place from `k` on where `t` stands in `s`, or -1.
pub open spec fn find_from(s: Seq<char>, t: Seq<char>, k: int) -> int
    decreases s.len() + 1 - k,
{
    if k < 0 || k + t.len() > s.len() {
        -1
    } else if occurs_at(s, t, k) {
        k
    } else {
        find_from(s, t, k + 1)
    }
}

pub proof fn lemma_find_from(s: Seq<char>, t: Seq<char>, i: int, j: int)
    requires
        0 <= i <= j,
        i == j || j - 1 + t.len() <= s.len(),
        forall|p: int| i <= p < j ==> !#[trigger] occurs_at(s, t, p),
    ensures
        find_from(s, t, i) == find_from(s, t, j),
    decreases j - i,
{
    if i < j {
        lemma_find_from(s, t, i + 1, j);
    }
}


/// `str::find` of a text: where `t` first stands in `s` (see `find_from`).
pub fn find_str(s: &str, t: &str) -> (r: Option<usize>)
    ensures
        find_from(s@, t@, 0) < 0 ==> r is None,
        find_from(s@, t@, 0) >= 0 ==> (r matches Some(k) && k as int == find_from(s@, t@, 0)),
        r matches Some(k) ==> occurs_at(s@, t@, k as int),
{
    let n = s.unicode_len();
    let m = t.unicode_len();
    if m > n {
        proof {
            assert(find_from(s@, t@, 0) == -1);
        }
        return None;
    }
    let mut k: usize = 0;
    let mut found = false;
    while k <= n - m
        invariant_except_break
            n == s@.len(),
            m == t@.len(),
            m <= n,
            k <= n - m + 1,
            !found,
            forall|p: int| 0 <= p < k ==> !#[trigger] occurs_at(s@, t@, p),
        ensures
            n == s@.len(),
            m == t@.len(),
            found ==> k + m <= n && occurs_at(s@, t@, k as int),
            !found ==> k + m > n,
            k <= n - m + 1,
            forall|p: int| 0 <= p < k ==> !#[trigger] occurs_at(s@, t@, p),
        decreases n - k,
    {
        let mut q: usize = 0;
        while q < m && s.get_char(k + q) == t.get_char(q)
            invariant
                n == s@.len(),
                m == t@.len(),
                k + m <= n,
                q <= m,
                forall|x: int| 0 <= x < q ==> s@[k + x] == t@[x],
            decreases m - q,
        {
            q += 1;
        }
        if q == m {
            assert(s@.subrange(k as int, k + m) =~= t@);
            found = true;
            break;
        }
        assert(s@.subrange(k as int, k + m)[q as int] != t@[q as int]);
        assert(!occurs_at(s@, t@, k as int));
        k += 1;
    }
    proof {
        lemma_find_from(s@, t@, 0, k as int);
    }
    if found { Some(k) } else { None }
}


/// A whitespace character as `char::is_whitespace` knows it (the Unicode White_Space
/// property).
pub open spec fn unicode_ws(c: char) -> bool {
    let v = c as u32;
    (0x09 <= v && v <= 0x0d) || v == 0x20 || v == 0x85 || v == 0xa0 || v == 0x1680
        || (0x2000 <= v && v <= 0x200a) || v == 0x2028 || v == 0x2029 || v == 0x202f || v == 0x205f
        || v == 0x3000
}

/// Where the whitespace at the start of `s` from `i` on ends.
pub open spec fn ws_end(s: Seq<char>, i: int) -> int
    decreases s.len() - i,
{
    if 0 <= i < s.len() && unicode_ws(s[i]) { ws_end(s, i + 1) } else { i }
}

/// Where the whitespace at the end of `s` before `j` begins.
pub open spec fn ws_start(s: Seq<char>, j: int) -> int
    decreases j,
{
    if 0 < j <= s.len() && unicode_ws(s[j - 1]) { ws_start(s, j - 1) } else { j }
}

/// `s` without the whitespace at its start and at its end.
pub open spec fn trimmed(s: Seq<char>) -> Seq<char> {
    let a = ws_end(s, 0);
    if a >= s.len() { Seq::empty() } else { s.subrange(a, ws_start(s, s.len() as int)) }
}

fn is_unicode_ws(c: char) -> (r: bool)
    ensures
        r == unicode_ws(c),
{
    let v = c as u32;
    (0x09 <= v && v <= 0x0d) || v == 0x20 || v == 0x85 || v == 0xa0 || v == 0x1680
        || (0x2000 <= v && v <= 0x200a) || v == 0x2028 || v == 0x2029 || v == 0x202f || v == 0x205f
        || v == 0x3000
}

proof fn lemma_ws_end(s: Seq<char>, i: int, j: int)
    requires
        0 <= i <= j <= s.len(),
        forall|q: int| i <= q < j ==> unicode_ws(#[trigger] s[q]),
    ensures
        ws_end(s, i) == ws_end(s, j),
    decreases j - i,
{
    if i < j {
        lemma_ws_end(s, i + 1, j);
    }
}

proof fn lemma_ws_start(s: Seq<char>, i: int, j: int)
    requires
        0 <= i <= j <= s.len(),
        forall|q: int| i <= q < j ==> unicode_ws(#[trigger] s[q]),
    ensures
        ws_start(s, j) == ws_start(s, i),
    decreases j - i,
{
    if i < j {
        lemma_ws_start(s, i, j - 1);
    }
}

/// `str::trim`: `s` without the whitespace at its start and at its end (see `trimmed`).
pub fn trim(s: &str) -> (r: &str)
    ensures
        r@ == trimmed(s@),
{
    let n = s.unicode_len();
    let mut a: usize = 0;
    while a < n && is_unicode_ws(s.get_char(a))
        invariant
            n == s@.len(),
            a <= n,
            forall|q: int| 0 <= q < a ==> unicode_ws(#[trigger] s@[q]),
        decreases n - a,
    {
        a += 1;
    }
    proof {
        lemma_ws_end(s@, 0, a as int);
    }
    if a == n {
        return s.substring_char(n, n);
    }
    let mut b: usize = n;
    while b > a && is_unicode_ws(s.get_char(b - 1))
        invariant
            n == s@.len(),
            a < n,
            a <= b <= n,
            !unicode_ws(s@[a as int]),
            forall|q: int| b <= q < n ==> unicode_ws(#[trigger] s@[q]),
        decreases b,
    {
        b -= 1;
    }
    proof {
        lemma_ws_start(s@, b as int, n as int);
    }
    let r = s.substring_char(a, b);
    proof {
        assert(r@ =~= trimmed(s@));
    }
    r
}


/// Scanning characters other than `c` keeps the piece in progress going.
pub proof fn lemma_pieces_scan(s: Seq<char>, c: char, start: int, i: int, j: int)
    requires
        0 <= start <= i <= j <= s.len(),
        forall|m: int| i <= m < j ==> #[trigger] s[m] != c,
    ensures
        pieces_from(s, c, start, i) == pieces_from(s, c, start, j),
    decreases j - i,
{
    if i < j {
        lemma_pieces_scan(s, c, start, i + 1, j);
    }
}

/// Cutting from an offset `k` on is cutting the text after `k`.
pub proof fn lemma_pieces_shift(s: Seq<char>, c: char, k: int, start: int, i: int)
    requires
        0 <= k <= start <= i <= s.len(),
    ensures
        pieces_from(s, c, start, i) == pieces_from(s.skip(k), c, start - k, i - k),
    decreases s.len() - i,
{
    let t = s.skip(k);
    if i < s.len() {
        assert(t[i - k] == s[i]);
        lemma_pieces_shift(s, c, k, start, i + 1);
        if s[i] == c {
            lemma_pieces_shift(s, c, k, i + 1, i + 1);
            assert(s.subrange(start, i) =~= t.subrange(start - k, i - k));
        }
    } else {
        assert(s.subrange(start, s.len() as int) =~= t.subrange(start - k, t.len() as int));
    }
}

/// A text without `c` is one piece.
pub proof fn lemma_pieces_single(a: Seq<char>, c: char)
    requires
        forall|m: int| 0 <= m < a.len() ==> #[trigger] a[m] != c,
    ensures
        pieces(a, c) == seq![a],
{
    lemma_pieces_scan(a, c, 0, 0, a.len() as int);
    assert(a.subrange(0, a.len() as int) =~= a);
}

/// A text without `c`, then `c` and more text, is that text and the pieces of the rest.
pub proof fn lemma_pieces_cons(a: Seq<char>, c: char, rest: Seq<char>)
    requires
        forall|m: int| 0 <= m < a.len() ==> #[trigger] a[m] != c,
    ensures
        pieces(a + seq![c] + rest, c) == seq![a] + pieces(rest, c),
{
    let s = a + seq![c] + rest;
    let n = a.len() as int;
    assert forall|m: int| 0 <= m < n implies #[trigger] s[m] != c by {
        assert(s[m] == a[m]);
    }
    lemma_pieces_scan(s, c, 0, 0, n);
    assert(s[n] == c);
    assert(s.subrange(0, n) =~= a);
    lemma_pieces_shift(s, c, n + 1, n + 1, n + 1);
    assert(s.skip(n + 1) =~= rest);
}

} // verus!
