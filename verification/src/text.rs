//! Character-level string helpers shared by every module: building strings,
//! decimal rendering and parsing of integers, prefix/suffix tests, trimming
//! and whitespace splitting. Everything is stated over `Seq<char>`, the view
//! of `str` and `String`.
use vstd::prelude::*;
use vstd::string::*;

verus! {

/// Whether `c` has the Unicode `White_Space` property (what
/// `char::is_whitespace` answers): U+0009 to U+000D, U+0020, U+0085,
/// U+00A0, U+1680, U+2000 to U+200A, U+2028, U+2029, U+202F, U+205F and
/// U+3000.
pub open spec fn unicode_whitespace(c: char) -> bool {
    let n = c as int;
    ||| 9 <= n <= 13
    ||| n == 0x20
    ||| n == 0x85
    ||| n == 0xA0
    ||| n == 0x1680
    ||| 0x2000 <= n <= 0x200A
    ||| n == 0x2028
    ||| n == 0x2029
    ||| n == 0x202F
    ||| n == 0x205F
    ||| n == 0x3000
}

/// Whether `c` is alphabetic or numeric in the Unicode sense (what
/// `char::is_alphanumeric` answers).
pub uninterp spec fn unicode_alphanumeric(c: char) -> bool;

/// The full Unicode lowercase mapping of a string (what `str::to_lowercase`
/// returns).
pub uninterp spec fn unicode_lowercase(s: Seq<char>) -> Seq<char>;

/// Calls `char::is_whitespace`; the result is the character's Unicode
/// `White_Space` property, as `unicode_whitespace` lists it.
#[verifier::external_body]
pub(crate) fn is_whitespace(c: char) -> (b: bool)
    ensures
        b == unicode_whitespace(c),
{
    c.is_whitespace()
}

/// An ASCII digit or letter.
pub open spec fn ascii_alphanumeric(c: char) -> bool {
    ('0' <= c && c <= '9') || ('A' <= c && c <= 'Z') || ('a' <= c && c <= 'z')
}

/// An ASCII character lowercased (`A`–`Z` to `a`–`z`, others unchanged).
pub open spec fn ascii_lower(c: char) -> char {
    if 'A' <= c && c <= 'Z' { ((c as u32) + 32) as char } else { c }
}

/// Calls `char::is_alphanumeric`; the result is named `unicode_alphanumeric`.
/// For an ASCII character it is an ASCII digit or letter.
#[verifier::external_body]
pub(crate) fn is_alphanumeric(c: char) -> (b: bool)
    ensures
        b == unicode_alphanumeric(c),
        (c as u32) < 128 ==> (b <==> ascii_alphanumeric(c)),
{
    c.is_alphanumeric()
}

/// Calls `str::to_lowercase`; the result is named `unicode_lowercase`. An
/// ASCII string is lowercased character by character.
#[verifier::external_body]
pub(crate) fn to_lowercase(s: &str) -> (out: String)
    ensures
        out@ == unicode_lowercase(s@),
        (forall|i: int| 0 <= i < s@.len() ==> (#[trigger] s@[i] as u32) < 128) ==> out@ == s@.map_values(
            |c: char| ascii_lower(c),
        ),
{
    s.to_lowercase()
}

/// Calls `String::push`, which appends one character.
#[verifier::external_body]
pub(crate) fn push_char(s: &mut String, c: char)
    ensures
        final(s)@ == old(s)@.push(c),
{
    s.push(c)
}

/// The characters of `s`, in order.
pub fn chars_of(s: &str) -> (out: Vec<char>)
    ensures
        out@ == s@,
{
    let mut out: Vec<char> = Vec::new();
    for c in it: s.chars()
        invariant
            out@ == it.seq().take(it.index() as int),
    {
        out.push(c);
    }
    out
}

/// The string whose characters are `v`.
pub fn from_chars(v: &[char]) -> (out: String)
    ensures
        out@ == v@,
{
    let out = from_range(v, 0, v.len());
    assert(v@.subrange(0, v@.len() as int) == v@);
    out
}

/// The string whose characters are `v[lo..hi]`.
pub fn from_range(v: &[char], lo: usize, hi: usize) -> (out: String)
    requires
        lo <= hi <= v.len(),
    ensures
        out@ == v@.subrange(lo as int, hi as int),
{
    let mut out = String::new();
    let mut i: usize = lo;
    while i < hi
        invariant
            lo <= i <= hi <= v.len(),
            out@ == v@.subrange(lo as int, i as int),
        decreases hi - i,
    {
        push_char(&mut out, v[i]);
        assert(v@.subrange(lo as int, i + 1) == v@.subrange(lo as int, i as int).push(v@[i as int]));
        i = i + 1;
    }
    out
}

/// A fresh copy of `s`.
pub fn owned(s: &str) -> (out: String)
    ensures
        out@ == s@,
{
    String::from_str(s)
}

/// `a` followed by `b`.
pub fn cat(a: &str, b: &str) -> (out: String)
    ensures
        out@ == a@ + b@,
{
    let mut out = String::from_str(a);
    out.append(b);
    out
}

/// `a`, `b` and `c`, in that order.
pub fn cat3(a: &str, b: &str, c: &str) -> (out: String)
    ensures
        out@ == a@ + b@ + c@,
{
    let mut out = String::from_str(a);
    out.append(b);
    out.append(c);
    out
}

/// `a` through `d`, in that order.
pub fn cat4(a: &str, b: &str, c: &str, d: &str) -> (out: String)
    ensures
        out@ == a@ + b@ + c@ + d@,
{
    let mut out = String::from_str(a);
    out.append(b);
    out.append(c);
    out.append(d);
    out
}

/// `a` through `e`, in that order.
pub fn cat5(a: &str, b: &str, c: &str, d: &str, e: &str) -> (out: String)
    ensures
        out@ == a@ + b@ + c@ + d@ + e@,
{
    let mut out = String::from_str(a);
    out.append(b);
    out.append(c);
    out.append(d);
    out.append(e);
    out
}

/// Equality of two string views.
pub fn str_eq(a: &str, b: &str) -> (r: bool)
    ensures
        r == (a@ == b@),
{
    let x = chars_of(a);
    let y = chars_of(b);
    seq_eq(&x, &y)
}

/// Equality of two character sequences.
pub fn seq_eq(x: &[char], y: &[char]) -> (r: bool)
    ensures
        r == (x@ == y@),
{
    if x.len() != y.len() {
        return false;
    }
    let mut i: usize = 0;
    while i < x.len()
        invariant
            x.len() == y.len(),
            i <= x.len(),
            forall|k: int| 0 <= k < i ==> x@[k] == y@[k],
        decreases x.len() - i,
    {
        if x[i] != y[i] {
            return false;
        }
        i = i + 1;
    }
    assert(x@ =~= y@);
    true
}

/// The UTF-8 encoding of a string.
pub open spec fn utf8(s: Seq<char>) -> Seq<u8> {
    vstd::utf8::encode_utf8(s)
}

/// `p` is a prefix of `s`.
pub open spec fn has_prefix(s: Seq<char>, p: Seq<char>) -> bool {
    p.len() <= s.len() && s.take(p.len() as int) == p
}

/// `p` is a suffix of `s`.
pub open spec fn has_suffix(s: Seq<char>, p: Seq<char>) -> bool {
    p.len() <= s.len() && s.skip(s.len() - p.len()) == p
}

/// `p` occurs somewhere in `s` (the empty pattern occurs everywhere).
pub open spec fn has_infix(s: Seq<char>, p: Seq<char>) -> bool {
    exists|i: int| 0 <= i <= s.len() - p.len() && #[trigger] s.subrange(i, i + p.len()) == p
}

/// Whether `x[at..]` begins with `p`.
pub fn matches_at(x: &[char], at: usize, p: &[char]) -> (r: bool)
    requires
        at <= x.len(),
    ensures
        r == (p.len() <= x.len() - at && x@.subrange(at as int, at + p.len()) == p@),
{
    if p.len() > x.len() - at {
        return false;
    }
    let mut i: usize = 0;
    while i < p.len()
        invariant
            p.len() <= x.len() - at,
            i <= p.len(),
            forall|k: int| 0 <= k < i ==> x@[at + k] == p@[k],
        decreases p.len() - i,
    {
        if x[at + i] != p[i] {
            assert(x@.subrange(at as int, at + p.len())[i as int] != p@[i as int]);
            return false;
        }
        i = i + 1;
    }
    assert(x@.subrange(at as int, at + p.len()) =~= p@);
    true
}

/// `str::starts_with` for a string pattern.
pub fn starts_with(s: &str, p: &str) -> (r: bool)
    ensures
        r == has_prefix(s@, p@),
{
    let x = chars_of(s);
    let y = chars_of(p);
    let r = matches_at(&x, 0, &y);
    proof {
        assert(x@.subrange(0, y@.len() as int) == x@.take(y@.len() as int));
    }
    r
}

/// `str::ends_with` for a string pattern.
pub fn ends_with(s: &str, p: &str) -> (r: bool)
    ensures
        r == has_suffix(s@, p@),
{
    let x = chars_of(s);
    let y = chars_of(p);
    if y.len() > x.len() {
        return false;
    }
    let r = matches_at(&x, x.len() - y.len(), &y);
    proof {
        assert(x@.subrange(x@.len() - y@.len(), x@.len() as int) == x@.skip(x@.len() - y@.len()));
    }
    r
}

/// `str::ends_with` for a single character.
pub fn ends_with_char(s: &str, c: char) -> (r: bool)
    ensures
        r == (s@.len() > 0 && s@.last() == c),
{
    let x = chars_of(s);
    x.len() > 0 && x[x.len() - 1] == c
}

/// `str::contains` for a string pattern.
pub fn contains(s: &str, p: &str) -> (r: bool)
    ensures
        r == has_infix(s@, p@),
{
    let x = chars_of(s);
    let y = chars_of(p);
    if y.len() > x.len() {
        return false;
    }
    let last = x.len() - y.len();
    let mut i: usize = 0;
    while i <= last
        invariant
            x@ == s@,
            y@ == p@,
            y.len() <= x.len(),
            last == x.len() - y.len(),
            i <= last + 1,
            forall|k: int| 0 <= k < i ==> #[trigger] x@.subrange(k, k + y@.len()) != y@,
        decreases last + 1 - i,
    {
        if matches_at(&x, i, &y) {
            assert(x@.subrange(i as int, i + y@.len()) == y@);
            return true;
        }
        if i == last {
            return false;
        }
        i = i + 1;
    }
    false
}

/// `str::strip_prefix` for a string pattern.
pub fn strip_prefix(s: &str, p: &str) -> (r: Option<String>)
    ensures
        r is Some <==> has_prefix(s@, p@),
        r matches Some(rest) ==> rest@ == s@.skip(p@.len() as int),
{
    let x = chars_of(s);
    let y = chars_of(p);
    if matches_at(&x, 0, &y) {
        proof {
            assert(x@.subrange(0, y@.len() as int) == x@.take(y@.len() as int));
        }
        Some(from_range(&x, y.len(), x.len()))
    } else {
        proof {
            assert(x@.subrange(0, y@.len() as int) == x@.take(y@.len() as int));
        }
        None
    }
}

/// The character for a digit 0..=9.
pub open spec fn digit_char(d: nat) -> char {
    if d == 0 { '0' }
    else if d == 1 { '1' }
    else if d == 2 { '2' }
    else if d == 3 { '3' }
    else if d == 4 { '4' }
    else if d == 5 { '5' }
    else if d == 6 { '6' }
    else if d == 7 { '7' }
    else if d == 8 { '8' }
    else { '9' }
}

/// The decimal rendering of a natural number, most significant digit first
/// and without leading zeros (what `u64`'s `Display` prints).
pub open spec fn decimal(n: nat) -> Seq<char>
    decreases n,
{
    if n < 10 {
        seq![digit_char(n)]
    } else {
        decimal(n / 10).push(digit_char(n % 10))
    }
}

fn digit(d: u64) -> (c: char)
    requires
        d < 10,
    ensures
        c == digit_char(d as nat),
{
    if d == 0 { '0' }
    else if d == 1 { '1' }
    else if d == 2 { '2' }
    else if d == 3 { '3' }
    else if d == 4 { '4' }
    else if d == 5 { '5' }
    else if d == 6 { '6' }
    else if d == 7 { '7' }
    else if d == 8 { '8' }
    else { '9' }
}

/// Decimal rendering of an unsigned integer.
pub fn u64_to_decimal(n: u64) -> (s: String)
    ensures
        s@ == decimal(n as nat),
    decreases n,
{
    if n < 10 {
        let mut s = String::new();
        push_char(&mut s, digit(n));
        s
    } else {
        let mut s = u64_to_decimal(n / 10);
        push_char(&mut s, digit(n % 10));
        s
    }
}

/// The value of an ASCII decimal digit, if `c` is one.
pub open spec fn digit_value(c: char) -> Option<nat> {
    if '0' <= c <= '9' { Some((c as u32 - '0' as u32) as nat) } else { None }
}

/// All characters are ASCII decimal digits.
pub open spec fn all_digits(s: Seq<char>) -> bool {
    forall|i: int| 0 <= i < s.len() ==> '0' <= #[trigger] s[i] <= '9'
}

/// The number written by a string of decimal digits (leading zeros allowed).
pub open spec fn digits_value(s: Seq<char>) -> nat
    decreases s.len(),
{
    if s.len() == 0 {
        0
    } else {
        digits_value(s.drop_last()) * 10 + (s.last() as u32 - '0' as u32) as nat
    }
}

/// What `u64::from_str` accepts: one optional `+`, then at least one ASCII
/// digit, with a value that fits in 64 bits.
pub open spec fn parse_u64_spec(s: Seq<char>) -> Option<u64> {
    let d = if s.len() > 0 && s[0] == '+' { s.drop_first() } else { s };
    if d.len() == 0 || !all_digits(d) || digits_value(d) > u64::MAX {
        None
    } else {
        Some(digits_value(d) as u64)
    }
}

proof fn lemma_digits_value_step(s: Seq<char>, i: int)
    requires
        0 <= i < s.len(),
    ensures
        digits_value(s.take(i + 1)) == digits_value(s.take(i)) * 10 + (s[i] as u32 - '0' as u32) as nat,
{
    assert(s.take(i + 1).drop_last() == s.take(i));
}

proof fn lemma_digits_value_monotone(s: Seq<char>, i: int, j: int)
    requires
        0 <= i <= j <= s.len(),
        all_digits(s),
    ensures
        digits_value(s.take(i)) <= digits_value(s.take(j)),
    decreases j - i,
{
    if i < j {
        lemma_digits_value_monotone(s, i, j - 1);
        lemma_digits_value_step(s, j - 1);
    }
}

/// `u64::from_str`: parses an optionally `+`-signed decimal integer.
pub fn parse_u64(s: &str) -> (r: Option<u64>)
    ensures
        r == parse_u64_spec(s@),
{
    let x = chars_of(s);
    let start: usize = if x.len() > 0 && x[0] == '+' { 1 } else { 0 };
    let ghost d = if s@.len() > 0 && s@[0] == '+' { s@.drop_first() } else { s@ };
    if start >= x.len() {
        return None;
    }
    let mut acc: u64 = 0;
    let mut i: usize = start;
    while i < x.len()
        invariant
            start <= i <= x.len(),
            start < x.len(),
            x@ == s@,
            d == (if s@.len() > 0 && s@[0] == '+' { s@.drop_first() } else { s@ }),
            d == x@.skip(start as int),
            all_digits(x@.subrange(start as int, i as int)),
            acc as nat == digits_value(d.take(i - start)),
        decreases x.len() - i,
    {
        let c = x[i];
        if !('0' <= c && c <= '9') {
            assert(d[i - start] == c);
            assert(!('0' <= d[i - start] <= '9'));
            return None;
        }
        let v = (c as u32 - '0' as u32) as u64;
        proof {
            lemma_digits_value_step(d, i - start);
            assert(x@.subrange(start as int, i + 1) == x@.subrange(start as int, i as int).push(c));
        }
        if acc > (u64::MAX - v) / 10 {
            proof {
                let k: int = i + 1 - start;
                if all_digits(d) {
                    lemma_digits_value_monotone(d, k, d.len() as int);
                    assert(d.take(d.len() as int) == d);
                    assert(digits_value(d) >= digits_value(d.take(k)));
                }
                assert(acc * 10 + v > u64::MAX) by (nonlinear_arith)
                    requires acc > (u64::MAX - v) / 10, v < 10;
            }
            return None;
        }
        acc = acc * 10 + v;
        i = i + 1;
    }
    proof {
        assert(d.take(d.len() as int) == d);
        assert(x@.subrange(start as int, x@.len() as int) == d);
    }
    Some(acc)
}

/// The characters of `s` with leading and trailing whitespace removed.
pub open spec fn trimmed(s: Seq<char>) -> Seq<char> {
    trimmed_end(trimmed_start(s))
}

/// `s` without its leading whitespace.
pub open spec fn trimmed_start(s: Seq<char>) -> Seq<char>
    decreases s.len(),
{
    if s.len() > 0 && unicode_whitespace(s[0]) { trimmed_start(s.drop_first()) } else { s }
}

/// `s` without its trailing whitespace.
pub open spec fn trimmed_end(s: Seq<char>) -> Seq<char>
    decreases s.len(),
{
    if s.len() > 0 && unicode_whitespace(s.last()) { trimmed_end(s.drop_last()) } else { s }
}

proof fn lemma_trimmed_start_skip(s: Seq<char>, i: int)
    requires
        0 <= i <= s.len(),
        forall|k: int| 0 <= k < i ==> unicode_whitespace(#[trigger] s[k]),
    ensures
        trimmed_start(s) == trimmed_start(s.skip(i)),
    decreases i,
{
    if i > 0 {
        assert(s.drop_first().skip(i - 1) == s.skip(i));
        lemma_trimmed_start_skip(s.drop_first(), i - 1);
    } else {
        assert(s.skip(0) == s);
    }
}

proof fn lemma_trimmed_end_take(s: Seq<char>, j: int)
    requires
        0 <= j <= s.len(),
        forall|k: int| j <= k < s.len() ==> unicode_whitespace(#[trigger] s[k]),
    ensures
        trimmed_end(s) == trimmed_end(s.take(j)),
    decreases s.len() - j,
{
    if j < s.len() {
        assert(s.drop_last().take(j) == s.take(j));
        lemma_trimmed_end_take(s.drop_last(), j);
    } else {
        assert(s.take(j) == s);
    }
}

/// `str::trim`: the string without leading and trailing whitespace.
pub fn trim(s: &str) -> (out: String)
    ensures
        out@ == trimmed(s@),
{
    let x = chars_of(s);
    let mut i: usize = 0;
    while i < x.len() && is_whitespace(x[i])
        invariant
            i <= x.len(),
            x@ == s@,
            forall|k: int| 0 <= k < i ==> unicode_whitespace(#[trigger] x@[k]),
        decreases x.len() - i,
    {
        i = i + 1;
    }
    proof {
        lemma_trimmed_start_skip(s@, i as int);
    }
    let ghost r = s@.skip(i as int);
    assert(trimmed_start(r) == r);
    let mut j: usize = x.len();
    while j > i && is_whitespace(x[j - 1])
        invariant
            i <= j <= x.len(),
            x@ == s@,
            r == s@.skip(i as int),
            forall|k: int| j <= k < x.len() ==> unicode_whitespace(#[trigger] x@[k]),
        decreases j,
    {
        j = j - 1;
    }
    proof {
        assert forall|k: int| j - i <= k < r.len() implies unicode_whitespace(#[trigger] r[k]) by {
            assert(r[k] == x@[k + i]);
        }
        lemma_trimmed_end_take(r, j - i);
        assert(r.take(j - i) == x@.subrange(i as int, j as int));
    }
    from_range(&x, i, j)
}

/// `str::trim_end`: the string without trailing whitespace.
pub fn trim_end(s: &str) -> (out: String)
    ensures
        out@ == trimmed_end(s@),
{
    let x = chars_of(s);
    let mut j: usize = x.len();
    while j > 0 && is_whitespace(x[j - 1])
        invariant
            j <= x.len(),
            x@ == s@,
            forall|k: int| j <= k < x.len() ==> unicode_whitespace(#[trigger] x@[k]),
        decreases j,
    {
        j = j - 1;
    }
    proof {
        lemma_trimmed_end_take(s@, j as int);
        assert(x@.take(j as int) == x@.subrange(0, j as int));
    }
    from_range(&x, 0, j)
}

} // verus!

verus! {

/// Left-to-right whitespace splitting of `s`: the finished words and the
/// word still being read.
pub open spec fn split_state(s: Seq<char>) -> (Seq<Seq<char>>, Seq<char>)
    decreases s.len(),
{
    if s.len() == 0 {
        (seq![], seq![])
    } else {
        let (done, cur) = split_state(s.drop_last());
        let c = s.last();
        if unicode_whitespace(c) {
            if cur.len() > 0 { (done.push(cur), seq![]) } else { (done, cur) }
        } else {
            (done, cur.push(c))
        }
    }
}

/// The maximal runs of non-whitespace characters of `s`, in order (what
/// `str::split_whitespace` yields).
pub open spec fn words(s: Seq<char>) -> Seq<Seq<char>> {
    let (done, cur) = split_state(s);
    if cur.len() > 0 { done.push(cur) } else { done }
}

/// The strings of a vector, by their views.
pub open spec fn strings_view(v: Seq<String>) -> Seq<Seq<char>> {
    v.map_values(|s: String| s@)
}

/// `str::split_whitespace`, collected.
pub fn split_whitespace(s: &str) -> (out: Vec<String>)
    ensures
        strings_view(out@) == words(s@),
{
    let x = chars_of(s);
    let mut done: Vec<String> = Vec::new();
    let mut cur: Vec<char> = Vec::new();
    let mut i: usize = 0;
    while i < x.len()
        invariant
            i <= x.len(),
            x@ == s@,
            (strings_view(done@), cur@) == split_state(s@.take(i as int)),
        decreases x.len() - i,
    {
        let c = x[i];
        assert(s@.take(i + 1).drop_last() == s@.take(i as int));
        if is_whitespace(c) {
            if cur.len() > 0 {
                let w = from_chars(&cur);
                done.push(w);
                cur = Vec::new();
                assert(strings_view(done@) =~= split_state(s@.take(i + 1)).0);
                assert(cur@ =~= split_state(s@.take(i + 1)).1);
            }
        } else {
            cur.push(c);
        }
        i = i + 1;
    }
    assert(s@.take(x.len() as int) == s@);
    if cur.len() > 0 {
        let w = from_chars(&cur);
        done.push(w);
        assert(strings_view(done@) =~= words(s@));
    }
    done
}

} // verus!

verus! {

/// The decimal rendering of an integer, with a leading `-` when negative
/// (what `i64`'s `Display` prints).
pub open spec fn signed_decimal(n: int) -> Seq<char> {
    if n < 0 { seq!['-'] + decimal((-n) as nat) } else { decimal(n as nat) }
}

/// Decimal rendering of a signed integer.
pub fn i64_to_decimal(n: i64) -> (s: String)
    ensures
        s@ == signed_decimal(n as int),
{
    if n < 0 {
        let m: u64 = (-(n as i128)) as u64;
        let mut s = String::new();
        push_char(&mut s, '-');
        let d = u64_to_decimal(m);
        s.append(d.as_str());
        assert(s@ =~= signed_decimal(n as int));
        s
    } else {
        u64_to_decimal(n as u64)
    }
}

/// The eight little-endian bytes of a `u64`.
pub open spec fn le_bytes_u64(n: u64) -> Seq<u8> {
    Seq::new(8, |i: int| ((n as nat / pow256(i)) % 256) as u8)
}

/// 256 to the power `i`.
pub open spec fn pow256(i: int) -> nat
    decreases i,
{
    if i <= 0 { 1 } else { 256 * pow256(i - 1) }
}

/// `u64::to_le_bytes`.
pub fn u64_le_bytes(n: u64) -> (b: Vec<u8>)
    ensures
        b@ == le_bytes_u64(n),
{
    let mut b: Vec<u8> = Vec::new();
    let mut rest: u64 = n;
    let mut i: usize = 0;
    assert(pow256(0) == 1);
    assert(n as nat / 1 == n as nat);
    while i < 8
        invariant
            i <= 8,
            b@.len() == i,
            rest as nat == n as nat / pow256(i as int),
            forall|k: int| 0 <= k < i ==> b@[k] == le_bytes_u64(n)[k],
        decreases 8 - i,
    {
        proof {
            assert(pow256(i + 1) == 256 * pow256(i as int));
            assert(pow256(i as int) > 0) by {
                lemma_pow256_pos(i as int);
            }
            vstd::arithmetic::div_mod::lemma_div_denominator(n as int, pow256(i as int) as int, 256);
        }
        b.push((rest % 256) as u8);
        rest = rest / 256;
        i = i + 1;
    }
    assert(b@ =~= le_bytes_u64(n));
    b
}

proof fn lemma_pow256_pos(i: int)
    ensures
        pow256(i) > 0,
    decreases i,
{
    if i > 0 {
        lemma_pow256_pos(i - 1);
    }
}

} // verus!

verus! {

/// The code of `c` with ASCII `A`..=`Z` folded to lowercase.
pub open spec fn ascii_fold(c: char) -> u32 {
    let v = c as u32;
    if 65 <= v && v <= 90 { (v + 32) as u32 } else { v }
}

/// `str::eq_ignore_ascii_case`: equal once ASCII letters are folded.
pub open spec fn ascii_eq_ignore_case(a: Seq<char>, b: Seq<char>) -> bool {
    a.len() == b.len() && forall|i: int| 0 <= i < a.len() ==> ascii_fold(#[trigger] a[i]) == ascii_fold(b[i])
}

fn fold_char(c: char) -> (r: u32)
    ensures
        r == ascii_fold(c),
{
    let v = c as u32;
    if 65 <= v && v <= 90 { v + 32 } else { v }
}

/// Equality up to ASCII letter case.
pub fn eq_ignore_ascii_case(a: &str, b: &str) -> (r: bool)
    ensures
        r == ascii_eq_ignore_case(a@, b@),
{
    let x = chars_of(a);
    let y = chars_of(b);
    if x.len() != y.len() {
        return false;
    }
    let mut i: usize = 0;
    while i < x.len()
        invariant
            x@ == a@,
            y@ == b@,
            x.len() == y.len(),
            i <= x.len(),
            forall|k: int| 0 <= k < i ==> ascii_fold(#[trigger] x@[k]) == ascii_fold(y@[k]),
        decreases x.len() - i,
    {
        if fold_char(x[i]) != fold_char(y[i]) {
            return false;
        }
        i = i + 1;
    }
    true
}

/// `s` with every `from` replaced by `to`.
pub open spec fn replaced(s: Seq<char>, from: char, to: char) -> Seq<char> {
    s.map_values(|c: char| if c == from { to } else { c })
}

/// `str::replace` for single characters.
pub fn replace_char(s: &str, from: char, to: char) -> (out: String)
    ensures
        out@ == replaced(s@, from, to),
{
    let x = chars_of(s);
    let mut out = String::new();
    let mut i: usize = 0;
    while i < x.len()
        invariant
            x@ == s@,
            i <= x.len(),
            out@ == replaced(s@.take(i as int), from, to),
        decreases x.len() - i,
    {
        let c = if x[i] == from { to } else { x[i] };
        push_char(&mut out, c);
        assert(replaced(s@.take(i + 1), from, to) =~= replaced(s@.take(i as int), from, to).push(c));
        i = i + 1;
    }
    assert(s@.take(x.len() as int) == s@);
    out
}

/// The first `n` characters of `s`.
pub fn take_chars(s: &str, n: usize) -> (out: String)
    requires
        n <= s@.len(),
    ensures
        out@ == s@.take(n as int),
{
    let x = chars_of(s);
    let out = from_range(&x, 0, n);
    assert(x@.subrange(0, n as int) == s@.take(n as int));
    out
}

/// The number of characters of `s`.
pub fn char_count(s: &str) -> (n: usize)
    ensures
        n == s@.len(),
{
    let x = chars_of(s);
    x.len()
}

/// The parts joined with `sep` between consecutive ones.
pub open spec fn joined(parts: Seq<Seq<char>>, sep: Seq<char>) -> Seq<char>
    decreases parts.len(),
{
    if parts.len() == 0 {
        seq![]
    } else if parts.len() == 1 {
        parts[0]
    } else {
        joined(parts.drop_last(), sep) + sep + parts.last()
    }
}

/// `[String]::join`.
pub fn join(parts: &[String], sep: &str) -> (out: String)
    ensures
        out@ == joined(strings_view(parts@), sep@),
{
    let mut out = String::new();
    let mut i: usize = 0;
    while i < parts.len()
        invariant
            i <= parts.len(),
            out@ == joined(strings_view(parts@.take(i as int)), sep@),
        decreases parts.len() - i,
    {
        assert(strings_view(parts@.take(i + 1)).drop_last() =~= strings_view(parts@.take(i as int)));
        assert(strings_view(parts@.take(i + 1)).last() == parts@[i as int]@);
        if i > 0 {
            out.append(sep);
        }
        out.append(parts[i].as_str());
        i = i + 1;
    }
    assert(parts@.take(parts.len() as int) == parts@);
    out
}

/// Lexicographic order on strings by character code, which is the order
/// `String`'s `Ord` gives (UTF-8 preserves code point order).
pub open spec fn seq_lt(a: Seq<char>, b: Seq<char>) -> bool
    decreases a.len(),
{
    if a.len() == 0 {
        b.len() > 0
    } else if b.len() == 0 {
        false
    } else if a[0] != b[0] {
        a[0] < b[0]
    } else {
        seq_lt(a.drop_first(), b.drop_first())
    }
}

/// `seq_lt` is irreflexive and asymmetric, and any two different strings
/// are ordered one way or the other.
pub proof fn lemma_seq_lt_total(a: Seq<char>, b: Seq<char>)
    ensures
        !seq_lt(a, a),
        seq_lt(a, b) ==> !seq_lt(b, a),
        a != b ==> seq_lt(a, b) || seq_lt(b, a),
    decreases a.len(),
{
    if a.len() > 0 {
        lemma_seq_lt_total(a.drop_first(), a.drop_first());
        if b.len() > 0 {
            lemma_seq_lt_total(a.drop_first(), b.drop_first());
            if a[0] == b[0] && a != b {
                assert(a.drop_first() != b.drop_first()) by {
                    if a.drop_first() == b.drop_first() {
                        assert(a =~= seq![a[0]] + a.drop_first());
                        assert(b =~= seq![b[0]] + b.drop_first());
                    }
                }
            }
        }
    } else {
        if b.len() == 0 {
            assert(a =~= b);
        }
    }
}

/// `seq_lt` is transitive.
pub proof fn lemma_seq_lt_trans(a: Seq<char>, b: Seq<char>, c: Seq<char>)
    requires
        seq_lt(a, b),
        seq_lt(b, c),
    ensures
        seq_lt(a, c),
    decreases a.len(),
{
    if a.len() > 0 && b.len() > 0 && c.len() > 0 && a[0] == b[0] && b[0] == c[0] {
        lemma_seq_lt_trans(a.drop_first(), b.drop_first(), c.drop_first());
    }
}

proof fn lemma_seq_lt_skip(a: Seq<char>, b: Seq<char>, i: int)
    requires
        0 <= i <= a.len(),
        i <= b.len(),
        a.take(i) == b.take(i),
    ensures
        seq_lt(a, b) == seq_lt(a.skip(i), b.skip(i)),
    decreases i,
{
    if i > 0 {
        assert(a[0] == a.take(i)[0]);
        assert(b[0] == b.take(i)[0]);
        assert(a.drop_first().take(i - 1) =~= a.take(i).drop_first());
        assert(b.drop_first().take(i - 1) =~= b.take(i).drop_first());
        assert(a.drop_first().skip(i - 1) =~= a.skip(i));
        assert(b.drop_first().skip(i - 1) =~= b.skip(i));
        lemma_seq_lt_skip(a.drop_first(), b.drop_first(), i - 1);
    } else {
        assert(a.skip(0) == a);
        assert(b.skip(0) == b);
    }
}

/// `a < b` in `String`'s order.
pub fn str_lt(a: &str, b: &str) -> (r: bool)
    ensures
        r == seq_lt(a@, b@),
{
    let x = chars_of(a);
    let y = chars_of(b);
    let mut i: usize = 0;
    while i < x.len() && i < y.len() && x[i] == y[i]
        invariant
            x@ == a@,
            y@ == b@,
            i <= x.len(),
            i <= y.len(),
            a@.take(i as int) == b@.take(i as int),
        decreases x.len() - i,
    {
        assert(a@.take(i + 1) =~= a@.take(i as int).push(a@[i as int]));
        assert(b@.take(i + 1) =~= b@.take(i as int).push(b@[i as int]));
        i = i + 1;
    }
    proof {
        lemma_seq_lt_skip(a@, b@, i as int);
    }
    if i < x.len() && i < y.len() {
        assert(a@.skip(i as int)[0] == x@[i as int]);
        assert(b@.skip(i as int)[0] == y@[i as int]);
        x[i] < y[i]
    } else {
        i == x.len() && i < y.len()
    }
}

} // verus!

verus! {

/// `s` without its trailing `c` characters.
pub open spec fn trimmed_end_char(s: Seq<char>, c: char) -> Seq<char>
    decreases s.len(),
{
    if s.len() > 0 && s.last() == c { trimmed_end_char(s.drop_last(), c) } else { s }
}

/// `str::trim_end_matches` for one character.
pub fn trim_end_char(s: &str, c: char) -> (out: String)
    ensures
        out@ == trimmed_end_char(s@, c),
{
    let x = chars_of(s);
    let mut j: usize = x.len();
    assert(s@.take(j as int) == s@);
    while j > 0 && x[j - 1] == c
        invariant
            j <= x.len(),
            x@ == s@,
            trimmed_end_char(s@, c) == trimmed_end_char(s@.take(j as int), c),
        decreases j,
    {
        assert(s@.take(j as int).drop_last() == s@.take(j - 1));
        j = j - 1;
    }
    assert(x@.take(j as int) == x@.subrange(0, j as int));
    from_range(&x, 0, j)
}

} // verus!
