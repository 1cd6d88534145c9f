//! Text primitives shared by the header, retry and error modules:
//! ASCII case folding, Unicode whitespace trimming, decimal numbers and
//! the byte order that `String`'s `Ord` uses.

use vstd::prelude::*;
use vstd::string::StrSliceExecFns;
use vstd::string::StringSliceAdditionalSpecFns;

verus! {

// ---------------------------------------------------------------------
// ASCII case folding
// ---------------------------------------------------------------------

/// ASCII lower-case mapping of one character; non-ASCII letters are unchanged.
pub open spec fn ascii_lower(c: char) -> char {
    if 'A' <= c && c <= 'Z' {
        ((c as u32) + 32) as char
    } else {
        c
    }
}

/// ASCII lower-case mapping of a character sequence.
pub open spec fn ascii_lower_seq(s: Seq<char>) -> Seq<char> {
    s.map_values(|c: char| ascii_lower(c))
}

/// Lower-casing twice is lower-casing once.
pub proof fn lemma_ascii_lower_idempotent(s: Seq<char>)
    ensures
        ascii_lower_seq(ascii_lower_seq(s)) == ascii_lower_seq(s),
{
    assert(ascii_lower_seq(ascii_lower_seq(s)) =~= ascii_lower_seq(s));
}

/// The ASCII lower-case mapping of a string, as `str::to_ascii_lowercase`
/// gives it: `'A'..='Z'` become `'a'..='z'`, every other character is kept.
pub fn to_ascii_lowercase(s: &str) -> (r: String)
    ensures
        r@ == ascii_lower_seq(s@),
{
    let mut out = String::new();
    for c in it: s.chars()
        invariant
            it.seq() == s@,
            out@ == ascii_lower_seq(s@.take(it.index())),
    {
        let lower = if 'A' <= c && c <= 'Z' {
            ((c as u8) + 32) as char
        } else {
            c
        };
        assert(lower == ascii_lower(c));
        push_char(&mut out, lower);
        assert(s@.take(it.index() + 1) =~= s@.take(it.index()).push(c));
        assert(ascii_lower_seq(s@.take(it.index() + 1)) =~= ascii_lower_seq(s@.take(it.index())).push(lower));
    }
    assert(s@.take(s@.len() as int) =~= s@);
    out
}

/// ASCII case-insensitive equality, as `str::eq_ignore_ascii_case` defines it:
/// the two lower-case mappings are equal.
pub open spec fn eq_ignore_ascii_case_spec(a: Seq<char>, b: Seq<char>) -> bool {
    ascii_lower_seq(a) == ascii_lower_seq(b)
}

/// ASCII case-insensitive string equality.
pub fn eq_ignore_ascii_case(a: &str, b: &str) -> (r: bool)
    ensures
        r == eq_ignore_ascii_case_spec(a@, b@),
{
    let la = to_ascii_lowercase(a);
    let lb = to_ascii_lowercase(b);
    la == lb
}

// ---------------------------------------------------------------------
// Whitespace trimming
// ---------------------------------------------------------------------

/// The Unicode `White_Space` property (the definition `char::is_whitespace`
/// and `str::trim` use).
pub open spec fn is_white_space(c: char) -> bool {
    let u = c as u32;
    ||| 0x09 <= u <= 0x0D
    ||| u == 0x20
    ||| u == 0x85
    ||| u == 0xA0
    ||| u == 0x1680
    ||| 0x2000 <= u <= 0x200A
    ||| u == 0x2028
    ||| u == 0x2029
    ||| u == 0x202F
    ||| u == 0x205F
    ||| u == 0x3000
}

/// `s` without its leading white space.
pub open spec fn trim_start_spec(s: Seq<char>) -> Seq<char>
    decreases s.len(),
{
    if s.len() > 0 && is_white_space(s[0]) {
        trim_start_spec(s.drop_first())
    } else {
        s
    }
}

/// `s` without its trailing white space.
pub open spec fn trim_end_spec(s: Seq<char>) -> Seq<char>
    decreases s.len(),
{
    if s.len() > 0 && is_white_space(s.last()) {
        trim_end_spec(s.drop_last())
    } else {
        s
    }
}

/// `s` without leading and trailing white space.
pub open spec fn trim_spec(s: Seq<char>) -> Seq<char> {
    trim_end_spec(trim_start_spec(s))
}

/// Whether a character has the Unicode `White_Space` property.
fn is_whitespace(c: char) -> (r: bool)
    ensures
        r == is_white_space(c),
{
    let u = c as u32;
    (0x09 <= u && u <= 0x0D) || u == 0x20 || u == 0x85 || u == 0xA0 || u == 0x1680 || (0x2000
        <= u && u <= 0x200A) || u == 0x2028 || u == 0x2029 || u == 0x202F || u == 0x205F || u
        == 0x3000
}

/// `s` without leading and trailing white space (Unicode `White_Space`),
/// as `str::trim` gives it.
pub fn trim(s: &str) -> (r: &str)
    ensures
        r@ == trim_spec(s@),
{
    let mut chars: Vec<char> = Vec::new();
    for c in it: s.chars()
        invariant
            it.seq() == s@,
            chars@ == s@.take(it.index()),
    {
        chars.push(c);
        assert(s@.take(it.index() + 1) =~= s@.take(it.index()).push(c));
    }
    assert(s@.take(s@.len() as int) =~= s@);
    let n = chars.len();
    let mut start: usize = 0;
    while start < n && is_whitespace(chars[start])
        invariant
            chars@ == s@,
            n == chars@.len(),
            start <= n,
            trim_start_spec(s@) == trim_start_spec(s@.subrange(start as int, n as int)),
        decreases n - start,
    {
        assert(s@.subrange(start as int, n as int).drop_first() =~= s@.subrange(
            start + 1,
            n as int,
        ));
        start = start + 1;
    }
    let mut end: usize = n;
    let ghost front = s@.subrange(start as int, n as int);
    assert(trim_start_spec(s@) == front) by {
        if start == n {
            assert(front =~= Seq::<char>::empty());
        }
    }
    while end > start && is_whitespace(chars[end - 1])
        invariant
            chars@ == s@,
            n == chars@.len(),
            start <= end <= n,
            front == s@.subrange(start as int, n as int),
            trim_end_spec(front) == trim_end_spec(s@.subrange(start as int, end as int)),
        decreases end - start,
    {
        assert(s@.subrange(start as int, end as int).drop_last() =~= s@.subrange(
            start as int,
            end - 1,
        ));
        end = end - 1;
    }
    assert(trim_end_spec(front) == s@.subrange(start as int, end as int)) by {
        if end == start {
            assert(s@.subrange(start as int, end as int) =~= Seq::<char>::empty());
        }
    }
    s.substring_char(start, end)
}

// ---------------------------------------------------------------------
// Decimal numbers
// ---------------------------------------------------------------------

/// Whether a byte is an ASCII decimal digit.
pub open spec fn is_digit(b: u8) -> bool {
    0x30 <= b <= 0x39
}

/// Every byte of `d` is an ASCII decimal digit.
pub open spec fn all_digits(d: Seq<u8>) -> bool {
    forall|i: int| 0 <= i < d.len() ==> is_digit(#[trigger] d[i])
}

/// The number that a run of decimal digits denotes (unbounded).
pub open spec fn digits_value(d: Seq<u8>) -> nat
    decreases d.len(),
{
    if d.len() == 0 {
        0
    } else {
        digits_value(d.drop_last()) * 10 + (d.last() - 0x30) as nat
    }
}

/// What `u64::from_str` accepts: an optional `+`, then one or more ASCII
/// digits whose value fits in a `u64`.
pub open spec fn parse_u64_spec(b: Seq<u8>) -> Option<u64> {
    let d = if b.len() > 0 && b[0] == 0x2B { b.drop_first() } else { b };
    if d.len() > 0 && all_digits(d) && digits_value(d) <= u64::MAX {
        Some(digits_value(d) as u64)
    } else {
        None
    }
}

proof fn lemma_digits_value_prefix(d: Seq<u8>, k: int)
    requires
        0 <= k <= d.len(),
        all_digits(d),
    ensures
        digits_value(d.take(k)) <= digits_value(d),
    decreases d.len() - k,
{
    if k < d.len() {
        let t = d.take(k + 1);
        assert(t.drop_last() =~= d.take(k));
        lemma_digits_value_prefix(d, k + 1);
    } else {
        assert(d.take(k) =~= d);
    }
}

/// Parses an unsigned decimal number the way `u64::from_str` does.
pub fn parse_u64(s: &str) -> (r: Option<u64>)
    ensures
        r == parse_u64_spec(s.spec_bytes()),
{
    let b = s.as_bytes();
    let ghost bs = b@;
    let start: usize = if b.len() > 0 && b[0] == 0x2B { 1 } else { 0 };
    let ghost d = if bs.len() > 0 && bs[0] == 0x2B { bs.drop_first() } else { bs };
    assert(d =~= bs.skip(start as int));
    if start >= b.len() {
        return None;
    }
    let mut acc: u64 = 0;
    let mut i: usize = start;
    while i < b.len()
        invariant
            start <= i <= b.len(),
            b@ == bs,
            bs == s.spec_bytes(),
            d == (if bs.len() > 0 && bs[0] == 0x2B { bs.drop_first() } else { bs }),
            d =~= bs.skip(start as int),
            all_digits(d.take(i - start)),
            acc == digits_value(d.take(i - start)),
        decreases b.len() - i,
    {
        let c = b[i];
        let ghost k = (i - start) as int;
        assert(d.take(k + 1).drop_last() =~= d.take(k));
        assert(d[k] == c);
        if c < 0x30 || c > 0x39 {
            assert(!is_digit(d[k]));
            assert(!all_digits(d));
            return None;
        }
        let digit = (c - 0x30) as u64;
        assert(all_digits(d.take(k + 1)));
        if acc > (u64::MAX - digit) / 10 {
            proof {
                assert(acc * 10 + digit > u64::MAX) by (nonlinear_arith)
                    requires acc > (u64::MAX - digit) / 10, digit <= 9;
                assert(d.take(k + 1).last() == c);
                assert(digits_value(d.take(k + 1)) == acc * 10 + digit);
                if all_digits(d) {
                    lemma_digits_value_prefix(d, k + 1);
                }
            }
            return None;
        }
        acc = acc * 10 + digit;
        i = i + 1;
    }
    assert(d.take(d.len() as int) =~= d);
    Some(acc)
}

/// The character of a decimal digit `0..=9`.
pub open spec fn digit_char(n: nat) -> char {
    ((n + 0x30) as u32) as char
}

/// The shortest decimal representation of `n`.
pub open spec fn decimal(n: nat) -> Seq<char>
    decreases n,
{
    if n < 10 {
        seq![digit_char(n)]
    } else {
        decimal(n / 10).push(digit_char(n % 10))
    }
}

/// `String::push`: its documentation states that it appends the character
/// to the end of the string.
#[verifier::external_body]
pub fn push_char(s: &mut String, c: char)
    ensures
        final(s)@ == old(s)@.push(c),
{
    s.push(c);
}

/// The decimal representation of `n`, as `Display` for unsigned integers writes it.
pub fn decimal_string(n: u64) -> (r: String)
    ensures
        r@ == decimal(n as nat),
{
    let mut digits: Vec<char> = Vec::new();
    let mut m: u64 = n;
    loop
        invariant_except_break
            decimal(n as nat) == decimal(m as nat) + digits@,
        ensures
            decimal(n as nat) == digits@,
        decreases m,
    {
        if m < 10 {
            digits.insert(0, digit_char_exec(m));
            break;
        }
        digits.insert(0, digit_char_exec(m % 10));
        m = m / 10;
    }
    let mut r = String::new();
    let mut i: usize = 0;
    while i < digits.len()
        invariant
            i <= digits.len(),
            r@ == digits@.take(i as int),
        decreases digits.len() - i,
    {
        push_char(&mut r, digits[i]);
        i = i + 1;
    }
    r
}

fn digit_char_exec(d: u64) -> (c: char)
    requires
        d < 10,
    ensures
        c == digit_char(d as nat),
{
    if d == 0 { '0' } else if d == 1 { '1' } else if d == 2 { '2' } else if d == 3 { '3' }
    else if d == 4 { '4' } else if d == 5 { '5' } else if d == 6 { '6' } else if d == 7 { '7' }
    else if d == 8 { '8' } else { '9' }
}

// ---------------------------------------------------------------------
// The order of `String`'s `Ord`: lexicographic on UTF-8 bytes
// ---------------------------------------------------------------------

/// Strict lexicographic order on byte sequences.
pub open spec fn bytes_lt(a: Seq<u8>, b: Seq<u8>) -> bool
    decreases a.len(),
{
    if a.len() == 0 {
        b.len() > 0
    } else if b.len() == 0 {
        false
    } else if a[0] != b[0] {
        a[0] < b[0]
    } else {
        bytes_lt(a.drop_first(), b.drop_first())
    }
}

/// Strict order of strings by their UTF-8 encoding, the order of `String`'s `Ord`.
pub open spec fn str_lt(a: Seq<char>, b: Seq<char>) -> bool {
    bytes_lt(vstd::utf8::encode_utf8(a), vstd::utf8::encode_utf8(b))
}

/// The byte order is transitive.
pub proof fn lemma_bytes_lt_transitive(a: Seq<u8>, b: Seq<u8>, c: Seq<u8>)
    requires
        bytes_lt(a, b),
        bytes_lt(b, c),
    ensures
        bytes_lt(a, c),
    decreases a.len(),
{
    if a.len() > 0 && b.len() > 0 && c.len() > 0 && a[0] == b[0] && b[0] == c[0] {
        lemma_bytes_lt_transitive(a.drop_first(), b.drop_first(), c.drop_first());
    }
}

/// The byte order is total and irreflexive.
pub proof fn lemma_bytes_lt_trichotomy(a: Seq<u8>, b: Seq<u8>)
    ensures
        a == b <==> !bytes_lt(a, b) && !bytes_lt(b, a),
        !(bytes_lt(a, b) && bytes_lt(b, a)),
    decreases a.len(),
{
    if a.len() > 0 && b.len() > 0 && a[0] == b[0] {
        lemma_bytes_lt_trichotomy(a.drop_first(), b.drop_first());
        if a.drop_first() == b.drop_first() {
            assert(a =~= seq![a[0]] + a.drop_first());
            assert(b =~= seq![b[0]] + b.drop_first());
        }
    } else if a.len() == 0 && b.len() == 0 {
        assert(a =~= b);
    }
}

/// The string order is transitive.
pub proof fn lemma_str_lt_transitive(a: Seq<char>, b: Seq<char>, c: Seq<char>)
    requires
        str_lt(a, b),
        str_lt(b, c),
    ensures
        str_lt(a, c),
{
    lemma_bytes_lt_transitive(
        vstd::utf8::encode_utf8(a),
        vstd::utf8::encode_utf8(b),
        vstd::utf8::encode_utf8(c),
    );
}

/// The string order is total and irreflexive.
pub proof fn lemma_str_lt_trichotomy(a: Seq<char>, b: Seq<char>)
    ensures
        a == b <==> !str_lt(a, b) && !str_lt(b, a),
        !(str_lt(a, b) && str_lt(b, a)),
{
    let ea = vstd::utf8::encode_utf8(a);
    let eb = vstd::utf8::encode_utf8(b);
    lemma_bytes_lt_trichotomy(ea, eb);
    if ea == eb {
        vstd::utf8::encode_utf8_decode_utf8(a);
        vstd::utf8::encode_utf8_decode_utf8(b);
    }
}

/// Three-way outcome of comparing two keys.
#[derive(Clone, Copy, Debug, PartialEq, Eq, Structural)]
pub enum KeyOrder {
    Less,
    Equal,
    Greater,
}

/// Compares two strings by their UTF-8 bytes, as `String`'s `Ord` does.
pub fn compare_str(a: &str, b: &str) -> (r: KeyOrder)
    ensures
        r == KeyOrder::Less <==> str_lt(a@, b@),
        r == KeyOrder::Equal <==> a@ == b@,
        r == KeyOrder::Greater <==> str_lt(b@, a@),
{
    proof { lemma_str_lt_trichotomy(a@, b@); }
    let x = a.as_bytes();
    let y = b.as_bytes();
    let ghost ex = x@;
    let ghost ey = y@;
    let mut i: usize = 0;
    assert(ex.skip(0) =~= ex);
    assert(ey.skip(0) =~= ey);
    while i < x.len() && i < y.len() && x[i] == y[i]
        invariant
            i <= x.len(),
            i <= y.len(),
            x@ == ex,
            y@ == ey,
            bytes_lt(ex, ey) == bytes_lt(ex.skip(i as int), ey.skip(i as int)),
            bytes_lt(ey, ex) == bytes_lt(ey.skip(i as int), ex.skip(i as int)),
        decreases x.len() - i,
    {
        assert(ex.skip(i as int).drop_first() =~= ex.skip(i + 1));
        assert(ey.skip(i as int).drop_first() =~= ey.skip(i + 1));
        i = i + 1;
    }
    let ghost sx = ex.skip(i as int);
    let ghost sy = ey.skip(i as int);
    if i < x.len() && i < y.len() {
        assert(sx[0] == x[i as int] && sy[0] == y[i as int]);
        if x[i] < y[i] { KeyOrder::Less } else { KeyOrder::Greater }
    } else if i < y.len() {
        KeyOrder::Less
    } else if i < x.len() {
        KeyOrder::Greater
    } else {
        assert(sx.len() == 0 && sy.len() == 0);
        KeyOrder::Equal
    }
}

/// Copies a byte slice into a new vector.
pub fn bytes_to_vec(b: &[u8]) -> (r: Vec<u8>)
    ensures
        r@ == b@,
{
    let mut r: Vec<u8> = Vec::new();
    let mut i: usize = 0;
    while i < b.len()
        invariant
            i <= b@.len(),
            r@ == b@.take(i as int),
        decreases b@.len() - i,
    {
        r.push(b[i]);
        assert(b@.take(i + 1) =~= b@.take(i as int).push(b@[i as int]));
        i = i + 1;
    }
    assert(b@.take(b@.len() as int) =~= b@);
    r
}

} // verus!
