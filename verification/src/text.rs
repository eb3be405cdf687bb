//! Character-level helpers and the lexical grammars of the number and boolean
//! forms that parameter values are written in.
use vstd::prelude::*;
use vstd::string::*;

verus! {

/// Whether `c` is an ASCII decimal digit.
pub open spec fn is_digit(c: char) -> bool {
    '0' <= c && c <= '9'
}

/// The numeric value of an ASCII decimal digit.
pub open spec fn digit_value(c: char) -> int {
    (c as int) - ('0' as int)
}

/// Number of consecutive digits in `s` starting at index `i`.
pub open spec fn digit_run(s: Seq<char>, i: int) -> nat
    decreases s.len() - i,
{
    if 0 <= i < s.len() && is_digit(s[i]) {
        1 + digit_run(s, i + 1)
    } else {
        0
    }
}

/// Whether `s[start..]` spells the word whose lower-case letters are `lower` and
/// whose upper-case letters are `upper`, each letter in either case.
pub open spec fn word_at_ignore_case(s: Seq<char>, start: int, lower: Seq<char>, upper: Seq<char>) -> bool {
    &&& 0 <= start <= s.len()
    &&& s.len() - start == lower.len()
    &&& forall|i: int|
        0 <= i < lower.len() ==> (#[trigger] s[start + i] == lower[i] || s[start + i] == upper[i])
}

/// Length of an optional leading `+` or `-` at index `i`.
pub open spec fn sign_len(s: Seq<char>, i: int) -> int {
    if 0 <= i < s.len() && (s[i] == '+' || s[i] == '-') {
        1
    } else {
        0
    }
}

/// Whether `s[p..]` is an exponent: `e` or `E`, an optional sign, then one or more digits.
pub open spec fn is_exponent_at(s: Seq<char>, p: int) -> bool {
    let q = p + 1 + sign_len(s, p + 1);
    &&& 0 <= p < s.len()
    &&& (s[p] == 'e' || s[p] == 'E')
    &&& digit_run(s, q) > 0
    &&& q + digit_run(s, q) == s.len()
}

/// Whether `s[start..]` is a decimal number: digits with an optional fraction
/// (at least one digit in all), then an optional exponent.
pub open spec fn is_number_at(s: Seq<char>, start: int) -> bool {
    let a = digit_run(s, start);
    let has_dot = start + a < s.len() && s[start + a] == '.';
    let b: nat = if has_dot { digit_run(s, start + a + 1) } else { 0 };
    let mant_end = if has_dot { start + a + 1 + b } else { start + a };
    &&& 0 <= start <= s.len()
    &&& (a > 0 || b > 0)
    &&& (mant_end == s.len() || is_exponent_at(s, mant_end))
}

/// Whether `s` is text that a 64-bit floating-point number parses from: an optional
/// sign followed by `inf`, `infinity`, `nan` (in any ASCII case) or a decimal number.
pub open spec fn is_float_text(s: Seq<char>) -> bool {
    let start = sign_len(s, 0);
    ||| word_at_ignore_case(s, start, seq!['i', 'n', 'f'], seq!['I', 'N', 'F'])
    ||| word_at_ignore_case(
        s,
        start,
        seq!['i', 'n', 'f', 'i', 'n', 'i', 't', 'y'],
        seq!['I', 'N', 'F', 'I', 'N', 'I', 'T', 'Y'],
    )
    ||| word_at_ignore_case(s, start, seq!['n', 'a', 'n'], seq!['N', 'A', 'N'])
    ||| is_number_at(s, start)
}

/// The value of the decimal digits `s[lo..hi]`.
pub open spec fn decimal_value(s: Seq<char>, lo: int, hi: int) -> int
    decreases hi - lo,
{
    if hi <= lo {
        0
    } else {
        decimal_value(s, lo, hi - 1) * 10 + digit_value(s[hi - 1])
    }
}

/// Whether `s[lo..]` is one or more decimal digits.
pub open spec fn all_digits_from(s: Seq<char>, lo: int) -> bool {
    0 <= lo < s.len() && forall|i: int| lo <= i < s.len() ==> is_digit(#[trigger] s[i])
}

/// The integer that `s` spells as an optionally signed decimal, if it does.
pub open spec fn signed_decimal(s: Seq<char>) -> Option<int> {
    let start = sign_len(s, 0);
    if all_digits_from(s, start) {
        let m = decimal_value(s, start, s.len() as int);
        if start == 1 && s[0] == '-' {
            Some(-m)
        } else {
            Some(m)
        }
    } else {
        None
    }
}

/// The integer that `s` spells as an unsigned decimal with an optional `+`, if it does.
pub open spec fn unsigned_decimal(s: Seq<char>) -> Option<int> {
    let start: int = if s.len() > 0 && s[0] == '+' { 1 } else { 0 };
    if all_digits_from(s, start) {
        Some(decimal_value(s, start, s.len() as int))
    } else {
        None
    }
}

/// The 32-bit signed integer that `s` denotes, if it denotes one.
pub open spec fn i32_of_text(s: Seq<char>) -> Option<i32> {
    match signed_decimal(s) {
        Some(v) => if i32::MIN <= v <= i32::MAX { Some(v as i32) } else { None },
        None => None,
    }
}

/// The 32-bit unsigned integer that `s` denotes, if it denotes one.
pub open spec fn u32_of_text(s: Seq<char>) -> Option<u32> {
    match unsigned_decimal(s) {
        Some(v) => if v <= u32::MAX { Some(v as u32) } else { None },
        None => None,
    }
}

/// The 16-bit unsigned integer that `s` denotes, if it denotes one.
pub open spec fn u16_of_text(s: Seq<char>) -> Option<u16> {
    match unsigned_decimal(s) {
        Some(v) => if v <= u16::MAX { Some(v as u16) } else { None },
        None => None,
    }
}

/// The boolean that `s` denotes: exactly `true` or `false`.
pub open spec fn bool_of_text(s: Seq<char>) -> Option<bool> {
    if s == seq!['t', 'r', 'u', 'e'] {
        Some(true)
    } else if s == seq!['f', 'a', 'l', 's', 'e'] {
        Some(false)
    } else {
        None
    }
}

/// Whether `p` occurs in `s` as a contiguous piece.
pub open spec fn contains_seq(s: Seq<char>, p: Seq<char>) -> bool {
    exists|i: int| 0 <= i && i + p.len() <= s.len() && #[trigger] s.subrange(i, i + p.len()) == p
}

/// Whether `s` begins with `p`.
pub open spec fn starts_with_seq(s: Seq<char>, p: Seq<char>) -> bool {
    p.len() <= s.len() && s.subrange(0, p.len() as int) == p
}

/// Whether the two strings are equal.
pub fn str_eq(a: &str, b: &str) -> (r: bool)
    ensures
        r == (a@ == b@),
{
    let x = a.to_owned();
    let y = b.to_owned();
    x == y
}

/// The characters of `s`, in order.
pub fn chars_of(s: &str) -> (v: Vec<char>)
    ensures
        v@ == s@,
{
    let n = s.unicode_len();
    let mut v: Vec<char> = Vec::new();
    let mut i: usize = 0;
    while i < n
        invariant
            n == s@.len(),
            i <= n,
            v@ == s@.subrange(0, i as int),
        decreases n - i,
    {
        let c = s.get_char(i);
        v.push(c);
        i = i + 1;
    }
    assert(v@ == s@);
    v
}

/// Whether `c` is an ASCII decimal digit.
pub fn char_is_digit(c: char) -> (r: bool)
    ensures
        r == is_digit(c),
{
    '0' <= c && c <= '9'
}

/// Index just past the digits of `s` that start at `i`.
pub fn scan_digits(s: &Vec<char>, i: usize) -> (r: usize)
    requires
        i <= s@.len(),
    ensures
        r == i + digit_run(s@, i as int),
        r <= s@.len(),
{
    let mut k = i;
    while k < s.len() && char_is_digit(s[k])
        invariant
            i <= k <= s@.len(),
            digit_run(s@, i as int) == (k - i) + digit_run(s@, k as int),
        decreases s@.len() - k,
    {
        assert(digit_run(s@, k as int) == 1 + digit_run(s@, k + 1));
        k = k + 1;
    }
    assert(digit_run(s@, k as int) == 0);
    k
}

/// Whether `s[start..]` spells the word `lower`/`upper` in any mix of cases.
fn word_matches_ignore_case(s: &Vec<char>, start: usize, lower: &Vec<char>, upper: &Vec<char>) -> (r: bool)
    requires
        start <= s@.len(),
        lower@.len() == upper@.len(),
    ensures
        r == word_at_ignore_case(s@, start as int, lower@, upper@),
{
    if s.len() - start != lower.len() {
        return false;
    }
    let mut i: usize = 0;
    while i < lower.len()
        invariant
            start <= s@.len(),
            s@.len() - start == lower@.len(),
            lower@.len() == upper@.len(),
            i <= lower@.len(),
            forall|j: int|
                0 <= j < i ==> (#[trigger] s@[start + j] == lower@[j] || s@[start + j] == upper@[j]),
        decreases lower@.len() - i,
    {
        assert(start + i < s.len());
        let a = s[start + i];
        if !(a == lower[i] || a == upper[i]) {
            return false;
        }
        i = i + 1;
    }
    true
}

/// Whether `s[p..]` is an exponent part.
fn exponent_matches(s: &Vec<char>, p: usize) -> (r: bool)
    requires
        p <= s@.len(),
    ensures
        r == (p < s@.len() && is_exponent_at(s@, p as int)),
{
    if p >= s.len() {
        return false;
    }
    if !(s[p] == 'e' || s[p] == 'E') {
        return false;
    }
    let mut q = p + 1;
    if q < s.len() && (s[q] == '+' || s[q] == '-') {
        q = q + 1;
    }
    assert(q == p + 1 + sign_len(s@, p + 1));
    let end = scan_digits(s, q);
    end > q && end == s.len()
}

/// Whether `s[start..]` is a decimal number with an optional exponent.
fn number_matches(s: &Vec<char>, start: usize) -> (r: bool)
    requires
        start <= s@.len(),
    ensures
        r == is_number_at(s@, start as int),
{
    let a_end = scan_digits(s, start);
    let has_dot = a_end < s.len() && s[a_end] == '.';
    let mut mant_end = a_end;
    let mut b: usize = 0;
    if has_dot {
        mant_end = scan_digits(s, a_end + 1);
        b = mant_end - (a_end + 1);
    }
    if !(a_end > start || b > 0) {
        return false;
    }
    mant_end == s.len() || exponent_matches(s, mant_end)
}

/// Whether `text` is text that a 64-bit floating-point number parses from.
pub fn float_text_matches(text: &str) -> (r: bool)
    ensures
        r == is_float_text(text@),
{
    let s = chars_of(text);
    let start: usize = if s.len() > 0 && (s[0] == '+' || s[0] == '-') { 1 } else { 0 };
    assert(start == sign_len(s@, 0));
    let inf: Vec<char> = vec!['i', 'n', 'f'];
    let inf_u: Vec<char> = vec!['I', 'N', 'F'];
    let infinity: Vec<char> = vec!['i', 'n', 'f', 'i', 'n', 'i', 't', 'y'];
    let infinity_u: Vec<char> = vec!['I', 'N', 'F', 'I', 'N', 'I', 'T', 'Y'];
    let nan: Vec<char> = vec!['n', 'a', 'n'];
    let nan_u: Vec<char> = vec!['N', 'A', 'N'];
    assert(inf@ == seq!['i', 'n', 'f'] && inf_u@ == seq!['I', 'N', 'F']);
    assert(infinity@ == seq!['i', 'n', 'f', 'i', 'n', 'i', 't', 'y']);
    assert(infinity_u@ == seq!['I', 'N', 'F', 'I', 'N', 'I', 'T', 'Y']);
    assert(nan@ == seq!['n', 'a', 'n'] && nan_u@ == seq!['N', 'A', 'N']);
    word_matches_ignore_case(&s, start, &inf, &inf_u)
        || word_matches_ignore_case(&s, start, &infinity, &infinity_u)
        || word_matches_ignore_case(&s, start, &nan, &nan_u) || number_matches(&s, start)
}

/// A longer run of digits never has a smaller value.
proof fn lemma_decimal_value_monotone(s: Seq<char>, lo: int, k: int, hi: int)
    requires
        lo <= k <= hi <= s.len(),
        0 <= lo,
        forall|i: int| lo <= i < hi ==> is_digit(#[trigger] s[i]),
    ensures
        0 <= decimal_value(s, lo, k) <= decimal_value(s, lo, hi),
    decreases hi - k,
{
    if k < hi {
        lemma_decimal_value_monotone(s, lo, k, hi - 1);
        lemma_decimal_value_nonneg(s, lo, hi - 1);
        assert(is_digit(s[hi - 1]));
    } else {
        lemma_decimal_value_nonneg(s, lo, hi);
    }
}

proof fn lemma_decimal_value_nonneg(s: Seq<char>, lo: int, hi: int)
    requires
        0 <= lo,
        hi <= s.len(),
        forall|i: int| lo <= i < hi ==> is_digit(#[trigger] s[i]),
    ensures
        decimal_value(s, lo, hi) >= 0,
    decreases hi - lo,
{
    if hi > lo {
        lemma_decimal_value_nonneg(s, lo, hi - 1);
        assert(is_digit(s[hi - 1]));
    }
}

/// The value of the digits `s[start..]`, when they are one or more digits
/// and their value is at most `limit`.
fn decimal_up_to(s: &Vec<char>, start: usize, limit: u64) -> (r: Option<u64>)
    requires
        start <= s@.len(),
        limit < 0x1_0000_0000_0000,
    ensures
        r == (if all_digits_from(s@, start as int) && decimal_value(s@, start as int, s@.len() as int)
            <= limit {
            Some(decimal_value(s@, start as int, s@.len() as int) as u64)
        } else {
            None
        }),
        r matches Some(v) ==> v <= limit,
{
    if start >= s.len() {
        return None;
    }
    let mut acc: u64 = 0;
    let mut k = start;
    while k < s.len()
        invariant
            start <= k <= s@.len(),
            start < s@.len(),
            limit < 0x1_0000_0000_0000,
            forall|i: int| start <= i < k ==> is_digit(#[trigger] s@[i]),
            acc == decimal_value(s@, start as int, k as int),
            acc <= limit,
        decreases s@.len() - k,
    {
        let c = s[k];
        if !char_is_digit(c) {
            assert(!all_digits_from(s@, start as int)) by {
                assert(!is_digit(s@[k as int]));
            }
            return None;
        }
        let d = (c as u32 - '0' as u32) as u64;
        let next = acc * 10 + d;
        assert(next == decimal_value(s@, start as int, k + 1));
        if next > limit {
            proof {
                if all_digits_from(s@, start as int) {
                    lemma_decimal_value_monotone(s@, start as int, k + 1, s@.len() as int);
                }
            }
            return None;
        }
        acc = next;
        k = k + 1;
    }
    proof {
        lemma_decimal_value_nonneg(s@, start as int, s@.len() as int);
    }
    Some(acc)
}

/// The value of an all-digit piece is never negative.
proof fn lemma_decimal_texts_nonneg(s: Seq<char>)
    ensures
        all_digits_from(s, sign_len(s, 0)) ==> decimal_value(s, sign_len(s, 0), s.len() as int) >= 0,
        all_digits_from(s, 0) ==> decimal_value(s, 0, s.len() as int) >= 0,
        all_digits_from(s, 1) ==> decimal_value(s, 1, s.len() as int) >= 0,
{
    if all_digits_from(s, sign_len(s, 0)) {
        lemma_decimal_value_nonneg(s, sign_len(s, 0), s.len() as int);
    }
    if all_digits_from(s, 0) {
        lemma_decimal_value_nonneg(s, 0, s.len() as int);
    }
    if all_digits_from(s, 1) {
        lemma_decimal_value_nonneg(s, 1, s.len() as int);
    }
}

/// The 32-bit signed integer that `text` denotes, if it denotes one.
pub fn parse_i32_text(text: &str) -> (r: Option<i32>)
    ensures
        r == i32_of_text(text@),
{
    let s = chars_of(text);
    let negative = s.len() > 0 && s[0] == '-';
    let start: usize = if s.len() > 0 && (s[0] == '+' || s[0] == '-') { 1 } else { 0 };
    assert(start == sign_len(s@, 0));
    let limit: u64 = if negative { 0x8000_0000 } else { 0x7fff_ffff };
    proof {
        lemma_decimal_texts_nonneg(s@);
    }
    match decimal_up_to(&s, start, limit) {
        Some(m) => {
            if negative {
                Some((0i64 - (m as i64)) as i32)
            } else {
                Some(m as i32)
            }
        },
        None => {
            proof {
                if all_digits_from(s@, start as int) {
                    lemma_decimal_value_nonneg(s@, start as int, s@.len() as int);
                }
            }
            None
        },
    }
}

/// The unsigned integer, at most `limit`, that `text` denotes, if it denotes one.
fn parse_unsigned_text(text: &str, limit: u64) -> (r: Option<u64>)
    requires
        limit < 0x1_0000_0000_0000,
    ensures
        r == (match unsigned_decimal(text@) {
            Some(v) => if v <= limit { Some(v as u64) } else { None },
            None => None,
        }),
{
    let s = chars_of(text);
    let start: usize = if s.len() > 0 && s[0] == '+' { 1 } else { 0 };
    let r = decimal_up_to(&s, start, limit);
    proof {
        if all_digits_from(s@, start as int) {
            lemma_decimal_value_nonneg(s@, start as int, s@.len() as int);
        }
    }
    r
}

/// The 32-bit unsigned integer that `text` denotes, if it denotes one.
pub fn parse_u32_text(text: &str) -> (r: Option<u32>)
    ensures
        r == u32_of_text(text@),
{
    proof {
        lemma_decimal_texts_nonneg(text@);
    }
    match parse_unsigned_text(text, 0xffff_ffff) {
        Some(v) => Some(v as u32),
        None => None,
    }
}

/// The 16-bit unsigned integer that `text` denotes, if it denotes one.
pub fn parse_u16_text(text: &str) -> (r: Option<u16>)
    ensures
        r == u16_of_text(text@),
{
    proof {
        lemma_decimal_texts_nonneg(text@);
    }
    match parse_unsigned_text(text, 0xffff) {
        Some(v) => Some(v as u16),
        None => None,
    }
}

/// The boolean that `text` denotes, if it is exactly `true` or `false`.
pub fn parse_bool_text(text: &str) -> (r: Option<bool>)
    ensures
        r == bool_of_text(text@),
{
    let s = chars_of(text);
    let t: Vec<char> = vec!['t', 'r', 'u', 'e'];
    let f: Vec<char> = vec!['f', 'a', 'l', 's', 'e'];
    if chars_eq(&s, &t) {
        Some(true)
    } else if chars_eq(&s, &f) {
        Some(false)
    } else {
        None
    }
}

/// Whether two character sequences are equal.
pub fn chars_eq(a: &Vec<char>, b: &Vec<char>) -> (r: bool)
    ensures
        r == (a@ == b@),
{
    if a.len() != b.len() {
        return false;
    }
    let mut i: usize = 0;
    while i < a.len()
        invariant
            a@.len() == b@.len(),
            i <= a@.len(),
            forall|j: int| 0 <= j < i ==> a@[j] == b@[j],
        decreases a@.len() - i,
    {
        if a[i] != b[i] {
            return false;
        }
        i = i + 1;
    }
    assert(a@ =~= b@);
    true
}

/// Whether the piece `p` occurs in `s` at index `i`.
fn occurs_at(s: &Vec<char>, p: &Vec<char>, i: usize) -> (r: bool)
    requires
        i + p@.len() <= s@.len(),
    ensures
        r == (s@.subrange(i as int, i + p@.len()) == p@),
{
    let mut j: usize = 0;
    while j < p.len()
        invariant
            i + p@.len() <= s@.len(),
            j <= p@.len(),
            forall|k: int| 0 <= k < j ==> s@[i + k] == p@[k],
        decreases p@.len() - j,
    {
        assert(i + j < s.len());
        if s[i + j] != p[j] {
            assert(s@.subrange(i as int, i + p@.len())[j as int] != p@[j as int]);
            return false;
        }
        j = j + 1;
    }
    assert(s@.subrange(i as int, i + p@.len()) =~= p@);
    true
}

/// Whether `pattern` occurs in `text` as a contiguous piece.
pub fn str_contains(text: &str, pattern: &str) -> (r: bool)
    ensures
        r == contains_seq(text@, pattern@),
{
    let s = chars_of(text);
    let p = chars_of(pattern);
    if p.len() == 0 {
        assert(text@.subrange(0, 0 + pattern@.len() as int) =~= pattern@);
        return true;
    }
    if p.len() > s.len() {
        return false;
    }
    let mut i: usize = 0;
    while i <= s.len() - p.len()
        invariant
            s@ == text@,
            p@ == pattern@,
            0 < p@.len() <= s@.len(),
            i <= s@.len() - p@.len() + 1,
            forall|k: int| 0 <= k < i ==> #[trigger] s@.subrange(k, k + p@.len()) != p@,
        decreases s@.len() - i,
    {
        if occurs_at(&s, &p, i) {
            return true;
        }
        i = i + 1;
    }
    assert forall|k: int| 0 <= k && k + p@.len() <= s@.len() implies #[trigger] s@.subrange(
        k,
        k + p@.len(),
    ) != p@ by {
        assert(k < i);
    }
    false
}

/// Whether `text` begins with `prefix`.
pub fn str_starts_with(text: &str, prefix: &str) -> (r: bool)
    ensures
        r == starts_with_seq(text@, prefix@),
{
    let s = chars_of(text);
    let p = chars_of(prefix);
    if p.len() > s.len() {
        return false;
    }
    occurs_at(&s, &p, 0)
}

/// The characters of `text` after the first `n`.
pub fn str_skip(text: &str, n: usize) -> (r: String)
    requires
        n <= text@.len(),
    ensures
        r@ == text@.subrange(n as int, text@.len() as int),
{
    let len = text.unicode_len();
    let piece = text.substring_char(n, len);
    piece.to_owned()
}


/// The character of the decimal digit `d`.
pub open spec fn digit_char(d: int) -> char {
    if d == 0 { '0' } else if d == 1 { '1' } else if d == 2 { '2' } else if d == 3 { '3' }
    else if d == 4 { '4' } else if d == 5 { '5' } else if d == 6 { '6' } else if d == 7 { '7' }
    else if d == 8 { '8' } else { '9' }
}

/// The decimal numeral of `n`, without leading zeros.
pub open spec fn nat_decimal_text(n: nat) -> Seq<char>
    decreases n,
{
    if n < 10 {
        seq![digit_char(n as int)]
    } else {
        nat_decimal_text(n / 10).push(digit_char((n % 10) as int))
    }
}

/// The decimal numeral of `n`, with a leading `-` when `n` is negative.
pub open spec fn i32_decimal_text(n: int) -> Seq<char> {
    if n < 0 {
        seq!['-'] + nat_decimal_text((-n) as nat)
    } else {
        nat_decimal_text(n as nat)
    }
}

/// The one-character text of the decimal digit `d`.
fn digit_str(d: u64) -> (r: &'static str)
    requires
        d < 10,
    ensures
        r@ == seq![digit_char(d as int)],
{
    if d == 0 {
        proof { reveal_strlit("0"); }
        "0"
    } else if d == 1 {
        proof { reveal_strlit("1"); }
        "1"
    } else if d == 2 {
        proof { reveal_strlit("2"); }
        "2"
    } else if d == 3 {
        proof { reveal_strlit("3"); }
        "3"
    } else if d == 4 {
        proof { reveal_strlit("4"); }
        "4"
    } else if d == 5 {
        proof { reveal_strlit("5"); }
        "5"
    } else if d == 6 {
        proof { reveal_strlit("6"); }
        "6"
    } else if d == 7 {
        proof { reveal_strlit("7"); }
        "7"
    } else if d == 8 {
        proof { reveal_strlit("8"); }
        "8"
    } else {
        proof { reveal_strlit("9"); }
        "9"
    }
}

/// The decimal numeral of `n`.
pub fn nat_text(n: u64) -> (r: String)
    ensures
        r@ == nat_decimal_text(n as nat),
    decreases n,
{
    if n < 10 {
        digit_str(n).to_owned()
    } else {
        let mut s = nat_text(n / 10);
        s.append(digit_str(n % 10));
        s
    }
}

/// The decimal numeral of `n`, with a leading `-` when `n` is negative.
pub fn decimal_text(n: i32) -> (r: String)
    ensures
        r@ == i32_decimal_text(n as int),
{
    if n < 0 {
        let m: i64 = n as i64;
        let magnitude: u64 = (-m) as u64;
        let mut s: String = String::new();
        proof { reveal_strlit("-"); }
        s.append("-");
        let digits = nat_text(magnitude);
        s.append(digits.as_str());
        s
    } else {
        nat_text(n as u64)
    }
}

} // verus!
