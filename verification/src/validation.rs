//! The diagnostics of schema validation: converting what the validator reports into
//! validation errors and classifying them by their message.
use vstd::prelude::*;
use crate::text::{contains_seq, nat_decimal_text, nat_text, str_contains};

verus! {

/// A diagnostic as the schema validator reports it: a message, a line and a column,
/// each of which may be missing.
#[derive(Debug, Clone, PartialEq)]
pub struct Diagnostic {
    pub message: Option<String>,
    pub line: Option<i32>,
    pub col: Option<i32>,
}

/// A schema violation found in a document.
#[derive(Debug, Clone, PartialEq, Eq)]
pub struct ValidationError {
    pub line: Option<u32>,
    pub column: Option<u32>,
    pub message: String,
    pub error_type: String,
}

/// Whether `c` is white space, as Unicode's `White_Space` property says.
pub open spec fn is_white_space(c: char) -> bool {
    ||| '\u{9}' <= c <= '\u{d}'
    ||| c == ' '
    ||| c == '\u{85}'
    ||| c == '\u{a0}'
    ||| c == '\u{1680}'
    ||| '\u{2000}' <= c <= '\u{200a}'
    ||| c == '\u{2028}'
    ||| c == '\u{2029}'
    ||| c == '\u{202f}'
    ||| c == '\u{205f}'
    ||| c == '\u{3000}'
}

/// `s` without its leading white space.
pub open spec fn trim_start(s: Seq<char>) -> Seq<char>
    decreases s.len(),
{
    if s.len() > 0 && is_white_space(s[0]) {
        trim_start(s.drop_first())
    } else {
        s
    }
}

/// `s` without its trailing white space.
pub open spec fn trim_end(s: Seq<char>) -> Seq<char>
    decreases s.len(),
{
    if s.len() > 0 && is_white_space(s.last()) {
        trim_end(s.drop_last())
    } else {
        s
    }
}

/// `s` without its leading and trailing white space.
pub open spec fn trimmed(s: Seq<char>) -> Seq<char> {
    trim_end(trim_start(s))
}

/// The class of a validation message: the first of the five classes whose words the
/// message holds.
pub open spec fn classification(m: Seq<char>) -> Seq<char> {
    if contains_seq(m, "not expected"@) || contains_seq(m, "not allowed"@) {
        "ElementNotAllowed"@
    } else if contains_seq(m, "missing"@) || contains_seq(m, "required"@) {
        "MissingRequired"@
    } else if contains_seq(m, "invalid value"@) || contains_seq(m, "not valid"@) {
        "InvalidValue"@
    } else if contains_seq(m, "type"@) {
        "TypeMismatch"@
    } else {
        "ValidationError"@
    }
}

/// The line or column `n` that the validator reports, as a validation error holds it.
pub open spec fn position_of(n: Option<i32>) -> Option<u32> {
    match n {
        Some(l) => Some(l as u32),
        None => None,
    }
}

/// Whether `e` is the validation error for the diagnostic `d`.
pub open spec fn converts_to(d: Diagnostic, e: ValidationError) -> bool {
    &&& e.line == position_of(d.line)
    &&& e.column == position_of(d.col)
    &&& e.message@ == match d.message {
        Some(m) => trimmed(m@),
        None => "Unknown error"@,
    }
    &&& e.error_type@ == classification(e.message@)
}

/// The text that a validation error's line and column give: `line:column`, `line`, or
/// `?` without a line.
pub open spec fn location_text(line: Option<u32>, column: Option<u32>) -> Seq<char> {
    match (line, column) {
        (Some(l), Some(c)) => nat_decimal_text(l as nat) + ":"@ + nat_decimal_text(c as nat),
        (Some(l), None) => nat_decimal_text(l as nat),
        _ => "?"@,
    }
}

/// Whether `c` is white space, as Unicode's `White_Space` property says.
pub fn char_is_white_space(c: char) -> (r: bool)
    ensures
        r == is_white_space(c),
{
    ('\u{9}' <= c && c <= '\u{d}') || c == ' ' || c == '\u{85}' || c == '\u{a0}' || c == '\u{1680}'
        || ('\u{2000}' <= c && c <= '\u{200a}') || c == '\u{2028}' || c == '\u{2029}' || c == '\u{202f}'
        || c == '\u{205f}' || c == '\u{3000}'
}

/// `s` without its leading and trailing white space.
pub fn trim(s: &str) -> (r: String)
    ensures
        r@ == trimmed(s@),
{
    let chars = crate::text::chars_of(s);
    let n = chars.len();
    let mut a: usize = 0;
    assert(s@.subrange(0, n as int) =~= s@);
    while a < n && char_is_white_space(chars[a])
        invariant
            a <= n,
            n == s@.len(),
            chars@ == s@,
            trim_start(s@) == trim_start(s@.subrange(a as int, n as int)),
        decreases n - a,
    {
        assert(s@.subrange(a as int, n as int).drop_first() =~= s@.subrange(a + 1, n as int));
        a = a + 1;
    }
    let ghost start = s@.subrange(a as int, n as int);
    assert(trim_start(s@) == start);
    let mut b: usize = n;
    assert(start.subrange(0, (b - a) as int) =~= start);
    while b > a && char_is_white_space(chars[b - 1])
        invariant
            a <= b <= n,
            n == s@.len(),
            chars@ == s@,
            start == s@.subrange(a as int, n as int),
            trim_end(start) == trim_end(s@.subrange(a as int, b as int)),
        decreases b - a,
    {
        assert(s@.subrange(a as int, b as int).drop_last() =~= s@.subrange(a as int, b - 1));
        b = b - 1;
    }
    let piece = s.substring_char(a, b);
    piece.to_owned()
}

/// The class of the validation message `message`: `ElementNotAllowed`,
/// `MissingRequired`, `InvalidValue`, `TypeMismatch` or `ValidationError`.
pub fn classify_error_type(message: &str) -> (r: String)
    ensures
        r@ == classification(message@),
{
    if str_contains(message, "not expected") || str_contains(message, "not allowed") {
        "ElementNotAllowed".to_owned()
    } else if str_contains(message, "missing") || str_contains(message, "required") {
        "MissingRequired".to_owned()
    } else if str_contains(message, "invalid value") || str_contains(message, "not valid") {
        "InvalidValue".to_owned()
    } else if str_contains(message, "type") {
        "TypeMismatch".to_owned()
    } else {
        "ValidationError".to_owned()
    }
}

/// The line or column `n` that the validator reports, as a validation error holds it.
fn position(n: Option<i32>) -> (r: Option<u32>)
    ensures
        r == position_of(n),
{
    match n {
        Some(l) => Some(l as u32),
        None => None,
    }
}

/// The validation error for each diagnostic, in order: its message trimmed (or
/// `Unknown error` when it has none), its line and column, and its class.
pub fn convert_errors(errors: Vec<Diagnostic>) -> (r: Vec<ValidationError>)
    ensures
        r@.len() == errors@.len(),
        forall|i: int| 0 <= i < errors@.len() ==> converts_to(errors@[i], #[trigger] r@[i]),
{
    let mut r: Vec<ValidationError> = Vec::new();
    let mut i: usize = 0;
    while i < errors.len()
        invariant
            i <= errors@.len(),
            r@.len() == i,
            forall|j: int| 0 <= j < i ==> converts_to(errors@[j], #[trigger] r@[j]),
        decreases errors@.len() - i,
    {
        let d = &errors[i];
        let message = match &d.message {
            Some(m) => trim(m.as_str()),
            None => "Unknown error".to_owned(),
        };
        let error_type = classify_error_type(message.as_str());
        r.push(ValidationError { line: position(d.line), column: position(d.col), message, error_type });
        i = i + 1;
    }
    r
}

impl ValidationError {
    /// The error as a line of text: `Line `, its location, `: `, its message, and its
    /// class in parentheses.
    pub fn to_string(&self) -> (r: String)
        ensures
            r@ == "Line "@ + location_text(self.line, self.column) + ": "@ + self.message@ + " ("@
                + self.error_type@ + ")"@,
    {
        let mut s: String = "Line ".to_owned();
        match (self.line, self.column) {
            (Some(line), Some(col)) => {
                let l = nat_text(line as u64);
                s.append(l.as_str());
                s.append(":");
                let c = nat_text(col as u64);
                s.append(c.as_str());
            },
            (Some(line), None) => {
                let l = nat_text(line as u64);
                s.append(l.as_str());
            },
            _ => {
                s.append("?");
            },
        }
        s.append(": ");
        s.append(self.message.as_str());
        s.append(" (");
        s.append(self.error_type.as_str());
        s.append(")");
        proof {
            reveal_strlit("Line ");
            reveal_strlit(":");
            reveal_strlit("?");
            reveal_strlit(": ");
            reveal_strlit(" (");
            reveal_strlit(")");
        }
        s
    }
}

/// Removing trailing white space twice removes no more than once.
proof fn lemma_trim_end_idempotent(s: Seq<char>)
    ensures
        trim_end(trim_end(s)) == trim_end(s),
    decreases s.len(),
{
    if s.len() > 0 && is_white_space(s.last()) {
        lemma_trim_end_idempotent(s.drop_last());
    }
}

/// Removing trailing white space keeps a prefix of the text.
proof fn lemma_trim_end_is_prefix(s: Seq<char>)
    ensures
        trim_end(s).len() <= s.len(),
        forall|i: int| 0 <= i < trim_end(s).len() ==> #[trigger] trim_end(s)[i] == s[i],
    decreases s.len(),
{
    if s.len() > 0 && is_white_space(s.last()) {
        lemma_trim_end_is_prefix(s.drop_last());
    }
}

/// Text without its leading white space is empty or begins with other text.
proof fn lemma_trim_start_shape(s: Seq<char>)
    ensures
        trim_start(s).len() == 0 || !is_white_space(trim_start(s)[0]),
    decreases s.len(),
{
    if s.len() > 0 && is_white_space(s[0]) {
        lemma_trim_start_shape(s.drop_first());
    }
}

/// Text without its trailing white space is empty or ends with other text.
proof fn lemma_trim_end_shape(s: Seq<char>)
    ensures
        trim_end(s).len() == 0 || !is_white_space(trim_end(s).last()),
    decreases s.len(),
{
    if s.len() > 0 && is_white_space(s.last()) {
        lemma_trim_end_shape(s.drop_last());
    }
}

/// Trimmed text neither begins nor ends with white space, and trimming it again
/// changes nothing.
pub proof fn lemma_trim_idempotent(s: Seq<char>)
    ensures
        trimmed(trimmed(s)) == trimmed(s),
        trimmed(s).len() == 0 || (!is_white_space(trimmed(s)[0]) && !is_white_space(trimmed(s).last())),
{
    let x = trim_start(s);
    let y = trim_end(x);
    lemma_trim_start_shape(s);
    lemma_trim_end_is_prefix(x);
    lemma_trim_end_shape(x);
    lemma_trim_end_idempotent(x);
    if y.len() > 0 {
        assert(y[0] == x[0]);
    }
    assert(trim_start(y) == y);
}

/// Every validation message falls into one of the five classes.
pub proof fn lemma_classification_is_a_class(m: Seq<char>)
    ensures
        classification(m) == "ElementNotAllowed"@ || classification(m) == "MissingRequired"@
            || classification(m) == "InvalidValue"@ || classification(m) == "TypeMismatch"@
            || classification(m) == "ValidationError"@,
        (contains_seq(m, "not expected"@) || contains_seq(m, "not allowed"@)) ==> classification(m) == "ElementNotAllowed"@,
{
}

/// Whether the message `m` holds one of the words of the element class.
pub open spec fn names_unexpected_element(m: Seq<char>) -> bool {
    contains_seq(m, "not expected"@) || contains_seq(m, "not allowed"@)
}

/// Whether the message `m` holds one of the words of the missing-value class.
pub open spec fn names_missing_value(m: Seq<char>) -> bool {
    contains_seq(m, "missing"@) || contains_seq(m, "required"@)
}

/// Whether the message `m` holds one of the words of the invalid-value class.
pub open spec fn names_invalid_value(m: Seq<char>) -> bool {
    contains_seq(m, "invalid value"@) || contains_seq(m, "not valid"@)
}

/// Each class of validation message, in turn: a message is of the first class whose
/// words it holds: `not expected` or `not allowed` for `ElementNotAllowed`, `missing`
/// or `required` for `MissingRequired`, `invalid value` or `not valid` for
/// `InvalidValue`, `type` for `TypeMismatch`; a message that holds none of them is a
/// `ValidationError`.
pub proof fn lemma_classification_branches(m: Seq<char>)
    ensures
        names_unexpected_element(m) ==> classification(m) == "ElementNotAllowed"@,
        !names_unexpected_element(m) && names_missing_value(m) ==> classification(m) == "MissingRequired"@,
        !names_unexpected_element(m) && !names_missing_value(m) && names_invalid_value(m)
            ==> classification(m) == "InvalidValue"@,
        !names_unexpected_element(m) && !names_missing_value(m) && !names_invalid_value(m)
            && contains_seq(m, "type"@) ==> classification(m) == "TypeMismatch"@,
        !names_unexpected_element(m) && !names_missing_value(m) && !names_invalid_value(m)
            && !contains_seq(m, "type"@) ==> classification(m) == "ValidationError"@,
{
}

/// A piece written between two texts occurs in what they make together.
pub proof fn lemma_piece_occurs(a: Seq<char>, p: Seq<char>, b: Seq<char>)
    ensures
        contains_seq(a + p + b, p),
{
    assert((a + p + b).subrange(a.len() as int, (a.len() + p.len()) as int) =~= p);
}

/// A message that writes `invalid value` (or `not valid`), and none of the words of the
/// element and missing-value classes, is classified `InvalidValue`, whatever surrounds
/// those words.
pub proof fn lemma_invalid_value_message(before: Seq<char>, after: Seq<char>, word: Seq<char>)
    requires
        word == "invalid value"@ || word == "not valid"@,
        !names_unexpected_element(before + word + after),
        !names_missing_value(before + word + after),
    ensures
        classification(before + word + after) == "InvalidValue"@,
{
    lemma_piece_occurs(before, word, after);
    lemma_classification_branches(before + word + after);
}

} // verus!
