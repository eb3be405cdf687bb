//! Attribute values that may be written literally, as a reference to a parameter,
//! or as an expression; and the parameter declarations that elements carry.
use vstd::prelude::*;
use crate::enums::{ParameterType, Rule};
use crate::error::{Error, ErrorView, strings_view};
use crate::params::ParameterMap;
use crate::duplicate::Duplicate;
use crate::text::{
    bool_of_text, float_text_matches, i32_of_text, is_float_text, parse_bool_text, parse_i32_text,
    parse_u16_text, parse_u32_text, str_skip, str_starts_with, u16_of_text, u32_of_text,
};

verus! {

/// A real number as written in a document: the decimal (or `inf`/`nan`) text of a
/// 64-bit floating-point value.
///
/// Two reals are equal (`==`) when their texts are: `0.60` and `0.6` differ, though they
/// write the same number, and `nan` equals itself. Nothing here computes with the
/// number a text writes.
#[derive(Debug, Clone, PartialEq)]
pub struct Real {
    pub text: String,
}

impl Real {
    /// The real number written as `text`.
    pub fn new(text: &str) -> (r: Real)
        ensures
            r.text@ == text@,
    {
        Real { text: text.to_owned() }
    }

    /// The text of this number.
    pub fn as_str(&self) -> (r: &str)
        ensures
            r@ == self.text@,
    {
        self.text.as_str()
    }

}

impl Duplicate for Real {
    open spec fn same(&self, other: &Self) -> bool {
        *self == *other
    }

    fn copied(&self) -> (r: Real) {
        Real { text: self.text.clone() }
    }
}

/// An attribute value: a literal of type `T`, a reference to a parameter by name, or
/// an expression over parameters.
#[derive(Debug, Clone, PartialEq)]
pub enum Value<T> {
    Literal(T),
    Parameter(String),
    Expression(String),
}

/// A string attribute.
pub type OSString = Value<String>;

/// A real-number attribute.
pub type Double = Value<Real>;

/// A boolean attribute.
pub type Boolean = Value<bool>;

/// A signed 32-bit integer attribute.
pub type Int = Value<i32>;

/// An unsigned 32-bit integer attribute.
pub type UnsignedInt = Value<u32>;

/// An unsigned 16-bit integer attribute.
pub type UnsignedShort = Value<u16>;

/// A date-time attribute, held as its ISO 8601 text.
pub type DateTime = Value<String>;

/// A type whose values can be read from the text of a parameter.
pub trait ParamValue: Duplicate {
    /// Whether `s` is the text of some value.
    spec fn accepts(s: Seq<char>) -> bool;

    /// Whether `s` is the text of `v`.
    spec fn denotes(s: Seq<char>, v: Self) -> bool;

    /// The name of the type, as errors report it.
    spec fn type_label() -> Seq<char>;

    /// The value whose text `s` is, if any.
    fn parse_text(s: &str) -> (r: Option<Self>)
        ensures
            r is Some <==> Self::accepts(s@),
            r matches Some(v) ==> Self::denotes(s@, v);

    /// The name of the type, as errors report it.
    fn kind_name() -> (r: String)
        ensures
            r@ == Self::type_label();

    /// A copy of a value of this type is equal to the value copied.
    proof fn lemma_same_is_equal(a: &Self, b: &Self)
        ensures
            a.same(b) <==> *a == *b;
}

impl ParamValue for String {
    open spec fn accepts(s: Seq<char>) -> bool {
        true
    }

    open spec fn denotes(s: Seq<char>, v: String) -> bool {
        v@ == s
    }

    open spec fn type_label() -> Seq<char> {
        "string"@
    }

    fn parse_text(s: &str) -> (r: Option<String>) {
        Some(s.to_owned())
    }

    fn kind_name() -> (r: String) {
        "string".to_owned()
    }

    proof fn lemma_same_is_equal(a: &Self, b: &Self) {
    }
}

impl ParamValue for Real {
    open spec fn accepts(s: Seq<char>) -> bool {
        is_float_text(s)
    }

    open spec fn denotes(s: Seq<char>, v: Real) -> bool {
        v.text@ == s
    }

    open spec fn type_label() -> Seq<char> {
        "double"@
    }

    fn parse_text(s: &str) -> (r: Option<Real>) {
        if float_text_matches(s) {
            Some(Real::new(s))
        } else {
            None
        }
    }

    fn kind_name() -> (r: String) {
        "double".to_owned()
    }

    proof fn lemma_same_is_equal(a: &Self, b: &Self) {
    }
}

impl ParamValue for bool {
    open spec fn accepts(s: Seq<char>) -> bool {
        bool_of_text(s) is Some
    }

    open spec fn denotes(s: Seq<char>, v: bool) -> bool {
        bool_of_text(s) == Some(v)
    }

    open spec fn type_label() -> Seq<char> {
        "boolean"@
    }

    fn parse_text(s: &str) -> (r: Option<bool>) {
        parse_bool_text(s)
    }

    fn kind_name() -> (r: String) {
        "boolean".to_owned()
    }

    proof fn lemma_same_is_equal(a: &Self, b: &Self) {
    }
}

impl ParamValue for i32 {
    open spec fn accepts(s: Seq<char>) -> bool {
        i32_of_text(s) is Some
    }

    open spec fn denotes(s: Seq<char>, v: i32) -> bool {
        i32_of_text(s) == Some(v)
    }

    open spec fn type_label() -> Seq<char> {
        "int"@
    }

    fn parse_text(s: &str) -> (r: Option<i32>) {
        parse_i32_text(s)
    }

    fn kind_name() -> (r: String) {
        "int".to_owned()
    }

    proof fn lemma_same_is_equal(a: &Self, b: &Self) {
    }
}

impl ParamValue for u32 {
    open spec fn accepts(s: Seq<char>) -> bool {
        u32_of_text(s) is Some
    }

    open spec fn denotes(s: Seq<char>, v: u32) -> bool {
        u32_of_text(s) == Some(v)
    }

    open spec fn type_label() -> Seq<char> {
        "unsignedInt"@
    }

    fn parse_text(s: &str) -> (r: Option<u32>) {
        parse_u32_text(s)
    }

    fn kind_name() -> (r: String) {
        "unsignedInt".to_owned()
    }

    proof fn lemma_same_is_equal(a: &Self, b: &Self) {
    }
}

impl ParamValue for u16 {
    open spec fn accepts(s: Seq<char>) -> bool {
        u16_of_text(s) is Some
    }

    open spec fn denotes(s: Seq<char>, v: u16) -> bool {
        u16_of_text(s) == Some(v)
    }

    open spec fn type_label() -> Seq<char> {
        "unsignedShort"@
    }

    fn parse_text(s: &str) -> (r: Option<u16>) {
        parse_u16_text(s)
    }

    fn kind_name() -> (r: String) {
        "unsignedShort".to_owned()
    }

    proof fn lemma_same_is_equal(a: &Self, b: &Self) {
    }
}

/// The names that `params` assigns, in order.
pub open spec fn param_names(params: ParameterMap) -> Seq<Seq<char>> {
    params@.map_values(|e: (Seq<char>, Seq<char>)| e.0)
}

impl<T: ParamValue> Value<T> {
    /// Whether `r` is what resolving this value against `params` gives: a literal
    /// resolves to itself; a parameter to the value its assigned text denotes, failing
    /// when the parameter is not assigned or its text denotes no value of the type;
    /// an expression is not resolved.
    pub open spec fn resolves_to(self, params: ParameterMap, r: Result<T, Error>) -> bool {
        match self {
            Value::Literal(v) => r == Ok::<T, Error>(v),
            Value::Parameter(name) => match params.lookup(name@) {
                None => r matches Err(e) && e@ == (ErrorView::ParameterNotFound {
                    name: name@,
                    available: param_names(params),
                }),
                Some(text) => if T::accepts(text) {
                    r matches Ok(v) && T::denotes(text, v)
                } else {
                    r matches Err(e) && e@ == (ErrorView::ParseError {
                        value: text,
                        target: T::type_label(),
                    })
                },
            },
            Value::Expression(x) => r matches Err(e) && e@ == (ErrorView::UnresolvedExpression {
                expression: x@,
            }),
        }
    }

    /// Whether resolving this value against `params` succeeds.
    pub open spec fn resolvable(self, params: ParameterMap) -> bool {
        match self {
            Value::Literal(_) => true,
            Value::Parameter(name) => match params.lookup(name@) {
                None => false,
                Some(text) => T::accepts(text),
            },
            Value::Expression(_) => false,
        }
    }

    /// The value this attribute stands for under the parameter assignment `params`.
    pub fn resolve(&self, params: &ParameterMap) -> (r: Result<T, Error>)
        ensures
            self.resolves_to(*params, r),
            r is Ok <==> self.resolvable(*params),
    {
        match self {
            Value::Literal(v) => {
                let w = v.copied();
                proof {
                    T::lemma_same_is_equal(&w, v);
                }
                Ok(w)
            },
            Value::Parameter(name) => match params.get(name.as_str()) {
                None => {
                    let available = params.names();
                    Err(Error::parameter_not_found(name.as_str(), available))
                },
                Some(text) => match T::parse_text(text.as_str()) {
                    Some(v) => Ok(v),
                    None => Err(Error::ParseError { value: text, target: T::kind_name() }),
                },
            },
            Value::Expression(x) => Err(Error::UnresolvedExpression { expression: x.clone() }),
        }
    }

}

impl<T: ParamValue> Value<T> {
    /// The literal that this value resolves to under `params`, in place of the value.
    pub fn resolve_to_literal(&self, params: &ParameterMap) -> (r: Result<Value<T>, Error>)
        ensures
            match r {
                Ok(out) => self.resolvable(*params) && literal_of(out, *self, *params),
                Err(e) => !self.resolvable(*params) && self.resolves_to(*params, Err(e)),
            },
    {
        match self.resolve(params) {
            Ok(v) => Ok(Value::Literal(v)),
            Err(e) => Err(e),
        }
    }
}

/// Whether `out` is `v` settled under `params`: the literal that `v` resolves to where
/// it resolves, and `v` itself, unchanged, where it does not.
pub open spec fn settled_as<T: ParamValue>(out: Value<T>, v: Value<T>, params: ParameterMap) -> bool {
    if v.resolvable(params) {
        literal_of(out, v, params)
    } else {
        out.same(&v)
    }
}

/// Whether `out` is the optional value `v` settled under `params`.
pub open spec fn settled_opt_as<T: ParamValue>(
    out: Option<Value<T>>,
    v: Option<Value<T>>,
    params: ParameterMap,
) -> bool {
    match v {
        Some(x) => out matches Some(o) && settled_as(o, x, params),
        None => out is None,
    }
}

impl<T: ParamValue> Value<T> {
    /// This value settled under `params`: the literal it resolves to where it resolves,
    /// an unchanged copy of it where it does not.
    pub fn settle(&self, params: &ParameterMap) -> (r: Value<T>)
        ensures
            settled_as(r, *self, *params),
    {
        match self.resolve(params) {
            Ok(x) => Value::Literal(x),
            Err(_) => self.copied(),
        }
    }

    /// The optional value `v` settled under `params`.
    pub fn settle_opt(v: &Option<Value<T>>, params: &ParameterMap) -> (r: Option<Value<T>>)
        ensures
            settled_opt_as(r, *v, *params),
    {
        match v {
            Some(x) => Some(x.settle(params)),
            None => None,
        }
    }
}

/// Whether `out` is the literal that `v` resolves to under `params`.
pub open spec fn literal_of<T: ParamValue>(out: Value<T>, v: Value<T>, params: ParameterMap) -> bool {
    out matches Value::Literal(x) && v.resolves_to(params, Ok(x))
}

/// Whether every value of `vals` resolves under `params`.
pub open spec fn all_resolvable<T: ParamValue>(vals: Seq<Value<T>>, params: ParameterMap) -> bool {
    forall|i: int| 0 <= i < vals.len() ==> #[trigger] vals[i].resolvable(params)
}

/// Whether `vals[i]` is the first value of `vals` that does not resolve under
/// `params`, failing with `e`.
pub open spec fn fails_first_at<T: ParamValue>(
    vals: Seq<Value<T>>,
    params: ParameterMap,
    i: int,
    e: Error,
) -> bool {
    &&& 0 <= i < vals.len()
    &&& forall|j: int| 0 <= j < i ==> #[trigger] vals[j].resolvable(params)
    &&& !vals[i].resolvable(params)
    &&& vals[i].resolves_to(params, Err(e))
}

/// Whether resolving `vals` in order under `params` stops at a value that fails
/// with `e`.
pub open spec fn first_failure<T: ParamValue>(vals: Seq<Value<T>>, params: ParameterMap, e: Error) -> bool {
    exists|i: int| fails_first_at(vals, params, i, e)
}

impl<T: Duplicate> Duplicate for Value<T> {
    open spec fn same(&self, other: &Self) -> bool {
        match (self, other) {
            (Value::Literal(a), Value::Literal(b)) => a.same(b),
            (Value::Parameter(a), Value::Parameter(b)) => a == b,
            (Value::Expression(a), Value::Expression(b)) => a == b,
            _ => false,
        }
    }

    fn copied(&self) -> (r: Value<T>) {
        match self {
            Value::Literal(v) => Value::Literal(v.copied()),
            Value::Parameter(name) => Value::Parameter(name.clone()),
            Value::Expression(x) => Value::Expression(x.clone()),
        }
    }
}

impl<T> Value<T> {
    /// A literal value.
    pub fn literal(v: T) -> (r: Value<T>)
        ensures
            r == Value::Literal(v),
    {
        Value::Literal(v)
    }

    /// A reference to the parameter `name`.
    pub fn parameter(name: String) -> (r: Value<T>)
        ensures
            r == Value::<T>::Parameter(name),
    {
        Value::Parameter(name)
    }

    /// An expression over parameters.
    pub fn expression(expression: String) -> (r: Value<T>)
        ensures
            r == Value::<T>::Expression(expression),
    {
        Value::Expression(expression)
    }

    /// The literal, if this value is one.
    pub fn as_literal(&self) -> (r: Option<&T>)
        ensures
            match self {
                Value::Literal(v) => r == Some(v),
                _ => r is None,
            },
    {
        match self {
            Value::Literal(v) => Some(v),
            _ => None,
        }
    }

    /// The referenced parameter's name, if this value is a parameter reference.
    pub fn as_parameter(&self) -> (r: Option<&String>)
        ensures
            match self {
                Value::Parameter(n) => r == Some(n),
                _ => r is None,
            },
    {
        match self {
            Value::Parameter(n) => Some(n),
            _ => None,
        }
    }

    /// Whether this value is a literal.
    pub fn is_literal(&self) -> (r: bool)
        ensures
            r == (self is Literal),
    {
        match self {
            Value::Literal(_) => true,
            _ => false,
        }
    }

    /// Whether this value references a parameter.
    pub fn is_parameter(&self) -> (r: bool)
        ensures
            r == (self is Parameter),
    {
        match self {
            Value::Parameter(_) => true,
            _ => false,
        }
    }
}

/// Whether `v` is the string literal `s`.
pub open spec fn is_str_literal(v: OSString, s: Seq<char>) -> bool {
    v matches Value::Literal(t) && t@ == s
}

/// Whether `v` is the real-number literal written as `text`.
pub open spec fn is_real_literal(v: Double, text: Seq<char>) -> bool {
    v matches Value::Literal(x) && x.text@ == text
}

/// The string literal `s`.
pub fn str_literal(s: &str) -> (r: OSString)
    ensures
        is_str_literal(r, s@),
{
    Value::Literal(s.to_owned())
}

/// The real-number literal written as `text`.
pub fn real_literal(text: &str) -> (r: Double)
    ensures
        is_real_literal(r, text@),
{
    Value::Literal(Real::new(text))
}

/// Whether `name` refers to a parameter, that is, begins with `$`.
pub open spec fn is_parameter_reference(name: Seq<char>) -> bool {
    name.len() > 0 && name[0] == '$'
}

/// The text that a name attribute stands for under `params`: a name beginning with
/// `$` names a parameter and stands for that parameter's value; any other name stands
/// for itself.
pub open spec fn resolved_name(name: Seq<char>, params: ParameterMap) -> Option<Seq<char>> {
    if is_parameter_reference(name) {
        params.lookup(name.subrange(1, name.len() as int))
    } else {
        Some(name)
    }
}

/// Whether `r` is what resolving the name attribute `name` under `params` gives: the
/// text it stands for, or, when it names a parameter that `params` does not assign, an
/// error naming that parameter and the names that are assigned.
pub open spec fn name_resolution(name: Seq<char>, params: ParameterMap, r: Result<String, Error>) -> bool {
    match r {
        Ok(s) => resolved_name(name, params) == Some(s@),
        Err(e) => resolved_name(name, params) is None && e@ == (ErrorView::ParameterNotFound {
            name: name.subrange(1, name.len() as int),
            available: param_names(params),
        }),
    }
}

/// Resolves a name attribute: a name beginning with `$` is replaced by the value
/// assigned to the parameter it names; any other name is kept.
pub fn resolve_parameter(value: &str, params: &ParameterMap) -> (r: Result<String, Error>)
    ensures
        name_resolution(value@, *params, r),
{
    if str_starts_with(value, "$") {
        proof {
            reveal_strlit("$");
            assert(value@.subrange(0, 1)[0] == value@[0]);
        }
        let name = str_skip(value, 1);
        match params.get(name.as_str()) {
            Some(v) => Ok(v),
            None => {
                let available = params.names();
                Err(Error::parameter_not_found(name.as_str(), available))
            },
        }
    } else {
        proof {
            reveal_strlit("$");
            if value@.len() > 0 && value@[0] == '$' {
                assert(value@.subrange(0, 1) =~= "$"@);
            }
        }
        Ok(value.to_owned())
    }
}

/// A parameter declared by an element, with its type and default value.
#[derive(Debug, Clone, PartialEq)]
pub struct ParameterDeclaration {
    pub name: OSString,
    pub parameter_type: ParameterType,
    pub value: OSString,
    pub constraint_groups: Vec<ValueConstraintGroup>,
}

/// The parameter declarations of an element.
#[derive(Debug, Clone, PartialEq)]
pub struct ParameterDeclarations {
    pub parameter_declarations: Vec<ParameterDeclaration>,
}

/// A group of constraints that a parameter's value must meet together.
#[derive(Debug, Clone, PartialEq)]
pub struct ValueConstraintGroup {
    pub value_constraints: Vec<ValueConstraint>,
}

/// A constraint that compares a parameter's value with a given value.
#[derive(Debug, Clone, PartialEq)]
pub struct ValueConstraint {
    pub rule: Rule,
    pub value: OSString,
}

/// A range of real numbers.
#[derive(Debug, Clone, PartialEq)]
pub struct Range {
    pub lower_limit: Double,
    pub upper_limit: Double,
}

/// A directory on the file system.
#[derive(Debug, Clone, PartialEq)]
pub struct Directory {
    pub path: OSString,
}

impl ParameterDeclarations {
    /// No declarations.
    pub fn new() -> (r: ParameterDeclarations)
        ensures
            r.parameter_declarations@.len() == 0,
    {
        ParameterDeclarations { parameter_declarations: Vec::new() }
    }
}

impl ParameterDeclaration {
    /// A declaration of `name` with type `parameter_type` and default value `value`,
    /// without constraints.
    pub fn new(name: &str, parameter_type: ParameterType, value: &str) -> (r: ParameterDeclaration)
        ensures
            r.name matches Value::Literal(n) && n@ == name@,
            r.parameter_type == parameter_type,
            r.value matches Value::Literal(v) && v@ == value@,
            r.constraint_groups@.len() == 0,
    {
        ParameterDeclaration {
            name: Value::Literal(name.to_owned()),
            parameter_type,
            value: Value::Literal(value.to_owned()),
            constraint_groups: Vec::new(),
        }
    }
}


/// The text that the string attribute `v` stands for under `params`: a literal's own
/// text, or the value assigned to the referenced parameter; none for an expression or
/// an unassigned parameter.
pub open spec fn text_of(v: OSString, params: ParameterMap) -> Option<Seq<char>> {
    match v {
        Value::Literal(s) => Some(s@),
        Value::Parameter(n) => params.lookup(n@),
        Value::Expression(_) => None,
    }
}

/// A string attribute resolves exactly when it stands for a text, and resolves to that
/// text.
pub proof fn lemma_string_resolution(v: OSString, params: ParameterMap, r: Result<String, Error>)
    requires
        v.resolves_to(params, r),
    ensures
        v.resolvable(params) <==> text_of(v, params) is Some,
        r matches Ok(s) ==> text_of(v, params) == Some(s@),
        r is Err ==> text_of(v, params) is None,
{
}

/// A literal resolves to its own value under every parameter assignment.
pub proof fn lemma_literal_resolves_to_itself<T: ParamValue>(x: T, params: ParameterMap)
    ensures
        Value::<T>::Literal(x).resolvable(params),
        Value::<T>::Literal(x).resolves_to(params, Ok(x)),
        forall|r: Result<T, Error>| Value::<T>::Literal(x).resolves_to(params, r) ==> r == Ok::<T, Error>(x),
{
}

/// Resolving a value into a literal settles it: the literal resolves, under every
/// assignment, to the value that `v` resolved to.
pub proof fn lemma_resolved_literal_is_settled<T: ParamValue>(
    v: Value<T>,
    out: Value<T>,
    params: ParameterMap,
    other: ParameterMap,
)
    requires
        literal_of(out, v, params),
    ensures
        out.resolvable(other),
        literal_of(out, out, other),
        v.resolves_to(params, Ok(out->Literal_0)),
{
}

/// Resolving a parameter reads the text last assigned to it: after `text` is assigned
/// to `name`, a reference to `name` resolves exactly when `text` is the text of a
/// value, and then to a value that `text` denotes; a reference to any other parameter
/// resolves, or not, as it did before, to the same values.
pub proof fn lemma_parameter_reads_assignment<T: ParamValue>(
    before: ParameterMap,
    after: ParameterMap,
    name: String,
    text: Seq<char>,
    other: String,
)
    requires
        after@ == crate::params::assign_in(before@, name@, text),
    ensures
        Value::<T>::Parameter(name).resolvable(after) == T::accepts(text),
        forall|x: T| #[trigger] Value::<T>::Parameter(name).resolves_to(after, Ok(x)) ==> T::denotes(text, x),
        other@ != name@ ==> Value::<T>::Parameter(other).resolvable(after) == Value::<T>::Parameter(other).resolvable(before),
        other@ != name@ ==> forall|x: T| #[trigger] Value::<T>::Parameter(other).resolves_to(after, Ok(x))
            == Value::<T>::Parameter(other).resolves_to(before, Ok(x)),
{
    crate::params::lemma_lookup_after_assign(before@, name@, text, other@);
}

/// A name attribute that refers to a parameter stands for the text last assigned to
/// that parameter; a name that refers to none stands for itself under every assignment.
pub proof fn lemma_name_reads_assignment(
    name: Seq<char>,
    before: ParameterMap,
    after: ParameterMap,
    text: Seq<char>,
)
    requires
        is_parameter_reference(name),
        after@ == crate::params::assign_in(before@, name.subrange(1, name.len() as int), text),
    ensures
        resolved_name(name, after) == Some(text),
{
    crate::params::lemma_lookup_after_assign(before@, name.subrange(1, name.len() as int), text, text);
}

/// A name that refers to no parameter stands for itself, whatever is assigned.
pub proof fn lemma_plain_name_stands_for_itself(name: Seq<char>, params: ParameterMap)
    requires
        !is_parameter_reference(name),
    ensures
        resolved_name(name, params) == Some(name),
{
}

} // verus!
