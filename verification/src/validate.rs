//! Field validation of request bodies, and the text of its failures as the
//! `validator` crate renders them.

use vstd::prelude::*;

use crate::error::AppError;
use crate::text::decimal_text;

verus! {

/// Whether the `validator` crate accepts a text as an email address.
pub uninterp spec fn email_accepted(s: Seq<char>) -> bool;

/// Checks an address with `validator::ValidateEmail::validate_email`.
/// Claimed: the answer is the one named by `email_accepted`, and an empty
/// text or one without `@` is refused (the crate splits at the last `@` and
/// refuses an empty text first).
#[verifier::external_body]
fn accepts_email(s: &str) -> (r: bool)
    ensures
        r == email_accepted(s@),
        (s@.len() == 0 || !s@.contains('@')) ==> !r,
{
    validator::ValidateEmail::validate_email(&s)
}

/// The `Debug` text of a string (`format!("{:?}", s)`): quoted, with
/// escapes. `validator` shows a string parameter with it.
pub uninterp spec fn debug_str(s: Seq<char>) -> Seq<char>;

/// A validation rule of a field: a valid email address, or a minimum length
/// in characters.
#[derive(Clone, Copy, Debug, PartialEq, Eq, Structural)]
pub enum Rule {
    Email,
    MinLength(u32),
}

/// One failed rule: the field, the rule, the custom message if the rule has
/// one, and the value that failed.
#[derive(Clone, Debug)]
pub struct FieldError {
    pub field: &'static str,
    pub rule: Rule,
    pub message: Option<String>,
    pub value: String,
}

/// A failed rule as plain text values.
pub struct FieldErrorView {
    pub field: Seq<char>,
    pub rule: Rule,
    pub message: Option<Seq<char>>,
    pub value: Seq<char>,
}

impl View for FieldError {
    type V = FieldErrorView;

    open spec fn view(&self) -> FieldErrorView {
        FieldErrorView {
            field: self.field@,
            rule: self.rule,
            message: match self.message {
                Some(m) => Some(m@),
                None => None,
            },
            value: self.value@,
        }
    }
}

/// The failed rules of a value, in the order its fields are declared.
#[derive(Clone, Debug)]
pub struct ValidationErrors {
    pub errors: Vec<FieldError>,
}

impl View for ValidationErrors {
    type V = Seq<FieldErrorView>;

    open spec fn view(&self) -> Seq<FieldErrorView> {
        self.errors@.map_values(|e: FieldError| e@)
    }
}

/// The failure of the email rule on `value`, if it fails.
pub open spec fn email_failures(field: Seq<char>, value: Seq<char>, message: Option<Seq<char>>) -> Seq<FieldErrorView> {
    if email_accepted(value) {
        Seq::empty()
    } else {
        seq![FieldErrorView { field, rule: Rule::Email, message, value }]
    }
}

/// The failure of the minimum-length rule on `value`, if it fails.
pub open spec fn length_failures(field: Seq<char>, value: Seq<char>, min: u32, message: Option<Seq<char>>) -> Seq<FieldErrorView> {
    if value.len() >= min {
        Seq::empty()
    } else {
        seq![FieldErrorView { field, rule: Rule::MinLength(min), message, value }]
    }
}

/// The texts the `Display` of one failed rule can come out as: its message
/// when it has one, and otherwise its code and its parameters, each shown by
/// its `Debug` text. A length rule records two parameters, the minimum and
/// the value, which come out in either order.
pub open spec fn is_error_text(e: FieldErrorView, t: Seq<char>) -> bool {
    match e.message {
        Some(m) => t == m,
        None => match e.rule {
            Rule::Email => t == "Validation error: email [{\"value\": String("@ + debug_str(e.value) + ")}]"@,
            Rule::MinLength(min) => {
                let min_param = "\"min\": Number("@ + decimal_text(min as int) + ")"@;
                let value_param = "\"value\": String("@ + debug_str(e.value) + ")"@;
                ||| t == "Validation error: length [{"@ + min_param + ", "@ + value_param + "}]"@
                ||| t == "Validation error: length [{"@ + value_param + ", "@ + min_param + "}]"@
            },
        },
    }
}

/// The parts joined, with `sep` between each two.
pub open spec fn joined(parts: Seq<Seq<char>>, sep: Seq<char>) -> Seq<char>
    decreases parts.len(),
{
    if parts.len() == 0 {
        Seq::empty()
    } else if parts.len() == 1 {
        parts[0]
    } else {
        joined(parts.drop_last(), sep) + sep + parts.last()
    }
}

/// The texts of the failures of `field`, in the order they were recorded.
pub open spec fn texts_of_field(es: Seq<FieldErrorView>, texts: Seq<Seq<char>>, field: Seq<char>) -> Seq<Seq<char>>
    decreases es.len(),
{
    if es.len() == 0 || texts.len() != es.len() {
        Seq::empty()
    } else {
        let rest = texts_of_field(es.drop_last(), texts.drop_last(), field);
        if es.last().field == field { rest.push(texts.last()) } else { rest }
    }
}

/// The line of one field: its name, then the texts of its failures.
pub open spec fn field_line(es: Seq<FieldErrorView>, texts: Seq<Seq<char>>, field: Seq<char>) -> Seq<char> {
    field + ": "@ + joined(texts_of_field(es, texts, field), ", "@)
}

/// `r` is a rendering of the failed rules as the `validator` crate writes
/// them: one line per field that failed, the lines in some order (the crate
/// keeps them in a hash map), each line holding that field's failures in
/// the order they were recorded, each failure one of its possible texts.
pub open spec fn renders(r: Seq<char>, es: Seq<FieldErrorView>) -> bool {
    exists|fields: Seq<Seq<char>>, texts: Seq<Seq<char>>|
        #![trigger fields.len(), texts.len()]
        {
            &&& fields.no_duplicates()
            &&& forall|i: int| 0 <= i < es.len() ==> fields.contains(#[trigger] es[i].field)
            &&& forall|j: int| 0 <= j < fields.len() ==> exists|i: int| 0 <= i < es.len() && es[i].field == #[trigger] fields[j]
            &&& texts.len() == es.len()
            &&& forall|i: int| 0 <= i < es.len() ==> is_error_text(es[i], #[trigger] texts[i])
            &&& r == joined(Seq::new(fields.len(), |j: int| field_line(es, texts, fields[j])), "\n"@)
        }
}

/// A single failed rule with a message renders in exactly one way: the
/// field, a colon, and the message.
pub proof fn lemma_single_failure_rendering(r: Seq<char>, e: FieldErrorView)
    requires
        renders(r, seq![e]),
        e.message is Some,
    ensures
        r == e.field + ": "@ + e.message->0,
{
    let es = seq![e];
    let (fields, texts) = choose|fields: Seq<Seq<char>>, texts: Seq<Seq<char>>|
        #![trigger fields.len(), texts.len()]
        {
            &&& fields.no_duplicates()
            &&& forall|i: int| 0 <= i < es.len() ==> fields.contains(#[trigger] es[i].field)
            &&& forall|j: int| 0 <= j < fields.len() ==> exists|i: int| 0 <= i < es.len() && es[i].field == #[trigger] fields[j]
            &&& texts.len() == es.len()
            &&& forall|i: int| 0 <= i < es.len() ==> is_error_text(es[i], #[trigger] texts[i])
            &&& r == joined(Seq::new(fields.len(), |j: int| field_line(es, texts, fields[j])), "\n"@)
        };
    assert(fields.contains(es[0].field));
    assert forall|j: int| 0 <= j < fields.len() implies fields[j] == e.field by {
        assert(exists|i: int| 0 <= i < es.len() && es[i].field == #[trigger] fields[j]);
    }
    if fields.len() > 1 {
        assert(fields[0] == fields[1]);
    }
    assert(fields.len() == 1);
    assert(is_error_text(es[0], texts[0]));
    assert(texts_of_field(es.drop_last(), texts.drop_last(), e.field) == Seq::<Seq<char>>::empty());
    assert(texts_of_field(es, texts, e.field) =~= seq![texts[0]]);
    let lines = Seq::new(fields.len(), |j: int| field_line(es, texts, fields[j]));
    assert(lines.len() == 1);
    assert(joined(lines, "\n"@) == lines[0]);
}

/// Renders failed rules with the `Display` of `validator::ValidationErrors`:
/// each failure becomes a `validator::ValidationError` as the crate's derive
/// builds it (code `email` or `length`, a `min` parameter for a length rule,
/// the `value` parameter, the custom message) and is added under its field.
/// Claimed: the text is one of the renderings `renders` allows (so a single
/// failed email rule without a message comes out in exactly one way); which
/// order the fields and the two length parameters come out in is left to
/// the hash maps the crate keeps them in.
#[verifier::external_body]
fn display_with_validator(failures: &Vec<FieldError>) -> (r: String)
    ensures
        renders(r@, failures@.map_values(|e: FieldError| e@)),
        (failures@.len() == 1 && failures@[0].message is None && failures@[0].rule is Email) ==> r@
            == failures@[0].field@ + ": Validation error: email [{\"value\": String("@
                + debug_str(failures@[0].value@) + ")}]"@,
{
    let mut all = validator::ValidationErrors::new();
    for f in failures.iter() {
        let code = match f.rule { Rule::Email => "email", Rule::MinLength(_) => "length" };
        let mut e = validator::ValidationError::new(code);
        e.message = f.message.clone().map(std::borrow::Cow::Owned);
        if let Rule::MinLength(min) = f.rule {
            e.add_param(std::borrow::Cow::from("min"), &min);
        }
        e.add_param(std::borrow::Cow::from("value"), &f.value);
        all.add(f.field, e);
    }
    all.to_string()
}

impl ValidationErrors {
    /// No rule has failed yet.
    pub fn new() -> (r: ValidationErrors)
        ensures
            r@ == Seq::<FieldErrorView>::empty(),
    {
        let r = ValidationErrors { errors: Vec::new() };
        assert(r@ =~= Seq::<FieldErrorView>::empty());
        r
    }

    /// Checks `value` against the email rule and records a failure.
    pub fn check_email(&mut self, field: &'static str, value: &str, message: Option<&str>)
        ensures
            final(self)@ == old(self)@ + email_failures(field@, value@, opt_view(message)),
    {
        if !accepts_email(value) {
            let ghost before = self@;
            self.errors.push(FieldError {
                field,
                rule: Rule::Email,
                message: opt_to_owned(message),
                value: value.to_owned(),
            });
            assert(self@ =~= before + email_failures(field@, value@, opt_view(message)));
        } else {
            assert(self@ =~= old(self)@ + email_failures(field@, value@, opt_view(message)));
        }
    }

    /// Checks that `value` has at least `min` characters and records a
    /// failure.
    pub fn check_length(&mut self, field: &'static str, value: &str, min: u32, message: Option<&str>)
        ensures
            final(self)@ == old(self)@ + length_failures(field@, value@, min, opt_view(message)),
    {
        if (value.unicode_len() as u64) < (min as u64) {
            let ghost before = self@;
            self.errors.push(FieldError {
                field,
                rule: Rule::MinLength(min),
                message: opt_to_owned(message),
                value: value.to_owned(),
            });
            assert(self@ =~= before + length_failures(field@, value@, min, opt_view(message)));
        } else {
            assert(self@ =~= old(self)@ + length_failures(field@, value@, min, opt_view(message)));
        }
    }

    /// The text of all failed rules as the `validator` crate renders them:
    /// one line per failing field.
    pub fn message(&self) -> (r: String)
        ensures
            renders(r@, self@),
    {
        display_with_validator(&self.errors)
    }
}

/// The text of an optional string.
pub open spec fn opt_view(m: Option<&str>) -> Option<Seq<char>> {
    match m {
        Some(s) => Some(s@),
        None => None,
    }
}

fn opt_to_owned(m: Option<&str>) -> (r: Option<String>)
    ensures
        match r {
            Some(s) => m matches Some(t) && s@ == t@,
            None => m is None,
        },
{
    match m {
        Some(s) => Some(s.to_owned()),
        None => None,
    }
}

/// A request body whose fields are checked against declared rules.
pub trait Validate {
    /// The rules the value fails, in the order its fields are declared.
    spec fn failures(&self) -> Seq<FieldErrorView>;

    /// Checks every rule: `Ok` when none fails, otherwise the failures.
    fn validate(&self) -> (r: Result<(), ValidationErrors>)
        ensures
            r is Ok <==> self.failures().len() == 0,
            r matches Err(es) ==> es@ == self.failures(),
    ;
}

/// A request body that passed validation.
pub struct ValidatedJson<T>(pub T);

/// Accepts a parsed body if it passes validation; otherwise the failure
/// text becomes a validation error.
pub fn validated<T: Validate>(value: T) -> (r: Result<ValidatedJson<T>, AppError>)
    ensures
        value.failures().len() == 0 ==> (r matches Ok(v) && v.0 == value),
        value.failures().len() != 0 ==> (r matches Err(AppError::ValidationError(m)) && renders(m@, value.failures())),
{
    match value.validate() {
        Ok(()) => Ok(ValidatedJson(value)),
        Err(es) => Err(AppError::ValidationError(es.message())),
    }
}

} // verus!
