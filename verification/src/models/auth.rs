//! Sign-up and sign-in forms.

use vstd::prelude::*;

use crate::text::{
    char_is_whitespace, is_ascii_text, occurs_in, starts_with, text_contains, text_starts_with, unicode_whitespace,
};
use crate::user::Identifier;

verus! {

/// What a new user submits to register.
#[derive(Clone, Debug)]
pub struct RegistrationFormData {
    pub name: String,
    pub identifier: Identifier,
    pub password: String,
}

impl RegistrationFormData {
    pub fn new(name: String, identifier: Identifier, password: String) -> (form: Self)
        ensures
            form.name == name,
            form.identifier == identifier,
            form.password == password,
    {
        RegistrationFormData { name, identifier, password }
    }
}

/// What a user submits to sign in.
#[derive(Clone, Debug)]
pub struct LoginFormData {
    pub identifier: Identifier,
    pub password: String,
}

/// What a new user typed as e-mail or mobile number is an e-mail address when
/// it holds an `@`, and a mobile number otherwise.
pub fn registration_identifier(input: String) -> (identifier: Identifier)
    ensures
        occurs_in(input@, "@"@) ==> identifier == Identifier::Email(input),
        !occurs_in(input@, "@"@) ==> identifier == Identifier::Mobile(input),
{
    if text_contains(input.as_str(), "@") {
        Identifier::Email(input)
    } else {
        Identifier::Mobile(input)
    }
}

/// A character a mobile number may be typed with: an ASCII digit, `+`, white
/// space, `-`, `.`, `(` or `)`.
pub open spec fn mobile_char(c: char) -> bool {
    ('0' <= c <= '9') || c == '+' || unicode_whitespace(c) || c == '-' || c == '.' || c == '('
        || c == ')'
}

/// An ASCII character a mobile number may be typed with: a digit, `+`, a tab,
/// line feed, vertical tab, form feed, carriage return or space, `-`, `.`, `(`
/// or `)`.
pub open spec fn ascii_mobile_char(c: char) -> bool {
    ('0' <= c <= '9') || c == '+' || (9 <= (c as u32) <= 13) || (c as u32) == 32 || c == '-'
        || c == '.' || c == '(' || c == ')'
}

/// Whether every character of `input` may belong to a typed mobile number.
pub fn looks_like_mobile(input: &str) -> (mobile: bool)
    ensures
        mobile == (forall|i: int| 0 <= i < input@.len() ==> mobile_char(#[trigger] input@[i])),
        is_ascii_text(input@) ==> (mobile == (forall|i: int|
            0 <= i < input@.len() ==> ascii_mobile_char(#[trigger] input@[i]))),
{
    let n = input.unicode_len();
    let mut i: usize = 0;
    while i < n
        invariant
            n == input@.len(),
            i <= n,
            forall|j: int| 0 <= j < i ==> mobile_char(#[trigger] input@[j]),
            forall|j: int|
                0 <= j < i && (input@[j] as u32) < 128 ==> ascii_mobile_char(#[trigger] input@[j]),
        decreases n - i,
    {
        let c = input.get_char(i);
        if !(('0' <= c && c <= '9') || c == '+' || char_is_whitespace(c) || c == '-' || c == '.'
            || c == '(' || c == ')') {
            assert((c as u32) < 128 ==> !ascii_mobile_char(c));
            return false;
        }
        i = i + 1;
    }
    true
}

/// What a user typed to sign in is a mobile number when every character may
/// belong to one, and an e-mail address otherwise.
pub fn login_identifier(input: String) -> (identifier: Identifier)
    ensures
        (forall|i: int| 0 <= i < input@.len() ==> mobile_char(#[trigger] input@[i]))
            ==> identifier == Identifier::Mobile(input),
        !(forall|i: int| 0 <= i < input@.len() ==> mobile_char(#[trigger] input@[i]))
            ==> identifier == Identifier::Email(input),
        is_ascii_text(input@) ==> (identifier == if forall|i: int|
            0 <= i < input@.len() ==> ascii_mobile_char(#[trigger] input@[i]) {
            Identifier::Mobile(input)
        } else {
            Identifier::Email(input)
        }),
{
    if looks_like_mobile(input.as_str()) {
        Identifier::Mobile(input)
    } else {
        Identifier::Email(input)
    }
}

/// The input of a sign-up or sign-in form that an error is shown under.
#[derive(Clone, Copy, Debug, PartialEq, Eq, Structural)]
pub enum FormField {
    Name,
    Identifier,
    Password,
}

/// The sign-up input that a validation error at `path` belongs to: paths
/// starting with `name`, `identifier` or `password`, checked in that order.
pub fn registration_error_field(path: &str) -> (field: Option<FormField>)
    ensures
        field == (if starts_with(path@, "name"@) {
            Some(FormField::Name)
        } else if starts_with(path@, "identifier"@) {
            Some(FormField::Identifier)
        } else if starts_with(path@, "password"@) {
            Some(FormField::Password)
        } else {
            None
        }),
{
    if text_starts_with(path, "name") {
        Some(FormField::Name)
    } else if text_starts_with(path, "identifier") {
        Some(FormField::Identifier)
    } else if text_starts_with(path, "password") {
        Some(FormField::Password)
    } else {
        None
    }
}

/// The sign-in input that a validation error at `path` belongs to, with the
/// message shown there: identifier errors all read "A valid email or mobile
/// number is required", password errors keep their own message.
pub fn login_error(path: &str, message: String) -> (shown: Option<(FormField, String)>)
    ensures
        starts_with(path@, "identifier"@) ==> (shown matches Some((f, m)) && f
            == FormField::Identifier && m@ == "A valid email or mobile number is required"@),
        !starts_with(path@, "identifier"@) && starts_with(path@, "password"@) ==> shown == Some(
            (FormField::Password, message),
        ),
        !starts_with(path@, "identifier"@) && !starts_with(path@, "password"@) ==> shown is None,
{
    if text_starts_with(path, "identifier") {
        Some((FormField::Identifier, "A valid email or mobile number is required".to_string()))
    } else if text_starts_with(path, "password") {
        Some((FormField::Password, message))
    } else {
        None
    }
}

/// The lines `path, message` of a failed form check, joined by line breaks.
pub open spec fn error_lines(entries: Seq<(Seq<char>, Seq<char>)>) -> Seq<char>
    decreases entries.len(),
{
    if entries.len() == 0 {
        Seq::empty()
    } else if entries.len() == 1 {
        entries[0].0 + ", "@ + entries[0].1
    } else {
        error_lines(entries.drop_last()) + "\n"@ + entries.last().0 + ", "@ + entries.last().1
    }
}

/// The texts of `(path, message)` pairs.
pub open spec fn entry_texts(entries: Seq<(String, String)>) -> Seq<(Seq<char>, Seq<char>)> {
    entries.map_values(|e: (String, String)| (e.0@, e.1@))
}

/// The error a refused registration answers: each failed rule as
/// `path, message`, one per line.
pub fn registration_errors(entries: &Vec<(String, String)>) -> (text: String)
    ensures
        text@ == error_lines(entry_texts(entries@)),
{
    let mut text = String::new();
    let mut i: usize = 0;
    while i < entries.len()
        invariant
            i <= entries.len(),
            text@ == error_lines(entry_texts(entries@).take(i as int)),
        decreases entries.len() - i,
    {
        let ghost before = entry_texts(entries@).take(i as int);
        let ghost after = entry_texts(entries@).take(i + 1);
        assert(after.drop_last() =~= before);
        if i > 0 {
            text.append("\n");
        }
        text.append(entries[i].0.as_str());
        text.append(", ");
        text.append(entries[i].1.as_str());
        proof {
            reveal_strlit("\n");
            reveal_strlit(", ");
            assert(text@ =~= error_lines(after));
        }
        i = i + 1;
    }
    assert(entry_texts(entries@).take(entries@.len() as int) =~= entry_texts(entries@));
    text
}

} // verus!
