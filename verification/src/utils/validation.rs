//! The rules on the fields of incoming requests, and how broken rules are
//! reported.

use crate::errors::{http_error, HttpError, STATUS_BAD_REQUEST};
use crate::users::model::UserRole;
use validator::ValidateEmail;
use vstd::prelude::*;
use vstd::string::*;

verus! {

/// A field of a request that a rule speaks of.
#[derive(Debug, Clone, Copy, PartialEq, Eq, Structural)]
pub enum Field {
    Name,
    Email,
    Password,
    PasswordConfirm,
    Token,
    NewPassword,
    NewPasswordConfirm,
    OldPassword,
    Title,
    Description,
    Company,
    Location,
    Stages,
}

/// A rule that a request breaks.
#[derive(Debug, Clone, Copy, PartialEq, Eq, Structural)]
pub enum Violation {
    NameRequired,
    EmailRequired,
    EmailInvalid,
    PasswordTooShort,
    PasswordConfirmRequired,
    PasswordsDoNotMatch,
    TokenRequired,
    NewPasswordTooShort,
    NewPasswordConfirmTooShort,
    NewPasswordsDoNotMatch,
    OldPasswordTooShort,
    TitleRequired,
    DescriptionRequired,
    CompanyRequired,
    LocationRequired,
    StageRequired,
}

/// The shortest password a request may carry, in characters.
pub const MIN_PASSWORD_LENGTH: usize = 6;

impl Field {
    /// The field's name as it appears in reports.
    pub open spec fn name(self) -> Seq<char> {
        match self {
            Field::Name => "name"@,
            Field::Email => "email"@,
            Field::Password => "password"@,
            Field::PasswordConfirm => "password_confirm"@,
            Field::Token => "token"@,
            Field::NewPassword => "new_password"@,
            Field::NewPasswordConfirm => "new_password_confirm"@,
            Field::OldPassword => "old_password"@,
            Field::Title => "title"@,
            Field::Description => "description"@,
            Field::Company => "company"@,
            Field::Location => "location"@,
            Field::Stages => "stages"@,
        }
    }

    pub fn to_str(&self) -> (r: &'static str)
        ensures
            r@ == self.name(),
    {
        match self {
            Field::Name => "name",
            Field::Email => "email",
            Field::Password => "password",
            Field::PasswordConfirm => "password_confirm",
            Field::Token => "token",
            Field::NewPassword => "new_password",
            Field::NewPasswordConfirm => "new_password_confirm",
            Field::OldPassword => "old_password",
            Field::Title => "title",
            Field::Description => "description",
            Field::Company => "company",
            Field::Location => "location",
            Field::Stages => "stages",
        }
    }
}

impl Violation {
    /// The field whose rule is broken.
    pub open spec fn field_spec(self) -> Field {
        match self {
            Violation::NameRequired => Field::Name,
            Violation::EmailRequired => Field::Email,
            Violation::EmailInvalid => Field::Email,
            Violation::PasswordTooShort => Field::Password,
            Violation::PasswordConfirmRequired => Field::PasswordConfirm,
            Violation::PasswordsDoNotMatch => Field::PasswordConfirm,
            Violation::TokenRequired => Field::Token,
            Violation::NewPasswordTooShort => Field::NewPassword,
            Violation::NewPasswordConfirmTooShort => Field::NewPasswordConfirm,
            Violation::NewPasswordsDoNotMatch => Field::NewPasswordConfirm,
            Violation::OldPasswordTooShort => Field::OldPassword,
            Violation::TitleRequired => Field::Title,
            Violation::DescriptionRequired => Field::Description,
            Violation::CompanyRequired => Field::Company,
            Violation::LocationRequired => Field::Location,
            Violation::StageRequired => Field::Stages,
        }
    }

    /// The sentence that tells the caller what is wrong.
    pub open spec fn text(self) -> Seq<char> {
        match self {
            Violation::NameRequired => "Name is required"@,
            Violation::EmailRequired => "Email is required"@,
            Violation::EmailInvalid => "Email is invalid"@,
            Violation::PasswordTooShort => "Password must be at least 6 characters"@,
            Violation::PasswordConfirmRequired => "Confirm Password is required"@,
            Violation::PasswordsDoNotMatch => "passwords do not match"@,
            Violation::TokenRequired => "Token is required."@,
            Violation::NewPasswordTooShort => "new password must be at least 6 characters"@,
            Violation::NewPasswordConfirmTooShort => "new password confirm must be at least 6 characters"@,
            Violation::NewPasswordsDoNotMatch => "new passwords do not match"@,
            Violation::OldPasswordTooShort => "Old password must be at least 6 characters"@,
            Violation::TitleRequired => "Title is required"@,
            Violation::DescriptionRequired => "Description is required"@,
            Violation::CompanyRequired => "Company is required"@,
            Violation::LocationRequired => "Location is required"@,
            Violation::StageRequired => "At least one stage is required"@,
        }
    }

    /// The field whose rule is broken.
    pub fn field(&self) -> (r: Field)
        ensures
            r == self.field_spec(),
    {
        match self {
            Violation::NameRequired => Field::Name,
            Violation::EmailRequired => Field::Email,
            Violation::EmailInvalid => Field::Email,
            Violation::PasswordTooShort => Field::Password,
            Violation::PasswordConfirmRequired => Field::PasswordConfirm,
            Violation::PasswordsDoNotMatch => Field::PasswordConfirm,
            Violation::TokenRequired => Field::Token,
            Violation::NewPasswordTooShort => Field::NewPassword,
            Violation::NewPasswordConfirmTooShort => Field::NewPasswordConfirm,
            Violation::NewPasswordsDoNotMatch => Field::NewPasswordConfirm,
            Violation::OldPasswordTooShort => Field::OldPassword,
            Violation::TitleRequired => Field::Title,
            Violation::DescriptionRequired => Field::Description,
            Violation::CompanyRequired => Field::Company,
            Violation::LocationRequired => Field::Location,
            Violation::StageRequired => Field::Stages,
        }
    }

    /// The sentence that tells the caller what is wrong.
    pub fn message(&self) -> (r: &'static str)
        ensures
            r@ == self.text(),
    {
        match self {
            Violation::NameRequired => "Name is required",
            Violation::EmailRequired => "Email is required",
            Violation::EmailInvalid => "Email is invalid",
            Violation::PasswordTooShort => "Password must be at least 6 characters",
            Violation::PasswordConfirmRequired => "Confirm Password is required",
            Violation::PasswordsDoNotMatch => "passwords do not match",
            Violation::TokenRequired => "Token is required.",
            Violation::NewPasswordTooShort => "new password must be at least 6 characters",
            Violation::NewPasswordConfirmTooShort => "new password confirm must be at least 6 characters",
            Violation::NewPasswordsDoNotMatch => "new passwords do not match",
            Violation::OldPasswordTooShort => "Old password must be at least 6 characters",
            Violation::TitleRequired => "Title is required",
            Violation::DescriptionRequired => "Description is required",
            Violation::CompanyRequired => "Company is required",
            Violation::LocationRequired => "Location is required",
            Violation::StageRequired => "At least one stage is required",
        }
    }
}

/// Whether a text is an e-mail address in the sense of the HTML5 rules:
/// a local part of the permitted characters, an `@`, and a domain name or a
/// bracketed IP address.
pub uninterp spec fn well_formed_email(email: Seq<char>) -> bool;

/// `validator::ValidateEmail::validate_email` on a text: whether it is an
/// e-mail address by the HTML5 rules. The verdict depends on the text alone.
#[verifier::external_body]
pub(crate) fn email_is_valid(email: &str) -> (r: bool)
    ensures
        r == well_formed_email(email@),
{
    email.validate_email()
}

/// What a single rule contributes to a report: the violation if the rule is
/// broken, nothing if it is kept.
pub open spec fn rule(broken: bool, violation: Violation) -> Seq<Violation> {
    if broken {
        seq![violation]
    } else {
        Seq::empty()
    }
}

/// Adds the violation to the report if the rule is broken.
pub fn note(report: &mut Vec<Violation>, broken: bool, violation: Violation)
    ensures
        final(report)@ == old(report)@ + rule(broken, violation),
{
    if broken {
        report.push(violation);
    }
    assert(report@ =~= old(report)@ + rule(broken, violation));
}

/// Whether a text is shorter than `min` characters.
pub fn shorter_than(text: &str, min: usize) -> (r: bool)
    ensures
        r == (text@.len() < min),
{
    text.unicode_len() < min
}

/// The report on a list of violations as one text. Sentences about the same
/// field stand on one line behind the field's name, separated by commas;
/// each further field starts a new line.
pub open spec fn report_text(violations: Seq<Violation>) -> Seq<char>
    decreases violations.len(),
{
    if violations.len() == 0 {
        Seq::empty()
    } else if violations.len() == 1 {
        violations[0].field_spec().name() + ": "@ + violations[0].text()
    } else {
        let last = violations.last();
        let before = violations[violations.len() - 2];
        if before.field_spec() == last.field_spec() {
            report_text(violations.drop_last()) + ", "@ + last.text()
        } else {
            report_text(violations.drop_last()) + "\n"@ + last.field_spec().name() + ": "@
                + last.text()
        }
    }
}

/// Renders a list of violations as one text.
pub fn render_report(violations: &Vec<Violation>) -> (r: String)
    ensures
        r@ == report_text(violations@),
{
    let mut out = String::from_str("");
    proof {
        reveal_strlit("");
        assert(out@ =~= Seq::<char>::empty());
        assert(violations@.take(0) =~= Seq::<Violation>::empty());
    }
    let mut i: usize = 0;
    while i < violations.len()
        invariant
            i <= violations.len(),
            out@ == report_text(violations@.take(i as int)),
        decreases violations.len() - i,
    {
        let v = violations[i];
        proof {
            let next = violations@.take(i + 1);
            assert(next.drop_last() =~= violations@.take(i as int));
            assert(next.last() == v);
            if i > 0 {
                assert(next[next.len() - 2] == violations@[i - 1]);
            }
        }
        if i == 0 {
            out.append(v.field().to_str());
            out.append(": ");
            out.append(v.message());
            proof {
                assert(out@ =~= v.field_spec().name() + ": "@ + v.text());
            }
        } else if violations[i - 1].field() == v.field() {
            out.append(", ");
            out.append(v.message());
        } else {
            out.append("\n");
            out.append(v.field().to_str());
            out.append(": ");
            out.append(v.message());
        }
        i = i + 1;
    }
    proof {
        assert(violations@.take(i as int) =~= violations@);
    }
    out
}

/// The failure that a request with broken rules is answered with.
pub fn validation_failure(violations: &Vec<Violation>) -> (r: HttpError)
    ensures
        r@ == http_error(STATUS_BAD_REQUEST, report_text(violations@)),
{
    HttpError::bad_request(render_report(violations))
}

/// The verdict on a list of violations: fine if there is none.
pub fn verdict(violations: Vec<Violation>) -> (r: Result<(), Vec<Violation>>)
    ensures
        violations@.len() == 0 ==> r is Ok,
        violations@.len() > 0 ==> r == Err::<(), Vec<Violation>>(violations),
{
    if violations.len() == 0 {
        Ok(())
    } else {
        Err(violations)
    }
}

/// Whether what `validate` returned is the verdict on `violations`.
pub open spec fn is_verdict(r: Result<(), Vec<Violation>>, violations: Seq<Violation>) -> bool {
    match r {
        Ok(_) => violations.len() == 0,
        Err(found) => found@ == violations && violations.len() > 0,
    }
}

/// Every role is a role that a request may name.
pub fn validate_user_role(role: &UserRole) -> (r: Result<(), Violation>)
    ensures
        r is Ok,
{
    match role {
        UserRole::Admin | UserRole::Guest | UserRole::User => Ok(()),
    }
}

} // verus!
