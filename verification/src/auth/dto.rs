//! Requests of the password and verification endpoints, and their rules.

use crate::utils::validation::{
    email_is_valid, is_verdict, note, rule, shorter_than, verdict, well_formed_email, Violation,
    MIN_PASSWORD_LENGTH,
};
use vstd::prelude::*;

verus! {

/// The rules on a request for a reset link that are broken, given whether
/// the address is well formed.
pub open spec fn forgot_rules(email: Seq<char>, email_ok: bool) -> Seq<Violation> {
    rule(email.len() < 1, Violation::EmailRequired) + rule(!email_ok, Violation::EmailInvalid)
}

/// The rules on a password reset that are broken, in the order of the fields.
pub open spec fn reset_rules(
    token: Seq<char>,
    new_password: Seq<char>,
    new_password_confirm: Seq<char>,
) -> Seq<Violation> {
    rule(token.len() < 1, Violation::TokenRequired) + rule(
        new_password.len() < MIN_PASSWORD_LENGTH,
        Violation::NewPasswordTooShort,
    ) + rule(
        new_password_confirm.len() < MIN_PASSWORD_LENGTH,
        Violation::NewPasswordConfirmTooShort,
    ) + rule(new_password_confirm != new_password, Violation::NewPasswordsDoNotMatch)
}

/// The rule on a verification link that is broken: the token must not be
/// empty.
pub open spec fn verify_rules(token: Seq<char>) -> Seq<Violation> {
    rule(token.len() < 1, Violation::TokenRequired)
}

/// The request to replace a known password by a new one.
#[derive(Debug, Clone, Default)]
pub struct UserPasswordUpdateDto {
    pub new_password: String,
    pub new_password_confirm: String,
    pub old_password: String,
}

impl UserPasswordUpdateDto {
    /// The rules that a request breaks, in the order of its fields.
    pub open spec fn violations(self) -> Seq<Violation> {
        rule(self.new_password@.len() < MIN_PASSWORD_LENGTH, Violation::NewPasswordTooShort) + rule(
            self.new_password_confirm@.len() < MIN_PASSWORD_LENGTH,
            Violation::NewPasswordConfirmTooShort,
        ) + rule(
            self.new_password_confirm@ != self.new_password@,
            Violation::NewPasswordsDoNotMatch,
        ) + rule(self.old_password@.len() < MIN_PASSWORD_LENGTH, Violation::OldPasswordTooShort)
    }

    /// Checks the request against its rules.
    pub fn validate(&self) -> (r: Result<(), Vec<Violation>>)
        ensures
            is_verdict(r, self.violations()),
    {
        let mut report: Vec<Violation> = Vec::new();
        note(
            &mut report,
            shorter_than(self.new_password.as_str(), MIN_PASSWORD_LENGTH),
            Violation::NewPasswordTooShort,
        );
        note(
            &mut report,
            shorter_than(self.new_password_confirm.as_str(), MIN_PASSWORD_LENGTH),
            Violation::NewPasswordConfirmTooShort,
        );
        note(
            &mut report,
            self.new_password_confirm != self.new_password,
            Violation::NewPasswordsDoNotMatch,
        );
        note(
            &mut report,
            shorter_than(self.old_password.as_str(), MIN_PASSWORD_LENGTH),
            Violation::OldPasswordTooShort,
        );
        assert(report@ =~= self.violations());
        verdict(report)
    }
}

/// The query of the verification link.
#[derive(Debug)]
pub struct VerifyEmailQueryDto {
    pub token: String,
}

impl VerifyEmailQueryDto {
    /// The rules that a request breaks: the token must not be empty.
    pub open spec fn violations(self) -> Seq<Violation> {
        verify_rules(self.token@)
    }

    /// Checks the request against its rules.
    pub fn validate(&self) -> (r: Result<(), Vec<Violation>>)
        ensures
            is_verdict(r, self.violations()),
    {
        let mut report: Vec<Violation> = Vec::new();
        note(&mut report, shorter_than(self.token.as_str(), 1), Violation::TokenRequired);
        assert(report@ =~= self.violations());
        verdict(report)
    }
}

/// The request for a password-reset link.
#[derive(Debug, Clone)]
pub struct ForgotPasswordRequestDto {
    pub email: String,
}

impl ForgotPasswordRequestDto {
    /// The rules that a request breaks, given whether its address is well
    /// formed.
    pub open spec fn violations_given(self, email_ok: bool) -> Seq<Violation> {
        forgot_rules(self.email@, email_ok)
    }

    /// The rules that a request breaks.
    pub open spec fn violations(self) -> Seq<Violation> {
        self.violations_given(well_formed_email(self.email@))
    }

    /// Collects the broken rules, given whether the address is well formed.
    pub fn check(&self, email_ok: bool) -> (r: Vec<Violation>)
        ensures
            r@ == self.violations_given(email_ok),
    {
        let mut report: Vec<Violation> = Vec::new();
        note(&mut report, shorter_than(self.email.as_str(), 1), Violation::EmailRequired);
        note(&mut report, !email_ok, Violation::EmailInvalid);
        assert(report@ =~= self.violations_given(email_ok));
        report
    }

    /// Checks the request against its rules.
    pub fn validate(&self) -> (r: Result<(), Vec<Violation>>)
        ensures
            is_verdict(r, self.violations()),
    {
        verdict(self.check(email_is_valid(self.email.as_str())))
    }
}

/// The request to set a new password with a reset token.
#[derive(Debug, Clone)]
pub struct ResetPasswordRequestDto {
    pub token: String,
    pub new_password: String,
    pub new_password_confirm: String,
}

impl ResetPasswordRequestDto {
    /// The rules that a request breaks, in the order of its fields.
    pub open spec fn violations(self) -> Seq<Violation> {
        reset_rules(self.token@, self.new_password@, self.new_password_confirm@)
    }

    /// Checks the request against its rules.
    pub fn validate(&self) -> (r: Result<(), Vec<Violation>>)
        ensures
            is_verdict(r, self.violations()),
    {
        let mut report: Vec<Violation> = Vec::new();
        note(&mut report, shorter_than(self.token.as_str(), 1), Violation::TokenRequired);
        note(
            &mut report,
            shorter_than(self.new_password.as_str(), MIN_PASSWORD_LENGTH),
            Violation::NewPasswordTooShort,
        );
        note(
            &mut report,
            shorter_than(self.new_password_confirm.as_str(), MIN_PASSWORD_LENGTH),
            Violation::NewPasswordConfirmTooShort,
        );
        note(
            &mut report,
            self.new_password_confirm != self.new_password,
            Violation::NewPasswordsDoNotMatch,
        );
        assert(report@ =~= self.violations());
        verdict(report)
    }
}

} // verus!
