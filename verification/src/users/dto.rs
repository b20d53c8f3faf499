//! Requests of the account endpoints with their rules, and the public face
//! of a user record.

use crate::skills::dto::{skills_view, SkillResponseDto, SkillResponseDtoView};
use crate::users::model::{User, UserRole, UserView};
use crate::utils::validation::{
    email_is_valid, is_verdict, note, rule, shorter_than, validate_user_role, verdict,
    well_formed_email, Violation, MIN_PASSWORD_LENGTH,
};
use vstd::prelude::*;
use vstd::string::*;

verus! {

/// The rules on a registration that are broken, in the order of the fields,
/// given whether the address is well formed.
pub open spec fn register_rules(
    name: Seq<char>,
    email: Seq<char>,
    password: Seq<char>,
    password_confirm: Seq<char>,
    email_ok: bool,
) -> Seq<Violation> {
    rule(name.len() < 1, Violation::NameRequired) + rule(email.len() < 1, Violation::EmailRequired)
        + rule(!email_ok, Violation::EmailInvalid) + rule(
        password.len() < MIN_PASSWORD_LENGTH,
        Violation::PasswordTooShort,
    ) + rule(password_confirm.len() < 1, Violation::PasswordConfirmRequired) + rule(
        password_confirm != password,
        Violation::PasswordsDoNotMatch,
    )
}

/// The rules on a login that are broken, in the order of the fields, given
/// whether the address is well formed.
pub open spec fn login_rules(email: Seq<char>, password: Seq<char>, email_ok: bool) -> Seq<
    Violation,
> {
    rule(email.len() < 1, Violation::EmailRequired) + rule(!email_ok, Violation::EmailInvalid)
        + rule(password.len() < MIN_PASSWORD_LENGTH, Violation::PasswordTooShort)
}

/// The request to register a local account.
#[derive(Debug, Clone, Default)]
pub struct RegisterUserDto {
    pub name: String,
    pub email: String,
    pub password: String,
    pub password_confirm: String,
}

impl RegisterUserDto {
    /// The rules that a request breaks, in the order of its fields, given
    /// whether its address is well formed.
    pub open spec fn violations_given(self, email_ok: bool) -> Seq<Violation> {
        register_rules(self.name@, self.email@, self.password@, self.password_confirm@, email_ok)
    }

    /// The rules that a request breaks.
    pub open spec fn violations(self) -> Seq<Violation> {
        self.violations_given(well_formed_email(self.email@))
    }

    /// Collects the broken rules, given whether the address is well formed.
    pub fn check(&self, email_ok: bool) -> (r: Vec<Violation>)
        ensures
            r@ == self.violations_given(email_ok),
    {
        let mut report: Vec<Violation> = Vec::new();
        note(&mut report, shorter_than(self.name.as_str(), 1), Violation::NameRequired);
        note(&mut report, shorter_than(self.email.as_str(), 1), Violation::EmailRequired);
        note(&mut report, !email_ok, Violation::EmailInvalid);
        note(
            &mut report,
            shorter_than(self.password.as_str(), MIN_PASSWORD_LENGTH),
            Violation::PasswordTooShort,
        );
        note(
            &mut report,
            shorter_than(self.password_confirm.as_str(), 1),
            Violation::PasswordConfirmRequired,
        );
        note(&mut report, self.password_confirm != self.password, Violation::PasswordsDoNotMatch);
        assert(report@ =~= self.violations_given(email_ok));
        report
    }

    /// Checks the request against its rules.
    pub fn validate(&self) -> (r: Result<(), Vec<Violation>>)
        ensures
            is_verdict(r, self.violations()),
    {
        verdict(self.check(email_is_valid(self.email.as_str())))
    }
}

/// The request to log in with a password.
#[derive(Debug, Clone, Default)]
pub struct LoginUserDto {
    pub email: String,
    pub password: String,
}

impl LoginUserDto {
    /// The rules that a request breaks, in the order of its fields, given
    /// whether its address is well formed.
    pub open spec fn violations_given(self, email_ok: bool) -> Seq<Violation> {
        login_rules(self.email@, self.password@, email_ok)
    }

    /// The rules that a request breaks.
    pub open spec fn violations(self) -> Seq<Violation> {
        self.violations_given(well_formed_email(self.email@))
    }

    /// Collects the broken rules, given whether the address is well formed.
    pub fn check(&self, email_ok: bool) -> (r: Vec<Violation>)
        ensures
            r@ == self.violations_given(email_ok),
    {
        let mut report: Vec<Violation> = Vec::new();
        note(&mut report, shorter_than(self.email.as_str(), 1), Violation::EmailRequired);
        note(&mut report, !email_ok, Violation::EmailInvalid);
        note(
            &mut report,
            shorter_than(self.password.as_str(), MIN_PASSWORD_LENGTH),
            Violation::PasswordTooShort,
        );
        assert(report@ =~= self.violations_given(email_ok));
        report
    }

    /// Checks the request against its rules.
    pub fn validate(&self) -> (r: Result<(), Vec<Violation>>)
        ensures
            is_verdict(r, self.violations()),
    {
        verdict(self.check(email_is_valid(self.email.as_str())))
    }
}

/// The request to change the name on a profile.
#[derive(Debug, Clone, Default)]
pub struct NameUpdateDto {
    pub name: String,
}

impl NameUpdateDto {
    /// The rules that a request breaks: the name must not be empty.
    pub open spec fn violations(self) -> Seq<Violation> {
        rule(self.name@.len() < 1, Violation::NameRequired)
    }

    /// Checks the request against its rules.
    pub fn validate(&self) -> (r: Result<(), Vec<Violation>>)
        ensures
            is_verdict(r, self.violations()),
    {
        let mut report: Vec<Violation> = Vec::new();
        note(&mut report, shorter_than(self.name.as_str(), 1), Violation::NameRequired);
        assert(report@ =~= self.violations());
        verdict(report)
    }
}

/// The request to change the role of an account.
#[derive(Debug, Clone)]
pub struct RoleUpdateDto {
    pub role: UserRole,
}

impl RoleUpdateDto {
    /// Checks the request against its rules: every role may be named.
    pub fn validate(&self) -> (r: Result<(), Vec<Violation>>)
        ensures
            r is Ok,
    {
        match validate_user_role(&self.role) {
            Ok(_) => Ok(()),
            Err(v) => {
                let mut report: Vec<Violation> = Vec::new();
                report.push(v);
                Err(report)
            },
        }
    }
}

/// A user record as shown to callers: without the password hash and the
/// verification token. Times are seconds since the Unix epoch.
#[derive(Debug)]
pub struct FilterUserDto {
    pub id: String,
    pub name: String,
    pub email: String,
    pub role: String,
    pub verified: bool,
    pub created_at: i64,
    pub updated_at: i64,
    pub skills: Vec<SkillResponseDto>,
}

/// The mathematical content of a [`FilterUserDto`].
pub ghost struct FilterUserDtoView {
    pub id: Seq<char>,
    pub name: Seq<char>,
    pub email: Seq<char>,
    pub role: Seq<char>,
    pub verified: bool,
    pub created_at: i64,
    pub updated_at: i64,
    pub skills: Seq<SkillResponseDtoView>,
}

impl View for FilterUserDto {
    type V = FilterUserDtoView;

    open spec fn view(&self) -> FilterUserDtoView {
        FilterUserDtoView {
            id: self.id@,
            name: self.name@,
            email: self.email@,
            role: self.role@,
            verified: self.verified,
            created_at: self.created_at,
            updated_at: self.updated_at,
            skills: skills_view(self.skills@),
        }
    }
}

/// The public face of a stored user with the given skills.
pub open spec fn public_face(user: UserView, skills: Seq<SkillResponseDtoView>) -> FilterUserDtoView
    recommends
        user.created_at is Some,
        user.updated_at is Some,
{
    FilterUserDtoView {
        id: user.id,
        name: user.name,
        email: user.email,
        role: user.role.name(),
        verified: user.verified,
        created_at: user.created_at->Some_0,
        updated_at: user.updated_at->Some_0,
        skills,
    }
}

impl FilterUserDto {
    /// Whether this is the public face of `user`, skills aside.
    pub open spec fn shows(self, user: UserView) -> bool {
        &&& self.id@ == user.id
        &&& self.name@ == user.name
        &&& self.email@ == user.email
        &&& self.role@ == user.role.name()
        &&& self.verified == user.verified
        &&& user.created_at == Some(self.created_at)
        &&& user.updated_at == Some(self.updated_at)
    }

    /// The public face of a stored user, without skills.
    pub fn filter_user(user: &User) -> (r: Self)
        requires
            user.created_at is Some,
            user.updated_at is Some,
        ensures
            r.shows(user@),
            r.skills@.len() == 0,
            r@ == public_face(user@, Seq::empty()),
    {
        let r = FilterUserDto {
            id: user.id.clone(),
            name: user.name.clone(),
            email: user.email.clone(),
            verified: user.verified,
            role: String::from_str(user.role.to_str()),
            created_at: user.created_at.unwrap(),
            updated_at: user.updated_at.unwrap(),
            skills: Vec::new(),
        };
        assert(skills_view(r.skills@) =~= Seq::<SkillResponseDtoView>::empty());
        r
    }

    /// The public faces of stored users, in their order.
    pub fn filter_users(users: &[User]) -> (r: Vec<FilterUserDto>)
        requires
            forall|i: int|
                0 <= i < users@.len() ==> (#[trigger] users@[i]).created_at is Some
                    && users@[i].updated_at is Some,
        ensures
            r@.len() == users@.len(),
            forall|i: int|
                0 <= i < r@.len() ==> (#[trigger] r@[i]).shows(users@[i]@) && r@[i].skills@.len()
                    == 0,
    {
        let mut out: Vec<FilterUserDto> = Vec::new();
        let mut i: usize = 0;
        while i < users.len()
            invariant
                i <= users@.len(),
                out@.len() == i,
                forall|j: int|
                    0 <= j < users@.len() ==> (#[trigger] users@[j]).created_at is Some
                        && users@[j].updated_at is Some,
                forall|j: int|
                    0 <= j < i ==> (#[trigger] out@[j]).shows(users@[j]@) && out@[j].skills@.len()
                        == 0,
            decreases users@.len() - i,
        {
            out.push(FilterUserDto::filter_user(&users[i]));
            i = i + 1;
        }
        out
    }

    /// The public face of a stored user together with the user's skills.
    pub fn filter_user_with_skills(user: &User, skills: Vec<SkillResponseDto>) -> (r: Self)
        requires
            user.created_at is Some,
            user.updated_at is Some,
        ensures
            r.shows(user@),
            r.skills == skills,
            r@ == public_face(user@, skills_view(skills@)),
    {
        FilterUserDto {
            id: user.id.clone(),
            name: user.name.clone(),
            email: user.email.clone(),
            verified: user.verified,
            role: String::from_str(user.role.to_str()),
            created_at: user.created_at.unwrap(),
            updated_at: user.updated_at.unwrap(),
            skills,
        }
    }
}

} // verus!
