use auth_core::auth::dto::{
    ForgotPasswordRequestDto, ResetPasswordRequestDto, UserPasswordUpdateDto,
    VerifyEmailQueryDto,
};
use auth_core::skills::dto::CreateSkillDto;
use auth_core::users::dto::{LoginUserDto, NameUpdateDto, RegisterUserDto, RoleUpdateDto};
use auth_core::users::model::UserRole;
use auth_core::utils::validation::{
    render_report, validate_user_role, validation_failure, Field, Violation,
};

fn register(name: &str, email: &str, password: &str, confirm: &str) -> RegisterUserDto {
    RegisterUserDto {
        name: name.to_string(),
        email: email.to_string(),
        password: password.to_string(),
        password_confirm: confirm.to_string(),
    }
}

#[test]
fn valid_registration_breaks_no_rule() {
    assert_eq!(register("Ann", "ann@x.com", "secret1", "secret1").validate(), Ok(()));
}

#[test]
fn registration_rules_are_reported_in_field_order() {
    let broken = register("", "", "12345", "").validate().unwrap_err();
    assert_eq!(
        broken,
        vec![
            Violation::NameRequired,
            Violation::EmailRequired,
            Violation::EmailInvalid,
            Violation::PasswordTooShort,
            Violation::PasswordConfirmRequired,
            Violation::PasswordsDoNotMatch,
        ]
    );
}

#[test]
fn registration_needs_matching_passwords() {
    assert_eq!(
        register("Ann", "ann@x.com", "secret1", "secret2").validate(),
        Err(vec![Violation::PasswordsDoNotMatch])
    );
}

#[test]
fn password_length_rule_counts_characters() {
    assert_eq!(
        register("Ann", "ann@x.com", "\u{e9}\u{e9}\u{e9}\u{e9}\u{e9}\u{e9}", "\u{e9}\u{e9}\u{e9}\u{e9}\u{e9}\u{e9}").validate(),
        Ok(())
    );
    assert_eq!(
        register("Ann", "ann@x.com", "\u{e9}\u{e9}\u{e9}", "\u{e9}\u{e9}\u{e9}").validate(),
        Err(vec![Violation::PasswordTooShort])
    );
}

#[test]
fn check_takes_the_verdict_on_the_address_as_given() {
    let body = register("Ann", "ann@x.com", "secret1", "secret1");
    assert_eq!(body.check(true), vec![]);
    assert_eq!(body.check(false), vec![Violation::EmailInvalid]);
}

#[test]
fn addresses_are_judged_by_the_html5_rules() {
    for good in ["email@here.com", "weirder-email@here.and.there.com", "email@[127.0.0.1]"] {
        let body = ForgotPasswordRequestDto { email: good.to_string() };
        assert_eq!(body.validate(), Ok(()), "{good}");
    }
    for bad in ["abc", "abc@", "a @x.cz", "something@@somewhere.com", "@here.com"] {
        let body = ForgotPasswordRequestDto { email: bad.to_string() };
        assert_eq!(body.validate(), Err(vec![Violation::EmailInvalid]), "{bad}");
    }
    let body = ForgotPasswordRequestDto { email: String::new() };
    assert_eq!(body.validate(), Err(vec![Violation::EmailRequired, Violation::EmailInvalid]));
}

#[test]
fn login_rules() {
    let body = LoginUserDto { email: "ann@x.com".to_string(), password: "secret1".to_string() };
    assert_eq!(body.validate(), Ok(()));
    let body = LoginUserDto { email: "ann".to_string(), password: "12345".to_string() };
    assert_eq!(
        body.validate(),
        Err(vec![Violation::EmailInvalid, Violation::PasswordTooShort])
    );
    assert_eq!(body.check(true), vec![Violation::PasswordTooShort]);
}

#[test]
fn reset_rules() {
    let body = ResetPasswordRequestDto {
        token: "t".to_string(),
        new_password: "secret2".to_string(),
        new_password_confirm: "secret2".to_string(),
    };
    assert_eq!(body.validate(), Ok(()));
    let body = ResetPasswordRequestDto {
        token: String::new(),
        new_password: "12345".to_string(),
        new_password_confirm: "1234".to_string(),
    };
    assert_eq!(
        body.validate(),
        Err(vec![
            Violation::TokenRequired,
            Violation::NewPasswordTooShort,
            Violation::NewPasswordConfirmTooShort,
            Violation::NewPasswordsDoNotMatch,
        ])
    );
}

#[test]
fn password_update_rules() {
    let body = UserPasswordUpdateDto {
        new_password: "secret2".to_string(),
        new_password_confirm: "secret2".to_string(),
        old_password: "secret1".to_string(),
    };
    assert_eq!(body.validate(), Ok(()));
    let body = UserPasswordUpdateDto {
        new_password: "secret2".to_string(),
        new_password_confirm: "secret3".to_string(),
        old_password: "old".to_string(),
    };
    assert_eq!(
        body.validate(),
        Err(vec![Violation::NewPasswordsDoNotMatch, Violation::OldPasswordTooShort])
    );
}

#[test]
fn single_field_rules() {
    assert_eq!(VerifyEmailQueryDto { token: "t".to_string() }.validate(), Ok(()));
    assert_eq!(
        VerifyEmailQueryDto { token: String::new() }.validate(),
        Err(vec![Violation::TokenRequired])
    );
    assert_eq!(NameUpdateDto { name: "Ann".to_string() }.validate(), Ok(()));
    assert_eq!(
        NameUpdateDto { name: String::new() }.validate(),
        Err(vec![Violation::NameRequired])
    );
    assert_eq!(CreateSkillDto { name: "Rust".to_string() }.validate(), Ok(()));
    assert_eq!(
        CreateSkillDto { name: String::new() }.validate(),
        Err(vec![Violation::NameRequired])
    );
}

#[test]
fn every_role_may_be_named() {
    for role in [UserRole::Admin, UserRole::User, UserRole::Guest] {
        assert_eq!(validate_user_role(&role), Ok(()));
        assert_eq!(RoleUpdateDto { role }.validate(), Ok(()));
    }
}

#[test]
fn report_groups_sentences_by_field() {
    assert_eq!(render_report(&vec![]), "");
    assert_eq!(render_report(&vec![Violation::NameRequired]), "name: Name is required");
    assert_eq!(
        render_report(&vec![Violation::EmailRequired, Violation::EmailInvalid]),
        "email: Email is required, Email is invalid"
    );
    assert_eq!(
        render_report(&vec![
            Violation::TokenRequired,
            Violation::NewPasswordTooShort,
            Violation::NewPasswordConfirmTooShort,
            Violation::NewPasswordsDoNotMatch,
        ]),
        "token: Token is required.\n\
         new_password: new password must be at least 6 characters\n\
         new_password_confirm: new password confirm must be at least 6 characters, new passwords do not match"
    );
}

#[test]
fn broken_rules_are_a_bad_request() {
    let e = validation_failure(&vec![Violation::OldPasswordTooShort]);
    assert_eq!(e.status, 400);
    assert_eq!(e.message, "old_password: Old password must be at least 6 characters");
}

#[test]
fn violations_name_their_field_and_sentence() {
    assert_eq!(Violation::PasswordConfirmRequired.field(), Field::PasswordConfirm);
    assert_eq!(Violation::PasswordConfirmRequired.message(), "Confirm Password is required");
    assert_eq!(Violation::PasswordsDoNotMatch.field().to_str(), "password_confirm");
    assert_eq!(Violation::PasswordsDoNotMatch.message(), "passwords do not match");
    assert_eq!(Violation::PasswordTooShort.message(), "Password must be at least 6 characters");
    assert_eq!(Field::NewPasswordConfirm.to_str(), "new_password_confirm");
    assert_eq!(Field::OldPassword.to_str(), "old_password");
}

#[test]
fn job_rules() {
    let job = |title: &str, location: &str| auth_core::jobs::dto::CreateJobDto {
        title: title.to_string(),
        description: "Writes proofs".to_string(),
        company: "ACME".to_string(),
        location: location.to_string(),
        salary_min: None,
        salary_max: Some(10),
        job_type: auth_core::jobs::model::JobType::Remote,
        rounds: 2,
        round_details: None,
        skills_required: None,
        experience_min: None,
        experience_max: None,
        is_remote: Some(true),
        application_deadline: None,
        skills: vec![],
    };
    assert_eq!(job("Engineer", "Berlin").validate(), Ok(()));
    assert_eq!(
        job("", "").validate(),
        Err(vec![Violation::TitleRequired, Violation::LocationRequired])
    );
    assert_eq!(
        render_report(&vec![Violation::TitleRequired, Violation::LocationRequired]),
        "title: Title is required\nlocation: Location is required"
    );
}

#[test]
fn round_and_skill_update_rules() {
    let rounds = auth_core::jobs::dto::CreateRoundDto { stages: vec![], description: None };
    assert_eq!(rounds.validate(), Err(vec![Violation::StageRequired]));
    assert_eq!(Violation::StageRequired.message(), "At least one stage is required");
    assert_eq!(Violation::StageRequired.field().to_str(), "stages");
    let rounds = auth_core::jobs::dto::CreateRoundDto {
        stages: vec!["stage-1".to_string()],
        description: Some("first".to_string()),
    };
    assert_eq!(rounds.validate(), Ok(()));
    let update = auth_core::skills::dto::UpdateSkillDto { id: "s-1".to_string(), name: String::new() };
    assert_eq!(update.validate(), Err(vec![Violation::NameRequired]));
    let update =
        auth_core::skills::dto::UpdateSkillDto { id: "s-1".to_string(), name: "Rust".to_string() };
    assert_eq!(update.validate(), Ok(()));
}
