//! The three mails that the core asks for, and the links they carry.

use crate::text::join3;
use crate::users::model::{copy_text, text_of};
use vstd::prelude::*;
use vstd::string::*;

verus! {

/// The mails that the core asks for.
#[derive(Debug, Clone, Copy, PartialEq, Eq, Structural)]
pub enum MailKind {
    /// Asks the owner of a new account to confirm the address.
    Verification,
    /// Greets a user whose account has become active.
    Welcome,
    /// Carries the link with which a password is reset.
    PasswordReset,
}

impl MailKind {
    /// The subject line of the mail.
    pub open spec fn subject_text(self) -> Seq<char> {
        match self {
            MailKind::Verification => "Email Verification"@,
            MailKind::Welcome => "Welcome to Application"@,
            MailKind::PasswordReset => "Rest your Password"@,
        }
    }

    /// The file name of the template that the mail is rendered from.
    pub open spec fn template_name(self) -> Seq<char> {
        match self {
            MailKind::Verification => "verify-mail.html"@,
            MailKind::Welcome => "on-boarding.html"@,
            MailKind::PasswordReset => "reset-pass.html"@,
        }
    }

    /// The placeholder that the link replaces in the template, for the mails
    /// that carry one.
    pub open spec fn link_placeholder(self) -> Option<Seq<char>> {
        match self {
            MailKind::Verification => Some("{{verification_link}}"@),
            MailKind::Welcome => None,
            MailKind::PasswordReset => Some("{{rest_link}}"@),
        }
    }

    /// The subject line of the mail.
    pub fn subject(&self) -> (r: &'static str)
        ensures
            r@ == self.subject_text(),
    {
        match self {
            MailKind::Verification => "Email Verification",
            MailKind::Welcome => "Welcome to Application",
            MailKind::PasswordReset => "Rest your Password",
        }
    }

    /// The file name of the template that the mail is rendered from.
    pub fn template(&self) -> (r: &'static str)
        ensures
            r@ == self.template_name(),
    {
        match self {
            MailKind::Verification => "verify-mail.html",
            MailKind::Welcome => "on-boarding.html",
            MailKind::PasswordReset => "reset-pass.html",
        }
    }

    /// The placeholder that the link replaces in the template.
    pub fn link_key(&self) -> (r: Option<&'static str>)
        ensures
            match self.link_placeholder() {
                Some(key) => r is Some && r->Some_0@ == key,
                None => r is None,
            },
    {
        match self {
            MailKind::Verification => Some("{{verification_link}}"),
            MailKind::Welcome => None,
            MailKind::PasswordReset => Some("{{rest_link}}"),
        }
    }
}

/// What `str::replace` makes of a text: every occurrence of `from`, found
/// from left to right without overlap, replaced by `to`.
pub uninterp spec fn replaced(text: Seq<char>, from: Seq<char>, to: Seq<char>) -> Seq<char>;

/// `str::replace`: the text with every occurrence of `from` replaced by
/// `to`, which depends on nothing but the three texts.
#[verifier::external_body]
fn replace_all(text: &str, from: &str, to: &str) -> (r: String)
    ensures
        r@ == replaced(text@, from@, to@),
{
    text.replace(from, to)
}

/// The placeholder that the user's name replaces in every template.
pub open spec fn username_placeholder() -> Seq<char> {
    "{{username}}"@
}

/// A mail that the core asks its surroundings to send.
#[derive(Debug)]
pub struct MailRequest {
    pub to: String,
    pub kind: MailKind,
    pub username: String,
    pub link: Option<String>,
}

/// The mathematical content of a [`MailRequest`].
pub ghost struct MailRequestView {
    pub to: Seq<char>,
    pub kind: MailKind,
    pub username: Seq<char>,
    pub link: Option<Seq<char>>,
}

impl View for MailRequest {
    type V = MailRequestView;

    open spec fn view(&self) -> MailRequestView {
        MailRequestView {
            to: self.to@,
            kind: self.kind,
            username: self.username@,
            link: text_of(self.link),
        }
    }
}

/// The address behind the link of a verification mail.
pub open spec fn verification_base_url() -> Seq<char> {
    "https://e-commerce-backend-rs.onrender.com/api/auth/verify"@
}

/// The address behind the link of a password-reset mail.
pub open spec fn reset_base_url() -> Seq<char> {
    "https://e-commerce-backend-rs.onrender.com/api/auth/reset-password"@
}

/// The link that carries `token` to the endpoint at `base_url`.
pub open spec fn link_to(base_url: Seq<char>, token: Seq<char>) -> Seq<char> {
    base_url + "?token="@ + token
}

/// The request for the mail that asks a new user to confirm the address.
pub open spec fn verification_mail(to: Seq<char>, username: Seq<char>, token: Seq<char>) -> MailRequestView {
    MailRequestView {
        to,
        kind: MailKind::Verification,
        username,
        link: Some(link_to(verification_base_url(), token)),
    }
}

/// The request for the mail that greets a user.
pub open spec fn welcome_mail(to: Seq<char>, username: Seq<char>) -> MailRequestView {
    MailRequestView { to, kind: MailKind::Welcome, username, link: None }
}

/// The request for the mail that carries a reset link.
pub open spec fn reset_mail(to: Seq<char>, reset_link: Seq<char>, username: Seq<char>) -> MailRequestView {
    MailRequestView { to, kind: MailKind::PasswordReset, username, link: Some(reset_link) }
}

/// The link that carries `token` to the endpoint at `base_url`.
pub fn create_verification_link(base_url: &str, token: &str) -> (r: String)
    ensures
        r@ == link_to(base_url@, token@),
{
    join3(base_url, "?token=", token)
}

/// The link with which the password behind `token` is reset.
pub fn create_reset_link(token: &str) -> (r: String)
    ensures
        r@ == link_to(reset_base_url(), token@),
{
    create_verification_link(
        "https://e-commerce-backend-rs.onrender.com/api/auth/reset-password",
        token,
    )
}

/// Asks for the mail that lets a new user confirm the address: it carries
/// the link to the verification endpoint with the user's token.
pub fn send_verification_email(to_email: &str, username: &str, token: &str) -> (r: MailRequest)
    ensures
        r@ == verification_mail(to_email@, username@, token@),
{
    let link = create_verification_link(
        "https://e-commerce-backend-rs.onrender.com/api/auth/verify",
        token,
    );
    MailRequest {
        to: String::from_str(to_email),
        kind: MailKind::Verification,
        username: String::from_str(username),
        link: Some(link),
    }
}

/// Asks for the mail that greets a user.
pub fn send_welcome_email(to_email: &str, username: &str) -> (r: MailRequest)
    ensures
        r@ == welcome_mail(to_email@, username@),
{
    MailRequest {
        to: String::from_str(to_email),
        kind: MailKind::Welcome,
        username: String::from_str(username),
        link: None,
    }
}

/// Asks for the mail that carries a password-reset link.
pub fn send_forgot_password_email(
    to_email: &str,
    reset_link: &str,
    username: &str,
) -> (r: MailRequest)
    ensures
        r@ == reset_mail(to_email@, reset_link@, username@),
{
    MailRequest {
        to: String::from_str(to_email),
        kind: MailKind::PasswordReset,
        username: String::from_str(username),
        link: Some(String::from_str(reset_link)),
    }
}

impl MailRequest {
    /// A copy of the request.
    pub fn duplicate(&self) -> (r: MailRequest)
        ensures
            r@ == self@,
    {
        MailRequest {
            to: self.to.clone(),
            kind: self.kind,
            username: self.username.clone(),
            link: copy_text(&self.link),
        }
    }
}

/// The contents of a list of placeholders and their values.
pub open spec fn pairs_view(pairs: Seq<(String, String)>) -> Seq<(Seq<char>, Seq<char>)> {
    pairs.map_values(|p: (String, String)| (p.0@, p.1@))
}

/// A template with its placeholders filled in, one after the other in the
/// order of the list.
pub open spec fn filled(template: Seq<char>, placeholders: Seq<(Seq<char>, Seq<char>)>) -> Seq<char>
    decreases placeholders.len(),
{
    if placeholders.len() == 0 {
        template
    } else {
        replaced(
            filled(template, placeholders.drop_last()),
            placeholders.last().0,
            placeholders.last().1,
        )
    }
}

/// Fills the placeholders of a template in, one after the other in the order
/// of the list.
pub fn fill_template(template: String, placeholders: &Vec<(String, String)>) -> (r: String)
    ensures
        r@ == filled(template@, pairs_view(placeholders@)),
{
    let mut content = template;
    let mut i: usize = 0;
    proof {
        assert(pairs_view(placeholders@).take(0) =~= Seq::<(Seq<char>, Seq<char>)>::empty());
    }
    while i < placeholders.len()
        invariant
            i <= placeholders.len(),
            content@ == filled(template@, pairs_view(placeholders@).take(i as int)),
        decreases placeholders.len() - i,
    {
        proof {
            let upto = pairs_view(placeholders@).take(i + 1);
            assert(upto.drop_last() =~= pairs_view(placeholders@).take(i as int));
            assert(upto.last() == (placeholders@[i as int].0@, placeholders@[i as int].1@));
        }
        content = replace_all(
            content.as_str(),
            placeholders[i].0.as_str(),
            placeholders[i].1.as_str(),
        );
        i = i + 1;
    }
    proof {
        assert(pairs_view(placeholders@).take(i as int) =~= pairs_view(placeholders@));
    }
    content
}

impl MailRequestView {
    /// The placeholders of the mail's template with the values that replace
    /// them: the user's name first, then the link where the mail carries
    /// one.
    pub open spec fn placeholder_pairs(self) -> Seq<(Seq<char>, Seq<char>)> {
        match (self.kind.link_placeholder(), self.link) {
            (Some(key), Some(link)) => seq![(username_placeholder(), self.username), (key, link)],
            _ => seq![(username_placeholder(), self.username)],
        }
    }
}

impl MailRequest {
    /// The placeholders of the mail's template with the values that replace
    /// them.
    pub fn placeholders(&self) -> (r: Vec<(String, String)>)
        ensures
            pairs_view(r@) == self@.placeholder_pairs(),
    {
        let mut pairs: Vec<(String, String)> = Vec::new();
        pairs.push((String::from_str("{{username}}"), self.username.clone()));
        match (self.kind.link_key(), &self.link) {
            (Some(key), Some(link)) => {
                pairs.push((String::from_str(key), link.clone()));
            },
            _ => {},
        }
        assert(pairs_view(pairs@) =~= self@.placeholder_pairs());
        pairs
    }

    /// The text of the mail: its template with the placeholders filled in.
    pub fn render(&self, template: String) -> (r: String)
        ensures
            r@ == filled(template@, self@.placeholder_pairs()),
    {
        let pairs = self.placeholders();
        fill_template(template, &pairs)
    }
}

} // verus!
