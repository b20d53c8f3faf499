//! The user store as the core understands it: an ordered collection of
//! records in which no identifier and no address occurs twice.
//!
//! [`UserService`] keeps the records in memory. It is the reference for
//! every other store: what a lookup finds and what a change leaves behind is
//! stated here once, over the plain sequence of records.

use crate::auth::flow::user_of;
use crate::auth::model::AuthProvider;
use crate::auth::verification::{expiry_check, TokenPurpose};
use crate::errors::{http_error, HttpErrorView, STATUS_BAD_REQUEST};
use crate::text::same_text;
use crate::users::model::{new_local_user, new_oauth_user, text_of, User, UserRole, UserView};
use vstd::prelude::*;
use vstd::string::*;

verus! {

/// What a user record is looked up by.
#[derive(Debug)]
pub enum UserKey {
    Id(String),
    Name(String),
    Email(String),
    Token(String),
}

/// The mathematical content of a [`UserKey`].
pub ghost enum UserKeyView {
    Id(Seq<char>),
    Name(Seq<char>),
    Email(Seq<char>),
    Token(Seq<char>),
}

impl View for UserKey {
    type V = UserKeyView;

    open spec fn view(&self) -> UserKeyView {
        match self {
            UserKey::Id(id) => UserKeyView::Id(id@),
            UserKey::Name(name) => UserKeyView::Name(name@),
            UserKey::Email(email) => UserKeyView::Email(email@),
            UserKey::Token(token) => UserKeyView::Token(token@),
        }
    }
}

/// The key that a lookup goes by when several are offered: the identifier
/// before the name, the name before the address, the address before the
/// token.
pub open spec fn select_key(
    user_id: Option<Seq<char>>,
    name: Option<Seq<char>>,
    email: Option<Seq<char>>,
    token: Option<Seq<char>>,
) -> Option<UserKeyView> {
    match user_id {
        Some(id) => Some(UserKeyView::Id(id)),
        None => match name {
            Some(n) => Some(UserKeyView::Name(n)),
            None => match email {
                Some(e) => Some(UserKeyView::Email(e)),
                None => match token {
                    Some(t) => Some(UserKeyView::Token(t)),
                    None => None,
                },
            },
        },
    }
}

/// The content of an optional key.
pub open spec fn key_of(o: Option<UserKey>) -> Option<UserKeyView> {
    match o {
        Some(k) => Some(k@),
        None => None,
    }
}

impl UserKey {
    /// Chooses the key that a lookup goes by when several are offered.
    pub fn select(
        user_id: Option<String>,
        name: Option<String>,
        email: Option<String>,
        token: Option<String>,
    ) -> (r: Option<UserKey>)
        ensures
            key_of(r) == select_key(text_of(user_id), text_of(name), text_of(email), text_of(token)),
    {
        match user_id {
            Some(id) => Some(UserKey::Id(id)),
            None => match name {
                Some(n) => Some(UserKey::Name(n)),
                None => match email {
                    Some(e) => Some(UserKey::Email(e)),
                    None => match token {
                        Some(t) => Some(UserKey::Token(t)),
                        None => None,
                    },
                },
            },
        }
    }
}

/// Whether a record answers to a key.
pub open spec fn key_matches(user: UserView, key: UserKeyView) -> bool {
    match key {
        UserKeyView::Id(id) => user.id == id,
        UserKeyView::Name(name) => user.name == name,
        UserKeyView::Email(email) => user.email == email,
        UserKeyView::Token(token) => user.verification_token == Some(token),
    }
}

/// The first record that answers to a key.
pub open spec fn first_match(users: Seq<UserView>, key: UserKeyView) -> Option<UserView>
    decreases users.len(),
{
    if users.len() == 0 {
        None
    } else if key_matches(users[0], key) {
        Some(users[0])
    } else {
        first_match(users.drop_first(), key)
    }
}

/// How many records hold a token.
pub open spec fn count_token(users: Seq<UserView>, token: Seq<char>) -> nat
    decreases users.len(),
{
    if users.len() == 0 {
        0
    } else {
        count_token(users.drop_last(), token) + if users.last().verification_token == Some(token) {
            1nat
        } else {
            0nat
        }
    }
}

/// How many records carry an identifier.
pub open spec fn count_id(users: Seq<UserView>, id: Seq<char>) -> nat
    decreases users.len(),
{
    if users.len() == 0 {
        0
    } else {
        count_id(users.drop_last(), id) + if users.last().id == id {
            1nat
        } else {
            0nat
        }
    }
}

/// The records after a token was consumed at `now` for the given purpose:
/// every record that held it is verified and holds no token any more, and
/// its role is what the purpose makes of it; the others are untouched.
pub open spec fn consume_token(
    users: Seq<UserView>,
    token: Seq<char>,
    purpose: TokenPurpose,
    now: i64,
) -> Seq<UserView> {
    users.map_values(
        |u: UserView|
            if u.verification_token == Some(token) {
                u.consumed(purpose, now)
            } else {
                u
            },
    )
}

/// The records after a token was put on the record with the given
/// identifier.
pub open spec fn grant_token(
    users: Seq<UserView>,
    id: Seq<char>,
    token: Seq<char>,
    expires_at: i64,
    now: i64,
) -> Seq<UserView> {
    users.map_values(
        |u: UserView|
            if u.id == id {
                u.with_token(token, expires_at, now)
            } else {
                u
            },
    )
}

/// The records after the record with the given identifier got another
/// password hash.
pub open spec fn set_password(users: Seq<UserView>, id: Seq<char>, hash: Seq<char>, now: i64) -> Seq<
    UserView,
> {
    users.map_values(
        |u: UserView|
            if u.id == id {
                u.with_password(hash, now)
            } else {
                u
            },
    )
}

/// The records after the record with the given identifier got another role.
pub open spec fn set_role(users: Seq<UserView>, id: Seq<char>, role: UserRole, now: i64) -> Seq<
    UserView,
> {
    users.map_values(
        |u: UserView|
            if u.id == id {
                u.with_role(role, now)
            } else {
                u
            },
    )
}

/// The records after the record with the given identifier got another name.
pub open spec fn set_name(users: Seq<UserView>, id: Seq<char>, name: Seq<char>, now: i64) -> Seq<
    UserView,
> {
    users.map_values(
        |u: UserView|
            if u.id == id {
                u.with_name(name, now)
            } else {
                u
            },
    )
}

/// A change to the records that a key selects.
#[derive(Debug)]
pub enum Change {
    /// Clear the token on the records that hold it and mark them verified;
    /// lift their role where the purpose of the token asks for it.
    Consume { token: String, purpose: TokenPurpose },
    /// Put a token and its expiry on the record with the identifier.
    Grant { id: String, token: String, expires_at: i64 },
    /// Store another password hash on the record with the identifier.
    Password { id: String, hash: String },
    /// Give the record with the identifier another role.
    Role { id: String, role: UserRole },
    /// Give the record with the identifier another name.
    Name { id: String, name: String },
}

/// The mathematical content of a [`Change`].
pub ghost enum ChangeView {
    Consume { token: Seq<char>, purpose: TokenPurpose },
    Grant { id: Seq<char>, token: Seq<char>, expires_at: i64 },
    Password { id: Seq<char>, hash: Seq<char> },
    Role { id: Seq<char>, role: UserRole },
    Name { id: Seq<char>, name: Seq<char> },
}

impl View for Change {
    type V = ChangeView;

    open spec fn view(&self) -> ChangeView {
        match self {
            Change::Consume { token, purpose } => ChangeView::Consume {
                token: token@,
                purpose: *purpose,
            },
            Change::Grant { id, token, expires_at } => ChangeView::Grant {
                id: id@,
                token: token@,
                expires_at: *expires_at,
            },
            Change::Password { id, hash } => ChangeView::Password { id: id@, hash: hash@ },
            Change::Role { id, role } => ChangeView::Role { id: id@, role: *role },
            Change::Name { id, name } => ChangeView::Name { id: id@, name: name@ },
        }
    }
}

impl ChangeView {
    /// Whether the change applies to a record.
    pub open spec fn touches(self, user: UserView) -> bool {
        match self {
            ChangeView::Consume { token, .. } => user.verification_token == Some(token),
            ChangeView::Grant { id, .. } => user.id == id,
            ChangeView::Password { id, .. } => user.id == id,
            ChangeView::Role { id, .. } => user.id == id,
            ChangeView::Name { id, .. } => user.id == id,
        }
    }

    /// The record after the change was applied to it at `now`.
    pub open spec fn changed(self, user: UserView, now: i64) -> UserView {
        match self {
            ChangeView::Consume { token, purpose } => user.consumed(purpose, now),
            ChangeView::Grant { id, token, expires_at } => user.with_token(token, expires_at, now),
            ChangeView::Password { id, hash } => user.with_password(hash, now),
            ChangeView::Role { id, role } => user.with_role(role, now),
            ChangeView::Name { id, name } => user.with_name(name, now),
        }
    }

    /// What the change makes of a record: the changed record where the
    /// change applies, the record itself where it does not.
    pub open spec fn of(self, user: UserView, now: i64) -> UserView {
        if self.touches(user) {
            self.changed(user, now)
        } else {
            user
        }
    }

    /// The key by which the change selects its records.
    pub open spec fn key(self) -> UserKeyView {
        match self {
            ChangeView::Consume { token, .. } => UserKeyView::Token(token),
            ChangeView::Grant { id, .. } => UserKeyView::Id(id),
            ChangeView::Password { id, .. } => UserKeyView::Id(id),
            ChangeView::Role { id, .. } => UserKeyView::Id(id),
            ChangeView::Name { id, .. } => UserKeyView::Id(id),
        }
    }
}

/// The records after a change was applied at `now`.
pub open spec fn apply_change(users: Seq<UserView>, change: ChangeView, now: i64) -> Seq<UserView> {
    users.map_values(|u: UserView| change.of(u, now))
}

/// How many records a change applies to.
pub open spec fn count_touched(users: Seq<UserView>, change: ChangeView) -> nat
    decreases users.len(),
{
    if users.len() == 0 {
        0
    } else {
        count_touched(users.drop_last(), change) + if change.touches(users.last()) {
            1nat
        } else {
            0nat
        }
    }
}

/// No identifier and no address occurs twice.
pub open spec fn unique_keys(users: Seq<UserView>) -> bool {
    forall|i: int, j: int|
        0 <= i < j < users.len() ==> (#[trigger] users[i]).id != (#[trigger] users[j]).id
            && users[i].email != users[j].email
}

/// Whether a new record would clash with one that is there.
pub open spec fn clashes(users: Seq<UserView>, id: Seq<char>, email: Seq<char>) -> bool {
    exists|i: int| 0 <= i < users.len() && ((#[trigger] users[i]).id == id || users[i].email == email)
}

/// The contents of a list of records.
pub open spec fn users_view(users: Seq<User>) -> Seq<UserView> {
    users.map_values(|u: User| u@)
}

/// Why the store refused a change.
#[derive(Debug, Clone, Copy, PartialEq, Eq, Structural)]
pub enum StoreError {
    /// A record with the same identifier or the same address is there
    /// already.
    Duplicate,
    /// No record carries the identifier.
    NotFound,
}

impl StoreError {
    /// The sentence that describes the refusal.
    pub open spec fn text(self) -> Seq<char> {
        match self {
            StoreError::Duplicate => "duplicate key value violates unique constraint"@,
            StoreError::NotFound => "no rows returned by a query that expected to return at least one row"@,
        }
    }

    /// Renders the refusal as a sentence.
    pub fn to_string(&self) -> (r: String)
        ensures
            r@ == self.text(),
    {
        match self {
            StoreError::Duplicate => String::from_str(
                "duplicate key value violates unique constraint",
            ),
            StoreError::NotFound => String::from_str(
                "no rows returned by a query that expected to return at least one row",
            ),
        }
    }
}

/// Whether the first record that answers to `key` is the one at `i`.
pub proof fn lemma_first_match_at(users: Seq<UserView>, key: UserKeyView, i: int)
    requires
        0 <= i < users.len(),
        key_matches(users[i], key),
        forall|j: int| 0 <= j < i ==> !key_matches(#[trigger] users[j], key),
    ensures
        first_match(users, key) == Some(users[i]),
    decreases users.len(),
{
    if i > 0 {
        let rest = users.drop_first();
        assert(rest[i - 1] == users[i]);
        assert forall|j: int| 0 <= j < i - 1 implies !key_matches(#[trigger] rest[j], key) by {
            assert(rest[j] == users[j + 1]);
        }
        lemma_first_match_at(rest, key, i - 1);
    }
}

/// No record answers to `key` exactly if the lookup finds none.
pub proof fn lemma_first_match_none(users: Seq<UserView>, key: UserKeyView)
    ensures
        first_match(users, key) is None <==> forall|j: int|
            0 <= j < users.len() ==> !key_matches(#[trigger] users[j], key),
        first_match(users, key) matches Some(u) ==> key_matches(u, key) && users.contains(u),
    decreases users.len(),
{
    if users.len() > 0 {
        let rest = users.drop_first();
        lemma_first_match_none(rest, key);
        if key_matches(users[0], key) {
            assert(users.contains(users[0]));
        } else {
            assert forall|j: int| 0 <= j < rest.len() implies rest[j] == users[j + 1] by {}
            if first_match(rest, key) is None {
                assert forall|j: int| 0 <= j < users.len() implies !key_matches(
                    #[trigger] users[j],
                    key,
                ) by {
                    if j > 0 {
                        assert(rest[j - 1] == users[j]);
                    }
                }
            } else {
                let u = first_match(rest, key)->Some_0;
                let k = choose|k: int| 0 <= k < rest.len() && rest[k] == u;
                assert(users[k + 1] == u);
                assert(key_matches(users[k + 1], key));
            }
        }
    }
}

/// No record holds a token exactly if the count of its holders is zero.
pub proof fn lemma_count_token_zero(users: Seq<UserView>, token: Seq<char>)
    ensures
        count_token(users, token) == 0 <==> forall|j: int|
            0 <= j < users.len() ==> (#[trigger] users[j]).verification_token != Some(token),
    decreases users.len(),
{
    if users.len() > 0 {
        let rest = users.drop_last();
        lemma_count_token_zero(rest, token);
        assert forall|j: int| 0 <= j < rest.len() implies rest[j] == users[j] by {}
        if count_token(users, token) == 0 {
            assert forall|j: int| 0 <= j < users.len() implies (#[trigger] users[j]).verification_token
                != Some(token) by {
                if j < rest.len() {
                    assert(rest[j] == users[j]);
                }
            }
        } else if users.last().verification_token != Some(token) {
            let j = choose|j: int|
                0 <= j < rest.len() && (#[trigger] rest[j]).verification_token == Some(token);
            assert(users[j].verification_token == Some(token));
        }
    }
}

/// A token is good for one use, whatever it was issued for: once it was
/// consumed, every record that held it is verified and holds no token, no
/// lookup finds the token any more, and consuming it again, for whatever
/// purpose, touches nothing. Of the records that held it, identifier,
/// address, password and provider stay; the role changes only as the
/// purpose asks. Every other record stays as it is.
pub proof fn token_is_single_use(
    users: Seq<UserView>,
    token: Seq<char>,
    purpose: TokenPurpose,
    again: TokenPurpose,
    now: i64,
    later: i64,
)
    ensures
        ({
            let after = consume_token(users, token, purpose, now);
            &&& after.len() == users.len()
            &&& forall|i: int|
                0 <= i < users.len() && (#[trigger] users[i]).verification_token == Some(token)
                    ==> after[i].verified && after[i].verification_token is None
                    && after[i].token_expires_at is None && after[i].role == users[i].role_after(
                    purpose,
                ) && after[i].id == users[i].id && after[i].email == users[i].email
                    && after[i].password == users[i].password && after[i].provider
                    == users[i].provider
            &&& forall|i: int|
                0 <= i < users.len() && (#[trigger] users[i]).verification_token != Some(token)
                    ==> after[i] == users[i]
            &&& first_match(after, UserKeyView::Token(token)) is None
            &&& count_token(after, token) == 0
            &&& consume_token(after, token, again, later) == after
        }),
{
    let after = consume_token(users, token, purpose, now);
    assert forall|j: int| 0 <= j < after.len() implies (#[trigger] after[j]).verification_token
        != Some(token) by {}
    lemma_first_match_none(after, UserKeyView::Token(token));
    assert forall|j: int| 0 <= j < after.len() implies !key_matches(
        #[trigger] after[j],
        UserKeyView::Token(token),
    ) by {}
    lemma_count_token_zero(after, token);
    assert(consume_token(after, token, again, later) =~= after);
}

/// An expired token is rejected though it can still be found: as long as
/// some record holds a token, a lookup by the token finds a record that
/// holds it, whatever the clock reads; and if the expiry of the record that
/// was found lies in the past, the check of the expiry fails and says so.
pub proof fn expired_token_is_found_but_rejected(
    users: Seq<UserView>,
    token: Seq<char>,
    i: int,
    now: int,
)
    requires
        0 <= i < users.len(),
        users[i].verification_token == Some(token),
    ensures
        first_match(users, UserKeyView::Token(token)) matches Some(found)
            && found.verification_token == Some(token) && (found.token_expires_at matches Some(
            expires_at,
        ) && expires_at < now ==> expiry_check(found.token_expires_at, now) == Err::<
            (),
            HttpErrorView,
        >(http_error(STATUS_BAD_REQUEST, "Verification token has expired"@))),
{
    lemma_first_match_none(users, UserKeyView::Token(token));
    assert(key_matches(users[i], UserKeyView::Token(token)));
}

/// The user records, kept in memory in the order in which they were stored.
#[derive(Debug)]
pub struct UserService {
    users: Vec<User>,
}

impl View for UserService {
    type V = Seq<UserView>;

    closed spec fn view(&self) -> Seq<UserView> {
        users_view(self.users@)
    }
}

impl UserService {
    /// The store keeps its promise: no identifier and no address twice.
    pub open spec fn well_formed(&self) -> bool {
        unique_keys(self@)
    }

    /// An empty store.
    pub fn new() -> (r: UserService)
        ensures
            r@ == Seq::<UserView>::empty(),
            r.well_formed(),
    {
        let r = UserService { users: Vec::new() };
        assert(r@ =~= Seq::<UserView>::empty());
        r
    }

    /// The number of records.
    pub fn get_user_count(&self) -> (r: usize)
        ensures
            r == self@.len(),
    {
        self.users.len()
    }

    /// Whether a record answers to a key.
    fn answers(user: &User, key: &UserKey) -> (r: bool)
        ensures
            r == key_matches(user@, key@),
    {
        match key {
            UserKey::Id(id) => user.id == *id,
            UserKey::Name(name) => user.name == *name,
            UserKey::Email(email) => user.email == *email,
            UserKey::Token(token) => match &user.verification_token {
                Some(held) => *held == *token,
                None => false,
            },
        }
    }

    /// Looks a record up: the first that answers to the key.
    pub fn find(&self, key: &UserKey) -> (r: Option<User>)
        ensures
            user_of(r) == first_match(self@, key@),
    {
        let mut i: usize = 0;
        while i < self.users.len()
            invariant
                i <= self.users.len(),
                forall|j: int| 0 <= j < i ==> !key_matches(#[trigger] self@[j], key@),
            decreases self.users.len() - i,
        {
            if Self::answers(&self.users[i], key) {
                proof {
                    assert(self@[i as int] == self.users@[i as int]@);
                    lemma_first_match_at(self@, key@, i as int);
                }
                return Some(self.users[i].duplicate());
            }
            assert(self@[i as int] == self.users@[i as int]@);
            i = i + 1;
        }
        proof {
            lemma_first_match_none(self@, key@);
        }
        None
    }

    /// Looks a record up by the first key that is offered: the identifier
    /// before the name, the name before the address, the address before the
    /// token. Without any key nothing is found.
    pub fn get_user(
        &self,
        user_id: Option<String>,
        name: Option<String>,
        email: Option<String>,
        token: Option<String>,
    ) -> (r: Option<User>)
        ensures
            user_of(r) == (match select_key(
                text_of(user_id),
                text_of(name),
                text_of(email),
                text_of(token),
            ) {
                Some(key) => first_match(self@, key),
                None => None,
            }),
    {
        match UserKey::select(user_id, name, email, token) {
            Some(key) => self.find(&key),
            None => None,
        }
    }

    /// Whether a new record would clash with one that is there.
    fn has_clash(&self, id: &str, email: &str) -> (r: bool)
        ensures
            r == clashes(self@, id@, email@),
    {
        let mut i: usize = 0;
        while i < self.users.len()
            invariant
                i <= self.users.len(),
                forall|j: int|
                    0 <= j < i ==> (#[trigger] self@[j]).id != id@ && self@[j].email != email@,
            decreases self.users.len() - i,
        {
            assert(self@[i as int] == self.users@[i as int]@);
            if same_text(self.users[i].id.as_str(), id) || same_text(
                self.users[i].email.as_str(),
                email,
            ) {
                return true;
            }
            i = i + 1;
        }
        false
    }

    /// Stores a record unless it clashes with one that is there.
    fn insert(&mut self, user: User) -> (r: Result<User, StoreError>)
        requires
            old(self).well_formed(),
        ensures
            final(self).well_formed(),
            clashes(old(self)@, user@.id, user@.email) ==> r == Err::<User, StoreError>(
                StoreError::Duplicate,
            ) && final(self)@ == old(self)@,
            !clashes(old(self)@, user@.id, user@.email) ==> r is Ok && r->Ok_0@ == user@
                && final(self)@ == old(self)@.push(user@),
    {
        if self.has_clash(user.id.as_str(), user.email.as_str()) {
            return Err(StoreError::Duplicate);
        }
        let copy = user.duplicate();
        self.users.push(user);
        proof {
            assert(self@ =~= old(self)@.push(copy@));
        }
        Ok(copy)
    }

    /// Stores a new local account under the identifier `id` at `now`:
    /// unverified, in the lowest role, with its first token. A record with
    /// the same identifier or address is never stored twice.
    pub fn save_user(
        &mut self,
        id: String,
        name: String,
        email: String,
        password: String,
        verification_token: String,
        token_expires_at: i64,
        now: i64,
    ) -> (r: Result<User, StoreError>)
        requires
            old(self).well_formed(),
        ensures
            final(self).well_formed(),
            ({
                let user = new_local_user(
                    id@,
                    name@,
                    email@,
                    password@,
                    verification_token@,
                    token_expires_at,
                    now,
                );
                if clashes(old(self)@, id@, email@) {
                    r == Err::<User, StoreError>(StoreError::Duplicate) && final(self)@ == old(
                        self,
                    )@
                } else {
                    r is Ok && r->Ok_0@ == user && final(self)@ == old(self)@.push(user)
                }
            }),
    {
        self.insert(
            User {
                id,
                name,
                email,
                password,
                role: UserRole::Guest,
                verified: false,
                verification_token: Some(verification_token),
                token_expires_at: Some(token_expires_at),
                provider: AuthProvider::Local,
                created_at: Some(now),
                updated_at: Some(now),
            },
        )
    }

    /// Stores a new account that an identity provider vouches for, under
    /// the identifier `id` at `now`: verified, without password and without
    /// token. A record with the same identifier or address is never stored
    /// twice.
    pub fn save_oauth_user(
        &mut self,
        id: String,
        name: String,
        email: String,
        provider: AuthProvider,
        now: i64,
    ) -> (r: Result<User, StoreError>)
        requires
            old(self).well_formed(),
        ensures
            final(self).well_formed(),
            ({
                let user = new_oauth_user(id@, name@, email@, provider, now);
                if clashes(old(self)@, id@, email@) {
                    r == Err::<User, StoreError>(StoreError::Duplicate) && final(self)@ == old(
                        self,
                    )@
                } else {
                    r is Ok && r->Ok_0@ == user && final(self)@ == old(self)@.push(user)
                }
            }),
    {
        let password = String::from_str("");
        proof {
            reveal_strlit("");
            assert(password@ =~= Seq::<char>::empty());
        }
        self.insert(
            User {
                id,
                name,
                email,
                password,
                role: UserRole::Guest,
                verified: true,
                verification_token: None,
                token_expires_at: None,
                provider,
                created_at: Some(now),
                updated_at: Some(now),
            },
        )
    }

    /// Applies a change to a copy of a record.
    fn change_user(user: &User, change: &Change, now: i64) -> (r: (User, bool))
        ensures
            r.0@ == change@.of(user@, now),
            r.1 == change@.touches(user@),
    {
        let mut copy = user.duplicate();
        let touched = match change {
            Change::Consume { token, .. } => match &user.verification_token {
                Some(held) => *held == *token,
                None => false,
            },
            Change::Grant { id, .. } => user.id == *id,
            Change::Password { id, .. } => user.id == *id,
            Change::Role { id, .. } => user.id == *id,
            Change::Name { id, .. } => user.id == *id,
        };
        if touched {
            copy.updated_at = Some(now);
            match change {
                Change::Consume { token, purpose } => {
                    copy.verified = true;
                    copy.verification_token = None;
                    copy.token_expires_at = None;
                    match purpose {
                        TokenPurpose::NewAccount => {
                            copy.role = user.role.promote();
                        },
                        TokenPurpose::PasswordReset => {},
                    }
                },
                Change::Grant { id, token, expires_at } => {
                    copy.verification_token = Some(token.clone());
                    copy.token_expires_at = Some(*expires_at);
                },
                Change::Password { id, hash } => {
                    copy.password = hash.clone();
                },
                Change::Role { id, role } => {
                    copy.role = *role;
                },
                Change::Name { id, name } => {
                    copy.name = name.clone();
                },
            }
        }
        (copy, touched)
    }

    /// Applies a change at `now` to every record that it selects, and
    /// reports how many records that were.
    pub fn apply(&mut self, change: &Change, now: i64) -> (r: usize)
        requires
            old(self).well_formed(),
        ensures
            final(self).well_formed(),
            final(self)@ == apply_change(old(self)@, change@, now),
            r == count_touched(old(self)@, change@),
    {
        let mut next: Vec<User> = Vec::new();
        let mut touched: usize = 0;
        let mut i: usize = 0;
        proof {
            assert(self@.take(0) =~= Seq::<UserView>::empty());
        }
        while i < self.users.len()
            invariant
                i <= self.users.len(),
                next@.len() == i,
                touched <= i,
                touched == count_touched(self@.take(i as int), change@),
                forall|j: int| 0 <= j < i ==> (#[trigger] next@[j])@ == change@.of(self@[j], now),
            decreases self.users.len() - i,
        {
            let (copy, hit) = Self::change_user(&self.users[i], change, now);
            proof {
                assert(self@[i as int] == self.users@[i as int]@);
                let upto = self@.take(i + 1);
                assert(upto.drop_last() =~= self@.take(i as int));
                assert(upto.last() == self@[i as int]);
            }
            if hit {
                touched = touched + 1;
            }
            next.push(copy);
            i = i + 1;
        }
        proof {
            assert(self@.take(i as int) =~= self@);
            assert(users_view(next@) =~= apply_change(self@, change@, now));
            let after = users_view(next@);
            assert forall|a: int, b: int| 0 <= a < b < after.len() implies (#[trigger] after[a]).id
                != (#[trigger] after[b]).id && after[a].email != after[b].email by {
                assert(after[a].id == self@[a].id && after[a].email == self@[a].email);
                assert(after[b].id == self@[b].id && after[b].email == self@[b].email);
            }
        }
        self.users = next;
        touched
    }

    /// Consumes a token at `now` for the given purpose, all in one step:
    /// every record that holds it loses it and becomes verified. Where the
    /// token confirms a new account, the record is also lifted from the
    /// lowest role to the standard one; where it resets a password, the role
    /// stays as it is. Returns how many records held the token; a token that
    /// was consumed is held by none.
    pub fn verifed_token(&mut self, token: &str, purpose: TokenPurpose, now: i64) -> (r: usize)
        requires
            old(self).well_formed(),
        ensures
            final(self).well_formed(),
            final(self)@ == consume_token(old(self)@, token@, purpose, now),
            final(self)@.len() == old(self)@.len(),
            forall|i: int|
                0 <= i < old(self)@.len() ==> #[trigger] final(self)@[i] == if old(
                    self,
                )@[i].verification_token == Some(token@) {
                    old(self)@[i].consumed(purpose, now)
                } else {
                    old(self)@[i]
                },
            r == count_token(old(self)@, token@),
            count_token(final(self)@, token@) == 0,
            first_match(final(self)@, UserKeyView::Token(token@)) is None,
    {
        let change = Change::Consume { token: String::from_str(token), purpose };
        proof {
            lemma_count_token_is_touched(self@, token@, purpose);
            assert(apply_change(self@, change@, now) =~= consume_token(
                self@,
                token@,
                purpose,
                now,
            ));
            token_is_single_use(self@, token@, purpose, purpose, now, now);
        }
        self.apply(&change, now)
    }

    /// Puts a token and its expiry on the record with the identifier
    /// `user_id`, and returns how many records carry that identifier: one
    /// or none.
    pub fn add_verifed_token(
        &mut self,
        user_id: &str,
        token: &str,
        token_expires_at: i64,
        now: i64,
    ) -> (r: usize)
        requires
            old(self).well_formed(),
        ensures
            final(self).well_formed(),
            final(self)@ == grant_token(old(self)@, user_id@, token@, token_expires_at, now),
            r == count_id(old(self)@, user_id@),
            r <= 1,
    {
        let change = Change::Grant {
            id: String::from_str(user_id),
            token: String::from_str(token),
            expires_at: token_expires_at,
        };
        proof {
            lemma_count_id_is_touched(self@, change@, user_id@);
            lemma_count_id_at_most_one(self@, user_id@);
            assert(apply_change(self@, change@, now) =~= grant_token(
                self@,
                user_id@,
                token@,
                token_expires_at,
                now,
            ));
        }
        self.apply(&change, now)
    }

    /// Applies a change to the one record with the identifier `id` and hands
    /// the changed record back; without such a record nothing changes.
    fn update(&mut self, id: &str, change: &Change, now: i64) -> (r: Result<User, StoreError>)
        requires
            old(self).well_formed(),
            change@.key() == UserKeyView::Id(id@),
        ensures
            final(self).well_formed(),
            final(self)@ == apply_change(old(self)@, change@, now),
            match first_match(old(self)@, UserKeyView::Id(id@)) {
                Some(u) => r is Ok && r->Ok_0@ == change@.changed(u, now),
                None => r == Err::<User, StoreError>(StoreError::NotFound) && final(self)@ == old(
                    self,
                )@,
            },
    {
        let key = UserKey::Id(String::from_str(id));
        match self.find(&key) {
            None => {
                proof {
                    lemma_first_match_none(self@, key@);
                    assert(apply_change(self@, change@, now) =~= self@);
                }
                Err(StoreError::NotFound)
            },
            Some(found) => {
                let (changed, hit) = Self::change_user(&found, change, now);
                proof {
                    lemma_first_match_none(self@, key@);
                }
                self.apply(change, now);
                Ok(changed)
            },
        }
    }

    /// Stores another password hash on the record with the identifier
    /// `user_id` and hands the record back.
    pub fn update_user_password(
        &mut self,
        user_id: &str,
        new_password: String,
        now: i64,
    ) -> (r: Result<User, StoreError>)
        requires
            old(self).well_formed(),
        ensures
            final(self).well_formed(),
            final(self)@ == set_password(old(self)@, user_id@, new_password@, now),
            match first_match(old(self)@, UserKeyView::Id(user_id@)) {
                Some(u) => r is Ok && r->Ok_0@ == u.with_password(new_password@, now),
                None => r == Err::<User, StoreError>(StoreError::NotFound) && final(self)@ == old(
                    self,
                )@,
            },
    {
        let change = Change::Password { id: String::from_str(user_id), hash: new_password };
        proof {
            assert(apply_change(self@, change@, now) =~= set_password(
                self@,
                user_id@,
                new_password@,
                now,
            ));
        }
        self.update(user_id, &change, now)
    }

    /// Gives the record with the identifier `user_id` another role and hands
    /// the record back.
    pub fn update_user_role(&mut self, user_id: &str, new_role: UserRole, now: i64) -> (r: Result<
        User,
        StoreError,
    >)
        requires
            old(self).well_formed(),
        ensures
            final(self).well_formed(),
            final(self)@ == set_role(old(self)@, user_id@, new_role, now),
            match first_match(old(self)@, UserKeyView::Id(user_id@)) {
                Some(u) => r is Ok && r->Ok_0@ == u.with_role(new_role, now),
                None => r == Err::<User, StoreError>(StoreError::NotFound) && final(self)@ == old(
                    self,
                )@,
            },
    {
        let change = Change::Role { id: String::from_str(user_id), role: new_role };
        proof {
            assert(apply_change(self@, change@, now) =~= set_role(self@, user_id@, new_role, now));
        }
        self.update(user_id, &change, now)
    }

    /// Gives the record with the identifier `user_id` another name and hands
    /// the record back.
    pub fn update_user_name(&mut self, user_id: &str, new_name: String, now: i64) -> (r: Result<
        User,
        StoreError,
    >)
        requires
            old(self).well_formed(),
        ensures
            final(self).well_formed(),
            final(self)@ == set_name(old(self)@, user_id@, new_name@, now),
            match first_match(old(self)@, UserKeyView::Id(user_id@)) {
                Some(u) => r is Ok && r->Ok_0@ == u.with_name(new_name@, now),
                None => r == Err::<User, StoreError>(StoreError::NotFound) && final(self)@ == old(
                    self,
                )@,
            },
    {
        let change = Change::Name { id: String::from_str(user_id), name: new_name };
        proof {
            assert(apply_change(self@, change@, now) =~= set_name(self@, user_id@, new_name@, now));
        }
        self.update(user_id, &change, now)
    }
}

/// The records that a consumption applies to are those that hold the token.
pub proof fn lemma_count_token_is_touched(
    users: Seq<UserView>,
    token: Seq<char>,
    purpose: TokenPurpose,
)
    ensures
        count_touched(users, ChangeView::Consume { token, purpose }) == count_token(users, token),
    decreases users.len(),
{
    if users.len() > 0 {
        lemma_count_token_is_touched(users.drop_last(), token, purpose);
    }
}

/// The records that a change by identifier applies to are those that carry
/// the identifier.
pub proof fn lemma_count_id_is_touched(users: Seq<UserView>, change: ChangeView, id: Seq<char>)
    requires
        change.key() == UserKeyView::Id(id),
    ensures
        count_touched(users, change) == count_id(users, id),
    decreases users.len(),
{
    if users.len() > 0 {
        lemma_count_id_is_touched(users.drop_last(), change, id);
    }
}

/// Where no identifier occurs twice, at most one record carries a given
/// identifier.
pub proof fn lemma_count_id_at_most_one(users: Seq<UserView>, id: Seq<char>)
    requires
        unique_keys(users),
    ensures
        count_id(users, id) <= 1,
        count_id(users, id) == 1 ==> exists|i: int| 0 <= i < users.len() && (#[trigger] users[i]).id == id,
        count_id(users, id) == 0 ==> forall|i: int| 0 <= i < users.len() ==> (#[trigger] users[i]).id != id,
    decreases users.len(),
{
    if users.len() > 0 {
        let rest = users.drop_last();
        assert forall|i: int, j: int| 0 <= i < j < rest.len() implies (#[trigger] rest[i]).id != (
        #[trigger] rest[j]).id && rest[i].email != rest[j].email by {
            assert(rest[i] == users[i] && rest[j] == users[j]);
        }
        lemma_count_id_at_most_one(rest, id);
        if users.last().id == id {
            if count_id(rest, id) == 1 {
                let i = choose|i: int| 0 <= i < rest.len() && (#[trigger] rest[i]).id == id;
                assert(users[i] == rest[i]);
                assert(users[i].id == users[users.len() - 1].id);
            }
            assert(users[users.len() - 1].id == id);
        } else {
            if count_id(rest, id) == 1 {
                let i = choose|i: int| 0 <= i < rest.len() && (#[trigger] rest[i]).id == id;
                assert(users[i] == rest[i]);
            }
            assert forall|i: int| 0 <= i < users.len() && count_id(users, id) == 0 implies (
            #[trigger] users[i]).id != id by {
                if i < rest.len() {
                    assert(users[i] == rest[i]);
                }
            }
        }
    }
}

} // verus!
