//! The records the service keeps: users, identity links, roles, role memberships,
//! sessions and permissions. Instants are seconds since the Unix epoch.

use vstd::prelude::*;
use vstd::string::*;
use crate::system::{new_id, unix_now};
use crate::text::text_before;

verus! {

/// A role that users can hold.
#[derive(Debug)]
pub struct Role {
    pub id: String,
    pub name: String,
    pub is_default: bool,
    pub created_at: i64,
    pub updated_at: i64,
    pub deleted_at: Option<i64>,
}

/// What a [`Role`] holds, as plain values.
pub struct RoleView {
    pub id: Seq<char>,
    pub name: Seq<char>,
    pub is_default: bool,
    pub created_at: i64,
    pub updated_at: i64,
    pub deleted_at: Option<i64>,
}

impl View for Role {
    type V = RoleView;

    open spec fn view(&self) -> RoleView {
        RoleView {
            id: self.id@,
            name: self.name@,
            is_default: self.is_default,
            created_at: self.created_at,
            updated_at: self.updated_at,
            deleted_at: self.deleted_at,
        }
    }
}

impl Clone for Role {
    fn clone(&self) -> (r: Self)
        ensures
            r == *self,
    {
        Role {
            id: self.id.clone(),
            name: self.name.clone(),
            is_default: self.is_default,
            created_at: self.created_at,
            updated_at: self.updated_at,
            deleted_at: self.deleted_at,
        }
    }
}

impl Role {
    /// A live role created at the instant `now`.
    pub fn create(id: String, name: String, is_default: bool, now: i64) -> (r: Role)
        ensures
            r@ == (RoleView {
                id: id@,
                name: name@,
                is_default,
                created_at: now,
                updated_at: now,
                deleted_at: None,
            }),
    {
        Role { id, name, is_default, created_at: now, updated_at: now, deleted_at: None }
    }

    /// A live role stamped with the current time.
    pub fn new(id: String, name: String, is_default: bool) -> (r: Role)
        ensures
            r@.id == id@,
            r@.name == name@,
            r@.is_default == is_default,
            r@.deleted_at is None,
    {
        let created_at = unix_now();
        let updated_at = unix_now();
        Role { id, name, is_default, created_at, updated_at, deleted_at: None }
    }

    /// Renames the role and sets whether it is the default, as of `now`.
    pub fn update_at(&mut self, name: &str, is_default: bool, now: i64)
        ensures
            final(self)@ == (RoleView { name: name@, is_default, updated_at: now, ..old(self)@ }),
    {
        self.name = name.to_string();
        self.is_default = is_default;
        self.updated_at = now;
    }

    /// Renames the role and sets whether it is the default, stamped with the current time.
    pub fn update(&mut self, name: &str, is_default: bool)
        ensures
            final(self)@.name == name@,
            final(self)@.is_default == is_default,
            final(self)@.id == old(self)@.id,
            final(self)@.created_at == old(self)@.created_at,
            final(self)@.deleted_at == old(self)@.deleted_at,
    {
        let now = unix_now();
        self.update_at(name, is_default, now);
    }
}

/// A link between a local user and the identity it has with a sign-in mechanism.
#[derive(Debug)]
pub struct UserOauthProvider {
    pub id: String,
    pub user_id: String,
    pub provider: String,
    pub provider_user_id: String,
}

/// What a [`UserOauthProvider`] holds, as plain values.
pub struct UserOauthProviderView {
    pub id: Seq<char>,
    pub user_id: Seq<char>,
    pub provider: Seq<char>,
    pub provider_user_id: Seq<char>,
}

impl View for UserOauthProvider {
    type V = UserOauthProviderView;

    open spec fn view(&self) -> UserOauthProviderView {
        UserOauthProviderView {
            id: self.id@,
            user_id: self.user_id@,
            provider: self.provider@,
            provider_user_id: self.provider_user_id@,
        }
    }
}

impl Clone for UserOauthProvider {
    fn clone(&self) -> (r: Self)
        ensures
            r == *self,
    {
        UserOauthProvider {
            id: self.id.clone(),
            user_id: self.user_id.clone(),
            provider: self.provider.clone(),
            provider_user_id: self.provider_user_id.clone(),
        }
    }
}

impl UserOauthProvider {
    /// A link with the given identifier.
    pub fn create(id: String, user_id: String, provider: String, provider_id: String) -> (link:
        UserOauthProvider)
        ensures
            link@ == (UserOauthProviderView {
                id: id@,
                user_id: user_id@,
                provider: provider@,
                provider_user_id: provider_id@,
            }),
    {
        UserOauthProvider { id, user_id, provider, provider_user_id: provider_id }
    }

    /// A link with a fresh identifier.
    pub fn new(user_id: String, provider: String, provider_id: String) -> (link: UserOauthProvider)
        ensures
            link@.user_id == user_id@,
            link@.provider == provider@,
            link@.provider_user_id == provider_id@,
    {
        UserOauthProvider { id: new_id(), user_id, provider, provider_user_id: provider_id }
    }

    /// Points the link at another identity; the link keeps its identifier and its user.
    pub fn update(&mut self, provider: String, provider_id: String)
        ensures
            final(self)@ == (UserOauthProviderView {
                provider: provider@,
                provider_user_id: provider_id@,
                ..old(self)@
            }),
    {
        self.provider = provider;
        self.provider_user_id = provider_id;
    }
}

/// Membership of a user in a role.
#[derive(Clone, Debug)]
pub struct UserRole {
    pub user_id: String,
    pub role_id: String,
    pub created_at: i64,
    pub updated_at: i64,
}

/// What a [`UserRole`] holds, as plain values.
pub struct UserRoleView {
    pub user_id: Seq<char>,
    pub role_id: Seq<char>,
    pub created_at: i64,
    pub updated_at: i64,
}

impl View for UserRole {
    type V = UserRoleView;

    open spec fn view(&self) -> UserRoleView {
        UserRoleView {
            user_id: self.user_id@,
            role_id: self.role_id@,
            created_at: self.created_at,
            updated_at: self.updated_at,
        }
    }
}

impl UserRole {
    /// A membership recorded at the instant `now`.
    pub fn create(user_id: String, role_id: String, now: i64) -> (m: UserRole)
        ensures
            m@ == (UserRoleView {
                user_id: user_id@,
                role_id: role_id@,
                created_at: now,
                updated_at: now,
            }),
    {
        UserRole { user_id, role_id, created_at: now, updated_at: now }
    }

    /// A membership stamped with the current time.
    pub fn new(user_id: String, role_id: String) -> (m: UserRole)
        ensures
            m@.user_id == user_id@,
            m@.role_id == role_id@,
    {
        let created_at = unix_now();
        let updated_at = unix_now();
        UserRole { user_id, role_id, created_at, updated_at }
    }
}

/// The one session a user has: its current token pair and when it ends.
#[derive(Debug)]
pub struct UserSession {
    pub id: String,
    pub user_id: String,
    pub access_token: String,
    pub refresh_token: String,
    pub expires_at: Option<i64>,
    pub created_at: i64,
}

/// What a [`UserSession`] holds, as plain values.
pub struct UserSessionView {
    pub id: Seq<char>,
    pub user_id: Seq<char>,
    pub access_token: Seq<char>,
    pub refresh_token: Seq<char>,
    pub expires_at: Option<i64>,
    pub created_at: i64,
}

impl View for UserSession {
    type V = UserSessionView;

    open spec fn view(&self) -> UserSessionView {
        UserSessionView {
            id: self.id@,
            user_id: self.user_id@,
            access_token: self.access_token@,
            refresh_token: self.refresh_token@,
            expires_at: self.expires_at,
            created_at: self.created_at,
        }
    }
}

impl Clone for UserSession {
    fn clone(&self) -> (r: Self)
        ensures
            r == *self,
    {
        UserSession {
            id: self.id.clone(),
            user_id: self.user_id.clone(),
            access_token: self.access_token.clone(),
            refresh_token: self.refresh_token.clone(),
            expires_at: self.expires_at,
            created_at: self.created_at,
        }
    }
}

impl UserSession {
    /// A session with the given identifier, opened at the instant `now`.
    pub fn create(
        id: String,
        user_id: String,
        access_token: String,
        refresh_token: String,
        expires_at: Option<i64>,
        now: i64,
    ) -> (s: UserSession)
        ensures
            s@ == (UserSessionView {
                id: id@,
                user_id: user_id@,
                access_token: access_token@,
                refresh_token: refresh_token@,
                expires_at,
                created_at: now,
            }),
    {
        UserSession { id, user_id, access_token, refresh_token, expires_at, created_at: now }
    }

    /// A session with a fresh identifier, stamped with the current time.
    pub fn new(
        user_id: String,
        access_token: String,
        refresh_token: String,
        expires_at: Option<i64>,
    ) -> (s: UserSession)
        ensures
            s@.user_id == user_id@,
            s@.access_token == access_token@,
            s@.refresh_token == refresh_token@,
            s@.expires_at == expires_at,
    {
        UserSession {
            id: new_id(),
            user_id,
            access_token,
            refresh_token,
            expires_at,
            created_at: unix_now(),
        }
    }

    /// Replaces the token pair and the end of the session; the rest stays.
    pub fn update(&mut self, access_token: String, refresh_token: String, expires_at: Option<i64>)
        ensures
            final(self)@ == (UserSessionView {
                access_token: access_token@,
                refresh_token: refresh_token@,
                expires_at,
                ..old(self)@
            }),
    {
        self.access_token = access_token;
        self.refresh_token = refresh_token;
        self.expires_at = expires_at;
    }

    /// Whether the session has ended at the instant `now`: it has an end, and the end
    /// lies before `now`. A session without an end never expires.
    pub open spec fn expired_at(view: UserSessionView, now: i64) -> bool {
        view.expires_at matches Some(end) && end < now
    }

    /// Tells whether the session has ended at the instant `now`.
    pub fn is_expired(&self, now: i64) -> (expired: bool)
        ensures
            expired == Self::expired_at(self@, now),
    {
        match self.expires_at {
            Some(end) => end < now,
            None => false,
        }
    }
}

/// A user account.
#[derive(Debug)]
pub struct User {
    pub id: String,
    pub email: String,
    pub password_hash: Option<String>,
    pub fullname: Option<String>,
    pub avatar_url: Option<String>,
    pub is_active: bool,
    pub created_at: i64,
    pub updated_at: i64,
    pub deleted_at: Option<i64>,
}

/// What a [`User`] holds, as plain values.
pub struct UserView {
    pub id: Seq<char>,
    pub email: Seq<char>,
    pub password_hash: Option<Seq<char>>,
    pub fullname: Option<Seq<char>>,
    pub avatar_url: Option<Seq<char>>,
    pub is_active: bool,
    pub created_at: i64,
    pub updated_at: i64,
    pub deleted_at: Option<i64>,
}

/// The characters of an optional text.
pub open spec fn opt_text(t: Option<String>) -> Option<Seq<char>> {
    match t {
        Some(s) => Some(s@),
        None => None,
    }
}

impl View for User {
    type V = UserView;

    open spec fn view(&self) -> UserView {
        UserView {
            id: self.id@,
            email: self.email@,
            password_hash: opt_text(self.password_hash),
            fullname: opt_text(self.fullname),
            avatar_url: opt_text(self.avatar_url),
            is_active: self.is_active,
            created_at: self.created_at,
            updated_at: self.updated_at,
            deleted_at: self.deleted_at,
        }
    }
}

impl Clone for User {
    fn clone(&self) -> (r: Self)
        ensures
            r == *self,
    {
        User {
            id: self.id.clone(),
            email: self.email.clone(),
            password_hash: self.password_hash.clone(),
            fullname: self.fullname.clone(),
            avatar_url: self.avatar_url.clone(),
            is_active: self.is_active,
            created_at: self.created_at,
            updated_at: self.updated_at,
            deleted_at: self.deleted_at,
        }
    }
}

impl User {
    /// The display name derived from an address: what stands before its first `@`.
    pub open spec fn name_from_email(email: Seq<char>) -> Seq<char> {
        email.subrange(0, crate::text::first_index_of(email, '@'))
    }

    /// An active account with the given identifier, opened at the instant `now`.
    /// The display name is taken from the address.
    pub fn create(id: String, email: String, password_hash: Option<String>, now: i64) -> (u: User)
        ensures
            u@ == (UserView {
                id: id@,
                email: email@,
                password_hash: opt_text(password_hash),
                fullname: Some(Self::name_from_email(email@)),
                avatar_url: None,
                is_active: true,
                created_at: now,
                updated_at: now,
                deleted_at: None,
            }),
    {
        let name = text_before(email.as_str(), '@');
        User {
            id,
            email,
            password_hash,
            fullname: Some(name),
            avatar_url: None,
            is_active: true,
            created_at: now,
            updated_at: now,
            deleted_at: None,
        }
    }

    /// An active account with a fresh identifier, stamped with the current time.
    pub fn new(email: String, password_hash: Option<String>) -> (u: User)
        ensures
            u@.email == email@,
            u@.password_hash == opt_text(password_hash),
            u@.fullname == Some(Self::name_from_email(email@)),
            u@.avatar_url is None,
            u@.is_active,
            u@.deleted_at is None,
    {
        let name = text_before(email.as_str(), '@');
        User {
            id: new_id(),
            email,
            password_hash,
            fullname: Some(name),
            avatar_url: None,
            is_active: true,
            created_at: unix_now(),
            updated_at: unix_now(),
            deleted_at: None,
        }
    }

    /// Changes the address, as of `now`.
    pub fn change_email_at(&mut self, email: String, now: i64)
        ensures
            final(self)@ == (UserView { email: email@, updated_at: now, ..old(self)@ }),
    {
        self.email = email;
        self.updated_at = now;
    }

    /// Changes the address, stamped with the current time.
    pub fn change_email(&mut self, email: String)
        ensures
            final(self)@ == (UserView {
                email: email@,
                updated_at: final(self)@.updated_at,
                ..old(self)@
            }),
    {
        let now = unix_now();
        self.change_email_at(email, now);
    }

    /// Replaces display name and picture, as of `now`.
    pub fn update_at(&mut self, fullname: Option<String>, avatar_url: Option<String>, now: i64)
        ensures
            final(self)@ == (UserView {
                fullname: opt_text(fullname),
                avatar_url: opt_text(avatar_url),
                updated_at: now,
                ..old(self)@
            }),
    {
        self.fullname = fullname;
        self.avatar_url = avatar_url;
        self.updated_at = now;
    }

    /// Replaces display name and picture, stamped with the current time.
    pub fn update(&mut self, fullname: Option<String>, avatar_url: Option<String>)
        ensures
            final(self)@ == (UserView {
                fullname: opt_text(fullname),
                avatar_url: opt_text(avatar_url),
                updated_at: final(self)@.updated_at,
                ..old(self)@
            }),
    {
        let now = unix_now();
        self.update_at(fullname, avatar_url, now);
    }

    /// Deactivates the account and marks it deleted as of `now`. The record stays.
    pub fn delete_at(&mut self, now: i64)
        ensures
            final(self)@ == (UserView { is_active: false, deleted_at: Some(now), ..old(self)@ }),
    {
        self.is_active = false;
        self.deleted_at = Some(now);
    }

    /// Deactivates the account and marks it deleted as of the current time.
    pub fn delete(&mut self)
        ensures
            !final(self)@.is_active,
            final(self)@.deleted_at is Some,
            final(self)@ == (UserView {
                is_active: false,
                deleted_at: final(self)@.deleted_at,
                ..old(self)@
            }),
    {
        let now = unix_now();
        self.delete_at(now);
    }
}

/// A user together with the identity it signed in with and the roles it holds.
#[derive(Debug)]
pub struct UserFull {
    pub user: User,
    pub oauth_provider: UserOauthProvider,
    pub roles: Vec<Role>,
}

impl Clone for UserFull {
    fn clone(&self) -> (r: Self)
        ensures
            r.user == self.user,
            r.oauth_provider == self.oauth_provider,
            r.roles@ == self.roles@,
    {
        let mut roles: Vec<Role> = Vec::new();
        let mut i: usize = 0;
        while i < self.roles.len()
            invariant
                i <= self.roles.len(),
                roles.len() == i,
                forall|j: int| 0 <= j < i ==> roles[j] == self.roles[j],
            decreases self.roles.len() - i,
        {
            roles.push(self.roles[i].clone());
            i = i + 1;
        }
        assert(roles@ =~= self.roles@);
        UserFull { user: self.user.clone(), oauth_provider: self.oauth_provider.clone(), roles }
    }
}

impl UserFull {
    /// Puts the three parts together.
    pub fn new(user: User, oauth_provider: UserOauthProvider, roles: Vec<Role>) -> (full: UserFull)
        ensures
            full.user == user,
            full.oauth_provider == oauth_provider,
            full.roles == roles,
    {
        UserFull { user, oauth_provider, roles }
    }
}

/// A named permission on an action.
#[derive(Clone, Debug)]
pub struct Permission {
    pub id: String,
    pub name: String,
    pub action: String,
    pub created_at: i64,
    pub updated_at: i64,
    pub deleted_at: Option<i64>,
}

impl Permission {
    /// A live permission stamped with the current time.
    pub fn new(id: String, name: String, action: String) -> (p: Permission)
        ensures
            p.id == id,
            p.name == name,
            p.action == action,
            p.deleted_at is None,
    {
        let created_at = unix_now();
        let updated_at = unix_now();
        Permission { id, name, action, created_at, updated_at, deleted_at: None }
    }
}

} // verus!
