//! User accounts.

use vstd::prelude::*;

use crate::entity::{clone_opt_string, opt_text};

verus! {

/// The data of a user account.
#[derive(Debug)]
pub struct UserBase {
    pub email: String,
    pub password_hash: Option<String>,
    pub oidc_subject: Option<String>,
    pub oidc_provider: Option<String>,
    /// When the account was linked to an OIDC identity, in nanoseconds
    /// since the Unix epoch.
    pub oidc_linked_at: Option<i128>,
}

pub ghost struct UserBaseView {
    pub email: Seq<char>,
    pub password_hash: Option<Seq<char>>,
    pub oidc_subject: Option<Seq<char>>,
    pub oidc_provider: Option<Seq<char>>,
    pub oidc_linked_at: Option<i128>,
}

impl View for UserBase {
    type V = UserBaseView;

    open spec fn view(&self) -> UserBaseView {
        UserBaseView {
            email: self.email@,
            password_hash: opt_text(self.password_hash),
            oidc_subject: opt_text(self.oidc_subject),
            oidc_provider: opt_text(self.oidc_provider),
            oidc_linked_at: self.oidc_linked_at,
        }
    }
}

impl Clone for UserBase {
    fn clone(&self) -> (r: Self)
        ensures
            r@ == self@,
    {
        UserBase {
            email: self.email.clone(),
            password_hash: clone_opt_string(&self.password_hash),
            oidc_subject: clone_opt_string(&self.oidc_subject),
            oidc_provider: clone_opt_string(&self.oidc_provider),
            oidc_linked_at: self.oidc_linked_at,
        }
    }
}

/// A stored user account.
#[derive(Debug)]
pub struct User {
    pub id: u128,
    pub created_at: i128,
    pub updated_at: i128,
    pub base: UserBase,
}

pub ghost struct UserView {
    pub id: u128,
    pub created_at: i128,
    pub updated_at: i128,
    pub base: UserBaseView,
}

impl View for User {
    type V = UserView;

    open spec fn view(&self) -> UserView {
        UserView {
            id: self.id,
            created_at: self.created_at,
            updated_at: self.updated_at,
            base: self.base@,
        }
    }
}

impl Clone for User {
    fn clone(&self) -> (r: Self)
        ensures
            r@ == self@,
    {
        User {
            id: self.id,
            created_at: self.created_at,
            updated_at: self.updated_at,
            base: self.base.clone(),
        }
    }
}

pub open spec fn user_views(users: Seq<User>) -> Seq<UserView> {
    users.map_values(|u: User| u@)
}

impl User {
    /// Sets the (already hashed) password of the account.
    pub fn set_password(&mut self, password_hash: String)
        ensures
            final(self)@ == (UserView {
                base: UserBaseView { password_hash: Some(password_hash@), ..old(self)@.base },
                ..old(self)@
            }),
    {
        self.base.password_hash = Some(password_hash);
    }
}

} // verus!
