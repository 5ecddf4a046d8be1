//! Request and response bodies in which invitations name the recipient by
//! id and a login returns no key; the server's invitation endpoint reads
//! invitations in this form.

use vstd::prelude::*;

verus! {

/// A new account.
#[derive(Clone, Debug)]
pub struct AddUser {
    pub username: String,
    pub email: String,
    pub password: String,
}

/// Credentials of a login.
#[derive(Clone, Debug)]
pub struct Login {
    pub username: String,
    pub password: String,
}

/// The account that a login opened.
#[derive(Clone, Debug)]
pub struct UserData {
    pub username: String,
    pub user_id: i32,
}

/// A password change.
#[derive(Clone, Debug)]
pub struct ChangePassword {
    pub old_password: String,
    pub new_password: String,
}

/// An invitation of a user, by id, into a chat.
#[derive(Clone, Debug)]
pub struct SendInvite {
    pub chat_id: i32,
    pub recipient_id: i32,
}

} // verus!
