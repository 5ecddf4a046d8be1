//! Rows of the server's database tables, and rows to insert.

use vstd::prelude::*;

use crate::common::Timestamp;

verus! {

/// A row of the users table.
#[derive(Clone, Debug)]
pub struct User {
    pub id: i32,
    pub username: String,
    pub email: String,
    pub password: String,
}

/// A row of the group chats table.
#[derive(Clone, Debug)]
pub struct GroupChat {
    pub id: i32,
    pub name: String,
    pub created_by: i32,
    pub creation_date: Timestamp,
}

/// A row of the chat membership table.
#[derive(Clone, Copy, Debug, PartialEq, Eq, Structural)]
pub struct GroupChatMember {
    pub chat_id: i32,
    pub user_id: i32,
}

/// A row of the invitations table.
#[derive(Clone, Copy, Debug, PartialEq, Eq, Structural)]
pub struct ChatInvites {
    pub id: i32,
    pub chat_id: i32,
    pub sender_id: i32,
    pub recipient_id: i32,
    pub created_at: Timestamp,
}

/// A row of the messages table.
#[derive(Clone, Debug)]
pub struct Message {
    pub id: i32,
    pub chat_id: i32,
    pub user_id: i32,
    pub message_text: String,
    pub sent_date: Timestamp,
}

/// A user to insert; `password` holds the password hash.
#[derive(Clone, Debug)]
pub struct AddUser {
    pub username: String,
    pub email: String,
    pub password: String,
}

/// An invitation to insert.
#[derive(Clone, Copy, Debug, PartialEq, Eq, Structural)]
pub struct Invite {
    pub chat_id: i32,
    pub sender_id: i32,
    pub recipient_id: i32,
    pub created_at: Timestamp,
}

/// A chat to insert.
#[derive(Clone, Debug)]
pub struct CreateChat {
    pub chat_name: String,
    pub created_at: Timestamp,
    pub created_by: i32,
}

/// A message to insert.
#[derive(Clone, Debug)]
pub struct CreateMessage {
    pub chat_id: i32,
    pub user_id: i32,
    pub message_text: String,
    pub sent_at: Timestamp,
}

} // verus!
