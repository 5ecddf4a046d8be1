//! Request and response bodies that the chat client and server exchange.

use vstd::prelude::*;

verus! {

/// A point in time, as seconds and nanoseconds since 1970-01-01 00:00:00
/// without a time zone.
#[derive(Clone, Copy, Debug, PartialEq, Eq, Structural)]
pub struct Timestamp {
    pub seconds: i64,
    pub nanos: u32,
}

/// Whether `offset_seconds` is a UTC offset (less than a day either way)
/// and shifting `t` by it stays within the range of `i64` seconds.
pub open spec fn local_time_fits(t: Timestamp, offset_seconds: int) -> bool {
    &&& -86400 < offset_seconds < 86400
    &&& i64::MIN <= t.seconds + offset_seconds <= i64::MAX
}

/// The time `t` in a zone `offset_seconds` east of UTC: the seconds shifted
/// by the offset, the nanoseconds kept.
pub open spec fn local_time(t: Timestamp, offset_seconds: int) -> Timestamp {
    Timestamp { seconds: (t.seconds + offset_seconds) as i64, nanos: t.nanos }
}

/// Whether `a` comes before `b`.
pub open spec fn earlier(a: Timestamp, b: Timestamp) -> bool {
    a.seconds < b.seconds || (a.seconds == b.seconds && a.nanos < b.nanos)
}

/// Moving to local time keeps the order of any two times and the number of
/// seconds between them; in a zone east of UTC the local time is later, in
/// one west of it earlier, and at UTC the same.
pub proof fn lemma_local_time_keeps_order(a: Timestamp, b: Timestamp, offset_seconds: int)
    requires
        local_time_fits(a, offset_seconds),
        local_time_fits(b, offset_seconds),
    ensures
        earlier(a, b) <==> earlier(local_time(a, offset_seconds), local_time(b, offset_seconds)),
        local_time(b, offset_seconds).seconds - local_time(a, offset_seconds).seconds == b.seconds - a.seconds,
        local_time(a, offset_seconds).nanos == a.nanos,
        offset_seconds > 0 ==> earlier(a, local_time(a, offset_seconds)),
        offset_seconds < 0 ==> earlier(local_time(a, offset_seconds), a),
        offset_seconds == 0 ==> local_time(a, offset_seconds) == a,
{
}

/// The local time of the UTC time `t` in a zone `offset_seconds` east of
/// UTC: the seconds shifted by the offset, the nanoseconds kept.
pub fn utc_to_local(t: Timestamp, offset_seconds: i32) -> (res: Timestamp)
    requires
        local_time_fits(t, offset_seconds as int),
    ensures
        res == local_time(t, offset_seconds as int),
        res.seconds == t.seconds + offset_seconds,
        res.nanos == t.nanos,
{
    Timestamp { seconds: t.seconds + offset_seconds as i64, nanos: t.nanos }
}

/// A new account.
#[derive(Clone, Debug)]
pub struct AddUser {
    pub username: String,
    pub email: String,
    pub password: String,
}

/// Credentials of a login.
#[derive(Clone, Debug)]
pub struct Login {
    pub username: String,
    pub password: String,
}

/// The account that a login opened, with the private key the session was given.
#[derive(Clone, Debug)]
pub struct UserData {
    pub username: String,
    pub user_id: i32,
    pub private_key: String,
}

/// A password change.
#[derive(Clone, Debug)]
pub struct ChangePassword {
    pub old_password: String,
    pub new_password: String,
}

/// An invitation of a user, by name, into a chat.
#[derive(Clone, Debug)]
pub struct SendInvite {
    pub chat_id: i32,
    pub recipient_name: String,
}

/// A pending invitation as the recipient sees it.
#[derive(Clone, Debug)]
pub struct GetInvites {
    pub invite_id: i32,
    pub chat_id: i32,
    pub chat_name: String,
    pub sender_name: String,
    pub created_at: Timestamp,
}

/// A message to post into a chat; `text` is the encrypted Base64 text.
#[derive(Clone, Debug)]
pub struct SendMessage {
    pub chat_id: i32,
    pub text: String,
}

/// A message of a chat as the server lists it.
#[derive(Clone, Debug)]
pub struct GetMessage {
    pub message_id: i32,
    pub user_id: i32,
    pub username: String,
    pub message_text: String,
    pub sent_at: Timestamp,
    pub files: Vec<GetFile>,
}

/// A file attached to a message.
#[derive(Clone, Debug)]
pub struct GetFile {
    pub file_id: i32,
    pub filename: String,
}

/// A chat the user belongs to.
#[derive(Clone, Debug)]
pub struct GetChat {
    pub chat_id: i32,
    pub chat_name: String,
    pub creator_id: i32,
    pub creator_name: String,
}

/// The metadata part of a file upload: the chat and the (encrypted) message text.
#[derive(Clone, Debug)]
pub struct UploadFile {
    pub chat_id: i32,
    pub message_text: String,
}

} // verus!
