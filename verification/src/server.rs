//! The decisions of the chat server's endpoints: who is logged in, which
//! answer each outcome of a database step gets, and how logins, new accounts
//! and password changes are checked.

use vstd::prelude::*;
use vstd::utf8::encode_utf8;

use crate::common::{
    ChangePassword, GetChat, GetFile, GetMessage, Login, Timestamp, UploadFile, UserData,
};
use crate::credentials::{
    argon2_verifies, hash_password, new_session_keys, rsa_public_key_pem, verify_password,
};
use crate::decimal::{decimal, i32_decimal, u128_decimal};
use crate::models::AddUser;

verus! {

/// Name of the form field that carries the metadata of a file upload.
pub const UPLOAD_METADATA_NAME: &'static str = "metadata";

/// The HTTP status of an answer.
#[derive(Clone, Copy, Debug, PartialEq, Eq, Structural)]
pub enum Status {
    Success,
    BadRequest,
    Unauthorized,
    InternalServerError,
}

/// An answer of the server: a status and a text body.
#[derive(Clone, Debug)]
pub struct Reply {
    pub status: Status,
    pub body: String,
}

impl Reply {
    /// Whether the answer has this status and body.
    pub open spec fn is(self, status: Status, body: Seq<char>) -> bool {
        self.status == status && self.body@ == body
    }

    /// An answer with this status and body.
    pub fn new(status: Status, body: &str) -> (res: Reply)
        ensures
            res.is(status, body@),
    {
        Reply { status, body: body.to_owned() }
    }

    /// An answer with this status and an empty body.
    pub fn empty(status: Status) -> (res: Reply)
        ensures
            res.is(status, Seq::empty()),
    {
        Reply { status, body: String::new() }
    }
}

/// The query of the message and file endpoints: a chat or file id.
#[derive(Clone, Copy, Debug, PartialEq, Eq, Structural)]
pub struct Param {
    pub id: i32,
}

/// Why a database query found nothing.
#[derive(Clone, Debug)]
pub enum QueryError {
    /// No row matched.
    NotFound,
    /// The query failed with this message.
    Failed(String),
}

/// The stored password hash is not a PHC string.
#[derive(Clone, Copy, Debug, PartialEq, Eq, Structural)]
pub struct UnreadableHash;

/// The user of a session, from what the session holds under the user id key:
/// the id; "No value" when it holds nothing; the session's error otherwise.
pub fn is_logged_in(lookup: Result<Option<i32>, String>) -> (res: Result<i32, String>)
    ensures
        match lookup {
            Ok(Some(id)) => res == Ok::<i32, String>(id),
            Ok(None) => res matches Err(e) && e@ == "No value"@,
            Err(e) => res == Err::<i32, String>(e),
        },
{
    match lookup {
        Ok(Some(id)) => Ok(id),
        Ok(None) => Err("No value".to_owned()),
        Err(e) => Err(e),
    }
}

/// The user of an endpoint's session: a request without a logged-in user
/// is answered 401 with an empty body, before anything else is read.
pub fn session_user(session: Result<i32, String>) -> (res: Result<i32, Reply>)
    ensures
        match session {
            Ok(id) => res == Ok::<i32, Reply>(id),
            Err(_) => res matches Err(r) && r.is(Status::Unauthorized, Seq::empty()),
        },
{
    match session {
        Ok(id) => Ok(id),
        Err(_) => Err(Reply::empty(Status::Unauthorized)),
    }
}

/// The answer to a logout: done for a logged-in session (which the caller
/// then ends), refused otherwise.
pub fn logout(session: &Result<i32, String>) -> (res: Status)
    ensures
        res == if session is Ok {
            Status::Success
        } else {
            Status::Unauthorized
        },
{
    match session {
        Ok(_) => Status::Success,
        Err(_) => Status::Unauthorized,
    }
}

/// How a login ends.
#[derive(Clone, Debug)]
pub enum LoginOutcome {
    /// The password matches: the session keeps the user and the public key,
    /// the answer carries `user`, with the matching private key.
    Accepted { user: UserData, public_key: String },
    /// The login is refused with this answer.
    Refused(Reply),
}

/// Decides a login, given the stored password hash and id of the account
/// named in `login_info` (`None` when there is no such account). An unknown
/// account or a wrong password is refused with "Invalid username or
/// password"; a matching password is accepted with a fresh RSA key pair.
pub fn login(login_info: &Login, account: Option<(String, i32)>) -> (res: Result<LoginOutcome, UnreadableHash>)
    ensures
        match account {
            None => res matches Ok(LoginOutcome::Refused(r)) && r.is(Status::BadRequest, "Invalid username or password"@),
            Some((stored, id)) => match argon2_verifies(stored@, login_info.password@) {
                None => res is Err,
                Some(false) => res matches Ok(LoginOutcome::Refused(r)) && r.is(Status::BadRequest, "Invalid username or password"@),
                Some(true) => res matches Ok(LoginOutcome::Accepted { user, public_key }) && user.username == login_info.username && user.user_id == id
                    && public_key@ == rsa_public_key_pem(user.private_key@),
            },
        },
{
    match account {
        None => Ok(LoginOutcome::Refused(Reply::new(Status::BadRequest, "Invalid username or password"))),
        Some((stored, id)) => match verify_password(stored.as_str(), login_info.password.as_str()) {
            None => Err(UnreadableHash),
            Some(false) => Ok(LoginOutcome::Refused(Reply::new(Status::BadRequest, "Invalid username or password"))),
            Some(true) => {
                let (private_key, public_key) = new_session_keys();
                Ok(LoginOutcome::Accepted {
                    user: UserData { username: login_info.username.clone(), user_id: id, private_key },
                    public_key,
                })
            },
        },
    }
}

/// Why a password change cannot go on (where the server would stop).
#[derive(Clone, Copy, Debug, PartialEq, Eq, Structural)]
pub enum PasswordChangeProblem {
    /// The stored password hash is not a PHC string.
    UnreadableHash,
    /// The old password matched, but the new one is longer than Argon2
    /// accepts (`u32::MAX` bytes).
    NewPasswordTooLong,
}

/// Checks the old password of a password change against the stored hash
/// (`stored`, or the query's error) and then hashes the new password. A
/// failed query answers with its error; a wrong old password with "Wrong
/// password"; otherwise the new hash comes back, and the new password checks
/// against it.
pub fn change_passowrd(stored: Result<String, String>, request: &ChangePassword) -> (res: Result<Result<String, Reply>, PasswordChangeProblem>)
    ensures
        match stored {
            Err(e) => res matches Ok(Err(r)) && r.status == Status::InternalServerError && r.body == e,
            Ok(hash) => match argon2_verifies(hash@, request.old_password@) {
                None => res == Err::<Result<String, Reply>, PasswordChangeProblem>(PasswordChangeProblem::UnreadableHash),
                Some(false) => res matches Ok(Err(r)) && r.is(Status::BadRequest, "Wrong password"@),
                Some(true) => if encode_utf8(request.new_password@).len() <= 0xFFFF_FFFF {
                    res matches Ok(Ok(new_hash)) && argon2_verifies(new_hash@, request.new_password@) == Some(true)
                } else {
                    res == Err::<Result<String, Reply>, PasswordChangeProblem>(PasswordChangeProblem::NewPasswordTooLong)
                },
            },
        },
{
    match stored {
        Err(e) => Ok(Err(Reply { status: Status::InternalServerError, body: e })),
        Ok(hash) => match verify_password(hash.as_str(), request.old_password.as_str()) {
            None => Err(PasswordChangeProblem::UnreadableHash),
            Some(false) => Ok(Err(Reply::new(Status::BadRequest, "Wrong password"))),
            Some(true) => {
                let len = request.new_password.as_str().as_bytes().len();
                if len > 0xFFFF_FFFF {
                    Err(PasswordChangeProblem::NewPasswordTooLong)
                } else {
                    Ok(Ok(hash_password(request.new_password.as_str())))
                }
            },
        },
    }
}

/// The answer to storing a new password hash: done when exactly one row
/// changed, a server error with an empty body for any other count, or with
/// the database's error.
pub fn password_update_reply(updated: Result<usize, String>) -> (res: Reply)
    ensures
        match updated {
            Ok(n) => if n == 1 {
                res.is(Status::Success, Seq::empty())
            } else {
                res.is(Status::InternalServerError, Seq::empty())
            },
            Err(e) => res.status == Status::InternalServerError && res.body == e,
        },
{
    match updated {
        Ok(n) => if n == 1 {
            Reply::empty(Status::Success)
        } else {
            Reply::empty(Status::InternalServerError)
        },
        Err(e) => Reply { status: Status::InternalServerError, body: e },
    }
}

/// The answer to asking for the name of user `id`: the name; "No user with
/// id <id>" when there is none; the database's error otherwise.
pub fn get_user_with_id(id: i32, result: Result<String, QueryError>) -> (res: Reply)
    ensures
        match result {
            Ok(name) => res.status == Status::Success && res.body == name,
            Err(QueryError::NotFound) => res.is(Status::BadRequest, "No user with id "@ + decimal(id as int)),
            Err(QueryError::Failed(e)) => res.status == Status::InternalServerError && res.body == e,
        },
{
    match result {
        Ok(name) => Reply { status: Status::Success, body: name },
        Err(QueryError::NotFound) => {
            let digits = i32_decimal(id);
            let body = "No user with id ".to_owned().concat(digits.as_str());
            Reply { status: Status::BadRequest, body }
        },
        Err(QueryError::Failed(e)) => Reply { status: Status::InternalServerError, body: e },
    }
}

/// The row to insert for a new account: its name and e-mail, and the hash of
/// its password, against which the password checks.
pub fn new_account(user: &AddUser) -> (res: AddUser)
    requires
        encode_utf8(user.password@).len() <= 0xFFFF_FFFF,
    ensures
        res.username == user.username,
        res.email == user.email,
        argon2_verifies(res.password@, user.password@) == Some(true),
{
    let hash = hash_password(user.password.as_str());
    AddUser { username: user.username.clone(), email: user.email.clone(), password: hash }
}

/// The answer when an account with the same name or e-mail exists.
pub fn user_exists_reply() -> (res: Reply)
    ensures
        res.is(Status::BadRequest, "User already exists"@),
{
    Reply::new(Status::BadRequest, "User already exists")
}

/// The answer to inserting a new account: done, or "Failed to add user, "
/// followed by the database's error.
pub fn add_user(inserted: Result<(), String>) -> (res: Reply)
    ensures
        match inserted {
            Ok(_) => res.is(Status::Success, Seq::empty()),
            Err(e) => res.is(Status::BadRequest, "Failed to add user, "@ + e@),
        },
{
    match inserted {
        Ok(_) => Reply::empty(Status::Success),
        Err(e) => Reply { status: Status::BadRequest, body: "Failed to add user, ".to_owned().concat(e.as_str()) },
    }
}

/// The answer, if any, to a check that a row exists (such as the user's
/// membership of a chat): the database's error as a server error, `missing`
/// when no row matched, and none (go on) otherwise.
pub fn membership_check(result: Result<usize, String>, missing: Reply) -> (res: Option<Reply>)
    ensures
        match result {
            Err(e) => res matches Some(r) && r.status == Status::InternalServerError && r.body == e,
            Ok(n) => if n == 0 {
                res == Some(missing)
            } else {
                res is None
            },
        },
{
    match result {
        Err(e) => Some(Reply { status: Status::InternalServerError, body: e }),
        Ok(n) => if n == 0 {
            Some(missing)
        } else {
            None
        },
    }
}

/// The answer when the user leaves chat `id` without being in it.
pub fn no_chat_reply(id: i32) -> (res: Reply)
    ensures
        res.is(Status::BadRequest, "No chat with id "@ + decimal(id as int)),
{
    let digits = i32_decimal(id);
    Reply { status: Status::BadRequest, body: "No chat with id ".to_owned().concat(digits.as_str()) }
}

/// The answer when the invited user does not exist.
pub fn no_invitee_reply() -> (res: Reply)
    ensures
        res.is(Status::BadRequest, "Invited user does not exist"@),
{
    Reply::new(Status::BadRequest, "Invited user does not exist")
}

/// The answer to a final database write: done with an empty body, or the
/// database's error as a server error.
pub fn write_reply(result: Result<(), String>) -> (res: Reply)
    ensures
        match result {
            Ok(_) => res.is(Status::Success, Seq::empty()),
            Err(e) => res.status == Status::InternalServerError && res.body == e,
        },
{
    match result {
        Ok(_) => Reply::empty(Status::Success),
        Err(e) => Reply { status: Status::InternalServerError, body: e },
    }
}

/// The chats of a user, from rows of chat id, chat name, creator id and creator name.
pub fn get_chats(rows: &Vec<(i32, String, i32, String)>) -> (res: Vec<GetChat>)
    ensures
        res@.len() == rows@.len(),
        forall|i: int|
            0 <= i < rows@.len() ==> {
                &&& (#[trigger] res@[i]).chat_id == rows@[i].0
                &&& res@[i].chat_name == rows@[i].1
                &&& res@[i].creator_id == rows@[i].2
                &&& res@[i].creator_name == rows@[i].3
            },
{
    let mut res: Vec<GetChat> = Vec::new();
    let mut i: usize = 0;
    while i < rows.len()
        invariant
            i <= rows@.len(),
            res@.len() == i,
            forall|k: int|
                0 <= k < i ==> {
                    &&& (#[trigger] res@[k]).chat_id == rows@[k].0
                    &&& res@[k].chat_name == rows@[k].1
                    &&& res@[k].creator_id == rows@[k].2
                    &&& res@[k].creator_name == rows@[k].3
                },
        decreases rows@.len() - i,
    {
        let row = &rows[i];
        res.push(GetChat {
            chat_id: row.0,
            chat_name: row.1.clone(),
            creator_id: row.2,
            creator_name: row.3.clone(),
        });
        i = i + 1;
    }
    res
}

/// The messages of a chat, from rows of message id, author id, author name,
/// text and time, with no files listed.
pub fn get_messages(rows: &Vec<(i32, i32, String, String, Timestamp)>) -> (res: Vec<GetMessage>)
    ensures
        res@.len() == rows@.len(),
        forall|i: int|
            0 <= i < rows@.len() ==> {
                &&& (#[trigger] res@[i]).message_id == rows@[i].0
                &&& res@[i].user_id == rows@[i].1
                &&& res@[i].username == rows@[i].2
                &&& res@[i].message_text == rows@[i].3
                &&& res@[i].sent_at == rows@[i].4
                &&& res@[i].files@ == Seq::<GetFile>::empty()
            },
{
    let mut res: Vec<GetMessage> = Vec::new();
    let mut i: usize = 0;
    while i < rows.len()
        invariant
            i <= rows@.len(),
            res@.len() == i,
            forall|k: int|
                0 <= k < i ==> {
                    &&& (#[trigger] res@[k]).message_id == rows@[k].0
                    &&& res@[k].user_id == rows@[k].1
                    &&& res@[k].username == rows@[k].2
                    &&& res@[k].message_text == rows@[k].3
                    &&& res@[k].sent_at == rows@[k].4
                    &&& res@[k].files@ == Seq::<GetFile>::empty()
                },
        decreases rows@.len() - i,
    {
        let row = &rows[i];
        res.push(GetMessage {
            message_id: row.0,
            user_id: row.1,
            username: row.2.clone(),
            message_text: row.3.clone(),
            sent_at: row.4,
            files: Vec::new(),
        });
        i = i + 1;
    }
    res
}

/// The answer, if any, to the first field of a file upload, named `name`:
/// "No metadata provided" unless it is the metadata field.
pub fn check_metadata_field(name: &str) -> (res: Option<Reply>)
    ensures
        name@ == UPLOAD_METADATA_NAME@ ==> res is None,
        name@ != UPLOAD_METADATA_NAME@ ==> (res matches Some(r) && r.is(Status::BadRequest, "No metadata provided"@)),
{
    if str_equal(name, UPLOAD_METADATA_NAME) {
        None
    } else {
        Some(Reply::new(Status::BadRequest, "No metadata provided"))
    }
}

/// Whether two texts are equal.
fn str_equal(a: &str, b: &str) -> (res: bool)
    ensures
        res == (a@ == b@),
{
    a.to_owned() == b.to_owned()
}

/// The answer when the metadata of an upload is not UTF-8 or not the
/// expected structure.
pub fn bad_metadata_reply() -> (res: Reply)
    ensures
        res.is(Status::BadRequest, "Wrong metadata structure"@),
{
    Reply::new(Status::BadRequest, "Wrong metadata structure")
}

/// Draws a random 128-bit number with `rand::thread_rng().gen()`. Nothing is
/// stated of it: it is random.
#[verifier::external_body]
pub fn generate_uuid() -> (res: u128) {
    rand::Rng::gen::<u128>(&mut rand::thread_rng())
}

/// A fresh file name for a stored upload: a random 128-bit number in decimal.
pub fn stored_file_name() -> (res: String)
    ensures
        exists|n: u128| res@ == decimal(n as int),
{
    let n = generate_uuid();
    u128_decimal(n)
}

/// The file to send for a download, from the query for a file of a chat the
/// user belongs to: its name and path; without such a file the user is refused;
/// a failed query answers with its error.
pub fn download_file(result: Result<(String, String), QueryError>) -> (res: Result<(String, String), Reply>)
    ensures
        match result {
            Ok(file) => res == Ok::<(String, String), Reply>(file),
            Err(QueryError::NotFound) => res matches Err(r) && r.is(Status::Unauthorized, Seq::empty()),
            Err(QueryError::Failed(e)) => res matches Err(r) && r.status == Status::InternalServerError && r.body == e,
        },
{
    match result {
        Ok(file) => Ok(file),
        Err(QueryError::NotFound) => Err(Reply::empty(Status::Unauthorized)),
        Err(QueryError::Failed(e)) => Err(Reply { status: Status::InternalServerError, body: e }),
    }
}


/// The next step of an endpoint that serves the members of a chat.
#[derive(Clone, Debug)]
pub enum MemberStep {
    /// Answer now; nothing of the chat is read or written.
    Answer(Reply),
    /// Ask the database whether `user_id` is a member of `chat_id`.
    CheckMembership { chat_id: i32, user_id: i32 },
    /// The user is a member: go on with the chat's data.
    Proceed { chat_id: i32, user_id: i32 },
}

/// The first step of an endpoint about chat `chat_id`: without a logged-in
/// user it answers 401 with an empty body; otherwise it checks the user's
/// membership.
pub fn member_session_step(session: Result<i32, String>, chat_id: i32) -> (res: MemberStep)
    ensures
        match session {
            Ok(user_id) => res == (MemberStep::CheckMembership { chat_id, user_id }),
            Err(_) => res matches MemberStep::Answer(r) && r.is(Status::Unauthorized, Seq::empty()),
        },
{
    match session {
        Ok(user_id) => MemberStep::CheckMembership { chat_id, user_id },
        Err(_) => MemberStep::Answer(Reply::empty(Status::Unauthorized)),
    }
}

/// The step after the membership check of `user_id` in `chat_id` (the
/// number of matching rows, or the database's error): the error as a server
/// error; `missing` for a non-member; going on only for a member.
pub fn member_checked_step(chat_id: i32, user_id: i32, check: Result<usize, String>, missing: Reply) -> (res: MemberStep)
    ensures
        res is Proceed <==> (check matches Ok(n) && n > 0),
        res is Proceed ==> res == (MemberStep::Proceed { chat_id, user_id }),
        match check {
            Err(e) => res matches MemberStep::Answer(r) && r.status == Status::InternalServerError && r.body == e,
            Ok(n) => n == 0 ==> res == MemberStep::Answer(missing),
        },
{
    match membership_check(check, missing) {
        Some(r) => MemberStep::Answer(r),
        None => MemberStep::Proceed { chat_id, user_id },
    }
}

/// The membership step of listing the messages of chat `chat_id`: a
/// non-member is answered 401 with an empty body, and the messages are read
/// only for a member.
pub fn get_messages_step(chat_id: i32, user_id: i32, check: Result<usize, String>) -> (res: MemberStep)
    ensures
        res is Proceed <==> (check matches Ok(n) && n > 0),
        res is Proceed ==> res == (MemberStep::Proceed { chat_id, user_id }),
        check == Ok::<usize, String>(0) ==> (res matches MemberStep::Answer(r) && r.is(Status::Unauthorized, Seq::empty())),
        check matches Err(e) ==> (res matches MemberStep::Answer(r) && r.status == Status::InternalServerError && r.body == e),
{
    member_checked_step(chat_id, user_id, check, Reply::empty(Status::Unauthorized))
}

/// The next step of adding an account.
#[derive(Clone, Debug)]
pub enum AddUserStep {
    /// Answer now; nothing is inserted.
    Answer(Reply),
    /// Insert this row.
    Insert(AddUser),
}

/// The step after looking for an account with the same name or e-mail:
/// when one exists, "User already exists" with nothing inserted; otherwise
/// the new row is inserted.
pub fn add_user_step(existing: bool, row: AddUser) -> (res: AddUserStep)
    ensures
        existing ==> (res matches AddUserStep::Answer(r) && r.is(Status::BadRequest, "User already exists"@)),
        !existing ==> res == AddUserStep::Insert(row),
{
    if existing {
        AddUserStep::Answer(user_exists_reply())
    } else {
        AddUserStep::Insert(row)
    }
}

/// Where a file upload stands: waiting for its metadata field, or storing
/// the files of the message created for it.
#[derive(Clone, Copy, Debug, PartialEq, Eq, Structural)]
pub enum UploadState {
    AwaitingMetadata { user_id: i32 },
    Receiving { message_id: i32 },
}

/// The next step of a file upload.
#[derive(Clone, Debug)]
pub enum UploadStep {
    /// Answer now and stop reading the upload.
    Answer(Reply),
    /// Read the field's content as the metadata of user `user_id`'s upload.
    ReadMetadata { user_id: i32 },
    /// Ask the database whether the user belongs to the metadata's chat.
    CheckMembership { chat_id: i32, user_id: i32, message_text: String },
    /// Create the message that the files belong to.
    InsertMessage { chat_id: i32, user_id: i32, message_text: String },
    /// Store the field's content under `stored_name` as file `filename` of message `message_id`.
    StoreFile { message_id: i32, filename: String, stored_name: String },
}

/// The start of an upload: without a logged-in user it is answered 401 with
/// an empty body and nothing is read; otherwise the upload of that user
/// waits for its metadata.
pub fn upload_session_step(session: Result<i32, String>) -> (res: Result<UploadState, Reply>)
    ensures
        match session {
            Ok(user_id) => res == Ok::<UploadState, Reply>(UploadState::AwaitingMetadata { user_id }),
            Err(_) => res matches Err(r) && r.is(Status::Unauthorized, Seq::empty()),
        },
{
    match session_user(session) {
        Ok(user_id) => Ok(UploadState::AwaitingMetadata { user_id }),
        Err(r) => Err(r),
    }
}

/// The step for a field named `name` of an upload in state `state`: the
/// first field must be the metadata field ("No metadata provided"
/// otherwise); every later field is a file of the message, stored under a
/// fresh random name.
pub fn upload_field(state: UploadState, name: &str) -> (res: UploadStep)
    ensures
        match state {
            UploadState::AwaitingMetadata { user_id } => if name@ == UPLOAD_METADATA_NAME@ {
                res == (UploadStep::ReadMetadata { user_id })
            } else {
                res matches UploadStep::Answer(r) && r.is(Status::BadRequest, "No metadata provided"@)
            },
            UploadState::Receiving { message_id } => res matches UploadStep::StoreFile { message_id: m, filename, stored_name }
                && m == message_id && filename@ == name@ && exists|n: u128| stored_name@ == decimal(n as int),
        },
{
    match state {
        UploadState::AwaitingMetadata { user_id } => match check_metadata_field(name) {
            Some(r) => UploadStep::Answer(r),
            None => UploadStep::ReadMetadata { user_id },
        },
        UploadState::Receiving { message_id } => UploadStep::StoreFile {
            message_id,
            filename: name.to_owned(),
            stored_name: stored_file_name(),
        },
    }
}

/// The step after reading the metadata field of user `user_id`'s upload
/// (`None` where it is not UTF-8 or not the metadata structure): "Wrong
/// metadata structure", or the membership check for the metadata's chat.
pub fn upload_metadata(metadata: Option<UploadFile>, user_id: i32) -> (res: UploadStep)
    ensures
        match metadata {
            None => res matches UploadStep::Answer(r) && r.is(Status::BadRequest, "Wrong metadata structure"@),
            Some(m) => res == (UploadStep::CheckMembership { chat_id: m.chat_id, user_id, message_text: m.message_text }),
        },
{
    match metadata {
        None => UploadStep::Answer(bad_metadata_reply()),
        Some(m) => UploadStep::CheckMembership { chat_id: m.chat_id, user_id, message_text: m.message_text },
    }
}

/// The step after the membership check for an upload's chat: a non-member
/// is answered 401 with an empty body; only a member's message is created.
pub fn upload_membership(chat_id: i32, user_id: i32, message_text: String, check: Result<usize, String>) -> (res: UploadStep)
    ensures
        res is InsertMessage <==> (check matches Ok(n) && n > 0),
        res is InsertMessage ==> res == (UploadStep::InsertMessage { chat_id, user_id, message_text }),
        check == Ok::<usize, String>(0) ==> (res matches UploadStep::Answer(r) && r.is(Status::Unauthorized, Seq::empty())),
        check matches Err(e) ==> (res matches UploadStep::Answer(r) && r.status == Status::InternalServerError && r.body == e),
{
    match membership_check(check, Reply::empty(Status::Unauthorized)) {
        Some(r) => UploadStep::Answer(r),
        None => UploadStep::InsertMessage { chat_id, user_id, message_text },
    }
}

/// The state after creating the upload's message (its id, or the database's
/// error): the files are then stored for that message; an error is answered
/// as a server error.
pub fn upload_message_created(created: Result<i32, String>) -> (res: Result<UploadState, Reply>)
    ensures
        match created {
            Ok(id) => res == Ok::<UploadState, Reply>(UploadState::Receiving { message_id: id }),
            Err(e) => res matches Err(r) && r.status == Status::InternalServerError && r.body == e,
        },
{
    match created {
        Ok(id) => Ok(UploadState::Receiving { message_id: id }),
        Err(e) => Err(Reply { status: Status::InternalServerError, body: e }),
    }
}

/// The next step of creating a chat.
#[derive(Clone, Debug)]
pub enum CreateChatStep {
    /// Answer now; nothing more is written.
    Answer(Reply),
    /// Insert a chat named `chat_name`, created now by `created_by`.
    InsertChat { chat_name: String, created_by: i32 },
    /// Look up the id of the chat that `created_by` created at that time.
    FindChat { created_by: i32 },
    /// Make `user_id` a member of chat `chat_id`.
    InsertMember { chat_id: i32, user_id: i32 },
}

/// The first step of creating a chat named `chat_name`: without a logged-in
/// user it is answered 401 with an empty body and nothing is written;
/// otherwise the chat is inserted with that user as its creator.
pub fn create_chat_session(session: Result<i32, String>, chat_name: String) -> (res: CreateChatStep)
    ensures
        match session {
            Ok(id) => res == (CreateChatStep::InsertChat { chat_name, created_by: id }),
            Err(_) => res matches CreateChatStep::Answer(r) && r.is(Status::Unauthorized, Seq::empty()),
        },
{
    match session_user(session) {
        Ok(id) => CreateChatStep::InsertChat { chat_name, created_by: id },
        Err(r) => CreateChatStep::Answer(r),
    }
}

/// The step after inserting the chat of `created_by`: a failed insert is
/// answered 500 with an empty body; otherwise the new chat's id is looked up.
pub fn create_chat_inserted(created_by: i32, inserted: Result<(), String>) -> (res: CreateChatStep)
    ensures
        match inserted {
            Ok(_) => res == (CreateChatStep::FindChat { created_by }),
            Err(_) => res matches CreateChatStep::Answer(r) && r.is(Status::InternalServerError, Seq::empty()),
        },
{
    match inserted {
        Ok(_) => CreateChatStep::FindChat { created_by },
        Err(_) => CreateChatStep::Answer(Reply::empty(Status::InternalServerError)),
    }
}

/// The step after looking up the new chat's id: a failed lookup is answered
/// 500 with an empty body; otherwise its creator becomes its first member.
pub fn create_chat_found(created_by: i32, found: Result<i32, String>) -> (res: CreateChatStep)
    ensures
        match found {
            Ok(id) => res == (CreateChatStep::InsertMember { chat_id: id, user_id: created_by }),
            Err(_) => res matches CreateChatStep::Answer(r) && r.is(Status::InternalServerError, Seq::empty()),
        },
{
    match found {
        Ok(id) => CreateChatStep::InsertMember { chat_id: id, user_id: created_by },
        Err(_) => CreateChatStep::Answer(Reply::empty(Status::InternalServerError)),
    }
}

/// The answer once the creator was (or was not) made a member: success, with
/// an empty body, only when that insert succeeded; 500 otherwise.
pub fn create_chat_member_added(added: Result<(), String>) -> (res: Reply)
    ensures
        res.is(if added is Ok { Status::Success } else { Status::InternalServerError }, Seq::empty()),
{
    match added {
        Ok(_) => Reply::empty(Status::Success),
        Err(_) => Reply::empty(Status::InternalServerError),
    }
}

} // verus!
