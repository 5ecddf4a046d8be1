use rsa::pkcs8::{DecodePrivateKey, EncodePublicKey, LineEnding};
use messenger::common::{ChangePassword, Login, Timestamp, UploadFile};
use messenger::credentials::hash_password;
use messenger::models::AddUser;
use messenger::server::{
    add_user, bad_metadata_reply, change_passowrd, check_metadata_field, download_file,
    get_chats, get_messages, get_user_with_id, is_logged_in, login, logout, membership_check,
    new_account, no_chat_reply, no_invitee_reply, password_update_reply, stored_file_name,
    user_exists_reply, write_reply, LoginOutcome, Param, QueryError, Reply, Status,
    UnreadableHash, UPLOAD_METADATA_NAME, add_user_step, get_messages_step, member_checked_step,
    member_session_step, upload_field, upload_membership, upload_message_created, upload_metadata,
    AddUserStep, MemberStep, PasswordChangeProblem, UploadState, UploadStep, session_user,
    upload_session_step, create_chat_session, create_chat_inserted, create_chat_found,
    create_chat_member_added, CreateChatStep,
};

#[test]
fn session_lookup() {
    assert_eq!(is_logged_in(Ok(Some(5))), Ok(5));
    assert_eq!(is_logged_in(Ok(None)), Err("No value".to_string()));
    assert_eq!(is_logged_in(Err("broken".into())), Err("broken".to_string()));
    assert_eq!(logout(&Ok(5)), Status::Success);
    assert_eq!(logout(&Err("x".into())), Status::Unauthorized);
}

fn login_info(password: &str) -> Login {
    Login { username: "ann".into(), password: password.into() }
}

#[test]
fn login_refusals() {
    match login(&login_info("pw"), None) {
        Ok(LoginOutcome::Refused(r)) => {
            assert_eq!(r.status, Status::BadRequest);
            assert_eq!(r.body, "Invalid username or password");
        }
        _ => panic!("expected a refusal"),
    }
    let stored = hash_password("right password");
    match login(&login_info("wrong password"), Some((stored, 1))) {
        Ok(LoginOutcome::Refused(r)) => assert_eq!(r.body, "Invalid username or password"),
        _ => panic!("expected a refusal"),
    }
    assert!(matches!(
        login(&login_info("pw"), Some(("not a hash".into(), 1))),
        Err(UnreadableHash)
    ));
}

#[test]
fn password_change_checks_old_password() {
    let stored = hash_password("old password");
    let wrong = ChangePassword { old_password: "guess".into(), new_password: "new".into() };
    match change_passowrd(Ok(stored.clone()), &wrong) {
        Ok(Err(r)) => {
            assert_eq!(r.status, Status::BadRequest);
            assert_eq!(r.body, "Wrong password");
        }
        _ => panic!("expected a refusal"),
    }
    let right = ChangePassword { old_password: "old password".into(), new_password: "new password".into() };
    let new_hash = match change_passowrd(Ok(stored), &right) {
        Ok(Ok(h)) => h,
        _ => panic!("expected a new hash"),
    };
    let again = ChangePassword { old_password: "new password".into(), new_password: "x".into() };
    assert!(matches!(change_passowrd(Ok(new_hash), &again), Ok(Ok(_))));
    match change_passowrd(Err("db down".into()), &right) {
        Ok(Err(r)) => {
            assert_eq!(r.status, Status::InternalServerError);
            assert_eq!(r.body, "db down");
        }
        _ => panic!("expected a server error"),
    }
    assert!(matches!(
        change_passowrd(Ok("not a hash".into()), &right),
        Err(PasswordChangeProblem::UnreadableHash)
    ));
}

#[test]
fn password_update_answers() {
    let r = password_update_reply(Ok(1));
    assert_eq!((r.status, r.body.as_str()), (Status::Success, ""));
    let r = password_update_reply(Ok(2));
    assert_eq!((r.status, r.body.as_str()), (Status::InternalServerError, ""));
    let r = password_update_reply(Err("e".into()));
    assert_eq!((r.status, r.body.as_str()), (Status::InternalServerError, "e"));
}

#[test]
fn user_name_answers() {
    let r = get_user_with_id(3, Ok("ann".into()));
    assert_eq!((r.status, r.body.as_str()), (Status::Success, "ann"));
    let r = get_user_with_id(-42, Err(QueryError::NotFound));
    assert_eq!((r.status, r.body.as_str()), (Status::BadRequest, "No user with id -42"));
    let r = get_user_with_id(i32::MIN, Err(QueryError::NotFound));
    assert_eq!(r.body, "No user with id -2147483648");
    let r = get_user_with_id(0, Err(QueryError::NotFound));
    assert_eq!(r.body, "No user with id 0");
    let r = get_user_with_id(1, Err(QueryError::Failed("e".into())));
    assert_eq!((r.status, r.body.as_str()), (Status::InternalServerError, "e"));
}

#[test]
fn new_accounts_store_a_hash() {
    let user = AddUser { username: "ann".into(), email: "a@b.cd".into(), password: "pw".into() };
    let row = new_account(&user);
    assert_eq!(row.username, "ann");
    assert_eq!(row.email, "a@b.cd");
    assert_ne!(row.password, "pw");
    assert!(row.password.starts_with("$argon2"));
    let r = user_exists_reply();
    assert_eq!((r.status, r.body.as_str()), (Status::BadRequest, "User already exists"));
    let r = add_user(Ok(()));
    assert_eq!((r.status, r.body.as_str()), (Status::Success, ""));
    let r = add_user(Err("dup".into()));
    assert_eq!((r.status, r.body.as_str()), (Status::BadRequest, "Failed to add user, dup"));
}

#[test]
fn membership_answers() {
    let missing = Reply::new(Status::Unauthorized, "");
    assert!(membership_check(Ok(1), missing.clone()).is_none());
    let r = membership_check(Ok(0), missing.clone()).unwrap();
    assert_eq!(r.status, Status::Unauthorized);
    let r = membership_check(Err("e".into()), missing).unwrap();
    assert_eq!((r.status, r.body.as_str()), (Status::InternalServerError, "e"));
    assert_eq!(no_chat_reply(12).body, "No chat with id 12");
    assert_eq!(no_invitee_reply().body, "Invited user does not exist");
    assert_eq!(write_reply(Ok(())).status, Status::Success);
    assert_eq!(write_reply(Err("w".into())).body, "w");
}

#[test]
fn listings() {
    let chats = get_chats(&vec![(1, "team".into(), 2, "ann".into())]);
    assert_eq!(chats[0].chat_id, 1);
    assert_eq!(chats[0].chat_name, "team");
    assert_eq!(chats[0].creator_id, 2);
    assert_eq!(chats[0].creator_name, "ann");
    let t = Timestamp { seconds: 10, nanos: 5 };
    let msgs = get_messages(&vec![(7, 2, "ann".into(), "text".into(), t)]);
    assert_eq!(msgs[0].message_id, 7);
    assert_eq!(msgs[0].user_id, 2);
    assert_eq!(msgs[0].username, "ann");
    assert_eq!(msgs[0].message_text, "text");
    assert_eq!(msgs[0].sent_at, t);
    assert!(msgs[0].files.is_empty());
}

#[test]
fn uploads_and_downloads() {
    assert!(check_metadata_field(UPLOAD_METADATA_NAME).is_none());
    let r = check_metadata_field("file.txt").unwrap();
    assert_eq!((r.status, r.body.as_str()), (Status::BadRequest, "No metadata provided"));
    assert_eq!(bad_metadata_reply().body, "Wrong metadata structure");
    let name = stored_file_name();
    assert!(!name.is_empty() && name.chars().all(|c| c.is_ascii_digit()));
    assert_eq!(name.parse::<u128>().unwrap().to_string(), name);
    let ok = download_file(Ok(("a.txt".into(), "/x".into()))).unwrap();
    assert_eq!(ok, ("a.txt".to_string(), "/x".to_string()));
    let r = download_file(Err(QueryError::NotFound)).unwrap_err();
    assert_eq!(r.status, Status::Unauthorized);
    let r = download_file(Err(QueryError::Failed("q".into()))).unwrap_err();
    assert_eq!((r.status, r.body.as_str()), (Status::InternalServerError, "q"));
    assert_eq!(Param { id: 3 }.id, 3);
}

#[test]
fn message_listing_is_for_members_only() {
    match member_session_step(Err("No value".into()), 4) {
        MemberStep::Answer(r) => assert_eq!((r.status, r.body.as_str()), (Status::Unauthorized, "")),
        _ => panic!("expected an answer"),
    }
    match member_session_step(Ok(7), 4) {
        MemberStep::CheckMembership { chat_id, user_id } => assert_eq!((chat_id, user_id), (4, 7)),
        _ => panic!("expected a membership check"),
    }
    match get_messages_step(4, 7, Ok(0)) {
        MemberStep::Answer(r) => assert_eq!((r.status, r.body.as_str()), (Status::Unauthorized, "")),
        _ => panic!("expected a refusal"),
    }
    match get_messages_step(4, 7, Err("db".into())) {
        MemberStep::Answer(r) => assert_eq!((r.status, r.body.as_str()), (Status::InternalServerError, "db")),
        _ => panic!("expected a server error"),
    }
    match get_messages_step(4, 7, Ok(1)) {
        MemberStep::Proceed { chat_id, user_id } => assert_eq!((chat_id, user_id), (4, 7)),
        _ => panic!("expected to go on"),
    }
    match member_checked_step(4, 7, Ok(0), Reply::new(Status::BadRequest, "No chat with id 4")) {
        MemberStep::Answer(r) => assert_eq!(r.body, "No chat with id 4"),
        _ => panic!("expected the given answer"),
    }
}

#[test]
fn existing_accounts_are_not_added_again() {
    let row = AddUser { username: "ann".into(), email: "a@b.cd".into(), password: "h".into() };
    match add_user_step(true, row.clone()) {
        AddUserStep::Answer(r) => assert_eq!((r.status, r.body.as_str()), (Status::BadRequest, "User already exists")),
        _ => panic!("expected a refusal"),
    }
    match add_user_step(false, row) {
        AddUserStep::Insert(r) => assert_eq!((r.username.as_str(), r.email.as_str(), r.password.as_str()), ("ann", "a@b.cd", "h")),
        _ => panic!("expected an insert"),
    }
}

#[test]
fn upload_steps() {
    match upload_session_step(Err("No value".into())) {
        Err(r) => assert_eq!((r.status, r.body.as_str()), (Status::Unauthorized, "")),
        Ok(_) => panic!("expected a refusal"),
    }
    let start = upload_session_step(Ok(7)).unwrap();
    assert_eq!(start, UploadState::AwaitingMetadata { user_id: 7 });
    match upload_field(start, "photo.png") {
        UploadStep::Answer(r) => assert_eq!((r.status, r.body.as_str()), (Status::BadRequest, "No metadata provided")),
        _ => panic!("expected a refusal"),
    }
    assert!(matches!(upload_field(start, UPLOAD_METADATA_NAME), UploadStep::ReadMetadata { user_id: 7 }));
    match upload_metadata(None, 7) {
        UploadStep::Answer(r) => assert_eq!(r.body, "Wrong metadata structure"),
        _ => panic!("expected a refusal"),
    }
    let meta = UploadFile { chat_id: 4, message_text: "hi".into() };
    let (chat_id, user_id, message_text) = match upload_metadata(Some(meta), 7) {
        UploadStep::CheckMembership { chat_id, user_id, message_text } => (chat_id, user_id, message_text),
        _ => panic!("expected a membership check"),
    };
    assert_eq!((chat_id, user_id, message_text.as_str()), (4, 7, "hi"));
    match upload_membership(4, 7, "hi".into(), Ok(0)) {
        UploadStep::Answer(r) => assert_eq!((r.status, r.body.as_str()), (Status::Unauthorized, "")),
        _ => panic!("expected a refusal"),
    }
    match upload_membership(4, 7, "hi".into(), Err("db".into())) {
        UploadStep::Answer(r) => assert_eq!((r.status, r.body.as_str()), (Status::InternalServerError, "db")),
        _ => panic!("expected a server error"),
    }
    match upload_membership(4, 7, "hi".into(), Ok(1)) {
        UploadStep::InsertMessage { chat_id, user_id, message_text } => {
            assert_eq!((chat_id, user_id, message_text.as_str()), (4, 7, "hi"))
        }
        _ => panic!("expected the message to be created"),
    }
    let state = upload_message_created(Ok(31)).unwrap();
    assert_eq!(state, UploadState::Receiving { message_id: 31 });
    let r = upload_message_created(Err("insert".into())).unwrap_err();
    assert_eq!((r.status, r.body.as_str()), (Status::InternalServerError, "insert"));
    match upload_field(state, "photo.png") {
        UploadStep::StoreFile { message_id, filename, stored_name } => {
            assert_eq!(message_id, 31);
            assert_eq!(filename, "photo.png");
            assert!(!stored_name.is_empty() && stored_name.chars().all(|c| c.is_ascii_digit()));
        }
        _ => panic!("expected the file to be stored"),
    }
}

#[test]
fn accepted_login_keeps_the_public_half() {
    let stored = hash_password("pw");
    match login(&login_info("pw"), Some((stored, 9))) {
        Ok(LoginOutcome::Accepted { user, public_key }) => {
            assert_eq!(user.username, "ann");
            assert_eq!(user.user_id, 9);
            assert_ne!(user.private_key, public_key);
            let private = rsa::RsaPrivateKey::from_pkcs8_pem(&user.private_key).unwrap();
            let expected = rsa::RsaPublicKey::from(&private).to_public_key_pem(LineEnding::LF).unwrap();
            assert_eq!(public_key, expected);
        }
        _ => panic!("expected the login to be accepted"),
    }
}

#[test]
fn endpoints_without_a_session_answer_401() {
    assert_eq!(session_user(Ok(3)).unwrap(), 3);
    let r = session_user(Err("No value".into())).unwrap_err();
    assert_eq!((r.status, r.body.as_str()), (Status::Unauthorized, ""));
    let r = session_user(Err("broken cookie".into())).unwrap_err();
    assert_eq!((r.status, r.body.as_str()), (Status::Unauthorized, ""));
}

#[test]
fn chat_creation_steps() {
    match create_chat_session(Err("No value".into()), "team".into()) {
        CreateChatStep::Answer(r) => assert_eq!((r.status, r.body.as_str()), (Status::Unauthorized, "")),
        _ => panic!("expected a refusal"),
    }
    match create_chat_session(Ok(5), "team".into()) {
        CreateChatStep::InsertChat { chat_name, created_by } => assert_eq!((chat_name.as_str(), created_by), ("team", 5)),
        _ => panic!("expected the chat to be inserted"),
    }
    match create_chat_inserted(5, Err("dup".into())) {
        CreateChatStep::Answer(r) => assert_eq!((r.status, r.body.as_str()), (Status::InternalServerError, "")),
        _ => panic!("expected a server error"),
    }
    assert!(matches!(create_chat_inserted(5, Ok(())), CreateChatStep::FindChat { created_by: 5 }));
    match create_chat_found(5, Err("gone".into())) {
        CreateChatStep::Answer(r) => assert_eq!((r.status, r.body.as_str()), (Status::InternalServerError, "")),
        _ => panic!("expected a server error"),
    }
    assert!(matches!(create_chat_found(5, Ok(12)), CreateChatStep::InsertMember { chat_id: 12, user_id: 5 }));
    let r = create_chat_member_added(Ok(()));
    assert_eq!((r.status, r.body.as_str()), (Status::Success, ""));
    let r = create_chat_member_added(Err("fk".into()));
    assert_eq!((r.status, r.body.as_str()), (Status::InternalServerError, ""));
}
