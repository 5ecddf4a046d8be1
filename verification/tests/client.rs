use messenger::client::{
    listing_failed, ChatKeyProblem, FilePart, Effect, LoadProblem, MainForm, Message, MessageViewMode,
    SignupProblem, WindowMode,
};
use messenger::common::{utc_to_local, GetChat, GetInvites, GetMessage, Timestamp, UserData};
use rsa::pkcs8::{EncodePrivateKey, LineEnding};
use messenger::encryption::{decrypt_data, encrypt_data, encrypt_string_to_base64};

fn form() -> MainForm {
    MainForm::default()
}

fn account(private_key: &str) -> UserData {
    UserData { username: "ann".into(), user_id: 1, private_key: private_key.into() }
}

fn invite(id: i32) -> GetInvites {
    GetInvites {
        invite_id: id,
        chat_id: 10 + id,
        chat_name: format!("chat {id}"),
        sender_name: "bob".to_string(),
        created_at: Timestamp { seconds: 1_700_000_000, nanos: 0 },
    }
}

fn fetched(id: i32, text: &str, key: &[u8; 32]) -> GetMessage {
    GetMessage {
        message_id: id,
        user_id: 3,
        username: "alice".to_string(),
        message_text: encrypt_string_to_base64(text, key),
        sent_at: Timestamp { seconds: 1_700_000_000 + id as i64, nanos: 0 },
        files: Vec::new(),
    }
}

#[test]
fn new_window_is_blank_login() {
    let f = form();
    assert_eq!(f.winodow_mode, WindowMode::Login);
    assert!(f.login_data.login_textbox.is_empty());
    assert!(!f.messaging_data.show_error_modal);
    assert_eq!(f.messaging_data.mode, MessageViewMode::Messages);
    assert_eq!(f.messaging_data.selected_chat, None);
}

#[test]
fn typing_fills_fields() {
    let mut f = form();
    assert_eq!(f.update(Message::LoginChanged("ann".into())), Effect::Nothing);
    assert_eq!(f.update(Message::PasswordChanged("pw".into())), Effect::Nothing);
    assert_eq!(f.login_data.login_textbox, "ann");
    assert_eq!(f.login_data.password_textbox, "pw");
    f.update(Message::SignupPasswordChanged("second".into(), 1));
    assert_eq!(f.signup_data.password_textbox[1], "second");
    assert_eq!(f.signup_data.password_textbox[0], "");
}

#[test]
fn buttons_ask_for_effects() {
    let mut f = form();
    assert_eq!(f.update(Message::LoginButtonPressed), Effect::Login);
    assert_eq!(f.update(Message::SignupButtonPressed), Effect::Signup);
    assert_eq!(f.update(Message::SendMessage), Effect::SendMessage);
    assert_eq!(f.update(Message::AcceptInvite(4)), Effect::AcceptInvite(4));
    assert_eq!(f.update(Message::DeclineInvite(5)), Effect::DeclineInvite(5));
    assert_eq!(f.update(Message::RefreshMessages), Effect::LoadMessages { always_scroll: false });
}

#[test]
fn signup_screen_is_cleared_when_opened() {
    let mut f = form();
    f.update(Message::UsernameChanged("old".into()));
    f.update(Message::LoginViewSignupButtonPressed);
    assert_eq!(f.winodow_mode, WindowMode::SignUp);
    assert_eq!(f.signup_data.username_textbox, "");
    f.update(Message::BackButtonPressed);
    assert_eq!(f.winodow_mode, WindowMode::Login);
}

#[test]
fn create_chat_dialog() {
    let mut f = form();
    f.messaging_data.textinput_modal_data.modal_text = "left over".into();
    f.update(Message::CreateChatButtonPressed);
    let d = &f.messaging_data.textinput_modal_data;
    assert!(d.show_modal);
    assert_eq!(d.title, "Create chat");
    assert_eq!(d.placeholder, "Chat name");
    assert_eq!(d.modal_text, "");
    assert!(matches!(d.message, Message::ConfirmCreateChat));
    f.update(Message::CreateChatModalTextChange("friends".into()));
    assert_eq!(f.create_chat_request(), "friends");
    assert_eq!(f.update(Message::ConfirmCreateChat), Effect::CreateChat);
    assert!(!f.messaging_data.textinput_modal_data.show_modal);
}

#[test]
fn invite_dialog() {
    let mut f = form();
    f.update(Message::SelectChat(7));
    f.update(Message::InviteButtonPressed);
    assert_eq!(f.messaging_data.textinput_modal_data.title, "Invite to the chat");
    assert_eq!(f.messaging_data.textinput_modal_data.placeholder, "Username");
    f.update(Message::CreateChatModalTextChange("carol".into()));
    assert_eq!(f.update(Message::ConfirmInvite), Effect::SendInvite);
    let body = f.send_invite_request();
    assert_eq!(body.chat_id, 7);
    assert_eq!(body.recipient_name, "carol");
    f.update(Message::CloseCreateChatModal);
    assert!(!f.messaging_data.textinput_modal_data.show_modal);
}

#[test]
fn selecting_chats_and_invites() {
    let mut f = form();
    assert_eq!(f.update(Message::SelectChat(3)), Effect::LoadMessages { always_scroll: true });
    assert_eq!(f.messaging_data.selected_chat, Some(3));
    assert_eq!(f.update(Message::InvitesButtonPressed), Effect::UpdateInvites);
    assert_eq!(f.messaging_data.selected_chat, None);
    assert_eq!(f.messaging_data.mode, MessageViewMode::Invites);
}

#[test]
fn logout_clears_everything() {
    let mut f = form();
    f.update(Message::LoginChanged("ann".into()));
    f.login(Some(account("pem")));
    f.update(Message::SelectChat(2));
    f.update(Message::MessageEdited("typing".into()));
    assert_eq!(f.update(Message::LogoutButtonPressed), Effect::Logout);
    assert_eq!(f.winodow_mode, WindowMode::Login);
    assert_eq!(f.login_data.login_textbox, "");
    assert_eq!(f.messaging_data.selected_chat, None);
    assert_eq!(f.messaging_data.current_message, "");
}

#[test]
fn login_answer() {
    let mut f = form();
    f.update(Message::LoginChanged("ann".into()));
    f.update(Message::PasswordChanged("secret".into()));
    let body = f.login_request();
    assert_eq!(body.username, "ann");
    assert_eq!(body.password, "secret");
    assert!(!f.login(None));
    assert_eq!(f.login_data.error_message, "Wrong username or password");
    assert!(f.login_data.show_error_message);
    assert_eq!(f.login_data.password_textbox, "");
    assert_eq!(f.login_data.login_textbox, "ann");
    assert_eq!(f.winodow_mode, WindowMode::Login);
    assert!(f.login(Some(account("the key"))));
    assert_eq!(f.winodow_mode, WindowMode::Messaging);
    assert_eq!(f.messaging_data.key.as_deref(), Some("the key"));
}

fn signup_form(user: &str, email: &str, p0: &str, p1: &str) -> MainForm {
    let mut f = form();
    f.update(Message::UsernameChanged(user.into()));
    f.update(Message::EmailChanged(email.into()));
    f.update(Message::SignupPasswordChanged(p0.into(), 0));
    f.update(Message::SignupPasswordChanged(p1.into(), 1));
    f
}

#[test]
fn signup_checks_in_order() {
    let cases = [
        ("", "a@b.cd", "password1", "password1", SignupProblem::EmptyField),
        ("ann", "", "password1", "password1", SignupProblem::EmptyField),
        ("ann", "a@b.cd", "", "", SignupProblem::EmptyField),
        ("ann", "a@b.cd", "password1", "password2", SignupProblem::PasswordMismatch),
        ("ann", "a@b.cd", "short", "short", SignupProblem::PasswordTooShort),
        ("ann", "not-an-address", "password1", "password1", SignupProblem::InvalidEmail),
    ];
    for (user, email, p0, p1, problem) in cases {
        let mut f = signup_form(user, email, p0, p1);
        assert!(f.check_signup().is_none());
        assert!(f.signup_data.show_error_message);
        assert_eq!(f.signup_data.error_message, problem.text());
    }
    assert_eq!(SignupProblem::EmptyField.text(), "All fields must be filled in");
    assert_eq!(SignupProblem::PasswordMismatch.text(), "Passwords don't match");
    assert_eq!(
        SignupProblem::PasswordTooShort.text(),
        "Password must be at least 8 characters long"
    );
    assert_eq!(SignupProblem::InvalidEmail.text(), "Invalid email adress");
}

#[test]
fn password_length_counts_bytes() {
    let mut f = signup_form("ann", "a@b.cd", "żółć", "żółć");
    assert!(f.check_signup().is_some());
    let mut f = signup_form("ann", "a@b.cd", "abcdefg", "abcdefg");
    assert!(f.check_signup().is_none());
}

#[test]
fn signup_accepted_form() {
    let mut f = signup_form("ann", "ann@example.com", "password1", "password1");
    let user = f.check_signup().unwrap();
    assert_eq!(user.username, "ann");
    assert_eq!(user.email, "ann@example.com");
    assert_eq!(user.password, "password1");
    assert!(!f.signup_data.show_error_message);
    assert_eq!(f.signup_login_request().password, "password1");
    assert!(!f.signup(Err("User already exists".into())));
    assert_eq!(f.signup_data.error_message, "User already exists");
    assert!(f.signup(Ok(account("k"))));
    assert_eq!(f.messaging_data.key.as_deref(), Some("k"));
    assert_eq!(f.winodow_mode, WindowMode::Messaging);
}

#[test]
fn chat_list_and_errors() {
    let mut f = form();
    let listing = vec![GetChat {
        chat_id: 4,
        chat_name: "team".into(),
        creator_id: 1,
        creator_name: "ann".into(),
    }];
    f.update_chat_list(Ok(Some(listing)));
    assert_eq!(f.messaging_data.chats.len(), 1);
    assert_eq!(f.messaging_data.chats[0].chat_id, 4);
    assert_eq!(f.messaging_data.chats[0].chat_name, "team");
    f.update_chat_list(Err("boom".into()));
    assert!(f.messaging_data.show_error_modal);
    assert_eq!(f.messaging_data.error_message, "boom");
    assert_eq!(f.messaging_data.chats.len(), 1);
    assert_eq!(f.error_dialog_text(), "Error:boom");
    f.update(Message::ErrorModalClose);
    assert!(!f.messaging_data.show_error_modal);
    assert!(f.create_chat(Ok(())));
    assert!(!f.create_chat(Err("no".into())));
    f.update(Message::ErrorModalClose);
    f.update_chat_list(Ok(None));
    assert!(f.messaging_data.chats.is_empty());
    assert!(!f.messaging_data.show_error_modal);
}

#[test]
fn listing_answers_that_count_as_failed() {
    assert!(!listing_failed(200));
    assert!(!listing_failed(204));
    assert!(!listing_failed(299));
    assert!(!listing_failed(404));
    assert!(listing_failed(400));
    assert!(listing_failed(401));
    assert!(listing_failed(500));
    assert!(listing_failed(199));
    assert!(listing_failed(300));
}

#[test]
fn invites_are_listed_in_local_time() {
    let mut f = form();
    f.update_invites_list(Ok(Some(vec![invite(1), invite(2)])), -7200);
    assert_eq!(f.messaging_data.invites.len(), 2);
    assert_eq!(f.messaging_data.invites[0].created_at, Timestamp { seconds: 1_700_000_000 - 7200, nanos: 0 });
    assert_eq!(f.messaging_data.invites[1].invite_id, 2);
    assert_eq!(f.messaging_data.invites[1].chat_name, "chat 2");
    f.update_invites_list(Ok(None), 0);
    assert!(f.messaging_data.invites.is_empty());
    f.update_invites_list(Err("down".into()), 0);
    assert_eq!(f.messaging_data.error_message, "down");
}

#[test]
fn answered_invites_leave_the_list() {
    let mut f = form();
    f.update_invites_list(Ok(Some(vec![invite(1), invite(2), invite(1), invite(3)])), 0);
    f.accept_invite(1, Ok(()));
    let ids: Vec<i32> = f.messaging_data.invites.iter().map(|i| i.invite_id).collect();
    assert_eq!(ids, vec![2, 3]);
    f.decline_invite(3, Err("nope".into()));
    assert_eq!(f.messaging_data.invites.len(), 2);
    assert_eq!(f.messaging_data.error_message, "nope");
    f.decline_invite(3, Ok(()));
    let ids: Vec<i32> = f.messaging_data.invites.iter().map(|i| i.invite_id).collect();
    assert_eq!(ids, vec![2]);
}

#[test]
fn sending_a_message() {
    let mut f = form();
    f.messaging_data.chat_key = [3u8; 32];
    f.update(Message::SelectChat(9));
    f.update(Message::MessageEdited("hi there".into()));
    let body = f.send_message_request();
    assert_eq!(body.chat_id, 9);
    assert_eq!(body.text, encrypt_string_to_base64("hi there", &[3u8; 32]));
    let upload = f.upload_request();
    assert_eq!(upload.metadata.chat_id, 9);
    assert_eq!(upload.metadata.message_text, body.text);
    assert!(upload.files.is_empty());
    assert!(!f.send_message(Err("down".into())));
    assert_eq!(f.messaging_data.current_message, "hi there");
    assert!(f.send_message(Ok(())));
    assert_eq!(f.messaging_data.current_message, "");
}

#[test]
fn loading_messages_appends_decrypted_new_ones() {
    let key = [5u8; 32];
    let mut f = form();
    f.messaging_data.chat_key = key;
    f.update(Message::SelectChat(1));
    assert_eq!(f.load_messages_request(), Some(1));
    let first = vec![fetched(1, "one", &key)];
    assert!(f.load_messages(Ok(first.clone()), false, 0));
    assert_eq!(f.messaging_data.messages.len(), 1);
    assert_eq!(f.messaging_data.messages[0].message_text, "one");
    assert_eq!(f.messaging_data.messages[0].username, "alice");
    assert!(!f.load_messages(Ok(first.clone()), false, 0));
    assert!(f.load_messages(Ok(first.clone()), true, 0));
    assert_eq!(f.messaging_data.messages.len(), 1);
    let both = vec![fetched(1, "one", &key), fetched(2, "two", &key)];
    assert!(f.load_messages(Ok(both), false, 0));
    assert_eq!(f.messaging_data.messages[1].message_text, "two");
    assert_eq!(f.messaging_data.messages[1].message_id, 2);
    assert!(!f.load_messages(Err("gone".into()), true, 0));
    assert_eq!(f.messaging_data.error_message, "gone");
}

#[test]
fn loaded_messages_show_local_time() {
    let key = [5u8; 32];
    let mut f = form();
    f.messaging_data.chat_key = key;
    f.update(Message::SelectChat(1));
    let mut m = fetched(1, "one", &key);
    m.sent_at = Timestamp { seconds: 1_700_000_000, nanos: 250 };
    assert!(f.load_messages(Ok(vec![m]), false, 3600));
    assert_eq!(f.messaging_data.messages[0].sent_at, Timestamp { seconds: 1_700_003_600, nanos: 250 });
    assert_eq!(f.messaging_data.messages[0].message_text, "one");
}

#[test]
fn loading_without_a_chat_changes_nothing() {
    let key = [5u8; 32];
    let mut f = form();
    f.messaging_data.chat_key = key;
    assert_eq!(f.load_messages_request(), None);
    assert!(!f.load_messages(Ok(vec![fetched(1, "one", &key)]), true, 0));
    assert!(f.messaging_data.messages.is_empty());
    assert!(!f.load_messages(Err("gone".into()), true, 0));
    assert!(!f.messaging_data.show_error_modal);
    assert_eq!(f.try_load_messages(Ok(vec![fetched(1, "one", &key)]), true, 0), Ok(false));
    assert!(f.messaging_data.messages.is_empty());
}

#[test]
fn loading_checks_what_it_needs() {
    let key = [5u8; 32];
    let mut f = form();
    f.messaging_data.chat_key = key;
    f.update(Message::SelectChat(1));
    assert_eq!(f.try_load_messages(Ok(vec![fetched(1, "one", &key)]), false, 0), Ok(true));
    assert_eq!(f.try_load_messages(Ok(vec![]), false, 0), Err(LoadProblem::FewerMessages));
    let mut bad = fetched(2, "two", &key);
    bad.message_text = "%%%".into();
    let listing = vec![fetched(1, "one", &key), bad];
    assert_eq!(f.try_load_messages(Ok(listing), false, 0), Err(LoadProblem::Unreadable(1)));
    assert_eq!(f.messaging_data.messages.len(), 1);
    let mut late = fetched(2, "two", &key);
    late.sent_at = Timestamp { seconds: i64::MAX - 10, nanos: 0 };
    let listing = vec![fetched(1, "one", &key), late];
    assert_eq!(f.try_load_messages(Ok(listing.clone()), false, 3600), Err(LoadProblem::TimeOutOfRange(1)));
    assert_eq!(f.messaging_data.messages.len(), 1);
    assert_eq!(f.try_load_messages(Ok(listing), false, -3600), Ok(true));
    assert_eq!(f.messaging_data.messages[1].sent_at.seconds, i64::MAX - 3610);
}

#[test]
fn refresh_and_controls() {
    let mut f = form();
    assert!(!f.wants_refresh());
    f.login(Some(account("pem")));
    assert!(!f.wants_refresh());
    let c = f.controls();
    assert!(!c.invite_enabled && !c.send_enabled && !c.confirm_enabled);
    f.update(Message::SelectChat(1));
    f.update(Message::MessageEdited("x".into()));
    assert!(f.wants_refresh());
    let c = f.controls();
    assert!(c.invite_enabled && c.send_enabled && !c.confirm_enabled);
}

#[test]
fn chat_key_from_private_key() {
    let mut rng = rand::thread_rng();
    let private_key = rsa::RsaPrivateKey::new(&mut rng, 512).unwrap();
    let public_key = rsa::RsaPublicKey::from(&private_key);
    let pem = private_key.to_pkcs8_pem(LineEnding::LF).unwrap().to_string();
    let chat_key = [11u8; 32];
    let encrypted = public_key.encrypt(&mut rng, rsa::Pkcs1v15Encrypt, &chat_key).unwrap();

    let mut f = form();
    assert_eq!(f.get_chat_key(Ok(encrypted.clone())), Err(ChatKeyProblem::NoPrivateKey));
    f.login(Some(account(&pem)));
    assert_eq!(f.get_chat_key(Ok(vec![1, 2, 3])), Err(ChatKeyProblem::Undecryptable));
    let short = public_key.encrypt(&mut rng, rsa::Pkcs1v15Encrypt, &[1u8; 16]).unwrap();
    assert_eq!(f.get_chat_key(Ok(short)), Err(ChatKeyProblem::WrongLength));
    assert_eq!(f.messaging_data.chat_key, [0u8; 32]);
    assert_eq!(f.get_chat_key(Ok(encrypted)), Ok(()));
    assert_eq!(f.messaging_data.chat_key, chat_key);
    assert_eq!(f.get_chat_key(Err("no key".into())), Ok(()));
    assert_eq!(f.messaging_data.error_message, "no key");
}

#[test]
fn uploads_carry_the_encrypted_attachments() {
    let key = [9u8; 32];
    let mut f = form();
    f.messaging_data.chat_key = key;
    f.update(Message::SelectChat(6));
    f.update(Message::MessageEdited("see files".into()));
    f.messaging_data.attachments = vec![
        FilePart { name: "a.txt".into(), data: b"first file".to_vec() },
        FilePart { name: "b.bin".into(), data: vec![1u8; 40] },
    ];
    let upload = f.upload_files();
    assert_eq!(upload.metadata.chat_id, 6);
    assert_eq!(upload.metadata.message_text, encrypt_string_to_base64("see files", &key));
    assert_eq!(upload.files.len(), 2);
    assert_eq!(upload.files[0].name, "a.txt");
    assert_eq!(upload.files[0].data, encrypt_data(&key, b"first file"));
    assert_ne!(upload.files[0].data, b"first file".to_vec());
    assert_eq!(upload.files[0].data.len(), 16);
    assert_eq!(upload.files[1].name, "b.bin");
    assert_eq!(upload.files[1].data.len(), 48);
    assert_eq!(decrypt_data(&key, &upload.files[1].data), vec![1u8; 40]);
    assert_eq!(f.messaging_data.current_message, "");
    assert!(f.messaging_data.attachments.is_empty());
    assert_eq!(f.messaging_data.selected_chat, Some(6));
}

#[test]
fn local_time_keeps_order_and_differences() {
    let a = Timestamp { seconds: 1_000, nanos: 900 };
    let b = Timestamp { seconds: 1_000, nanos: 901 };
    let c = Timestamp { seconds: 4_600, nanos: 0 };
    for offset in [-43_200, -1, 0, 3_600, 50_400] {
        let (la, lb, lc) = (utc_to_local(a, offset), utc_to_local(b, offset), utc_to_local(c, offset));
        assert_eq!(la.seconds, 1_000 + offset as i64);
        assert_eq!(la.nanos, 900);
        assert!((la.seconds, la.nanos) < (lb.seconds, lb.nanos));
        assert!((lb.seconds, lb.nanos) < (lc.seconds, lc.nanos));
        assert_eq!(lc.seconds - la.seconds, 3_600);
    }
}
