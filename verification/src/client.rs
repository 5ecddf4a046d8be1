//! State of the chat client window and how each user action changes it.

use vstd::prelude::*;

use vstd::utf8::encode_utf8;

use crate::common::{
    local_time, local_time_fits, utc_to_local,
    AddUser, GetChat, GetFile, GetInvites, GetMessage, Login, SendInvite, SendMessage, UploadFile,
    UserData,
};
use crate::blocks::trim_trailing_zeros;
use crate::credentials::{rsa_decrypt, rsa_pkcs1v15_decryption};
use crate::email::{contains_email, email_regex};
use crate::encryption::{
    decrypt_base64_to_string, decrypted, decrypted_text, encrypt_data, encrypt_string_to_base64, encrypted,
    encrypted_text, ends_without_nul, into_key, try_decrypt_base64_to_string, Key,
};

verus! {

/// Which screen the window shows.
#[derive(Clone, Copy, Debug, PartialEq, Eq, Structural)]
pub enum WindowMode {
    Login,
    SignUp,
    Messaging,
}

impl Default for WindowMode {
    fn default() -> (res: Self)
        ensures
            res == WindowMode::Login,
    {
        WindowMode::Login
    }
}

/// Contents of the login screen.
#[derive(Clone, Debug)]
pub struct LoginData {
    pub login_textbox: String,
    pub password_textbox: String,
    pub error_message: String,
    pub show_error_message: bool,
}

impl LoginData {
    /// Whether every field is empty and no error is shown.
    pub open spec fn is_blank(&self) -> bool {
        &&& self.login_textbox@ == Seq::<char>::empty()
        &&& self.password_textbox@ == Seq::<char>::empty()
        &&& self.error_message@ == Seq::<char>::empty()
        &&& !self.show_error_message
    }
}

impl Default for LoginData {
    fn default() -> (res: Self)
        ensures
            res.is_blank(),
    {
        LoginData {
            login_textbox: String::new(),
            password_textbox: String::new(),
            error_message: String::new(),
            show_error_message: false,
        }
    }
}

/// Contents of the sign-up screen; the password is typed twice.
#[derive(Clone, Debug)]
pub struct SignupData {
    pub username_textbox: String,
    pub email_textbox: String,
    pub password_textbox: [String; 2],
    pub error_message: String,
    pub show_error_message: bool,
}

impl SignupData {
    /// Whether every field is empty and no error is shown.
    pub open spec fn is_blank(&self) -> bool {
        &&& self.username_textbox@ == Seq::<char>::empty()
        &&& self.email_textbox@ == Seq::<char>::empty()
        &&& self.password_textbox[0]@ == Seq::<char>::empty()
        &&& self.password_textbox[1]@ == Seq::<char>::empty()
        &&& self.error_message@ == Seq::<char>::empty()
        &&& !self.show_error_message
    }
}

impl Default for SignupData {
    fn default() -> (res: Self)
        ensures
            res.is_blank(),
    {
        SignupData {
            username_textbox: String::new(),
            email_textbox: String::new(),
            password_textbox: [String::new(), String::new()],
            error_message: String::new(),
            show_error_message: false,
        }
    }
}

/// A chat in the side bar.
#[derive(Clone, Debug)]
pub struct Chat {
    pub chat_id: i32,
    pub chat_name: String,
}

/// What the main area of the messaging screen lists.
#[derive(Clone, Copy, Debug, PartialEq, Eq, Structural)]
pub enum MessageViewMode {
    Messages,
    Invites,
}

impl Default for MessageViewMode {
    fn default() -> (res: Self)
        ensures
            res == MessageViewMode::Messages,
    {
        MessageViewMode::Messages
    }
}

/// The dialog that asks for one line of text (a chat name or a user name).
#[derive(Clone, Debug)]
pub struct TextInputModalData {
    pub title: String,
    pub placeholder: String,
    pub show_modal: bool,
    pub modal_text: String,
    /// The action that confirming the dialog triggers.
    pub message: Message,
}

impl TextInputModalData {
    /// Whether the dialog is closed, empty, and confirms chat creation.
    pub open spec fn is_blank(&self) -> bool {
        &&& self.title@ == Seq::<char>::empty()
        &&& self.placeholder@ == Seq::<char>::empty()
        &&& !self.show_modal
        &&& self.modal_text@ == Seq::<char>::empty()
        &&& self.message == Message::ConfirmCreateChat
    }
}

impl Default for TextInputModalData {
    fn default() -> (res: Self)
        ensures
            res.is_blank(),
    {
        TextInputModalData {
            title: String::new(),
            placeholder: String::new(),
            show_modal: false,
            modal_text: String::new(),
            message: Message::ConfirmCreateChat,
        }
    }
}

/// A named file: a file chosen to go with a message (its contents), or a
/// part of an upload (its encrypted contents).
#[derive(Clone, Debug)]
pub struct FilePart {
    pub name: String,
    pub data: Vec<u8>,
}

/// What an upload sends: the metadata part, then one part per file.
#[derive(Clone, Debug)]
pub struct UploadRequest {
    pub metadata: UploadFile,
    pub files: Vec<FilePart>,
}

/// Contents of the messaging screen.
#[derive(Clone, Debug)]
pub struct MessagingData {
    pub chats: Vec<Chat>,
    pub selected_chat: Option<i32>,
    pub textinput_modal_data: TextInputModalData,
    pub show_error_modal: bool,
    pub error_message: String,
    pub messages: Vec<GetMessage>,
    pub invites: Vec<GetInvites>,
    pub mode: MessageViewMode,
    pub current_message: String,
    /// The key of the selected chat, with which its messages are encrypted.
    pub chat_key: Key,
    /// The private key (PKCS#8 PEM) of the session, with which chat keys are decrypted.
    pub key: Option<String>,
    /// The files chosen to go with the typed text, in the order chosen.
    pub attachments: Vec<FilePart>,
}

impl MessagingData {
    /// Whether nothing is loaded, selected or shown.
    pub open spec fn is_blank(&self) -> bool {
        &&& self.chats@ == Seq::<Chat>::empty()
        &&& self.selected_chat is None
        &&& self.textinput_modal_data.is_blank()
        &&& !self.show_error_modal
        &&& self.error_message@ == Seq::<char>::empty()
        &&& self.messages@ == Seq::<GetMessage>::empty()
        &&& self.invites@ == Seq::<GetInvites>::empty()
        &&& self.mode == MessageViewMode::Messages
        &&& self.current_message@ == Seq::<char>::empty()
        &&& self.chat_key@ == Seq::new(32, |i: int| 0u8)
        &&& self.key is None
        &&& self.attachments@ == Seq::<FilePart>::empty()
    }
}

impl Default for MessagingData {
    fn default() -> (res: Self)
        ensures
            res.is_blank(),
    {
        let res = MessagingData {
            chats: Vec::new(),
            selected_chat: None,
            textinput_modal_data: TextInputModalData::default(),
            show_error_modal: false,
            error_message: String::new(),
            messages: Vec::new(),
            invites: Vec::new(),
            mode: MessageViewMode::Messages,
            current_message: String::new(),
            chat_key: [0u8; 32],
            key: None,
            attachments: Vec::new(),
        };
        assert(res.chat_key@ =~= Seq::new(32, |i: int| 0u8));
        res
    }
}

/// Everything the client window holds.
#[derive(Clone, Debug)]
pub struct MainForm {
    pub login_data: LoginData,
    pub winodow_mode: WindowMode,
    pub signup_data: SignupData,
    pub messaging_data: MessagingData,
}

impl MainForm {
    /// Whether the window is the blank login screen.
    pub open spec fn is_blank(&self) -> bool {
        &&& self.login_data.is_blank()
        &&& self.winodow_mode == WindowMode::Login
        &&& self.signup_data.is_blank()
        &&& self.messaging_data.is_blank()
    }
}

impl Default for MainForm {
    fn default() -> (res: Self)
        ensures
            res.is_blank(),
    {
        MainForm {
            login_data: LoginData::default(),
            winodow_mode: WindowMode::Login,
            signup_data: SignupData::default(),
            messaging_data: MessagingData::default(),
        }
    }
}

/// A user action or timer tick.
#[derive(Clone, Debug)]
pub enum Message {
    LoginChanged(String),
    PasswordChanged(String),
    LoginButtonPressed,
    LoginViewSignupButtonPressed,
    UsernameChanged(String),
    EmailChanged(String),
    SignupPasswordChanged(String, usize),
    BackButtonPressed,
    SignupButtonPressed,
    LogoutButtonPressed,
    CreateChatButtonPressed,
    CloseCreateChatModal,
    ConfirmCreateChat,
    CreateChatModalTextChange(String),
    ErrorModalClose,
    SelectChat(i32),
    InviteButtonPressed,
    ConfirmInvite,
    InvitesButtonPressed,
    DeclineInvite(i32),
    AcceptInvite(i32),
    MessageEdited(String),
    SendMessage,
    RefreshMessages,
}

impl Default for Message {
    fn default() -> (res: Self)
        ensures
            res == Message::ConfirmCreateChat,
    {
        Message::ConfirmCreateChat
    }
}

/// What the window asks its surroundings to do after an action.
#[derive(Clone, Copy, Debug, PartialEq, Eq, Structural)]
pub enum Effect {
    /// Nothing.
    Nothing,
    /// Send the login form; see `MainForm::login_failed` and `MainForm::login_succeeded`.
    Login,
    /// Check and send the sign-up form; see `MainForm::check_signup`.
    Signup,
    /// Tell the server to end the session.
    Logout,
    /// Create a chat named by the dialog text, then reload the chat list.
    CreateChat,
    /// Reload the messages of the selected chat; scroll to the end always, or
    /// only when new messages came.
    LoadMessages { always_scroll: bool },
    /// Invite the user named by the dialog text into the selected chat.
    SendInvite,
    /// Reload the invitations.
    UpdateInvites,
    /// Decline an invitation, then reload chats and invitations.
    DeclineInvite(i32),
    /// Accept an invitation, then reload chats and invitations.
    AcceptInvite(i32),
    /// Send the typed message into the selected chat.
    SendMessage,
}

/// Whether `t` is `s` with only the dialog replaced, the dialog now open,
/// empty, titled `title`, with the hint `placeholder`, confirming with `confirm`.
pub open spec fn opens_dialog(
    s: MainForm,
    t: MainForm,
    title: Seq<char>,
    placeholder: Seq<char>,
    confirm: Message,
) -> bool {
    let d = t.messaging_data.textinput_modal_data;
    &&& t == MainForm {
        messaging_data: MessagingData { textinput_modal_data: d, ..s.messaging_data },
        ..s
    }
    &&& d.title@ == title
    &&& d.placeholder@ == placeholder
    &&& d.show_modal
    &&& d.modal_text@ == Seq::<char>::empty()
    &&& d.message == confirm
}

/// `s` with the dialog closed.
pub open spec fn dialog_closed(s: MainForm) -> MainForm {
    MainForm {
        messaging_data: MessagingData {
            textinput_modal_data: TextInputModalData {
                show_modal: false,
                ..s.messaging_data.textinput_modal_data
            },
            ..s.messaging_data
        },
        ..s
    }
}

/// `s` showing another screen.
pub open spec fn with_mode(s: MainForm, mode: WindowMode) -> MainForm {
    MainForm { winodow_mode: mode, ..s }
}

/// `s` with another login form.
pub open spec fn with_login(s: MainForm, l: LoginData) -> MainForm {
    MainForm { login_data: l, ..s }
}

/// `s` with another sign-up form.
pub open spec fn with_signup(s: MainForm, d: SignupData) -> MainForm {
    MainForm { signup_data: d, ..s }
}

/// The sign-up form `d` showing the error `text`.
pub open spec fn signup_with_error(d: SignupData, text: String) -> SignupData {
    SignupData { show_error_message: true, error_message: text, ..d }
}

/// `m` with another list of invitations.
pub open spec fn with_invites(m: MessagingData, invites: Vec<GetInvites>) -> MessagingData {
    MessagingData { invites: invites, ..m }
}

/// `m` with another list of chats.
pub open spec fn with_chats(m: MessagingData, chats: Vec<Chat>) -> MessagingData {
    MessagingData { chats: chats, ..m }
}

/// `m` with another list of messages.
pub open spec fn with_messages(m: MessagingData, messages: Vec<GetMessage>) -> MessagingData {
    MessagingData { messages: messages, ..m }
}

/// `m` with another session private key.
pub open spec fn with_key(m: MessagingData, key: Option<String>) -> MessagingData {
    MessagingData { key: key, ..m }
}

/// `m` with another chat key.
pub open spec fn with_chat_key(m: MessagingData, chat_key: Key) -> MessagingData {
    MessagingData { chat_key: chat_key, ..m }
}

/// `m` with another typed text.
pub open spec fn with_current_message(m: MessagingData, text: String) -> MessagingData {
    MessagingData { current_message: text, ..m }
}

/// `m` after its draft went out: no typed text and no attachments, the rest kept.
pub open spec fn draft_cleared(m: MessagingData, t: MessagingData) -> bool {
    &&& t == MessagingData { current_message: t.current_message, attachments: t.attachments, ..m }
    &&& t.current_message@ == Seq::<char>::empty()
    &&& t.attachments@ == Seq::<FilePart>::empty()
}

/// Whether `req` is the upload of the draft in `m`: the typed text encrypted
/// under the chat key, into the selected chat, then for each attachment, in
/// order, a part with its name and its contents encrypted under the chat key.
pub open spec fn is_upload_of(req: UploadRequest, m: MessagingData) -> bool {
    &&& m.selected_chat == Some(req.metadata.chat_id)
    &&& req.metadata.message_text@ == encrypted_text(m.current_message@, m.chat_key@)
    &&& req.files@.len() == m.attachments@.len()
    &&& forall|i: int|
        0 <= i < m.attachments@.len() ==> {
            &&& (#[trigger] req.files@[i]).name == m.attachments@[i].name
            &&& req.files@[i].data@ == encrypted(m.chat_key@, m.attachments@[i].data@)
        }
}

/// Whether an upload of the draft in `m` can be built: a chat is selected
/// and the text and each file are small enough to encrypt.
pub open spec fn upload_fits(m: MessagingData) -> bool {
    &&& m.selected_chat is Some
    &&& encode_utf8(m.current_message@).len() + 16 <= usize::MAX / 2
    &&& forall|i: int| 0 <= i < m.attachments@.len() ==> (#[trigger] m.attachments@[i]).data@.len() + 16 <= usize::MAX
}

/// `s` with other messaging data.
pub open spec fn with_messaging(s: MainForm, m: MessagingData) -> MainForm {
    MainForm { messaging_data: m, ..s }
}

/// How `message` takes the window from `s` to `t` and what it asks for (`e`).
pub open spec fn transition(s: MainForm, message: Message, t: MainForm, e: Effect) -> bool {
    match message {
        Message::LoginChanged(v) => e == Effect::Nothing && t == MainForm {
            login_data: LoginData { login_textbox: v, ..s.login_data },
            ..s
        },
        Message::PasswordChanged(v) => e == Effect::Nothing && t == MainForm {
            login_data: LoginData { password_textbox: v, ..s.login_data },
            ..s
        },
        Message::LoginButtonPressed => e == Effect::Login && t == s,
        Message::LoginViewSignupButtonPressed => {
            &&& e == Effect::Nothing
            &&& t == MainForm { signup_data: t.signup_data, winodow_mode: WindowMode::SignUp, ..s }
            &&& t.signup_data.is_blank()
        },
        Message::BackButtonPressed => e == Effect::Nothing && t == MainForm {
            winodow_mode: WindowMode::Login,
            ..s
        },
        Message::UsernameChanged(v) => e == Effect::Nothing && t == MainForm {
            signup_data: SignupData { username_textbox: v, ..s.signup_data },
            ..s
        },
        Message::EmailChanged(v) => e == Effect::Nothing && t == MainForm {
            signup_data: SignupData { email_textbox: v, ..s.signup_data },
            ..s
        },
        Message::SignupPasswordChanged(v, i) => {
            &&& e == Effect::Nothing
            &&& t == MainForm {
                signup_data: SignupData {
                    password_textbox: t.signup_data.password_textbox,
                    ..s.signup_data
                },
                ..s
            }
            &&& t.signup_data.password_textbox@ == s.signup_data.password_textbox@.update(
                i as int,
                v,
            )
        },
        Message::SignupButtonPressed => e == Effect::Signup && t == s,
        Message::LogoutButtonPressed => {
            &&& e == Effect::Logout
            &&& t == MainForm {
                login_data: t.login_data,
                winodow_mode: WindowMode::Login,
                messaging_data: t.messaging_data,
                ..s
            }
            &&& t.login_data.is_blank()
            &&& t.messaging_data.is_blank()
        },
        Message::CreateChatButtonPressed => e == Effect::Nothing && opens_dialog(
            s,
            t,
            "Create chat"@,
            "Chat name"@,
            Message::ConfirmCreateChat,
        ),
        Message::CloseCreateChatModal => e == Effect::Nothing && t == dialog_closed(s),
        Message::ConfirmCreateChat => e == Effect::CreateChat && t == dialog_closed(s),
        Message::CreateChatModalTextChange(v) => e == Effect::Nothing && t == with_messaging(
            s,
            MessagingData {
                textinput_modal_data: TextInputModalData {
                    modal_text: v,
                    ..s.messaging_data.textinput_modal_data
                },
                ..s.messaging_data
            },
        ),
        Message::ErrorModalClose => e == Effect::Nothing && t == with_messaging(
            s,
            MessagingData { show_error_modal: false, ..s.messaging_data },
        ),
        Message::SelectChat(id) => e == Effect::LoadMessages { always_scroll: true } && t
            == with_messaging(
            s,
            MessagingData {
                mode: MessageViewMode::Messages,
                selected_chat: Some(id),
                ..s.messaging_data
            },
        ),
        Message::InviteButtonPressed => e == Effect::Nothing && opens_dialog(
            s,
            t,
            "Invite to the chat"@,
            "Username"@,
            Message::ConfirmInvite,
        ),
        Message::ConfirmInvite => e == Effect::SendInvite && t == dialog_closed(s),
        Message::InvitesButtonPressed => e == Effect::UpdateInvites && t == with_messaging(
            s,
            MessagingData {
                selected_chat: None,
                mode: MessageViewMode::Invites,
                ..s.messaging_data
            },
        ),
        Message::DeclineInvite(id) => e == Effect::DeclineInvite(id) && t == s,
        Message::AcceptInvite(id) => e == Effect::AcceptInvite(id) && t == s,
        Message::MessageEdited(v) => e == Effect::Nothing && t == with_messaging(
            s,
            MessagingData { current_message: v, ..s.messaging_data },
        ),
        Message::SendMessage => e == Effect::SendMessage && t == s,
        Message::RefreshMessages => e == Effect::LoadMessages { always_scroll: false } && t == s,
    }
}

impl MainForm {
    /// Applies a user action to the window and says what else it asks for.
    pub fn update(&mut self, message: Message) -> (effect: Effect)
        requires
            message matches Message::SignupPasswordChanged(_, i) ==> i < 2,
        ensures
            transition(*old(self), message, *final(self), effect),
    {
        match message {
            Message::LoginChanged(v) => {
                self.login_data.login_textbox = v;
                Effect::Nothing
            },
            Message::PasswordChanged(v) => {
                self.login_data.password_textbox = v;
                Effect::Nothing
            },
            Message::LoginButtonPressed => Effect::Login,
            Message::LoginViewSignupButtonPressed => {
                self.signup_data = SignupData::default();
                self.winodow_mode = WindowMode::SignUp;
                Effect::Nothing
            },
            Message::BackButtonPressed => {
                self.winodow_mode = WindowMode::Login;
                Effect::Nothing
            },
            Message::UsernameChanged(v) => {
                self.signup_data.username_textbox = v;
                Effect::Nothing
            },
            Message::EmailChanged(v) => {
                self.signup_data.email_textbox = v;
                Effect::Nothing
            },
            Message::SignupPasswordChanged(v, i) => {
                self.signup_data.password_textbox[i] = v;
                Effect::Nothing
            },
            Message::SignupButtonPressed => Effect::Signup,
            Message::LogoutButtonPressed => {
                self.winodow_mode = WindowMode::Login;
                self.login_data = LoginData::default();
                self.messaging_data = MessagingData::default();
                Effect::Logout
            },
            Message::CreateChatButtonPressed => {
                self.messaging_data.textinput_modal_data.modal_text = String::new();
                self.messaging_data.textinput_modal_data.title = "Create chat".to_owned();
                self.messaging_data.textinput_modal_data.placeholder = "Chat name".to_owned();
                self.messaging_data.textinput_modal_data.show_modal = true;
                self.messaging_data.textinput_modal_data.message = Message::ConfirmCreateChat;
                Effect::Nothing
            },
            Message::CloseCreateChatModal => {
                self.messaging_data.textinput_modal_data.show_modal = false;
                Effect::Nothing
            },
            Message::ConfirmCreateChat => {
                self.messaging_data.textinput_modal_data.show_modal = false;
                Effect::CreateChat
            },
            Message::CreateChatModalTextChange(v) => {
                self.messaging_data.textinput_modal_data.modal_text = v;
                Effect::Nothing
            },
            Message::ErrorModalClose => {
                self.messaging_data.show_error_modal = false;
                Effect::Nothing
            },
            Message::SelectChat(id) => {
                self.messaging_data.mode = MessageViewMode::Messages;
                self.messaging_data.selected_chat = Some(id);
                Effect::LoadMessages { always_scroll: true }
            },
            Message::InviteButtonPressed => {
                self.messaging_data.textinput_modal_data.modal_text = String::new();
                self.messaging_data.textinput_modal_data.title = "Invite to the chat".to_owned();
                self.messaging_data.textinput_modal_data.placeholder = "Username".to_owned();
                self.messaging_data.textinput_modal_data.show_modal = true;
                self.messaging_data.textinput_modal_data.message = Message::ConfirmInvite;
                Effect::Nothing
            },
            Message::ConfirmInvite => {
                self.messaging_data.textinput_modal_data.show_modal = false;
                Effect::SendInvite
            },
            Message::InvitesButtonPressed => {
                self.messaging_data.selected_chat = None;
                self.messaging_data.mode = MessageViewMode::Invites;
                Effect::UpdateInvites
            },
            Message::DeclineInvite(id) => Effect::DeclineInvite(id),
            Message::AcceptInvite(id) => Effect::AcceptInvite(id),
            Message::MessageEdited(v) => {
                self.messaging_data.current_message = v;
                Effect::Nothing
            },
            Message::SendMessage => Effect::SendMessage,
            Message::RefreshMessages => Effect::LoadMessages { always_scroll: false },
        }
    }
}


/// Why the sign-up form was not sent.
#[derive(Clone, Copy, Debug, PartialEq, Eq, Structural)]
pub enum SignupProblem {
    EmptyField,
    PasswordMismatch,
    PasswordTooShort,
    InvalidEmail,
}

impl SignupProblem {
    /// The text shown for the problem.
    pub open spec fn spec_text(self) -> Seq<char> {
        match self {
            SignupProblem::EmptyField => "All fields must be filled in"@,
            SignupProblem::PasswordMismatch => "Passwords don't match"@,
            SignupProblem::PasswordTooShort => "Password must be at least 8 characters long"@,
            SignupProblem::InvalidEmail => "Invalid email adress"@,
        }
    }

    /// The text shown for the problem.
    pub fn text(&self) -> (res: String)
        ensures
            res@ == self.spec_text(),
    {
        match self {
            SignupProblem::EmptyField => "All fields must be filled in".to_owned(),
            SignupProblem::PasswordMismatch => "Passwords don't match".to_owned(),
            SignupProblem::PasswordTooShort => "Password must be at least 8 characters long".to_owned(),
            SignupProblem::InvalidEmail => "Invalid email adress".to_owned(),
        }
    }
}

/// The first problem of a sign-up form, checked in this order: a required
/// field is empty, the two passwords differ, the password has fewer than 8
/// bytes, the e-mail field holds no address.
pub open spec fn signup_problem(d: SignupData) -> Option<SignupProblem> {
    if d.email_textbox@.len() == 0 || d.username_textbox@.len() == 0
        || d.password_textbox[0]@.len() == 0 {
        Some(SignupProblem::EmptyField)
    } else if d.password_textbox[0]@ != d.password_textbox[1]@ {
        Some(SignupProblem::PasswordMismatch)
    } else if encode_utf8(d.password_textbox[0]@).len() < 8 {
        Some(SignupProblem::PasswordTooShort)
    } else if !contains_email(d.email_textbox@) {
        Some(SignupProblem::InvalidEmail)
    } else {
        None
    }
}

/// The messaging data with an error dialog showing `text`.
pub open spec fn with_error(m: MessagingData, text: String) -> MessagingData {
    MessagingData { show_error_modal: true, error_message: text, ..m }
}

/// A message as the window shows it: the text decrypted under `key`, the
/// time shifted from UTC to the zone `offset` seconds east of it, no files.
pub open spec fn is_shown_as(shown: GetMessage, fetched: GetMessage, key: Seq<u8>, offset: int) -> bool {
    &&& shown.message_id == fetched.message_id
    &&& shown.user_id == fetched.user_id
    &&& shown.username == fetched.username
    &&& Some(shown.message_text@) == decrypted_text(fetched.message_text@, key)
    &&& shown.sent_at.seconds == fetched.sent_at.seconds + offset
    &&& shown.sent_at.nanos == fetched.sent_at.nanos
    &&& shown.files@ == Seq::<GetFile>::empty()
}

/// Whether every message of `fetched` from index `from` on can be decrypted
/// under `key` and its time shifted by `offset`.
pub open spec fn all_showable(fetched: Seq<GetMessage>, from: int, key: Seq<u8>, offset: int) -> bool {
    forall|i: int|
        from <= i < fetched.len() ==> (#[trigger] decrypted_text(fetched[i].message_text@, key)) is Some
            && local_time_fits(fetched[i].sent_at, offset)
}

/// Whether reloading the messages changes the list: there are more of them,
/// or the reload is forced.
pub open spec fn reload_changes(old_count: nat, fetched: Seq<GetMessage>, force: bool) -> bool {
    !(fetched.len() == old_count && !force)
}

/// A fetched message with its text decrypted under `key` and its time in
/// the zone `offset` seconds east of UTC.
fn shown_message(fetched: &GetMessage, key: &Key, offset: i32) -> (res: GetMessage)
    requires
        decrypted_text(fetched.message_text@, key@) is Some,
        local_time_fits(fetched.sent_at, offset as int),
    ensures
        is_shown_as(res, *fetched, key@, offset as int),
{
    GetMessage {
        message_id: fetched.message_id,
        user_id: fetched.user_id,
        username: fetched.username.clone(),
        message_text: decrypt_base64_to_string(fetched.message_text.as_str(), key),
        sent_at: utc_to_local(fetched.sent_at, offset),
        files: Vec::new(),
    }
}

/// Whether `load_messages` may take `reply` with a chat selected: a listing
/// that changes the window does not shrink it, and each new message decrypts
/// under the chat key and has a local time.
pub open spec fn load_messages_allowed(
    s: MainForm,
    reply: Result<Vec<GetMessage>, String>,
    force: bool,
    offset: int,
) -> bool {
    &&& -86400 < offset < 86400
    &&& s.messaging_data.selected_chat is Some ==> match reply {
        Ok(fetched) => reload_changes(s.messaging_data.messages@.len(), fetched@, force) ==> {
            &&& fetched@.len() >= s.messaging_data.messages@.len()
            &&& all_showable(fetched@, s.messaging_data.messages@.len() as int, s.messaging_data.chat_key@, offset)
        },
        Err(_) => true,
    }
}

/// How taking `reply` takes the window from `s` to `t`, and whether it
/// reports a change: with no chat selected nothing happens; an error is shown;
/// an unchanged listing leaves the window alone; otherwise the new messages
/// are appended decrypted, with local times.
pub open spec fn load_messages_spec(
    s: MainForm,
    reply: Result<Vec<GetMessage>, String>,
    force: bool,
    offset: int,
    t: MainForm,
    changed: bool,
) -> bool {
    if s.messaging_data.selected_chat is None {
        !changed && t == s
    } else {
        match reply {
            Err(text) => !changed && t == with_messaging(s, with_error(s.messaging_data, text)),
            Ok(fetched) => {
                let old_msgs = s.messaging_data.messages@;
                let new_msgs = t.messaging_data.messages@;
                &&& changed == reload_changes(old_msgs.len(), fetched@, force)
                &&& !changed ==> t == s
                &&& changed ==> {
                    &&& t == with_messaging(s, with_messages(s.messaging_data, t.messaging_data.messages))
                    &&& old_msgs.len() <= fetched@.len()
                    &&& new_msgs.len() == fetched@.len()
                    &&& new_msgs.take(old_msgs.len() as int) == old_msgs
                    &&& forall|i: int|
                        old_msgs.len() <= i < fetched@.len() ==> is_shown_as(
                            #[trigger] new_msgs[i],
                            fetched@[i],
                            s.messaging_data.chat_key@,
                            offset,
                        )
                }
            },
        }
    }
}

/// A copy of an invitation.
fn copy_invite(g: &GetInvites) -> (res: GetInvites)
    ensures
        res == *g,
{
    GetInvites {
        invite_id: g.invite_id,
        chat_id: g.chat_id,
        chat_name: g.chat_name.clone(),
        sender_name: g.sender_name.clone(),
        created_at: g.created_at,
    }
}

/// The items of a listing's body: those parsed, or none where it did not parse.
pub open spec fn listing_of<T>(parsed: Option<Vec<T>>) -> Seq<T> {
    match parsed {
        Some(v) => v@,
        None => Seq::empty(),
    }
}

/// An invitation as the window lists it: the time in the zone `offset`
/// seconds east of UTC, the rest as received.
pub open spec fn is_local_invite(shown: GetInvites, received: GetInvites, offset: int) -> bool {
    &&& shown.invite_id == received.invite_id
    &&& shown.chat_id == received.chat_id
    &&& shown.chat_name == received.chat_name
    &&& shown.sender_name == received.sender_name
    &&& shown.created_at.seconds == received.created_at.seconds + offset
    &&& shown.created_at.nanos == received.created_at.nanos
}

/// Whether a listing answer with HTTP status `status` counts as failed: any
/// status outside 200..=299 except 404 ("not found"), which counts as an
/// empty listing.
pub fn listing_failed(status: u16) -> (res: bool)
    ensures
        res == (!(200 <= status <= 299) && status != 404),
{
    !(200 <= status && status <= 299) && status != 404
}

/// Why the key of a chat could not be taken.
#[derive(Clone, Copy, Debug, PartialEq, Eq, Structural)]
pub enum ChatKeyProblem {
    /// The session has no private key.
    NoPrivateKey,
    /// The private key does not decrypt the chat key.
    Undecryptable,
    /// The decrypted chat key is not 32 bytes long.
    WrongLength,
}

/// Why fetched messages could not be shown.
#[derive(Clone, Copy, Debug, PartialEq, Eq, Structural)]
pub enum LoadProblem {
    /// The server lists fewer messages than the window already shows.
    FewerMessages,
    /// The message at this index of the listing cannot be decrypted.
    Unreadable(usize),
    /// The local time of the message at this index does not fit.
    TimeOutOfRange(usize),
}

/// Which buttons of the messaging screen react.
#[derive(Clone, Copy, Debug, PartialEq, Eq, Structural)]
pub struct Controls {
    /// The side bar's invite button: a chat is selected.
    pub invite_enabled: bool,
    /// The send button, and sending by Enter: some text is typed.
    pub send_enabled: bool,
    /// The dialog's OK button: the dialog holds some text.
    pub confirm_enabled: bool,
}

impl MainForm {
    /// Which buttons of the messaging screen react.
    pub fn controls(&self) -> (res: Controls)
        ensures
            res.invite_enabled == self.messaging_data.selected_chat is Some,
            res.send_enabled == (self.messaging_data.current_message@.len() > 0),
            res.confirm_enabled == (self.messaging_data.textinput_modal_data.modal_text@.len() > 0),
    {
        Controls {
            invite_enabled: self.messaging_data.selected_chat.is_some(),
            send_enabled: !self.messaging_data.current_message.as_str().is_empty(),
            confirm_enabled: !self.messaging_data.textinput_modal_data.modal_text.as_str().is_empty(),
        }
    }

    /// The text of the error dialog: "Error:" and the error message.
    pub fn error_dialog_text(&self) -> (res: String)
        ensures
            res@ == "Error:"@ + self.messaging_data.error_message@,
    {
        "Error:".to_owned().concat(self.messaging_data.error_message.as_str())
    }

    /// Shows an error dialog with `message`.
    pub fn error_message(&mut self, message: String)
        ensures
            *final(self) == with_messaging(*old(self), with_error(old(self).messaging_data, message)),
    {
        self.messaging_data.show_error_modal = true;
        self.messaging_data.error_message = message;
    }

    /// The credentials the login form holds.
    pub fn login_request(&self) -> (res: Login)
        ensures
            res.username == self.login_data.login_textbox,
            res.password == self.login_data.password_textbox,
    {
        Login {
            username: self.login_data.login_textbox.clone(),
            password: self.login_data.password_textbox.clone(),
        }
    }

    /// Takes the server's answer to a login (the account data when it was
    /// accepted). A refused login shows "Wrong username or password" and
    /// clears the password; an accepted one keeps the session's private key,
    /// opens the messaging screen, and the chat list is then to be reloaded (`true`).
    pub fn login(&mut self, reply: Option<UserData>) -> (reload_chats: bool)
        ensures
            reload_chats == reply is Some,
            match reply {
                Some(user) => *final(self) == with_mode(
                    with_messaging(*old(self), with_key(old(self).messaging_data, Some(user.private_key))),
                    WindowMode::Messaging,
                ),
                None => {
                    &&& *final(self) == with_login(*old(self), final(self).login_data)
                    &&& final(self).login_data.login_textbox == old(self).login_data.login_textbox
                    &&& final(self).login_data.password_textbox@ == Seq::<char>::empty()
                    &&& final(self).login_data.error_message@ == "Wrong username or password"@
                    &&& final(self).login_data.show_error_message
                },
            },
    {
        match reply {
            None => {
                self.login_data.error_message = "Wrong username or password".to_owned();
                self.login_data.show_error_message = true;
                self.login_data.password_textbox = String::new();
                false
            },
            Some(user) => {
                self.messaging_data.key = Some(user.private_key);
                self.winodow_mode = WindowMode::Messaging;
                true
            },
        }
    }

    /// Takes the encrypted key of the selected chat. An error is shown. A
    /// key that the session's private key decrypts (RSA, PKCS#1 v1.5) into 32
    /// bytes becomes the chat key; otherwise the problem comes back and
    /// nothing changes.
    pub fn get_chat_key(&mut self, reply: Result<Vec<u8>, String>) -> (res: Result<(), ChatKeyProblem>)
        ensures
            match reply {
                Err(text) => res is Ok && *final(self) == with_messaging(
                    *old(self),
                    with_error(old(self).messaging_data, text),
                ),
                Ok(encrypted) => match old(self).messaging_data.key {
                    None => res == Err::<(), ChatKeyProblem>(ChatKeyProblem::NoPrivateKey) && *final(self) == *old(self),
                    Some(pem) => match rsa_pkcs1v15_decryption(pem@, encrypted@) {
                        None => res == Err::<(), ChatKeyProblem>(ChatKeyProblem::Undecryptable) && *final(self) == *old(self),
                        Some(k) => if k.len() == 32 {
                            &&& res is Ok
                            &&& *final(self) == with_messaging(
                                *old(self),
                                with_chat_key(old(self).messaging_data, final(self).messaging_data.chat_key),
                            )
                            &&& final(self).messaging_data.chat_key@ == k
                        } else {
                            res == Err::<(), ChatKeyProblem>(ChatKeyProblem::WrongLength) && *final(self) == *old(self)
                        },
                    },
                },
            },
    {
        let encrypted = match reply {
            Err(text) => {
                self.error_message(text);
                return Ok(());
            },
            Ok(encrypted) => encrypted,
        };
        let plain = match &self.messaging_data.key {
            None => return Err(ChatKeyProblem::NoPrivateKey),
            Some(pem) => match rsa_decrypt(pem.as_str(), encrypted.as_slice()) {
                None => return Err(ChatKeyProblem::Undecryptable),
                Some(plain) => plain,
            },
        };
        if plain.len() != 32 {
            return Err(ChatKeyProblem::WrongLength);
        }
        self.messaging_data.chat_key = into_key(plain.as_slice());
        Ok(())
    }

    /// Checks the sign-up form. On the first problem found the form shows its
    /// text and `None` comes back; otherwise the new account to send.
    pub fn check_signup(&mut self) -> (res: Option<AddUser>)
        ensures
            match signup_problem(old(self).signup_data) {
                Some(p) => {
                    &&& res is None
                    &&& *final(self) == with_signup(
                        *old(self),
                        signup_with_error(old(self).signup_data, final(self).signup_data.error_message),
                    )
                    &&& final(self).signup_data.error_message@ == p.spec_text()
                },
                None => {
                    &&& *final(self) == *old(self)
                    &&& res matches Some(u) && u.username == old(self).signup_data.username_textbox
                        && u.email == old(self).signup_data.email_textbox && u.password
                        == old(self).signup_data.password_textbox[0]
                },
            },
    {
        let problem = if self.signup_data.email_textbox.as_str().is_empty()
            || self.signup_data.username_textbox.as_str().is_empty()
            || self.signup_data.password_textbox[0].as_str().is_empty() {
            Some(SignupProblem::EmptyField)
        } else if self.signup_data.password_textbox[0] != self.signup_data.password_textbox[1] {
            Some(SignupProblem::PasswordMismatch)
        } else if self.signup_data.password_textbox[0].as_str().as_bytes().len() < 8 {
            Some(SignupProblem::PasswordTooShort)
        } else if !email_regex().is_match(self.signup_data.email_textbox.as_str()) {
            Some(SignupProblem::InvalidEmail)
        } else {
            None
        };
        match problem {
            Some(p) => {
                self.signup_data.show_error_message = true;
                self.signup_data.error_message = p.text();
                None
            },
            None => Some(
                AddUser {
                    username: self.signup_data.username_textbox.clone(),
                    password: self.signup_data.password_textbox[0].clone(),
                    email: self.signup_data.email_textbox.clone(),
                },
            ),
        }
    }

    /// The credentials with which a new account logs in.
    pub fn signup_login_request(&self) -> (res: Login)
        ensures
            res.username == self.signup_data.username_textbox,
            res.password == self.signup_data.password_textbox[0],
    {
        Login {
            username: self.signup_data.username_textbox.clone(),
            password: self.signup_data.password_textbox[0].clone(),
        }
    }

    /// Takes the server's answer to a sign-up: a refusal shows the server's
    /// text on the form; after an account was made and logged in (the login's
    /// account data), the session's private key is kept, the messaging screen
    /// opens, and the chat list is then to be reloaded (`true`).
    pub fn signup(&mut self, reply: Result<UserData, String>) -> (reload_chats: bool)
        ensures
            reload_chats == reply is Ok,
            match reply {
                Ok(user) => *final(self) == with_mode(
                    with_messaging(*old(self), with_key(old(self).messaging_data, Some(user.private_key))),
                    WindowMode::Messaging,
                ),
                Err(text) => *final(self) == with_signup(
                    *old(self),
                    signup_with_error(old(self).signup_data, text),
                ),
            },
    {
        match reply {
            Ok(user) => {
                self.messaging_data.key = Some(user.private_key);
                self.winodow_mode = WindowMode::Messaging;
                true
            },
            Err(text) => {
                self.signup_data.show_error_message = true;
                self.signup_data.error_message = text;
                false
            },
        }
    }

    /// The name of the chat to create: the dialog text.
    pub fn create_chat_request(&self) -> (res: String)
        ensures
            res == self.messaging_data.textinput_modal_data.modal_text,
    {
        self.messaging_data.textinput_modal_data.modal_text.clone()
    }

    /// Takes the server's answer to a chat creation: an error is shown; after
    /// a success the chat list is to be reloaded (`true`).
    pub fn create_chat(&mut self, reply: Result<(), String>) -> (reload_chats: bool)
        ensures
            reload_chats == reply is Ok,
            match reply {
                Ok(_) => *final(self) == *old(self),
                Err(text) => *final(self) == with_messaging(
                    *old(self),
                    with_error(old(self).messaging_data, text),
                ),
            },
    {
        match reply {
            Ok(_) => true,
            Err(text) => {
                self.error_message(text);
                false
            },
        }
    }

    /// Takes the chat listing. `Err` carries the text of an answer that
    /// `listing_failed` counts as failed: it is shown and the list kept.
    /// Otherwise (a success or "not found") `Ok` carries the parsed body, or
    /// `None` where it does not parse, which counts as no chats; the side bar
    /// then lists the chats received.
    pub fn update_chat_list(&mut self, reply: Result<Option<Vec<GetChat>>, String>)
        ensures
            match reply {
                Ok(parsed) => {
                    let chats = listing_of(parsed);
                    &&& *final(self) == with_messaging(
                        *old(self),
                        with_chats(old(self).messaging_data, final(self).messaging_data.chats),
                    )
                    &&& final(self).messaging_data.chats@.len() == chats.len()
                    &&& forall|i: int|
                        0 <= i < chats.len() ==> (#[trigger] final(self).messaging_data.chats@[i]).chat_id
                            == chats[i].chat_id && final(self).messaging_data.chats@[i].chat_name
                            == chats[i].chat_name
                },
                Err(text) => *final(self) == with_messaging(
                    *old(self),
                    with_error(old(self).messaging_data, text),
                ),
            },
    {
        match reply {
            Ok(parsed) => {
                let data = match parsed {
                    Some(data) => data,
                    None => Vec::new(),
                };
                let mut chats: Vec<Chat> = Vec::new();
                let mut i: usize = 0;
                while i < data.len()
                    invariant
                        i <= data@.len(),
                        chats@.len() == i,
                        forall|k: int|
                            0 <= k < i ==> (#[trigger] chats@[k]).chat_id == data@[k].chat_id
                                && chats@[k].chat_name == data@[k].chat_name,
                    decreases data@.len() - i,
                {
                    chats.push(Chat { chat_id: data[i].chat_id, chat_name: data[i].chat_name.clone() });
                    i = i + 1;
                }
                self.messaging_data.chats = chats;
            },
            Err(text) => self.error_message(text),
        }
    }

    /// Takes the server's answer to accepting invitation `id`: an error is
    /// shown; after a success the invitation leaves the list.
    pub fn accept_invite(&mut self, id: i32, reply: Result<(), String>)
        ensures
            match reply {
                Ok(_) => *final(self) == with_messaging(
                    *old(self),
                    with_invites(old(self).messaging_data, final(self).messaging_data.invites),
                ) && final(self).messaging_data.invites@ == old(self).messaging_data.invites@.filter(
                    |g: GetInvites| g.invite_id != id,
                ),
                Err(text) => *final(self) == with_messaging(
                    *old(self),
                    with_error(old(self).messaging_data, text),
                ),
            },
    {
        match reply {
            Ok(_) => self.remove_invite(id),
            Err(text) => self.error_message(text),
        }
    }

    /// Takes the server's answer to declining invitation `id`: an error is
    /// shown; after a success the invitation leaves the list.
    pub fn decline_invite(&mut self, id: i32, reply: Result<(), String>)
        ensures
            match reply {
                Ok(_) => *final(self) == with_messaging(
                    *old(self),
                    with_invites(old(self).messaging_data, final(self).messaging_data.invites),
                ) && final(self).messaging_data.invites@ == old(self).messaging_data.invites@.filter(
                    |g: GetInvites| g.invite_id != id,
                ),
                Err(text) => *final(self) == with_messaging(
                    *old(self),
                    with_error(old(self).messaging_data, text),
                ),
            },
    {
        match reply {
            Ok(_) => self.remove_invite(id),
            Err(text) => self.error_message(text),
        }
    }

    /// Drops every invitation with id `id` from the list, keeping the order of the others.
    fn remove_invite(&mut self, id: i32)
        ensures
            *final(self) == with_messaging(
                *old(self),
                with_invites(old(self).messaging_data, final(self).messaging_data.invites),
            ),
            final(self).messaging_data.invites@ == old(self).messaging_data.invites@.filter(
                |g: GetInvites| g.invite_id != id,
            ),
    {
        let ghost pred = |g: GetInvites| g.invite_id != id;
        let ghost before = self.messaging_data.invites@;
        let mut kept: Vec<GetInvites> = Vec::new();
        let mut i: usize = 0;
        while i < self.messaging_data.invites.len()
            invariant
                before == self.messaging_data.invites@,
                forall|g: GetInvites| #[trigger] pred(g) == (g.invite_id != id),
                i <= before.len(),
                kept@ == before.take(i as int).filter(pred),
            decreases before.len() - i,
        {
            let g = copy_invite(&self.messaging_data.invites[i]);
            if g.invite_id != id {
                kept.push(g);
            }
            proof {
                let prefix = before.take(i + 1);
                assert(prefix.drop_last() =~= before.take(i as int));
                assert(pred(prefix.last()) == (before[i as int].invite_id != id));
                reveal_with_fuel(Seq::filter, 1);
            }
            i = i + 1;
        }
        assert(before.take(before.len() as int) =~= before);
        assert(pred =~= (|g: GetInvites| g.invite_id != id));
        self.messaging_data.invites = kept;
    }

    /// The invitation to send: the dialog text names the user, into the selected chat.
    pub fn send_invite_request(&self) -> (res: SendInvite)
        requires
            self.messaging_data.selected_chat is Some,
        ensures
            res.chat_id == self.messaging_data.selected_chat.unwrap(),
            res.recipient_name == self.messaging_data.textinput_modal_data.modal_text,
    {
        let chat_id = match self.messaging_data.selected_chat {
            Some(id) => id,
            None => 0,
        };
        SendInvite {
            chat_id,
            recipient_name: self.messaging_data.textinput_modal_data.modal_text.clone(),
        }
    }

    /// Takes the server's answer to an invitation: an error is shown.
    pub fn send_invite(&mut self, reply: Result<(), String>)
        ensures
            match reply {
                Ok(_) => *final(self) == *old(self),
                Err(text) => *final(self) == with_messaging(
                    *old(self),
                    with_error(old(self).messaging_data, text),
                ),
            },
    {
        if let Err(text) = reply {
            self.error_message(text);
        }
    }

    /// Takes the invitation listing; `offset` is the local zone's offset east
    /// of UTC in seconds. `Err` carries the text of an answer that
    /// `listing_failed` counts as failed: it is shown and the list kept.
    /// Otherwise `Ok` carries the parsed body, or `None` where it does not
    /// parse, which counts as no invitations; the list is replaced by the
    /// invitations received, with their times in local time.
    pub fn update_invites_list(&mut self, reply: Result<Option<Vec<GetInvites>>, String>, offset: i32)
        requires
            -86400 < offset < 86400,
            reply matches Ok(parsed) ==> forall|i: int|
                0 <= i < listing_of(parsed).len() ==> local_time_fits(
                    #[trigger] listing_of(parsed)[i].created_at,
                    offset as int,
                ),
        ensures
            match reply {
                Ok(parsed) => {
                    let received = listing_of(parsed);
                    let invites = final(self).messaging_data.invites@;
                    &&& *final(self) == with_messaging(
                        *old(self),
                        with_invites(old(self).messaging_data, final(self).messaging_data.invites),
                    )
                    &&& invites.len() == received.len()
                    &&& forall|i: int|
                        0 <= i < received.len() ==> is_local_invite(#[trigger] invites[i], received[i], offset as int)
                },
                Err(text) => *final(self) == with_messaging(
                    *old(self),
                    with_error(old(self).messaging_data, text),
                ),
            },
    {
        match reply {
            Ok(parsed) => {
                let ghost items = listing_of(parsed);
                let data = match parsed {
                    Some(data) => data,
                    None => Vec::new(),
                };
                assert(data@ =~= items);
                assert forall|k: int| 0 <= k < data@.len() implies local_time_fits(#[trigger] data@[k].created_at, offset as int) by {
                    assert(items[k] == data@[k]);
                }
                let mut invites: Vec<GetInvites> = Vec::new();
                let mut i: usize = 0;
                while i < data.len()
                    invariant
                        -86400 < offset < 86400,
                        forall|k: int| 0 <= k < data@.len() ==> local_time_fits(#[trigger] data@[k].created_at, offset as int),
                        i <= data@.len(),
                        invites@.len() == i,
                        forall|k: int| 0 <= k < i ==> is_local_invite(#[trigger] invites@[k], data@[k], offset as int),
                    decreases data@.len() - i,
                {
                    let g = &data[i];
                    assert(local_time_fits(data@[i as int].created_at, offset as int));
                    invites.push(GetInvites {
                        invite_id: g.invite_id,
                        chat_id: g.chat_id,
                        chat_name: g.chat_name.clone(),
                        sender_name: g.sender_name.clone(),
                        created_at: utc_to_local(g.created_at, offset),
                    });
                    i = i + 1;
                }
                self.messaging_data.invites = invites;
            },
            Err(text) => self.error_message(text),
        }
    }

    /// The message to send: the typed text encrypted under the chat key, into
    /// the selected chat.
    pub fn send_message_request(&self) -> (res: SendMessage)
        requires
            self.messaging_data.selected_chat is Some,
            encode_utf8(self.messaging_data.current_message@).len() + 16 <= usize::MAX / 2,
        ensures
            res.chat_id == self.messaging_data.selected_chat.unwrap(),
            res.text@ == encrypted_text(
                self.messaging_data.current_message@,
                self.messaging_data.chat_key@,
            ),
            ends_without_nul(self.messaging_data.current_message@) ==> decrypted_text(
                res.text@,
                self.messaging_data.chat_key@,
            ) == Some(self.messaging_data.current_message@),
    {
        let chat_id = match self.messaging_data.selected_chat {
            Some(id) => id,
            None => 0,
        };
        SendMessage {
            chat_id,
            text: encrypt_string_to_base64(
                self.messaging_data.current_message.as_str(),
                &self.messaging_data.chat_key,
            ),
        }
    }

    /// The upload of the draft: the metadata part with the typed text
    /// encrypted under the chat key, into the selected chat, then one part
    /// per attachment, in order, named by its file name and holding its
    /// contents encrypted under the chat key. Read back under that key, the
    /// text is the typed one unless it ends in NUL, and each file is its
    /// contents without trailing zero bytes.
    pub fn upload_request(&self) -> (res: UploadRequest)
        requires
            upload_fits(self.messaging_data),
        ensures
            is_upload_of(res, self.messaging_data),
            ends_without_nul(self.messaging_data.current_message@) ==> decrypted_text(
                res.metadata.message_text@,
                self.messaging_data.chat_key@,
            ) == Some(self.messaging_data.current_message@),
            forall|i: int|
                0 <= i < res.files@.len() ==> decrypted(self.messaging_data.chat_key@, (#[trigger] res.files@[i]).data@)
                    == trim_trailing_zeros(self.messaging_data.attachments@[i].data@),
    {
        let chat_id = match self.messaging_data.selected_chat {
            Some(id) => id,
            None => 0,
        };
        let metadata = UploadFile {
            chat_id,
            message_text: encrypt_string_to_base64(
                self.messaging_data.current_message.as_str(),
                &self.messaging_data.chat_key,
            ),
        };
        let attachments = &self.messaging_data.attachments;
        let key = &self.messaging_data.chat_key;
        let mut files: Vec<FilePart> = Vec::new();
        let mut i: usize = 0;
        while i < attachments.len()
            invariant
                upload_fits(self.messaging_data),
                attachments == &self.messaging_data.attachments,
                key == &self.messaging_data.chat_key,
                i <= attachments@.len(),
                files@.len() == i,
                forall|k: int|
                    0 <= k < i ==> {
                        &&& (#[trigger] files@[k]).name == attachments@[k].name
                        &&& files@[k].data@ == encrypted(key@, attachments@[k].data@)
                        &&& decrypted(key@, files@[k].data@) == trim_trailing_zeros(attachments@[k].data@)
                    },
            decreases attachments@.len() - i,
        {
            let file = &attachments[i];
            assert(attachments@[i as int].data@.len() + 16 <= usize::MAX);
            let data = encrypt_data(key, file.data.as_slice());
            files.push(FilePart { name: file.name.clone(), data });
            i = i + 1;
        }
        UploadRequest { metadata, files }
    }

    /// Sends the draft as an upload: gives the upload of the typed text and
    /// the attachments (as `upload_request` builds it), and clears both.
    pub fn upload_files(&mut self) -> (res: UploadRequest)
        requires
            upload_fits(old(self).messaging_data),
        ensures
            is_upload_of(res, old(self).messaging_data),
            *final(self) == with_messaging(*old(self), final(self).messaging_data),
            draft_cleared(old(self).messaging_data, final(self).messaging_data),
    {
        let request = self.upload_request();
        self.messaging_data.current_message = String::new();
        self.messaging_data.attachments = Vec::new();
        request
    }

    /// After a message or an upload went out: the typed text is cleared, and
    /// the messages are to be reloaded.
    pub fn clear_current_message(&mut self)
        ensures
            *final(self) == with_messaging(
                *old(self),
                with_current_message(old(self).messaging_data, final(self).messaging_data.current_message),
            ),
            final(self).messaging_data.current_message@ == Seq::<char>::empty(),
    {
        self.messaging_data.current_message = String::new();
    }

    /// Takes the server's answer to a sent message: an error is shown; after
    /// a success the typed text is cleared and the messages are to be
    /// reloaded (`true`).
    pub fn send_message(&mut self, reply: Result<(), String>) -> (reload_messages: bool)
        ensures
            reload_messages == reply is Ok,
            match reply {
                Ok(_) => {
                    &&& *final(self) == with_messaging(
                        *old(self),
                        with_current_message(old(self).messaging_data, final(self).messaging_data.current_message),
                    )
                    &&& final(self).messaging_data.current_message@ == Seq::<char>::empty()
                },
                Err(text) => *final(self) == with_messaging(
                    *old(self),
                    with_error(old(self).messaging_data, text),
                ),
            },
    {
        match reply {
            Ok(_) => {
                self.clear_current_message();
                true
            },
            Err(text) => {
                self.error_message(text);
                false
            },
        }
    }

    /// The chat whose messages a reload asks for; none when no chat is selected.
    pub fn load_messages_request(&self) -> (res: Option<i32>)
        ensures
            res == self.messaging_data.selected_chat,
    {
        self.messaging_data.selected_chat
    }

    /// Takes the message listing of the selected chat; `offset` is the local
    /// zone's offset east of UTC in seconds. With no chat selected nothing
    /// changes (`false`). An error is shown and nothing else changes
    /// (`false`). When the listing holds as many messages as the window and
    /// the reload is not forced, nothing changes (`false`). Otherwise the
    /// messages past those already shown are appended, decrypted and with
    /// local times (`true`).
    pub fn load_messages(&mut self, reply: Result<Vec<GetMessage>, String>, force: bool, offset: i32) -> (changed: bool)
        requires
            load_messages_allowed(*old(self), reply, force, offset as int),
        ensures
            load_messages_spec(*old(self), reply, force, offset as int, *final(self), changed),
    {
        if self.messaging_data.selected_chat.is_none() {
            return false;
        }
        let fetched = match reply {
            Ok(fetched) => fetched,
            Err(text) => {
                self.error_message(text);
                return false;
            },
        };
        let old_len = self.messaging_data.messages.len();
        if fetched.len() == old_len && !force {
            return false;
        }
        let ghost old_msgs = self.messaging_data.messages@;
        let mut i: usize = old_len;
        while i < fetched.len()
            invariant
                old_len == old_msgs.len(),
                old_len <= i <= fetched@.len(),
                all_showable(fetched@, old_len as int, self.messaging_data.chat_key@, offset as int),
                self.messaging_data.chat_key@ == old(self).messaging_data.chat_key@,
                *self == with_messaging(
                    *old(self),
                    with_messages(old(self).messaging_data, self.messaging_data.messages),
                ),
                self.messaging_data.messages@.len() == i,
                self.messaging_data.messages@.take(old_len as int) == old_msgs,
                forall|k: int|
                    old_len <= k < i ==> is_shown_as(
                        #[trigger] self.messaging_data.messages@[k],
                        fetched@[k],
                        old(self).messaging_data.chat_key@,
                        offset as int,
                    ),
            decreases fetched@.len() - i,
        {
            assert(decrypted_text(fetched@[i as int].message_text@, self.messaging_data.chat_key@) is Some);
            let shown = shown_message(&fetched[i], &self.messaging_data.chat_key, offset);
            self.messaging_data.messages.push(shown);
            assert(self.messaging_data.messages@.take(old_len as int) =~= old_msgs);
            i = i + 1;
        }
        true
    }

    /// Takes the message listing like `load_messages`, but first checks what
    /// `load_messages` requires: the listing must not shrink, every new
    /// message must decrypt, and its local time must fit; otherwise nothing
    /// changes and the problem comes back.
    pub fn try_load_messages(&mut self, reply: Result<Vec<GetMessage>, String>, force: bool, offset: i32) -> (res: Result<bool, LoadProblem>)
        requires
            -86400 < offset < 86400,
        ensures
            match res {
                Ok(changed) => load_messages_spec(*old(self), reply, force, offset as int, *final(self), changed),
                Err(LoadProblem::FewerMessages) => {
                    &&& *final(self) == *old(self)
                    &&& old(self).messaging_data.selected_chat is Some
                    &&& reply matches Ok(fetched)
                    &&& fetched@.len() < old(self).messaging_data.messages@.len()
                },
                Err(LoadProblem::Unreadable(i)) => {
                    &&& *final(self) == *old(self)
                    &&& old(self).messaging_data.selected_chat is Some
                    &&& reply matches Ok(fetched)
                    &&& old(self).messaging_data.messages@.len() <= i < fetched@.len()
                    &&& decrypted_text(fetched@[i as int].message_text@, old(self).messaging_data.chat_key@) is None
                },
                Err(LoadProblem::TimeOutOfRange(i)) => {
                    &&& *final(self) == *old(self)
                    &&& old(self).messaging_data.selected_chat is Some
                    &&& reply matches Ok(fetched)
                    &&& old(self).messaging_data.messages@.len() <= i < fetched@.len()
                    &&& !local_time_fits(fetched@[i as int].sent_at, offset as int)
                },
            },
    {
        if self.messaging_data.selected_chat.is_some() {
            if let Ok(fetched) = &reply {
                let old_len = self.messaging_data.messages.len();
                if !(fetched.len() == old_len && !force) {
                    if fetched.len() < old_len {
                        return Err(LoadProblem::FewerMessages);
                    }
                    let mut i: usize = old_len;
                    while i < fetched.len()
                        invariant
                            reply == Ok::<Vec<GetMessage>, String>(*fetched),
                            self.messaging_data.selected_chat is Some,
                            -86400 < offset < 86400,
                            old_len == self.messaging_data.messages@.len(),
                            old_len <= i <= fetched@.len(),
                            all_showable(fetched@.take(i as int), old_len as int, self.messaging_data.chat_key@, offset as int),
                        decreases fetched@.len() - i,
                    {
                        match try_decrypt_base64_to_string(fetched[i].message_text.as_str(), &self.messaging_data.chat_key) {
                            Ok(_) => {},
                            Err(_) => return Err(LoadProblem::Unreadable(i)),
                        }
                        if fetched[i].sent_at.seconds.checked_add(offset as i64).is_none() {
                            return Err(LoadProblem::TimeOutOfRange(i));
                        }
                        i = i + 1;
                    }
                    assert(fetched@.take(fetched@.len() as int) =~= fetched@);
                }
            }
        }
        Ok(self.load_messages(reply, force, offset))
    }

    /// Whether the window reloads the messages periodically: on the messaging
    /// screen with a chat selected.
    pub fn wants_refresh(&self) -> (res: bool)
        ensures
            res == (self.winodow_mode == WindowMode::Messaging && self.messaging_data.selected_chat is Some),
    {
        self.winodow_mode == WindowMode::Messaging && self.messaging_data.selected_chat.is_some()
    }
}

/// Which action asks for what: each request to the surroundings comes from
/// exactly one kind of action; typing, opening and closing dialogs and moving
/// between screens ask for nothing. In particular cancelling the chat dialog
/// creates no chat; only confirming it does.
pub proof fn lemma_effect_of_message(s: MainForm, m: Message, t: MainForm, e: Effect)
    requires
        transition(s, m, t, e),
    ensures
        (e == Effect::Login) <==> (m == Message::LoginButtonPressed),
        (e == Effect::Signup) <==> (m == Message::SignupButtonPressed),
        (e == Effect::Logout) <==> (m == Message::LogoutButtonPressed),
        (e == Effect::CreateChat) <==> (m == Message::ConfirmCreateChat),
        (e == Effect::SendInvite) <==> (m == Message::ConfirmInvite),
        (e == Effect::UpdateInvites) <==> (m == Message::InvitesButtonPressed),
        (e == Effect::SendMessage) <==> (m == Message::SendMessage),
        (e is LoadMessages) <==> (m is SelectChat || m == Message::RefreshMessages),
        m is SelectChat ==> e == (Effect::LoadMessages { always_scroll: true }),
        m == Message::RefreshMessages ==> e == (Effect::LoadMessages { always_scroll: false }),
        forall|id: i32| (e == Effect::AcceptInvite(id)) <==> (m == Message::AcceptInvite(id)),
        forall|id: i32| (e == Effect::DeclineInvite(id)) <==> (m == Message::DeclineInvite(id)),
        (e == Effect::Nothing) <==> {
            ||| m is LoginChanged
            ||| m is PasswordChanged
            ||| m is LoginViewSignupButtonPressed
            ||| m is BackButtonPressed
            ||| m is UsernameChanged
            ||| m is EmailChanged
            ||| m is SignupPasswordChanged
            ||| m is CreateChatButtonPressed
            ||| m is CloseCreateChatModal
            ||| m is CreateChatModalTextChange
            ||| m is ErrorModalClose
            ||| m is InviteButtonPressed
            ||| m is MessageEdited
        },
{
}

/// What each action does to the window: typing fills the matching field;
/// choosing a chat selects it and lists its messages; the invitations button
/// deselects the chat and lists the invitations; logging out returns to a
/// blank login screen without any session key or messages; every action that
/// asks the surroundings for something other than a screen change leaves the
/// window as it was.
pub proof fn lemma_update_state(s: MainForm, m: Message, t: MainForm, e: Effect)
    requires
        transition(s, m, t, e),
    ensures
        m matches Message::LoginChanged(v) ==> t.login_data.login_textbox == v,
        m matches Message::PasswordChanged(v) ==> t.login_data.password_textbox == v,
        m matches Message::UsernameChanged(v) ==> t.signup_data.username_textbox == v,
        m matches Message::EmailChanged(v) ==> t.signup_data.email_textbox == v,
        m matches Message::SignupPasswordChanged(v, i) ==> (i < 2 ==> t.signup_data.password_textbox@[i as int] == v
            && t.signup_data.password_textbox@[1 - i] == s.signup_data.password_textbox@[1 - i]),
        m matches Message::MessageEdited(v) ==> t.messaging_data.current_message == v,
        m matches Message::CreateChatModalTextChange(v) ==> t.messaging_data.textinput_modal_data.modal_text == v,
        m matches Message::SelectChat(id) ==> t.messaging_data.selected_chat == Some(id)
            && t.messaging_data.mode == MessageViewMode::Messages,
        m is InvitesButtonPressed ==> t.messaging_data.selected_chat is None && t.messaging_data.mode
            == MessageViewMode::Invites,
        m is LogoutButtonPressed ==> {
            &&& t.winodow_mode == WindowMode::Login
            &&& t.messaging_data.key is None
            &&& t.messaging_data.messages@.len() == 0
            &&& t.messaging_data.selected_chat is None
            &&& t.login_data.password_textbox@.len() == 0
        },
        m is BackButtonPressed ==> t.winodow_mode == WindowMode::Login,
        m is LoginViewSignupButtonPressed ==> t.winodow_mode == WindowMode::SignUp
            && t.signup_data.password_textbox[0]@.len() == 0 && t.signup_data.password_textbox[1]@.len() == 0,
        m is ErrorModalClose ==> !t.messaging_data.show_error_modal,
        (e is Login || e is Signup || e is SendMessage || e is AcceptInvite || e is DeclineInvite
            || m == Message::RefreshMessages) ==> t == s,
{
}

/// Cancelling or confirming a dialog closes it and keeps everything else,
/// the text typed into it included.
pub proof fn lemma_dialog_closing(s: MainForm, m: Message, t: MainForm, e: Effect)
    requires
        transition(s, m, t, e),
        m is CloseCreateChatModal || m is ConfirmCreateChat || m is ConfirmInvite,
    ensures
        !t.messaging_data.textinput_modal_data.show_modal,
        t.messaging_data.textinput_modal_data.modal_text == s.messaging_data.textinput_modal_data.modal_text,
        t.messaging_data.textinput_modal_data.message == s.messaging_data.textinput_modal_data.message,
        t.messaging_data.chats == s.messaging_data.chats,
        t.messaging_data.messages == s.messaging_data.messages,
        t.messaging_data.selected_chat == s.messaging_data.selected_chat,
        t.winodow_mode == s.winodow_mode,
        m is CloseCreateChatModal ==> e == Effect::Nothing,
{
}

/// A sign-up form whose two typed passwords differ is refused with "Passwords
/// don't match" unless a field is empty, whatever the passwords' lengths; a
/// form passes exactly when no field is empty, the two passwords are the
/// same text of at least 8 bytes and the e-mail field holds an address.
pub proof fn lemma_signup_checks(d: SignupData)
    ensures
        d.username_textbox@.len() > 0 && d.email_textbox@.len() > 0 && d.password_textbox[0]@.len() > 0
            && d.password_textbox[0]@ != d.password_textbox[1]@ ==> signup_problem(d) == Some(
            SignupProblem::PasswordMismatch,
        ),
        signup_problem(d) is None <==> {
            &&& d.username_textbox@.len() > 0
            &&& d.email_textbox@.len() > 0
            &&& d.password_textbox[0]@.len() > 0
            &&& d.password_textbox[0]@ == d.password_textbox[1]@
            &&& encode_utf8(d.password_textbox[0]@).len() >= 8
            &&& contains_email(d.email_textbox@)
        },
        (d.username_textbox@.len() == 0 || d.email_textbox@.len() == 0 || d.password_textbox[0]@.len() == 0)
            ==> signup_problem(d) == Some(SignupProblem::EmptyField),
{
}

/// With no chat selected, a reload changes nothing and reports no change.
pub proof fn lemma_reload_without_chat(
    s: MainForm,
    reply: Result<Vec<GetMessage>, String>,
    force: bool,
    offset: int,
    t: MainForm,
    changed: bool,
)
    requires
        s.messaging_data.selected_chat is None,
        load_messages_spec(s, reply, force, offset, t, changed),
    ensures
        !changed,
        t == s,
{
}

/// A reload of the selected chat with listing `fetched` changes the window
/// exactly when it is forced or the listing's length differs from the number
/// of messages shown; then the window shows exactly as many messages as the
/// listing: the old ones first, unchanged, then every listed message past
/// them with its ids and author, its text decrypted under the chat key and
/// its time in local time. Otherwise nothing changes.
pub proof fn lemma_reload_shows_whole_listing(
    s: MainForm,
    fetched: Vec<GetMessage>,
    force: bool,
    offset: int,
    t: MainForm,
    changed: bool,
)
    requires
        s.messaging_data.selected_chat is Some,
        load_messages_spec(s, Ok(fetched), force, offset, t, changed),
    ensures
        changed <==> (force || fetched@.len() != s.messaging_data.messages@.len()),
        !changed ==> t == s,
        changed ==> {
            let old_msgs = s.messaging_data.messages@;
            let new_msgs = t.messaging_data.messages@;
            &&& new_msgs.len() == fetched@.len()
            &&& forall|i: int| 0 <= i < old_msgs.len() ==> new_msgs[i] == old_msgs[i]
            &&& forall|i: int|
                old_msgs.len() <= i < fetched@.len() ==> {
                    &&& (#[trigger] new_msgs[i]).message_id == fetched@[i].message_id
                    &&& new_msgs[i].user_id == fetched@[i].user_id
                    &&& new_msgs[i].username == fetched@[i].username
                    &&& decrypted_text(fetched@[i].message_text@, s.messaging_data.chat_key@) == Some(
                        new_msgs[i].message_text@,
                    )
                    &&& new_msgs[i].sent_at == local_time(fetched@[i].sent_at, offset)
                    &&& new_msgs[i].files@.len() == 0
                }
            &&& t.messaging_data.chat_key == s.messaging_data.chat_key
            &&& t.messaging_data.selected_chat == s.messaging_data.selected_chat
        },
{
    if changed {
        let old_msgs = s.messaging_data.messages@;
        let new_msgs = t.messaging_data.messages@;
        assert forall|i: int| 0 <= i < old_msgs.len() implies new_msgs[i] == old_msgs[i] by {
            assert(new_msgs.take(old_msgs.len() as int)[i] == new_msgs[i]);
        }
    }
}

/// The invitation list shows each received invitation at the same place,
/// with its id, chat, chat name and sender as received; only its time is
/// moved to local time.
pub proof fn lemma_invites_listed_as_received(shown: Seq<GetInvites>, received: Seq<GetInvites>, offset: int)
    requires
        shown.len() == received.len(),
        forall|i: int| 0 <= i < received.len() ==> is_local_invite(#[trigger] shown[i], received[i], offset),
    ensures
        forall|i: int|
            0 <= i < received.len() ==> #[trigger] shown[i] == (GetInvites {
                created_at: local_time(received[i].created_at, offset),
                ..received[i]
            }),
{
    assert forall|i: int| 0 <= i < received.len() implies #[trigger] shown[i] == (GetInvites {
        created_at: local_time(received[i].created_at, offset),
        ..received[i]
    }) by {
        assert(is_local_invite(shown[i], received[i], offset));
    }
}

} // verus!
