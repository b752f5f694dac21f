//! Credentials built from a user name and a password, and the steps that
//! obtain the password: from the keyring, or typed on a line of input and
//! then stored in the keyring.

use vstd::prelude::*;
use vstd::string::*;
use vstd::utf8::*;

verus! {

/// How a set of credentials authenticates against the service.
#[derive(PartialEq, Eq, Structural, Clone, Copy, Debug)]
pub enum AuthType {
    UserPass,
    StoredSpotifyCredentials,
    StoredFacebookCredentials,
    SpotifyToken,
    FacebookToken,
}

/// A user name, an authentication type and the data that goes with it.
#[derive(Clone, Debug, PartialEq, Eq)]
pub struct Credentials {
    pub username: String,
    pub auth_type: AuthType,
    pub auth_data: Vec<u8>,
}

/// What the authentication service answers: the credentials it grants, and
/// an error message when it has one.
#[derive(Clone, Debug, PartialEq, Eq)]
pub struct AuthResponse {
    pub credentials: Credentials,
    pub error: Option<String>,
}

/// What a value of [`Credentials`] holds, as plain values.
pub struct CredentialsView {
    pub username: Seq<char>,
    pub auth_type: AuthType,
    pub auth_data: Seq<u8>,
}

impl View for Credentials {
    type V = CredentialsView;

    open spec fn view(&self) -> CredentialsView {
        CredentialsView {
            username: self.username@,
            auth_type: self.auth_type,
            auth_data: self.auth_data@,
        }
    }
}

/// The credentials that log `username` in with `password`: the password's
/// UTF-8 bytes are the authentication data.
pub open spec fn user_pass_credentials(username: Seq<char>, password: Seq<char>) -> CredentialsView {
    CredentialsView { username, auth_type: AuthType::UserPass, auth_data: encode_utf8(password) }
}

/// A line as typed, with one trailing line feed removed if it ends in one.
pub open spec fn without_trailing_newline(line: Seq<char>) -> Seq<char> {
    if line.len() > 0 && line.last() == '\n' {
        line.drop_last()
    } else {
        line
    }
}

/// Builds the user-name-and-password credentials of `username`.
pub fn credentials_with_password(username: &str, password: &str) -> (c: Credentials)
    ensures
        c@ == user_pass_credentials(username@, password@),
        c.username@ == username@,
        c.auth_type == AuthType::UserPass,
        c.auth_data@ == encode_utf8(password@),
        decode_utf8(c.auth_data@) == password@,
{
    proof {
        encode_utf8_decode_utf8(password@);
    }
    Credentials {
        username: username.to_owned(),
        auth_type: AuthType::UserPass,
        auth_data: password.as_bytes_vec(),
    }
}

/// Removes one line feed from the end of `line`, if it ends in one; a
/// carriage return before it stays.
pub fn strip_trailing_newline(line: &str) -> (s: String)
    ensures
        s@ == without_trailing_newline(line@),
        line@.len() > 0 && line@.last() == '\n' ==> s@.push('\n') == line@,
        !(line@.len() > 0 && line@.last() == '\n') ==> s@ == line@,
{
    let n = line.unicode_len();
    if n > 0 && line.get_char(n - 1) == '\n' {
        line.substring_char(0, n - 1).to_owned()
    } else {
        line.to_owned()
    }
}


/// The keyring service under which the password is kept.
pub fn keyring_service() -> (s: &'static str)
    ensures
        s@ == "com.github.kelmes.gtkspot"@,
{
    "com.github.kelmes.gtkspot"
}

/// The account whose password is kept in the keyring and who logs in.
pub fn account_name() -> (s: &'static str)
    ensures
        s@ == account(),
{
    "atheris84"
}

/// The account that logs in, as characters.
pub open spec fn account() -> Seq<char> {
    "atheris84"@
}

/// Where the search for the password stands.
#[derive(Debug, PartialEq, Eq)]
pub enum PasswordState {
    /// The keyring has been asked for the password.
    LookingUp,
    /// The keyring had none; a line of input has been asked for.
    ReadingLine,
    /// The typed password has been handed to the keyring to keep.
    Storing(String),
    /// Credentials have been produced.
    Finished,
}

/// What came back from the outside.
#[derive(Debug, PartialEq, Eq)]
pub enum PasswordEvent {
    /// The keyring held this password.
    Found(String),
    /// The keyring could not give a password.
    NotFound,
    /// The line of input as read (empty if reading failed).
    LineRead(String),
    /// The keyring has answered the request to keep the password, either way.
    Stored,
}

/// What the program is to do next.
#[derive(Debug, PartialEq, Eq)]
pub enum PasswordAction {
    /// Read one line of input.
    ReadLine,
    /// Keep this password in the keyring.
    Store(String),
    /// Log in with these credentials.
    Finish(Credentials),
    /// Nothing: the event does not belong to the current state.
    Wait,
}

pub enum PasswordStateView {
    LookingUp,
    ReadingLine,
    Storing(Seq<char>),
    Finished,
}

pub enum PasswordEventView {
    Found(Seq<char>),
    NotFound,
    LineRead(Seq<char>),
    Stored,
}

pub enum PasswordActionView {
    ReadLine,
    Store(Seq<char>),
    Finish(CredentialsView),
    Wait,
}

impl View for PasswordState {
    type V = PasswordStateView;

    open spec fn view(&self) -> PasswordStateView {
        match self {
            PasswordState::LookingUp => PasswordStateView::LookingUp,
            PasswordState::ReadingLine => PasswordStateView::ReadingLine,
            PasswordState::Storing(p) => PasswordStateView::Storing(p@),
            PasswordState::Finished => PasswordStateView::Finished,
        }
    }
}

impl View for PasswordEvent {
    type V = PasswordEventView;

    open spec fn view(&self) -> PasswordEventView {
        match self {
            PasswordEvent::Found(p) => PasswordEventView::Found(p@),
            PasswordEvent::NotFound => PasswordEventView::NotFound,
            PasswordEvent::LineRead(l) => PasswordEventView::LineRead(l@),
            PasswordEvent::Stored => PasswordEventView::Stored,
        }
    }
}

impl View for PasswordAction {
    type V = PasswordActionView;

    open spec fn view(&self) -> PasswordActionView {
        match self {
            PasswordAction::ReadLine => PasswordActionView::ReadLine,
            PasswordAction::Store(p) => PasswordActionView::Store(p@),
            PasswordAction::Finish(c) => PasswordActionView::Finish(c@),
            PasswordAction::Wait => PasswordActionView::Wait,
        }
    }
}

/// One step of the password search: a password found in the keyring is used
/// as it is; otherwise a line is read, its trailing line feed removed, the
/// result kept in the keyring and then used, whatever the keyring answered.
pub open spec fn password_transition(state: PasswordStateView, event: PasswordEventView) -> (
    PasswordStateView,
    PasswordActionView,
) {
    match (state, event) {
        (PasswordStateView::LookingUp, PasswordEventView::Found(p)) => (
            PasswordStateView::Finished,
            PasswordActionView::Finish(user_pass_credentials(account(), p)),
        ),
        (PasswordStateView::LookingUp, PasswordEventView::NotFound) => (
            PasswordStateView::ReadingLine,
            PasswordActionView::ReadLine,
        ),
        (PasswordStateView::ReadingLine, PasswordEventView::LineRead(l)) => (
            PasswordStateView::Storing(without_trailing_newline(l)),
            PasswordActionView::Store(without_trailing_newline(l)),
        ),
        (PasswordStateView::Storing(p), PasswordEventView::Stored) => (
            PasswordStateView::Finished,
            PasswordActionView::Finish(user_pass_credentials(account(), p)),
        ),
        _ => (state, PasswordActionView::Wait),
    }
}

/// Takes the password search one step on from `state` given `event`.
pub fn password_step(state: PasswordState, event: PasswordEvent) -> (r: (
    PasswordState,
    PasswordAction,
))
    ensures
        (r.0@, r.1@) == password_transition(state@, event@),
{
    match (state, event) {
        (PasswordState::LookingUp, PasswordEvent::Found(p)) => (
            PasswordState::Finished,
            PasswordAction::Finish(credentials_with_password(account_name(), p.as_str())),
        ),
        (PasswordState::LookingUp, PasswordEvent::NotFound) => (
            PasswordState::ReadingLine,
            PasswordAction::ReadLine,
        ),
        (PasswordState::ReadingLine, PasswordEvent::LineRead(l)) => {
            let p = strip_trailing_newline(l.as_str());
            let kept = p.clone();
            (PasswordState::Storing(p), PasswordAction::Store(kept))
        },
        (PasswordState::Storing(p), PasswordEvent::Stored) => (
            PasswordState::Finished,
            PasswordAction::Finish(credentials_with_password(account_name(), p.as_str())),
        ),
        (state, _) => (state, PasswordAction::Wait),
    }
}

/// What is kept in the keyring is what logs in: a line typed when the keyring
/// had no password is stored and then used, and the credentials it gives are
/// the very ones that a later lookup finding the stored password gives. The
/// password can be read back from the credentials' data.
pub proof fn typed_password_logs_in_as_stored(line: Seq<char>)
    ensures
        ({
            let p = without_trailing_newline(line);
            let typed = password_transition(
                PasswordStateView::ReadingLine,
                PasswordEventView::LineRead(line),
            );
            let used = password_transition(typed.0, PasswordEventView::Stored);
            let later = password_transition(
                PasswordStateView::LookingUp,
                PasswordEventView::Found(p),
            );
            &&& typed.1 == PasswordActionView::Store(p)
            &&& used.0 == PasswordStateView::Finished
            &&& used.1 == later.1
            &&& used.1 matches PasswordActionView::Finish(c) && decode_utf8(c.auth_data) == p
        }),
{
    encode_utf8_decode_utf8(without_trailing_newline(line));
}

/// Credentials made from a user name and a password are of the user-and-password
/// type, carry the user name as given, and carry the password's UTF-8 bytes,
/// from which the password is read back unchanged; different passwords give
/// different data.
pub proof fn user_pass_credentials_law(u: Seq<char>, p: Seq<char>, q: Seq<char>)
    ensures
        user_pass_credentials(u, p).auth_type == AuthType::UserPass,
        user_pass_credentials(u, p).username == u,
        decode_utf8(user_pass_credentials(u, p).auth_data) == p,
        p != q ==> user_pass_credentials(u, p).auth_data != user_pass_credentials(u, q).auth_data,
{
    encode_utf8_decode_utf8(p);
    encode_utf8_decode_utf8(q);
}

/// A line that ends in a line feed loses exactly that line feed, whatever its
/// length; a line that does not end in one is left as it is. So the password
/// kept from a typed line `s` followed by a line feed is `s` itself.
pub proof fn line_feed_removal_law(s: Seq<char>)
    ensures
        without_trailing_newline(s.push('\n')) == s,
        !(s.len() > 0 && s.last() == '\n') ==> without_trailing_newline(s) == s,
        password_transition(PasswordStateView::ReadingLine, PasswordEventView::LineRead(s.push('\n')))
            == (PasswordStateView::Storing(s), PasswordActionView::Store(s)),
        password_transition(PasswordStateView::Storing(s), PasswordEventView::Stored) == (
            PasswordStateView::Finished,
            PasswordActionView::Finish(
                CredentialsView { username: account(), auth_type: AuthType::UserPass, auth_data: encode_utf8(s) },
            ),
        ),
{
    assert(s.push('\n').drop_last() =~= s);
}

/// A password found in the keyring logs in as the account, with the
/// user-and-password type and that password's bytes.
pub proof fn found_password_law(p: Seq<char>)
    ensures
        password_transition(PasswordStateView::LookingUp, PasswordEventView::Found(p)) == (
            PasswordStateView::Finished,
            PasswordActionView::Finish(
                CredentialsView { username: account(), auth_type: AuthType::UserPass, auth_data: encode_utf8(p) },
            ),
        ),
        password_transition(PasswordStateView::LookingUp, PasswordEventView::NotFound) == (
            PasswordStateView::ReadingLine,
            PasswordActionView::ReadLine,
        ),
{
}

} // verus!
