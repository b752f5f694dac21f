use gtkspot::credentials::{
    account_name, credentials_with_password, keyring_service, password_step, strip_trailing_newline,
    AuthResponse, AuthType, Credentials, PasswordAction, PasswordEvent, PasswordState,
};

fn user_pass(password: &str) -> Credentials {
    Credentials {
        username: "atheris84".to_string(),
        auth_type: AuthType::UserPass,
        auth_data: password.as_bytes().to_vec(),
    }
}

#[test]
fn keyring_names() {
    assert_eq!(keyring_service(), "com.github.kelmes.gtkspot");
    assert_eq!(account_name(), "atheris84");
}

#[test]
fn credentials_hold_password_bytes() {
    let c = credentials_with_password("someone", "pässwörd");
    assert_eq!(c.username, "someone");
    assert_eq!(c.auth_type, AuthType::UserPass);
    assert_eq!(c.auth_data, vec![0x70, 0xc3, 0xa4, 0x73, 0x73, 0x77, 0xc3, 0xb6, 0x72, 0x64]);
}

#[test]
fn empty_password_gives_empty_data() {
    let c = credentials_with_password("u", "");
    assert!(c.auth_data.is_empty());
}

#[test]
fn strip_removes_one_line_feed() {
    assert_eq!(strip_trailing_newline("secret\n"), "secret");
    assert_eq!(strip_trailing_newline("secret\n\n"), "secret\n");
    assert_eq!(strip_trailing_newline("secret\r\n"), "secret\r");
    assert_eq!(strip_trailing_newline("secret"), "secret");
    assert_eq!(strip_trailing_newline("\n"), "");
    assert_eq!(strip_trailing_newline(""), "");
    assert_eq!(strip_trailing_newline("héllo\n"), "héllo");
}

#[test]
fn found_password_is_used_at_once() {
    let (state, action) =
        password_step(PasswordState::LookingUp, PasswordEvent::Found("hunter2".to_string()));
    assert_eq!(state, PasswordState::Finished);
    assert_eq!(action, PasswordAction::Finish(user_pass("hunter2")));
}

#[test]
fn missing_password_is_typed_stored_and_used() {
    let (state, action) = password_step(PasswordState::LookingUp, PasswordEvent::NotFound);
    assert_eq!(state, PasswordState::ReadingLine);
    assert_eq!(action, PasswordAction::ReadLine);

    let (state, action) = password_step(state, PasswordEvent::LineRead("typed pw\n".to_string()));
    assert_eq!(state, PasswordState::Storing("typed pw".to_string()));
    assert_eq!(action, PasswordAction::Store("typed pw".to_string()));

    let (state, action) = password_step(state, PasswordEvent::Stored);
    assert_eq!(state, PasswordState::Finished);
    assert_eq!(action, PasswordAction::Finish(user_pass("typed pw")));
}

#[test]
fn stored_password_later_gives_same_credentials() {
    let (state, _) = password_step(PasswordState::ReadingLine, PasswordEvent::LineRead("abc\n".to_string()));
    let (_, typed) = password_step(state, PasswordEvent::Stored);
    let (_, later) = password_step(PasswordState::LookingUp, PasswordEvent::Found("abc".to_string()));
    assert_eq!(typed, later);
}

#[test]
fn failed_read_gives_empty_password() {
    let (state, action) = password_step(PasswordState::ReadingLine, PasswordEvent::LineRead(String::new()));
    assert_eq!(state, PasswordState::Storing(String::new()));
    assert_eq!(action, PasswordAction::Store(String::new()));
}

#[test]
fn out_of_place_event_waits() {
    let (state, action) = password_step(PasswordState::Finished, PasswordEvent::Stored);
    assert_eq!(state, PasswordState::Finished);
    assert_eq!(action, PasswordAction::Wait);
    let (state, action) = password_step(PasswordState::LookingUp, PasswordEvent::LineRead("x".to_string()));
    assert_eq!(state, PasswordState::LookingUp);
    assert_eq!(action, PasswordAction::Wait);
}

#[test]
fn auth_response_holds_credentials() {
    let r = AuthResponse { credentials: user_pass("p"), error: None };
    assert_eq!(r.credentials.auth_data, b"p".to_vec());
    assert!(r.error.is_none());
}
