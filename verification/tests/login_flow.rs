use gtkspot::login::{
    credential_source, login_step, screen_after_login, session_step, CredentialSource, LoginAction,
    LoginEvent, LoginFailure, LoginScreen, LoginState, SessionAction, SessionError, SessionEvent,
    SessionState,
};

#[test]
fn supplied_credentials_are_used() {
    assert_eq!(
        credential_source(Ok(("me".to_string(), "pw".to_string()))),
        CredentialSource::Supplied { username: "me".to_string(), password: "pw".to_string() }
    );
    assert_eq!(credential_source(Err("no credentials yet".to_string())), CredentialSource::Stored);
}

#[test]
fn login_success() {
    let (s, a) = login_step(LoginState::ReadingCredentials, LoginEvent::CredentialsRead(true));
    assert_eq!((s, a), (LoginState::Testing, LoginAction::Test));
    let (s, a) = login_step(s, LoginEvent::Tested(true));
    assert_eq!((s, a), (LoginState::Finished(true), LoginAction::BuildSession));
    assert_eq!(screen_after_login(true), LoginScreen::Main);
}

#[test]
fn login_refused() {
    let (s, _) = login_step(LoginState::ReadingCredentials, LoginEvent::CredentialsRead(true));
    let (s, a) = login_step(s, LoginEvent::Tested(false));
    assert_eq!(s, LoginState::Finished(false));
    assert_eq!(a, LoginAction::Fail(LoginFailure::CouldNotLogIn));
    assert_eq!(LoginFailure::CouldNotLogIn.message(), "couldn't log in with credentials");
    assert_eq!(screen_after_login(false), LoginScreen::LoginWithError);
}

#[test]
fn login_unreadable() {
    let (s, a) = login_step(LoginState::ReadingCredentials, LoginEvent::CredentialsRead(false));
    assert_eq!(s, LoginState::Finished(false));
    assert_eq!(a, LoginAction::Fail(LoginFailure::ReadFailed));
    assert_eq!(LoginFailure::ReadFailed.message(), "failed to read credentials");
    let (s2, a2) = login_step(s, LoginEvent::Tested(true));
    assert_eq!((s2, a2), (LoginState::Finished(false), LoginAction::Wait));
}

#[test]
fn session_built() {
    let (s, a) = session_step(SessionState::Start, SessionEvent::Credentials(true));
    assert_eq!((s, a), (SessionState::Testing, SessionAction::Test));
    let (s, a) = session_step(s, SessionEvent::Tested(true));
    assert_eq!((s, a), (SessionState::LoadingConfig, SessionAction::LoadConfig));
    let (s, a) = session_step(s, SessionEvent::ConfigLoaded(Some(true)));
    assert_eq!((s, a), (SessionState::Ready, SessionAction::Build { use_nerdfont: true }));
}

#[test]
fn session_nerdfont_defaults_off() {
    let (s, a) = session_step(SessionState::LoadingConfig, SessionEvent::ConfigLoaded(None));
    assert_eq!((s, a), (SessionState::Ready, SessionAction::Build { use_nerdfont: false }));
}

#[test]
fn session_errors() {
    let (s, a) = session_step(SessionState::Start, SessionEvent::Credentials(false));
    assert_eq!((s, a), (SessionState::Failed, SessionAction::Fail(SessionError::CredentialsNotOk)));
    assert_eq!(SessionError::CredentialsNotOk.message(), "credentials not ok (yet?)");
    let (s, a) = session_step(SessionState::Testing, SessionEvent::Tested(false));
    assert_eq!((s, a), (SessionState::Failed, SessionAction::Fail(SessionError::TestingFailed)));
    assert_eq!(SessionError::TestingFailed.message(), "testing credentials failed");
    let (s, a) = session_step(SessionState::LoadingConfig, SessionEvent::ConfigFailed);
    assert_eq!((s, a), (SessionState::Failed, SessionAction::Exit(1)));
    let (s, a) = session_step(SessionState::Failed, SessionEvent::Credentials(true));
    assert_eq!((s, a), (SessionState::Failed, SessionAction::Wait));
}
