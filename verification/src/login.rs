//! The login flow: where the credentials come from, how the login attempt
//! goes from reading them to testing them, which screen follows, and the
//! checks that setting up a session makes before it builds the player.

use vstd::prelude::*;

verus! {

/// Where a login attempt takes its credentials from.
#[derive(Debug, PartialEq, Eq)]
pub enum CredentialSource {
    /// A user name and password typed into the login form.
    Supplied { username: String, password: String },
    /// The credentials kept on this machine.
    Stored,
}

/// Picks the source of the credentials for a login attempt: the form's
/// user name and password when there are some, the stored ones otherwise.
pub fn credential_source(auth: Result<(String, String), String>) -> (src: CredentialSource)
    ensures
        match auth {
            Ok((u, p)) => src matches CredentialSource::Supplied { username, password } && username@
                == u@ && password@ == p@,
            Err(_) => src is Stored,
        },
{
    match auth {
        Ok((username, password)) => CredentialSource::Supplied { username, password },
        Err(_) => CredentialSource::Stored,
    }
}

/// Why a login attempt failed.
#[derive(PartialEq, Eq, Structural, Clone, Copy, Debug)]
pub enum LoginFailure {
    /// The credentials could not be read or made.
    ReadFailed,
    /// The service refused the credentials.
    CouldNotLogIn,
}

impl LoginFailure {
    /// The message that reports the failure.
    pub fn message(&self) -> (s: &'static str)
        ensures
            s@ == match self {
                LoginFailure::ReadFailed => "failed to read credentials"@,
                LoginFailure::CouldNotLogIn => "couldn't log in with credentials"@,
            },
    {
        match self {
            LoginFailure::ReadFailed => "failed to read credentials",
            LoginFailure::CouldNotLogIn => "couldn't log in with credentials",
        }
    }
}

/// Where a login attempt stands.
#[derive(PartialEq, Eq, Structural, Clone, Copy, Debug)]
pub enum LoginState {
    /// The credentials are being read or made.
    ReadingCredentials,
    /// The credentials are being tested against the service.
    Testing,
    /// The attempt is over; it succeeded or not.
    Finished(bool),
}

/// What came back from the outside during a login attempt.
#[derive(PartialEq, Eq, Structural, Clone, Copy, Debug)]
pub enum LoginEvent {
    /// The credentials were read (`true`) or could not be (`false`).
    CredentialsRead(bool),
    /// The service accepted (`true`) or refused (`false`) the credentials.
    Tested(bool),
}

/// What the program is to do next in a login attempt.
#[derive(PartialEq, Eq, Structural, Clone, Copy, Debug)]
pub enum LoginAction {
    /// Test the credentials against the service.
    Test,
    /// Set up the session with the credentials.
    BuildSession,
    /// Record the failure as the session's error.
    Fail(LoginFailure),
    /// Nothing: the event does not belong to the current state.
    Wait,
}

/// One step of a login attempt: credentials that could not be read end it
/// in failure; read credentials are tested, and the attempt succeeds exactly
/// when the service accepts them.
pub open spec fn login_transition(state: LoginState, event: LoginEvent) -> (LoginState, LoginAction) {
    match (state, event) {
        (LoginState::ReadingCredentials, LoginEvent::CredentialsRead(true)) => (
            LoginState::Testing,
            LoginAction::Test,
        ),
        (LoginState::ReadingCredentials, LoginEvent::CredentialsRead(false)) => (
            LoginState::Finished(false),
            LoginAction::Fail(LoginFailure::ReadFailed),
        ),
        (LoginState::Testing, LoginEvent::Tested(true)) => (
            LoginState::Finished(true),
            LoginAction::BuildSession,
        ),
        (LoginState::Testing, LoginEvent::Tested(false)) => (
            LoginState::Finished(false),
            LoginAction::Fail(LoginFailure::CouldNotLogIn),
        ),
        _ => (state, LoginAction::Wait),
    }
}

/// Takes a login attempt one step on from `state` given `event`.
pub fn login_step(state: LoginState, event: LoginEvent) -> (r: (LoginState, LoginAction))
    ensures
        r == login_transition(state, event),
{
    match (state, event) {
        (LoginState::ReadingCredentials, LoginEvent::CredentialsRead(read)) => if read {
            (LoginState::Testing, LoginAction::Test)
        } else {
            (LoginState::Finished(false), LoginAction::Fail(LoginFailure::ReadFailed))
        },
        (LoginState::Testing, LoginEvent::Tested(accepted)) => if accepted {
            (LoginState::Finished(true), LoginAction::BuildSession)
        } else {
            (LoginState::Finished(false), LoginAction::Fail(LoginFailure::CouldNotLogIn))
        },
        _ => (state, LoginAction::Wait),
    }
}

/// A login attempt fed the outcome of reading and of testing the credentials
/// ends in success exactly when both went well, and sets up a session exactly
/// then; the test is asked for only when the credentials could be read.
pub proof fn login_succeeds_iff_read_and_accepted(read: bool, accepted: bool)
    ensures
        ({
            let first = login_transition(LoginState::ReadingCredentials, LoginEvent::CredentialsRead(read));
            let second = login_transition(first.0, LoginEvent::Tested(accepted));
            let end = if read { second } else { first };
            &&& (first.1 == LoginAction::Test) == read
            &&& end.0 == LoginState::Finished(read && accepted)
            &&& (end.1 == LoginAction::BuildSession) == (read && accepted)
        }),
{
}

/// A login attempt sets up a session exactly when the credentials were read
/// and accepted; the session it sets up is handed credentials that were read,
/// so it goes on to test them rather than failing on them, and it is built,
/// once the configuration is loaded, exactly when that test passes too.
pub proof fn login_leads_to_session(read: bool, accepted: bool, retested: bool, nerdfont: Option<bool>)
    ensures
        ({
            let first = login_transition(LoginState::ReadingCredentials, LoginEvent::CredentialsRead(read));
            let second = login_transition(first.0, LoginEvent::Tested(accepted));
            let sets_up = first.1 == LoginAction::BuildSession || second.1 == LoginAction::BuildSession;
            let s1 = session_transition(SessionState::Start, SessionEvent::Credentials(read));
            let s2 = session_transition(s1.0, SessionEvent::Tested(retested));
            let s3 = session_transition(s2.0, SessionEvent::ConfigLoaded(nerdfont));
            &&& sets_up == (read && accepted)
            &&& sets_up ==> s1 == (SessionState::Testing, SessionAction::Test)
            &&& sets_up ==> ((s3.0 == SessionState::Ready) == retested)
            &&& sets_up && retested ==> s3.1 == SessionAction::Build {
                use_nerdfont: match nerdfont {
                    Some(b) => b,
                    None => false,
                },
            }
        }),
{
}

/// The screen shown once a login attempt is over.
#[derive(PartialEq, Eq, Structural, Clone, Copy, Debug)]
pub enum LoginScreen {
    /// The player, with its controls revealed and events processed.
    Main,
    /// The login form again, with the error bar revealed.
    LoginWithError,
}

/// The screen that follows a login attempt that succeeded or failed.
pub fn screen_after_login(success: bool) -> (s: LoginScreen)
    ensures
        s == (if success { LoginScreen::Main } else { LoginScreen::LoginWithError }),
{
    if success {
        LoginScreen::Main
    } else {
        LoginScreen::LoginWithError
    }
}

/// Why a session could not be set up.
#[derive(PartialEq, Eq, Structural, Clone, Copy, Debug)]
pub enum SessionError {
    /// The credentials given were an error.
    CredentialsNotOk,
    /// The service refused the credentials.
    TestingFailed,
}

impl SessionError {
    /// The message that reports the error.
    pub fn message(&self) -> (s: &'static str)
        ensures
            s@ == match self {
                SessionError::CredentialsNotOk => "credentials not ok (yet?)"@,
                SessionError::TestingFailed => "testing credentials failed"@,
            },
    {
        match self {
            SessionError::CredentialsNotOk => "credentials not ok (yet?)",
            SessionError::TestingFailed => "testing credentials failed",
        }
    }
}

/// Where setting up a session stands.
#[derive(PartialEq, Eq, Structural, Clone, Copy, Debug)]
pub enum SessionState {
    /// Waiting for the credentials, or the error in their place.
    Start,
    /// The credentials are being tested against the service.
    Testing,
    /// The configuration is being loaded.
    LoadingConfig,
    /// The player, queue and library are to be built.
    Ready,
    /// Setting up stopped.
    Failed,
}

/// What came back from the outside while setting up a session.
#[derive(PartialEq, Eq, Structural, Clone, Copy, Debug)]
pub enum SessionEvent {
    /// The credentials handed over were usable (`true`) or an error (`false`).
    Credentials(bool),
    /// The service accepted (`true`) or refused (`false`) the credentials.
    Tested(bool),
    /// The configuration was loaded; it sets the nerd-font option or leaves it out.
    ConfigLoaded(Option<bool>),
    /// The configuration could neither be loaded nor made.
    ConfigFailed,
}

/// What the program is to do next while setting up a session.
#[derive(PartialEq, Eq, Structural, Clone, Copy, Debug)]
pub enum SessionAction {
    /// Test the credentials against the service.
    Test,
    /// Load the configuration file, or write the default one.
    LoadConfig,
    /// Build the event manager, player, queue and library; the library shows
    /// nerd-font icons as given.
    Build { use_nerdfont: bool },
    /// Give up with this error.
    Fail(SessionError),
    /// Report the configuration error and end the process with this status.
    Exit(i32),
    /// Nothing: the event does not belong to the current state.
    Wait,
}

/// One step of setting up a session: an error in place of credentials and a
/// refused test each stop it with their error; a configuration that cannot
/// be loaded ends the process with status 1; otherwise the player is built,
/// without nerd-font icons unless the configuration asks for them.
pub open spec fn session_transition(state: SessionState, event: SessionEvent) -> (
    SessionState,
    SessionAction,
) {
    match (state, event) {
        (SessionState::Start, SessionEvent::Credentials(ok)) => if ok {
            (SessionState::Testing, SessionAction::Test)
        } else {
            (SessionState::Failed, SessionAction::Fail(SessionError::CredentialsNotOk))
        },
        (SessionState::Testing, SessionEvent::Tested(accepted)) => if accepted {
            (SessionState::LoadingConfig, SessionAction::LoadConfig)
        } else {
            (SessionState::Failed, SessionAction::Fail(SessionError::TestingFailed))
        },
        (SessionState::LoadingConfig, SessionEvent::ConfigLoaded(nerdfont)) => (
            SessionState::Ready,
            SessionAction::Build {
                use_nerdfont: match nerdfont {
                    Some(b) => b,
                    None => false,
                },
            },
        ),
        (SessionState::LoadingConfig, SessionEvent::ConfigFailed) => (
            SessionState::Failed,
            SessionAction::Exit(1),
        ),
        _ => (state, SessionAction::Wait),
    }
}

/// Takes the setting up of a session one step on from `state` given `event`.
pub fn session_step(state: SessionState, event: SessionEvent) -> (r: (SessionState, SessionAction))
    ensures
        r == session_transition(state, event),
{
    match (state, event) {
        (SessionState::Start, SessionEvent::Credentials(ok)) => if ok {
            (SessionState::Testing, SessionAction::Test)
        } else {
            (SessionState::Failed, SessionAction::Fail(SessionError::CredentialsNotOk))
        },
        (SessionState::Testing, SessionEvent::Tested(accepted)) => if accepted {
            (SessionState::LoadingConfig, SessionAction::LoadConfig)
        } else {
            (SessionState::Failed, SessionAction::Fail(SessionError::TestingFailed))
        },
        (SessionState::LoadingConfig, SessionEvent::ConfigLoaded(nerdfont)) => (
            SessionState::Ready,
            SessionAction::Build { use_nerdfont: nerdfont.unwrap_or(false) },
        ),
        (SessionState::LoadingConfig, SessionEvent::ConfigFailed) => (
            SessionState::Failed,
            SessionAction::Exit(1),
        ),
        _ => (state, SessionAction::Wait),
    }
}

/// A session is built only from usable credentials that the service accepted
/// and a loaded configuration; each of the three failing stops the setting up
/// at that point, and nothing moves it on from there.
pub proof fn session_built_only_after_all_checks(ok: bool, accepted: bool, config: Option<Option<bool>>)
    ensures
        ({
            let s1 = session_transition(SessionState::Start, SessionEvent::Credentials(ok));
            let s2 = session_transition(s1.0, SessionEvent::Tested(accepted));
            let e3 = match config {
                Some(n) => SessionEvent::ConfigLoaded(n),
                None => SessionEvent::ConfigFailed,
            };
            let s3 = session_transition(s2.0, e3);
            &&& (s3.0 == SessionState::Ready) == (ok && accepted && config is Some)
            &&& (s3.1 is Build) == (ok && accepted && config is Some)
            &&& forall|e: SessionEvent| #[trigger] session_transition(SessionState::Failed, e) == (
                SessionState::Failed,
                SessionAction::Wait,
            )
        }),
{
}

} // verus!
