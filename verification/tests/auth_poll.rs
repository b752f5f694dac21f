use gtkspot::auth_poll::{
    auth_failure_message, decide_on_reply, keep_polling, PollDecision, POLL_INTERVAL_MILLIS,
    POLL_TIMEOUT_SECS,
};

#[test]
fn timeout_is_five_minutes() {
    assert_eq!(POLL_TIMEOUT_SECS, 5 * 60);
    assert_eq!(POLL_INTERVAL_MILLIS, 1000);
}

#[test]
fn polls_until_timeout() {
    assert!(keep_polling(Some(0)));
    assert!(keep_polling(Some(299)));
    assert!(!keep_polling(Some(300)));
    assert!(!keep_polling(Some(10_000)));
    assert!(!keep_polling(None));
}

#[test]
fn replies_decide() {
    assert_eq!(decide_on_reply(None), PollDecision::Retry);
    assert_eq!(decide_on_reply(Some(202)), PollDecision::Retry);
    assert_eq!(decide_on_reply(Some(200)), PollDecision::ReadCredentials);
    assert_eq!(decide_on_reply(Some(201)), PollDecision::Fail);
    assert_eq!(decide_on_reply(Some(404)), PollDecision::Fail);
    assert_eq!(decide_on_reply(Some(500)), PollDecision::Fail);
}

#[test]
fn failure_message_shows_status_and_body() {
    assert_eq!(
        auth_failure_message(404, "no such session"),
        "Facebook auth failed with code 404 Not Found: no such session"
    );
    assert_eq!(
        auth_failure_message(500, ""),
        "Facebook auth failed with code 500 Internal Server Error: "
    );
}

#[test]
fn failure_message_unknown_status() {
    assert_eq!(
        auth_failure_message(599, "x"),
        "Facebook auth failed with code 599 <unknown status code>: x"
    );
    assert_eq!(
        auth_failure_message(100, "y"),
        "Facebook auth failed with code 100 Continue: y"
    );
}

use gtkspot::auth_poll::{poll_step, PollAction, PollEvent, PollState};

#[test]
fn poll_round_retries_then_reads() {
    let url = "https://example.org/auth";
    let (s, a) = poll_step(url, PollState::Checking, PollEvent::Clock(Some(0)));
    assert_eq!((s, a), (PollState::AwaitingReply, PollAction::Request(url.to_string())));
    let (s, a) = poll_step(url, s, PollEvent::Reply(Some(202)));
    assert_eq!((s, a), (PollState::Waiting, PollAction::Wait(1000)));
    let (s, a) = poll_step(url, s, PollEvent::Waited);
    assert_eq!((s, a), (PollState::Checking, PollAction::CheckClock));
    let (s, a) = poll_step(url, s, PollEvent::Clock(Some(1)));
    assert_eq!((s, a), (PollState::AwaitingReply, PollAction::Request(url.to_string())));
    let (s, a) = poll_step(url, s, PollEvent::Reply(None));
    assert_eq!((s, a), (PollState::Waiting, PollAction::Wait(1000)));
    let (s, _) = poll_step(url, s, PollEvent::Waited);
    let (s, _) = poll_step(url, s, PollEvent::Clock(Some(2)));
    let (s, a) = poll_step(url, s, PollEvent::Reply(Some(200)));
    assert_eq!((s, a), (PollState::Done, PollAction::ReadCredentials));
    let (s, a) = poll_step(url, s, PollEvent::Clock(Some(3)));
    assert_eq!((s, a), (PollState::Done, PollAction::Nothing));
}

#[test]
fn poll_fails_on_refusal() {
    let (s, a) = poll_step("u", PollState::AwaitingReply, PollEvent::Reply(Some(403)));
    assert_eq!((s, a), (PollState::Done, PollAction::Fail(403)));
}

#[test]
fn poll_times_out() {
    let (s, a) = poll_step("u", PollState::Checking, PollEvent::Clock(Some(300)));
    assert_eq!((s, a), (PollState::Done, PollAction::TimedOut));
    let (s, a) = poll_step("u", PollState::Checking, PollEvent::Clock(None));
    assert_eq!((s, a), (PollState::Done, PollAction::TimedOut));
}

#[test]
fn poll_sends_at_most_300_requests() {
    let mut state = PollState::Checking;
    let mut event = PollEvent::Clock(Some(0));
    let mut secs: u64 = 0;
    let mut requests = 0;
    loop {
        let (next, action) = poll_step("u", state, event);
        state = next;
        event = match action {
            PollAction::Request(_) => {
                requests += 1;
                PollEvent::Reply(Some(202))
            }
            PollAction::Wait(_) => {
                secs += 1;
                PollEvent::Waited
            }
            PollAction::CheckClock => PollEvent::Clock(Some(secs)),
            _ => break,
        };
    }
    assert_eq!(requests, 300);
    assert_eq!(state, PollState::Done);
}
