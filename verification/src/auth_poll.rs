//! Decisions of the loop that polls an authentication URL until it answers
//! with credentials, answers with an error, or five minutes have passed.

use vstd::prelude::*;
use vstd::string::*;

verus! {

/// How long the poller keeps asking, in seconds.
pub const POLL_TIMEOUT_SECS: u64 = 300;

/// How long the poller waits between two requests, in milliseconds.
pub const POLL_INTERVAL_MILLIS: u64 = 1000;

/// The status with which the server says it has not decided yet.
pub const STATUS_ACCEPTED: u16 = 202;

/// The status with which the server hands out credentials.
pub const STATUS_OK: u16 = 200;

/// Whether to send another request, given the whole seconds elapsed since
/// polling began (a duration is shorter than the timeout exactly when its
/// whole seconds are), or `None` when the clock could not say because it went
/// backwards, which counts as timed out.
pub fn keep_polling(elapsed_secs: Option<u64>) -> (b: bool)
    ensures
        b == (elapsed_secs matches Some(secs) && secs < POLL_TIMEOUT_SECS),
{
    match elapsed_secs {
        Some(secs) => secs < POLL_TIMEOUT_SECS,
        None => false,
    }
}

/// What to do about one round of polling.
#[derive(PartialEq, Eq, Structural, Clone, Copy, Debug)]
pub enum PollDecision {
    /// No answer yet: wait the interval and ask again.
    Retry,
    /// The answer holds credentials: read them from the body and stop.
    ReadCredentials,
    /// The answer is a refusal: report it and stop.
    Fail,
}

/// The decision for a request that got no reply (`None`) or a reply with
/// the given status: only "accepted" and no reply at all keep the poller going.
pub open spec fn reply_decision(status: Option<u16>) -> PollDecision {
    match status {
        None => PollDecision::Retry,
        Some(s) => if s == STATUS_ACCEPTED {
            PollDecision::Retry
        } else if s == STATUS_OK {
            PollDecision::ReadCredentials
        } else {
            PollDecision::Fail
        },
    }
}

/// Decides what to do after a request that got no reply or a reply with
/// the given status.
pub fn decide_on_reply(status: Option<u16>) -> (d: PollDecision)
    ensures
        d == reply_decision(status),
{
    match status {
        None => PollDecision::Retry,
        Some(s) => if s == STATUS_ACCEPTED {
            PollDecision::Retry
        } else if s == STATUS_OK {
            PollDecision::ReadCredentials
        } else {
            PollDecision::Fail
        },
    }
}

/// Where the poller stands.
#[derive(PartialEq, Eq, Structural, Clone, Copy, Debug)]
pub enum PollState {
    /// About to read the clock to decide whether to ask again.
    Checking,
    /// A request has been sent; its reply (or its failure) is awaited.
    AwaitingReply,
    /// The poller is waiting out the interval.
    Waiting,
    /// The poller has stopped.
    Done,
}

/// What came back from the outside while polling.
#[derive(PartialEq, Eq, Structural, Clone, Copy, Debug)]
pub enum PollEvent {
    /// The clock was read: the whole seconds since polling began, or `None`
    /// when it went backwards.
    Clock(Option<u64>),
    /// The request got no reply (`None`) or a reply with this status.
    Reply(Option<u16>),
    /// The wait of the interval is over.
    Waited,
}

/// What the poller is to do next.
#[derive(Debug, PartialEq, Eq)]
pub enum PollAction {
    /// Send a request to this URL.
    Request(String),
    /// Sleep this many milliseconds.
    Wait(u64),
    /// Read the clock.
    CheckClock,
    /// Read the credentials from the reply's body, and stop.
    ReadCredentials,
    /// Report the refusal with this status, and stop.
    Fail(u16),
    /// Stop: five minutes have passed, or the clock went backwards.
    TimedOut,
    /// Nothing: the event does not belong to the current state.
    Nothing,
}

pub enum PollActionView {
    Request(Seq<char>),
    Wait(u64),
    CheckClock,
    ReadCredentials,
    Fail(u16),
    TimedOut,
    Nothing,
}

impl View for PollAction {
    type V = PollActionView;

    open spec fn view(&self) -> PollActionView {
        match self {
            PollAction::Request(url) => PollActionView::Request(url@),
            PollAction::Wait(ms) => PollActionView::Wait(*ms),
            PollAction::CheckClock => PollActionView::CheckClock,
            PollAction::ReadCredentials => PollActionView::ReadCredentials,
            PollAction::Fail(status) => PollActionView::Fail(*status),
            PollAction::TimedOut => PollActionView::TimedOut,
            PollAction::Nothing => PollActionView::Nothing,
        }
    }
}

/// One step of polling `url`: while fewer than five minutes have passed a
/// request goes to `url`; no reply or "accepted" means waiting the interval
/// and reading the clock again; "OK" means reading the credentials; any
/// other status means reporting it. Reading credentials, reporting and
/// timing out all stop the poller.
pub open spec fn poll_transition(url: Seq<char>, state: PollState, event: PollEvent) -> (
    PollState,
    PollActionView,
) {
    match (state, event) {
        (PollState::Checking, PollEvent::Clock(elapsed)) => if elapsed matches Some(secs) && secs
            < POLL_TIMEOUT_SECS {
            (PollState::AwaitingReply, PollActionView::Request(url))
        } else {
            (PollState::Done, PollActionView::TimedOut)
        },
        (PollState::AwaitingReply, PollEvent::Reply(status)) => match status {
            None => (PollState::Waiting, PollActionView::Wait(POLL_INTERVAL_MILLIS)),
            Some(st) => if st == STATUS_ACCEPTED {
                (PollState::Waiting, PollActionView::Wait(POLL_INTERVAL_MILLIS))
            } else if st == STATUS_OK {
                (PollState::Done, PollActionView::ReadCredentials)
            } else {
                (PollState::Done, PollActionView::Fail(st))
            },
        },
        (PollState::Waiting, PollEvent::Waited) => (PollState::Checking, PollActionView::CheckClock),
        _ => (state, PollActionView::Nothing),
    }
}

/// Takes the poller of `url` one step on from `state` given `event`.
pub fn poll_step(url: &str, state: PollState, event: PollEvent) -> (r: (PollState, PollAction))
    ensures
        (r.0, r.1@) == poll_transition(url@, state, event),
        state == PollState::AwaitingReply ==> match event {
            PollEvent::Reply(Some(st)) => if st == 202 {
                r.0 == PollState::Waiting && r.1 == PollAction::Wait(1000)
            } else if st == 200 {
                r.0 == PollState::Done && r.1 == PollAction::ReadCredentials
            } else {
                r.0 == PollState::Done && r.1 == PollAction::Fail(st)
            },
            PollEvent::Reply(None) => r.0 == PollState::Waiting && r.1 == PollAction::Wait(1000),
            _ => r.0 == state && r.1 == PollAction::Nothing,
        },
{
    match (state, event) {
        (PollState::Checking, PollEvent::Clock(elapsed)) => if keep_polling(elapsed) {
            (PollState::AwaitingReply, PollAction::Request(url.to_owned()))
        } else {
            (PollState::Done, PollAction::TimedOut)
        },
        (PollState::AwaitingReply, PollEvent::Reply(status)) => match decide_on_reply(status) {
            PollDecision::Retry => (PollState::Waiting, PollAction::Wait(POLL_INTERVAL_MILLIS)),
            PollDecision::ReadCredentials => (PollState::Done, PollAction::ReadCredentials),
            PollDecision::Fail => match status {
                Some(st) => (PollState::Done, PollAction::Fail(st)),
                None => (PollState::Waiting, PollAction::Wait(POLL_INTERVAL_MILLIS)),
            },
        },
        (PollState::Waiting, PollEvent::Waited) => (PollState::Checking, PollAction::CheckClock),
        _ => (state, PollAction::Nothing),
    }
}

/// What a clock reading does to a poller about to ask: under 300 seconds it
/// sends a request to the URL; at or past 300 seconds, or when the clock went
/// backwards, it stops with a time-out. A finished wait reads the clock.
pub proof fn poll_clock_law(url: Seq<char>, secs: u64)
    ensures
        poll_transition(url, PollState::Checking, PollEvent::Clock(Some(secs))) == if secs < 300 {
            (PollState::AwaitingReply, PollActionView::Request(url))
        } else {
            (PollState::Done, PollActionView::TimedOut)
        },
        poll_transition(url, PollState::Checking, PollEvent::Clock(None)) == (
            PollState::Done,
            PollActionView::TimedOut,
        ),
        poll_transition(url, PollState::Waiting, PollEvent::Waited) == (
            PollState::Checking,
            PollActionView::CheckClock,
        ),
{
}

/// What a reply does, for every status: 202 and no reply at all wait a
/// second; 200 reads the credentials and stops; every other status stops
/// with that status as the failure.
pub proof fn poll_reply_law(url: Seq<char>, st: u16)
    ensures
        poll_transition(url, PollState::AwaitingReply, PollEvent::Reply(None)) == (
            PollState::Waiting,
            PollActionView::Wait(1000),
        ),
        st == 202 ==> poll_transition(url, PollState::AwaitingReply, PollEvent::Reply(Some(st))) == (
            PollState::Waiting,
            PollActionView::Wait(1000),
        ),
        st == 200 ==> poll_transition(url, PollState::AwaitingReply, PollEvent::Reply(Some(st))) == (
            PollState::Done,
            PollActionView::ReadCredentials,
        ),
        st != 202 && st != 200 ==> poll_transition(
            url,
            PollState::AwaitingReply,
            PollEvent::Reply(Some(st)),
        ) == (PollState::Done, PollActionView::Fail(st)),
        st != 202 && st != 200 ==> reply_decision(Some(st)) == PollDecision::Fail,
        reply_decision(Some(202)) == PollDecision::Retry,
        reply_decision(Some(200)) == PollDecision::ReadCredentials,
        reply_decision(None) == PollDecision::Retry,
{
}

/// A stopped poller does nothing more, whatever comes.
pub proof fn poll_done_law(url: Seq<char>, event: PollEvent)
    ensures
        poll_transition(url, PollState::Done, event) == (PollState::Done, PollActionView::Nothing),
{
}

/// The actions of a poller of `url` that starts in `state` and is fed `events`.
pub open spec fn poll_run(url: Seq<char>, state: PollState, events: Seq<PollEvent>) -> Seq<
    PollActionView,
>
    decreases events.len(),
{
    if events.len() == 0 {
        seq![]
    } else {
        let (next, action) = poll_transition(url, state, events[0]);
        seq![action] + poll_run(url, next, events.drop_first())
    }
}

/// The number of requests among `actions`.
pub open spec fn request_count(actions: Seq<PollActionView>) -> nat
    decreases actions.len(),
{
    if actions.len() == 0 {
        0
    } else {
        (if actions[0] is Request {
            1nat
        } else {
            0nat
        }) + request_count(actions.drop_first())
    }
}

/// Whether, counting clock readings in `events` from `first`, the reading
/// numbered `k` says at least `k` seconds. A clock that is not set back,
/// read once per round of a loop that sleeps a full second each round, reads so.
pub open spec fn clock_keeps_pace(events: Seq<PollEvent>, first: nat) -> bool
    decreases events.len(),
{
    if events.len() == 0 {
        true
    } else {
        match events[0] {
            PollEvent::Clock(elapsed) => (elapsed matches Some(secs) ==> secs >= first)
                && clock_keeps_pace(events.drop_first(), first + 1),
            _ => clock_keeps_pace(events.drop_first(), first),
        }
    }
}

proof fn lemma_request_count_cons(a: PollActionView, rest: Seq<PollActionView>)
    ensures
        request_count(seq![a] + rest) == (if a is Request {
            1nat
        } else {
            0nat
        }) + request_count(rest),
{
    assert((seq![a] + rest).drop_first() =~= rest);
}

/// Counting clock readings from `first`, a poller sends at most
/// `300 - first` requests (none once `first` reaches 300) when its clock keeps pace.
pub proof fn lemma_requests_bounded(
    url: Seq<char>,
    state: PollState,
    events: Seq<PollEvent>,
    first: nat,
)
    requires
        clock_keeps_pace(events, first),
    ensures
        request_count(poll_run(url, state, events)) <= if first <= POLL_TIMEOUT_SECS {
            (POLL_TIMEOUT_SECS - first) as nat
        } else {
            0nat
        },
    decreases events.len(),
{
    if events.len() > 0 {
        let (next, action) = poll_transition(url, state, events[0]);
        let rest = events.drop_first();
        lemma_request_count_cons(action, poll_run(url, next, rest));
        match events[0] {
            PollEvent::Clock(_) => lemma_requests_bounded(url, next, rest, first + 1),
            _ => lemma_requests_bounded(url, next, rest, first),
        }
    }
}

/// Facts about the requests in a run of the poller of `url` from `state`:
/// each goes to `url`; between any two there is a wait of the interval;
/// after a request, no further one comes before such a wait; a stopped
/// poller sends none.
#[verifier::spinoff_prover]
pub proof fn lemma_requests_spaced(url: Seq<char>, state: PollState, events: Seq<PollEvent>)
    ensures
        ({
            let acts = poll_run(url, state, events);
            &&& acts.len() == events.len()
            &&& forall|j: int| 0 <= j < acts.len() && #[trigger] acts[j] is Request ==> acts[j]
                == PollActionView::Request(url)
            &&& forall|i: int, j: int|
                0 <= i < j < acts.len() && #[trigger] acts[i] is Request && #[trigger] acts[j] is Request
                    ==> exists|w: int| i < w < j && #[trigger] acts[w] == PollActionView::Wait(
                    POLL_INTERVAL_MILLIS,
                )
            &&& state == PollState::AwaitingReply ==> forall|j: int|
                0 <= j < acts.len() && #[trigger] acts[j] is Request ==> exists|w: int|
                    0 <= w < j && #[trigger] acts[w] == PollActionView::Wait(POLL_INTERVAL_MILLIS)
            &&& state == PollState::Done ==> forall|j: int|
                0 <= j < acts.len() ==> !(#[trigger] acts[j] is Request)
        }),
    decreases events.len(),
{
    let acts = poll_run(url, state, events);
    if events.len() > 0 {
        let (next, a) = poll_transition(url, state, events[0]);
        let rest_events = events.drop_first();
        let rest = poll_run(url, next, rest_events);
        lemma_requests_spaced(url, next, rest_events);
        assert(acts == seq![a] + rest);
        assert(acts[0] == a);
        assert forall|j: int| 1 <= j < acts.len() implies #[trigger] acts[j] == rest[j - 1] by {}
        assert forall|i: int, j: int|
            0 <= i < j < acts.len() && #[trigger] acts[i] is Request && #[trigger] acts[j] is Request
            implies exists|w: int| i < w < j && #[trigger] acts[w] == PollActionView::Wait(
            POLL_INTERVAL_MILLIS,
        ) by {
            assert(acts[j] == rest[j - 1]);
            assert(rest[j - 1] is Request);
            if i == 0 {
                assert(next == PollState::AwaitingReply);
                let w = choose|w: int|
                    0 <= w < j - 1 && #[trigger] rest[w] == PollActionView::Wait(POLL_INTERVAL_MILLIS);
                assert(acts[w + 1] == rest[w]);
            } else {
                assert(acts[i] == rest[i - 1]);
                assert(rest[i - 1] is Request);
                let w = choose|w: int|
                    i - 1 < w < j - 1 && #[trigger] rest[w] == PollActionView::Wait(POLL_INTERVAL_MILLIS);
                assert(acts[w + 1] == rest[w]);
            }
        }
        if state == PollState::AwaitingReply {
            assert forall|j: int| 0 <= j < acts.len() && #[trigger] acts[j] is Request implies exists|
                w: int,
            | 0 <= w < j && #[trigger] acts[w] == PollActionView::Wait(POLL_INTERVAL_MILLIS) by {
                assert(j != 0);
                assert(acts[j] == rest[j - 1]);
                assert(rest[j - 1] is Request);
                if next == PollState::Waiting {
                    assert(acts[0] == PollActionView::Wait(POLL_INTERVAL_MILLIS));
                } else {
                    assert(next == PollState::AwaitingReply);
                    let w = choose|w: int|
                        0 <= w < j - 1 && #[trigger] rest[w] == PollActionView::Wait(POLL_INTERVAL_MILLIS);
                    assert(acts[w + 1] == rest[w]);
                }
            }
        }
    }
}

/// When its clock keeps pace, a poller started afresh sends at most 300
/// requests, all to `url`, with a wait of the full interval between any two.
pub proof fn poller_requests_bounded_and_spaced(url: Seq<char>, events: Seq<PollEvent>)
    requires
        clock_keeps_pace(events, 0),
    ensures
        ({
            let acts = poll_run(url, PollState::Checking, events);
            &&& request_count(acts) <= POLL_TIMEOUT_SECS
            &&& forall|j: int| 0 <= j < acts.len() && #[trigger] acts[j] is Request ==> acts[j]
                == PollActionView::Request(url)
            &&& forall|i: int, j: int|
                0 <= i < j < acts.len() && #[trigger] acts[i] is Request && #[trigger] acts[j] is Request
                    ==> exists|w: int| i < w < j && #[trigger] acts[w] == PollActionView::Wait(
                    POLL_INTERVAL_MILLIS,
                )
        }),
{
    lemma_requests_bounded(url, PollState::Checking, events, 0);
    lemma_requests_spaced(url, PollState::Checking, events);
}

/// The reason phrase that the HTTP status table gives to `code`, if the
/// table has one (`StatusCode::canonical_reason` of the `http` crate).
pub uninterp spec fn canonical_reason(code: u16) -> Option<Seq<char>>;

/// The character of a decimal digit.
pub open spec fn digit_char(d: nat) -> char
    recommends
        d < 10,
{
    (d + 48) as char
}

/// The decimal writing of `n`, without leading zeros.
pub open spec fn decimal(n: nat) -> Seq<char>
    decreases n,
{
    if n < 10 {
        seq![digit_char(n)]
    } else {
        decimal(n / 10).push(digit_char(n % 10))
    }
}

/// How a status code is displayed: its number, a space, and its reason
/// phrase or a note that the code is unknown.
pub open spec fn status_text(code: u16) -> Seq<char> {
    decimal(code as nat) + " "@ + match canonical_reason(code) {
        Some(reason) => reason,
        None => "<unknown status code>"@,
    }
}

/// Displays a status code as `reqwest::StatusCode` does (its `Display`, from
/// the `http` crate): the number, a space, then the canonical reason phrase,
/// or `<unknown status code>` where the table has none. Codes outside
/// 100..=999 are no status codes; `from_u16` refuses them.
#[verifier::external_body]
fn display_status(code: u16) -> (s: String)
    requires
        100 <= code <= 999,
    ensures
        s@ == decimal(code as nat) + " "@ + match canonical_reason(code) {
            Some(reason) => reason,
            None => "<unknown status code>"@,
        },
{
    match reqwest::StatusCode::from_u16(code) {
        Ok(status) => status.to_string(),
        Err(_) => String::new(),
    }
}

/// The message that reports a refused authentication.
pub open spec fn failure_message(status: u16, body: Seq<char>) -> Seq<char> {
    "Facebook auth failed with code "@ + status_text(status) + ": "@ + body
}

/// Builds the message that reports a reply with status `status` and body
/// `body` that neither holds credentials nor asks to wait.
pub fn auth_failure_message(status: u16, body: &str) -> (m: String)
    requires
        100 <= status <= 999,
    ensures
        m@ == failure_message(status, body@),
{
    let mut m = "Facebook auth failed with code ".to_owned();
    let status_shown = display_status(status);
    m.append(status_shown.as_str());
    m.append(": ");
    m.append(body);
    m
}

} // verus!
