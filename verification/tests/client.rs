use garmin_export::activity::Activity;
use garmin_export::client::{Action, Call, Client, Payload, Pending, Phase, Session};
use garmin_export::error::{ApiError, ArchiveError, AuthError, Error};
use garmin_export::rate_limiter::INTERVAL_NANOS;
use garmin_export::wire::{
    download_request, get_request, search_request, sign_in_request, Method, Reply, Request,
    Response,
};
use std::io::Write;

const PAGE: &str = "response_url = \"https:\\/\\/connect.garmin.com\\/modern?ticket=ST-1\";";
const LIST: &str = r#"[{"activityId":42,"activityName":"Run","description":"morning"}]"#;

fn answer(status: u16, body: &[u8]) -> Reply {
    Reply::Answer(Response { status, location: None, body: body.to_vec() })
}

/// What a run of one operation against a scripted server came to.
struct Played {
    outcome: Result<Payload, Error>,
    /// The requests sent, in order.
    sent: Vec<Request>,
    /// The clock reading at which each request started.
    starts: Vec<u64>,
    clock: u64,
}

impl Played {
    fn sign_ins(&self) -> usize {
        self.sent.iter().filter(|r| r.new_session).count()
    }

    fn calls(&self, call: &Request) -> usize {
        self.sent.iter().filter(|r| *r == call).count()
    }
}

/// Plays an operation to its end on a clock that only the pauses advance.
/// The server answers the handshake as a working deployment does, and the
/// calls as `answers` says, one after the other.
fn play(client: &mut Client, first: Action, clock: u64, answers: &[Reply]) -> Played {
    let mut clock = clock;
    let mut sent = Vec::new();
    let mut starts = Vec::new();
    let mut answers = answers.iter();
    let mut action = first;
    loop {
        match action {
            Action::Done(outcome) => return Played { outcome, sent, starts, clock },
            Action::Send { pause, request } => {
                clock += pause;
                starts.push(clock);
                let reply = if request.method == Method::Post {
                    answer(200, PAGE.as_bytes())
                } else if request.url.contains("ticket=") || request.url.ends_with("/modern") {
                    answer(200, b"")
                } else {
                    answers.next().expect("the client made more calls than expected").clone()
                };
                sent.push(request);
                action = client.handle(reply, clock);
            }
        }
    }
}

fn signed_in() -> (Client, u64) {
    let mut client = Client::new("me", "secret").unwrap();
    let first = client.login(0);
    let played = play(&mut client, first, 0, &[]);
    assert_eq!(played.outcome, Ok(Payload::SignedIn));
    assert_eq!(client.session(), Session::Authenticated);
    (client, played.clock)
}

fn archive_of(members: &[(&str, &[u8])]) -> Vec<u8> {
    let mut writer = zip::ZipWriter::new(std::io::Cursor::new(Vec::new()));
    let options =
        zip::write::FileOptions::default().compression_method(zip::CompressionMethod::Deflated);
    for (name, data) in members {
        writer.start_file(*name, options).unwrap();
        writer.write_all(data).unwrap();
    }
    writer.finish().unwrap().into_inner()
}

#[test]
fn empty_credentials_are_invalid_input() {
    assert_eq!(
        Client::new("", "secret").err(),
        Some(Error::InvalidInput("Username is missing".to_string()))
    );
    assert_eq!(
        Client::new("me", "").err(),
        Some(Error::InvalidInput("Password is missing".to_string()))
    );
    assert_eq!(
        Client::new("", "").err(),
        Some(Error::InvalidInput("Username is missing".to_string()))
    );
}

#[test]
fn new_client_is_idle_and_not_signed_in() {
    let client = Client::new("me", "secret").unwrap();
    assert_eq!(client.session(), Session::Unauthenticated);
    assert_eq!(client.phase(), Phase::Idle);
}

#[test]
fn login_runs_the_handshake() {
    let mut client = Client::new("me", "secret").unwrap();
    let first = client.login(0);
    assert_eq!(first, Action::Send { pause: 0, request: sign_in_request("me", "secret") });
    let played = play(&mut client, first, 0, &[]);
    assert_eq!(played.outcome, Ok(Payload::SignedIn));
    assert_eq!(
        played.sent,
        vec![
            sign_in_request("me", "secret"),
            get_request("https://connect.garmin.com/modern?ticket=ST-1".to_string()),
            get_request("https://connect.garmin.com/modern".to_string()),
        ]
    );
    assert_eq!(client.session(), Session::Authenticated);
    assert_eq!(client.phase(), Phase::Idle);
}

#[test]
fn failed_handshake_leaves_the_session_unauthenticated() {
    let mut client = Client::new("me", "secret").unwrap();
    let first = client.login(0);
    assert!(matches!(first, Action::Send { .. }));
    assert_eq!(
        client.handle(answer(200, b"no ticket here"), 0),
        Action::Done(Err(Error::Auth(AuthError::TicketNotFound)))
    );
    assert_eq!(client.session(), Session::Unauthenticated);
    assert_eq!(client.phase(), Phase::Idle);
}

#[test]
fn listing_returns_the_activities() {
    let (mut client, clock) = signed_in();
    let first = client.list_activities(0, 3, clock);
    let played = play(&mut client, first, clock, &[answer(200, LIST.as_bytes())]);
    assert_eq!(
        played.outcome,
        Ok(Payload::Activities(vec![Activity::new(
            42,
            "Run".to_string(),
            Some("morning".to_string()),
            None
        )]))
    );
    assert_eq!(played.sent, vec![search_request(0, 3)]);
}

#[test]
fn listing_twice_returns_equal_lists() {
    let body = r#"[{"activityId":9,"activityName":"b"},{"activityId":3,"activityName":"a"}]"#;
    let (mut client, clock) = signed_in();
    let first = client.list_activities(0, 2, clock);
    let one = play(&mut client, first, clock, &[answer(200, body.as_bytes())]);
    let first = client.list_activities(0, 2, one.clock);
    let two = play(&mut client, first, one.clock, &[answer(200, body.as_bytes())]);
    assert!(one.outcome.is_ok());
    assert_eq!(one.outcome, two.outcome);
    match one.outcome {
        Ok(Payload::Activities(list)) => {
            assert_eq!(list.iter().map(|a| a.id()).collect::<Vec<u64>>(), vec![9, 3])
        }
        other => panic!("{:?}", other),
    }
}

#[test]
fn malformed_listing_is_not_retried() {
    let (mut client, clock) = signed_in();
    let first = client.list_activities(0, 3, clock);
    let played = play(&mut client, first, clock, &[answer(200, b"<html>")]);
    assert_eq!(played.outcome, Err(Error::Api(ApiError::DecodeFailed)));
    assert_eq!(played.sent.len(), 1);
}

#[test]
fn download_returns_the_unwrapped_file() {
    let (mut client, clock) = signed_in();
    let first = client.download_activity(42, clock);
    let played =
        play(&mut client, first, clock, &[answer(200, &archive_of(&[("42.fit", b"hello")]))]);
    assert_eq!(played.outcome, Ok(Payload::File(b"hello".to_vec())));
    assert_eq!(played.sent, vec![download_request(42)]);
}

#[test]
fn download_of_a_bad_archive_fails() {
    let (mut client, clock) = signed_in();
    let first = client.download_activity(42, clock);
    let played = play(&mut client, first, clock, &[answer(200, b"no archive")]);
    assert_eq!(played.outcome, Err(Error::Archive(ArchiveError::Corrupt)));

    let two = archive_of(&[("a.fit", b"hello"), ("b.fit", b"world")]);
    let first = client.download_activity(42, played.clock);
    let played = play(&mut client, first, played.clock, &[answer(200, &two)]);
    assert_eq!(played.outcome, Err(Error::Archive(ArchiveError::UnexpectedMemberCount)));
    assert_eq!(played.sent.len(), 1);
}

#[test]
fn two_refusals_then_success_returns_the_result() {
    let (mut client, clock) = signed_in();
    let first = client.list_activities(0, 3, clock);
    let played = play(
        &mut client,
        first,
        clock,
        &[answer(403, b""), answer(403, b""), answer(200, LIST.as_bytes())],
    );
    assert_eq!(
        played.outcome,
        Ok(Payload::Activities(vec![Activity::new(
            42,
            "Run".to_string(),
            Some("morning".to_string()),
            None
        )]))
    );
    assert_eq!(played.sign_ins(), 2);
    assert_eq!(played.calls(&search_request(0, 3)), 3);
    assert_eq!(client.session(), Session::Authenticated);
}

#[test]
fn refusals_without_end_fail_as_forbidden() {
    let (mut client, clock) = signed_in();
    let first = client.download_activity(7, clock);
    let played = play(
        &mut client,
        first,
        clock,
        &[answer(403, b""), answer(403, b""), answer(403, b""), answer(403, b"")],
    );
    assert_eq!(played.outcome, Err(Error::Api(ApiError::Forbidden)));
    assert_eq!(played.calls(&download_request(7)), 3);
    assert_eq!(played.sign_ins(), 2);
    assert_eq!(client.session(), Session::Expired);
    assert_eq!(client.phase(), Phase::Idle);
}

#[test]
fn refused_call_waits_for_a_new_handshake() {
    let (mut client, clock) = signed_in();
    let first = client.download_activity(7, clock);
    assert!(matches!(first, Action::Send { .. }));
    assert_eq!(
        client.phase(),
        Phase::Calling(Pending { call: Call::DownloadActivity { id: 7 }, trials: 3 })
    );
    // the download started one interval after the handshake's last request
    let next = client.handle(answer(403, b""), clock + INTERVAL_NANOS + 1_500_000_000);
    assert_eq!(
        next,
        Action::Send { pause: 500_000_000, request: sign_in_request("me", "secret") }
    );
    assert_eq!(client.session(), Session::Expired);
    assert_eq!(
        client.phase(),
        Phase::SigningIn {
            stage: garmin_export::auth::Handshake::SignIn,
            then: Some(Pending { call: Call::DownloadActivity { id: 7 }, trials: 2 }),
        }
    );
}

#[test]
fn failed_reauthentication_ends_the_call() {
    let (mut client, clock) = signed_in();
    let first = client.list_activities(0, 3, clock);
    assert!(matches!(first, Action::Send { .. }));
    assert!(matches!(client.handle(answer(403, b""), clock), Action::Send { .. }));
    assert_eq!(
        client.handle(answer(200, b"no ticket"), clock),
        Action::Done(Err(Error::Auth(AuthError::TicketNotFound)))
    );
    assert_eq!(client.session(), Session::Expired);
    assert_eq!(client.phase(), Phase::Idle);
}

#[test]
fn other_failures_are_not_retried() {
    let (mut client, clock) = signed_in();
    let first = client.list_activities(0, 3, clock);
    let played = play(&mut client, first, clock, &[answer(500, b"")]);
    assert_eq!(played.outcome, Err(Error::Api(ApiError::Http(500))));
    assert_eq!(played.sent.len(), 1);
    assert_eq!(client.session(), Session::Authenticated);

    let first = client.download_activity(1, played.clock);
    let played = play(&mut client, first, played.clock, &[answer(404, b"")]);
    assert_eq!(played.outcome, Err(Error::Api(ApiError::Http(404))));
    assert_eq!(played.sent.len(), 1);

    let first = client.download_activity(1, played.clock);
    let played =
        play(&mut client, first, played.clock, &[Reply::Failure("timed out".to_string())]);
    assert_eq!(played.outcome, Err(Error::IOError("timed out".to_string())));
    assert_eq!(played.sent.len(), 1);
}

#[test]
fn call_on_a_new_client_signs_in_first() {
    let mut client = Client::new("me", "secret").unwrap();
    let first = client.list_activities(0, 3, 0);
    let played = play(&mut client, first, 0, &[answer(200, LIST.as_bytes())]);
    assert!(played.outcome.is_ok());
    assert_eq!(played.sign_ins(), 1);
    assert_eq!(played.calls(&search_request(0, 3)), 1);
    assert_eq!(played.sent.len(), 4);
}

#[test]
fn requests_start_at_least_the_interval_apart() {
    let mut client = Client::new("me", "secret").unwrap();
    let first = client.list_activities(0, 3, 1_000);
    let played = play(
        &mut client,
        first,
        1_000,
        &[answer(403, b""), answer(200, LIST.as_bytes())],
    );
    assert!(played.outcome.is_ok());
    assert_eq!(played.starts.len(), 8);
    assert_eq!(played.starts[0], 1_000);
    for pair in played.starts.windows(2) {
        assert_eq!(pair[1] - pair[0], INTERVAL_NANOS);
    }
}

#[test]
fn reply_that_nothing_asked_for_is_invalid_input() {
    let mut client = Client::new("me", "secret").unwrap();
    assert_eq!(
        client.handle(answer(200, b""), 0),
        Action::Done(Err(Error::InvalidInput("No request is pending".to_string())))
    );
    assert_eq!(client.phase(), Phase::Idle);
}

#[test]
fn new_operation_abandons_the_one_under_way() {
    let (mut client, clock) = signed_in();
    assert!(matches!(client.list_activities(0, 3, clock), Action::Send { .. }));
    let first = client.download_activity(5, clock);
    assert_eq!(
        client.phase(),
        Phase::Calling(Pending { call: Call::DownloadActivity { id: 5 }, trials: 3 })
    );
    let played = play(&mut client, first, clock, &[answer(200, &archive_of(&[("5.fit", b"abc")]))]);
    assert_eq!(played.outcome, Ok(Payload::File(b"abc".to_vec())));
}
