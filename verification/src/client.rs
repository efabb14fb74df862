//! The client: one session, one rate limiter, and the calls made through them.
//!
//! The client sends nothing itself. Each of its operations returns an
//! [`Action`]: a request to send after a pause, or the outcome of the
//! operation. The caller sleeps for the pause, sends the request, and hands
//! what came back to [`Client::handle`], which returns the next action.
//!
//! A session is not authenticated until a handshake has succeeded, and expired
//! once the server has refused a call. A call on a session that is not
//! authenticated starts with a handshake. A call that the server refuses is
//! repeated after a new handshake, as [`crate::retry`] rules.

use crate::activity::{activity_views, decode_activities, listing, Activity, ActivityView};
use crate::archive::{extract, unwrapped, zip_members};
use crate::auth::{advanced, Handshake, Step, StepView, MAX_REDIRECTS};
use crate::error::{status_error, ApiError, Error, ErrorView, STATUS_FORBIDDEN};
use crate::json::json_document;
use crate::rate_limiter::{pause_for, start_after, RateLimiter};
use crate::retry::{judge, judged, Verdict, MAX_ATTEMPTS};
use crate::wire::{
    download, download_request, is_success, search, search_request, sign_in, success, Reply,
    ReplyView, Request, RequestView,
};
use vstd::prelude::*;

verus! {

/// What the reply to a handled request says when no request was sent.
pub const NOTHING_PENDING: &'static str = "No request is pending";

/// What a client is told whose user name is empty.
pub const USERNAME_MISSING: &'static str = "Username is missing";

/// What a client is told whose password is empty.
pub const PASSWORD_MISSING: &'static str = "Password is missing";

/// Whether the server takes the session for authenticated.
#[derive(Debug, Clone, Copy, PartialEq, Eq, Structural)]
pub enum Session {
    /// No handshake has succeeded yet.
    Unauthenticated,
    /// The last handshake succeeded, and no call was refused since.
    Authenticated,
    /// The server refused a call.
    Expired,
}

/// A call to the service.
#[derive(Debug, Clone, Copy, PartialEq, Eq, Structural)]
pub enum Call {
    /// List `limit` activities from index `start` on.
    ListActivities { start: u64, limit: u64 },
    /// Download the activity `id`.
    DownloadActivity { id: u64 },
}

/// A call with the attempts it has left.
#[derive(Debug, Clone, Copy, PartialEq, Eq, Structural)]
pub struct Pending {
    pub call: Call,
    pub trials: u8,
}

/// What a client is busy with.
#[derive(Debug, Clone, Copy, PartialEq, Eq, Structural)]
pub enum Phase {
    /// Nothing: no request is under way.
    Idle,
    /// A handshake, which waits at `stage`; `then` is the call to make once
    /// the session is established.
    SigningIn { stage: Handshake, then: Option<Pending> },
    /// A call, whose request was sent; its `trials` count this attempt.
    Calling(Pending),
}

/// What an operation brought.
#[derive(Debug, Clone, PartialEq, Eq)]
pub enum Payload {
    /// The session is established.
    SignedIn,
    /// The activities listed, in the order of the server.
    Activities(Vec<Activity>),
    /// The file of the activity downloaded.
    File(Vec<u8>),
}

/// A [`Payload`] over sequences.
pub enum PayloadView {
    SignedIn,
    Activities(Seq<ActivityView>),
    File(Seq<u8>),
}

impl View for Payload {
    type V = PayloadView;

    open spec fn view(&self) -> PayloadView {
        match *self {
            Payload::SignedIn => PayloadView::SignedIn,
            Payload::Activities(list) => PayloadView::Activities(activity_views(list@)),
            Payload::File(bytes) => PayloadView::File(bytes@),
        }
    }
}

/// What the caller has to do next.
#[derive(Debug, PartialEq, Eq)]
pub enum Action {
    /// Sleep for `pause` nanoseconds, send `request`, and hand the reply to
    /// [`Client::handle`].
    Send { pause: u64, request: Request },
    /// The operation is over, with this outcome.
    Done(Result<Payload, Error>),
}

/// An [`Action`] over sequences.
pub enum ActionView {
    Send { pause: u64, request: RequestView },
    Done(Result<PayloadView, ErrorView>),
}

impl View for Action {
    type V = ActionView;

    open spec fn view(&self) -> ActionView {
        match *self {
            Action::Send { pause, request } => ActionView::Send { pause, request: request@ },
            Action::Done(Ok(payload)) => ActionView::Done(Ok(payload@)),
            Action::Done(Err(e)) => ActionView::Done(Err(e@)),
        }
    }
}

/// The client: credentials, rate limiter, session and what it is busy with.
pub struct Client {
    email: String,
    password: String,
    limiter: RateLimiter,
    session: Session,
    phase: Phase,
}

/// The state of a [`Client`].
pub struct ClientView {
    pub email: Seq<char>,
    pub password: Seq<char>,
    /// The interval of the rate limiter.
    pub limit: nat,
    /// The start of the last request that the rate limiter governed.
    pub last_start: Option<nat>,
    pub session: Session,
    pub phase: Phase,
}

impl View for Client {
    type V = ClientView;

    closed spec fn view(&self) -> ClientView {
        ClientView {
            email: self.email@,
            password: self.password@,
            limit: self.limiter.limit(),
            last_start: self.limiter.last_start(),
            session: self.session,
            phase: self.phase,
        }
    }
}

/// The request that makes a call.
pub open spec fn request_for(call: Call) -> RequestView {
    match call {
        Call::ListActivities { start, limit } => search(start, limit),
        Call::DownloadActivity { id } => download(id),
    }
}

/// What a call brings whose answer, in the success range, has this body: the
/// activities that the body lists, or the sole member of the archive that the
/// body is.
pub open spec fn outcome_of(call: Call, body: Seq<u8>) -> Result<PayloadView, ErrorView> {
    match call {
        Call::ListActivities { .. } => match listing(json_document(body)) {
            Some(list) => Ok(PayloadView::Activities(list)),
            None => Err(ErrorView::Api(ApiError::DecodeFailed)),
        },
        Call::DownloadActivity { .. } => match unwrapped(zip_members(body)) {
            Ok(bytes) => Ok(PayloadView::File(bytes)),
            Err(e) => Err(ErrorView::Archive(e)),
        },
    }
}

/// Whether a client can be busy with `phase`: a call has between one and
/// `MAX_ATTEMPTS` attempts left, and a handshake has followed no more than
/// `MAX_REDIRECTS` redirects.
pub open spec fn phase_wf(phase: Phase) -> bool {
    &&& pending_of(phase) matches Some(pending) ==> 1 <= pending.trials <= MAX_ATTEMPTS
    &&& phase matches Phase::SigningIn { stage: Handshake::Redirect { hops }, .. } ==> hops
        <= MAX_REDIRECTS
}

impl ClientView {
    /// What holds of every client: it has credentials, its rate limiter has
    /// the two-second interval, and it is busy with a phase that can be.
    pub open spec fn wf(self) -> bool {
        &&& self.email.len() > 0
        &&& self.password.len() > 0
        &&& self.limit == crate::rate_limiter::INTERVAL_NANOS
        &&& phase_wf(self.phase)
    }

    /// A client with a fresh rate limiter that has not signed in.
    pub open spec fn fresh(email: Seq<char>, password: Seq<char>) -> ClientView {
        ClientView {
            email,
            password,
            limit: crate::rate_limiter::INTERVAL_NANOS as nat,
            last_start: None,
            session: Session::Unauthenticated,
            phase: Phase::Idle,
        }
    }

    /// Sending a request at clock reading `now`, with the client busy with
    /// `phase` from then on: the rate limiter says how long to pause, and
    /// records the end of the pause as the start of the request.
    pub open spec fn sending(self, phase: Phase, request: RequestView, now: u64) -> (
        ClientView,
        ActionView,
    ) {
        let pause = pause_for(self.limit, self.last_start, now as nat);
        (
            ClientView {
                last_start: Some(start_after(now as nat, pause)),
                phase,
                ..self
            },
            ActionView::Send { pause: pause as u64, request },
        )
    }

    /// Ending the operation with `outcome`.
    pub open spec fn ending(self, outcome: Result<PayloadView, ErrorView>) -> (
        ClientView,
        ActionView,
    ) {
        (ClientView { phase: Phase::Idle, ..self }, ActionView::Done(outcome))
    }

    /// Starting a handshake, with `then` to follow it.
    pub open spec fn signing_in(self, then: Option<Pending>, now: u64) -> (
        ClientView,
        ActionView,
    ) {
        self.sending(
            Phase::SigningIn { stage: Handshake::SignIn, then },
            sign_in(self.email, self.password),
            now,
        )
    }

    /// Making the call `pending`.
    pub open spec fn calling(self, pending: Pending, now: u64) -> (ClientView, ActionView) {
        self.sending(Phase::Calling(pending), request_for(pending.call), now)
    }

    /// Starting a call: on an authenticated session its request is sent; on
    /// any other, a handshake comes first. The call has `MAX_ATTEMPTS` attempts.
    pub open spec fn started(self, call: Call, now: u64) -> (ClientView, ActionView) {
        let pending = Pending { call, trials: MAX_ATTEMPTS };
        if self.session == Session::Authenticated {
            self.calling(pending, now)
        } else {
            self.signing_in(Some(pending), now)
        }
    }

    /// Taking the reply to the request sent last.
    ///
    /// - During a handshake the reply advances it. A failed handshake ends the
    ///   operation with its error. An established session is authenticated;
    ///   the call that waited for it is made, or the operation ends.
    /// - The reply to a call ends the operation: with the transport's message
    ///   where no answer arrived, with what the body holds where the status
    ///   lies in the success range, and with the status as error otherwise.
    ///   A status of 403 marks the session as expired, and where the call has
    ///   attempts left the client signs in again to repeat it.
    /// - A reply that no request asked for ends in `InvalidInput`.
    pub open spec fn handled(self, reply: ReplyView, now: u64) -> (ClientView, ActionView) {
        match self.phase {
            Phase::Idle => self.ending(Err(ErrorView::InvalidInput(NOTHING_PENDING@))),
            Phase::SigningIn { stage, then } => match advanced(stage, reply) {
                StepView::Continue(next, request) => self.sending(
                    Phase::SigningIn { stage: next, then },
                    request,
                    now,
                ),
                StepView::Failed(e) => self.ending(Err(e)),
                StepView::Established => {
                    let established = ClientView { session: Session::Authenticated, ..self };
                    match then {
                        Some(pending) => established.calling(pending, now),
                        None => established.ending(Ok(PayloadView::SignedIn)),
                    }
                },
            },
            Phase::Calling(pending) => match reply {
                ReplyView::Failure(message) => self.ending(Err(ErrorView::IOError(message))),
                ReplyView::Answer(answer) => if is_success(answer.status) {
                    self.ending(outcome_of(pending.call, answer.body))
                } else {
                    let error = status_error(answer.status);
                    let seen = ClientView {
                        session: if error == ApiError::Forbidden {
                            Session::Expired
                        } else {
                            self.session
                        },
                        ..self
                    };
                    match judged(pending.trials, error) {
                        Verdict::Reauthenticate { trials } => seen.signing_in(
                            Some(Pending { call: pending.call, trials }),
                            now,
                        ),
                        Verdict::Return => seen.ending(Err(ErrorView::Api(error))),
                    }
                },
            },
        }
    }
}

/// The call that a client is busy with, with the attempts it has left.
pub open spec fn pending_of(phase: Phase) -> Option<Pending> {
    match phase {
        Phase::Idle => None,
        Phase::SigningIn { then, .. } => then,
        Phase::Calling(pending) => Some(pending),
    }
}

/// How many requests for its call a client in `phase` has sent and not
/// counted yet: one where it waits for the answer to the call.
pub open spec fn awaited(phase: Phase) -> nat {
    if phase is Calling {
        1
    } else {
        0
    }
}

/// What came of handing a client a sequence of replies.
pub struct Replay {
    /// The client after the last reply.
    pub client: ClientView,
    /// How many requests for a call the client sent on the way.
    pub attempts: nat,
    /// How many times a refused call made the client sign in again.
    pub reauths: nat,
}

impl ClientView {
    /// Hands the client `replies` one after the other, each at the clock
    /// reading that `clock` gives for it.
    pub open spec fn replayed(self, replies: Seq<ReplyView>, clock: Seq<u64>) -> Replay
        decreases replies.len(),
    {
        if replies.len() == 0 {
            Replay { client: self, attempts: 0, reauths: 0 }
        } else {
            let before = self.replayed(replies.drop_last(), clock.drop_last());
            let after = before.client.handled(replies.last(), clock.last()).0;
            Replay {
                client: after,
                attempts: before.attempts + awaited(after.phase),
                reauths: before.reauths + if before.client.phase is Calling
                    && after.phase is SigningIn {
                    1nat
                } else {
                    0nat
                },
            }
        }
    }
}

/// Whatever the server replies, a client that is busy with a call sticks to
/// that call, uses up one of its attempts each time it signs in again, and
/// sends the call once at first and once after each time it signed in again.
/// When the operation is over, the client signed in again fewer times than
/// the call had attempts.
pub proof fn lemma_attempts_are_counted(client: ClientView, replies: Seq<ReplyView>, clock: Seq<u64>)
    requires
        client.wf(),
        pending_of(client.phase) is Some,
        replies.len() == clock.len(),
    ensures
        ({
            let first = pending_of(client.phase)->0;
            let replay = client.replayed(replies, clock);
            match pending_of(replay.client.phase) {
                Some(pending) => {
                    &&& pending.call == first.call
                    &&& pending.trials >= 1
                    &&& pending.trials + replay.reauths == first.trials
                    &&& awaited(client.phase) + replay.attempts == replay.reauths + awaited(
                        replay.client.phase,
                    )
                },
                None => {
                    &&& replay.client.phase is Idle
                    &&& replay.reauths < first.trials
                    &&& awaited(client.phase) + replay.attempts <= replay.reauths + 1
                },
            }
        }),
    decreases replies.len(),
{
    if replies.len() > 0 {
        lemma_attempts_are_counted(client, replies.drop_last(), clock.drop_last());
    }
}

/// A call fails as forbidden only when the server has refused its last
/// attempt: the client has then sent the call as often as the call had
/// attempts, `MAX_ATTEMPTS` times for a call that was just started, and has
/// signed in again one time fewer.
pub proof fn lemma_gives_up_after_all_attempts(
    client: ClientView,
    replies: Seq<ReplyView>,
    clock: Seq<u64>,
    reply: ReplyView,
    now: u64,
)
    requires
        client.wf(),
        pending_of(client.phase) is Some,
        replies.len() == clock.len(),
        client.replayed(replies, clock).client.phase is Calling,
        client.replayed(replies, clock).client.handled(reply, now).1 == ActionView::Done(
            Err(ErrorView::Api(ApiError::Forbidden)),
        ),
    ensures
        awaited(client.phase) + client.replayed(replies, clock).attempts == pending_of(
            client.phase,
        )->0.trials,
        client.replayed(replies, clock).reauths + 1 == pending_of(client.phase)->0.trials,
{
    lemma_attempts_are_counted(client, replies, clock);
}

/// A call that ends well was sent once more than the client signed in again.
pub proof fn lemma_succeeds_after_reauths(
    client: ClientView,
    replies: Seq<ReplyView>,
    clock: Seq<u64>,
    reply: ReplyView,
    now: u64,
)
    requires
        client.wf(),
        pending_of(client.phase) is Some,
        replies.len() == clock.len(),
        client.replayed(replies, clock).client.phase is Calling,
        client.replayed(replies, clock).client.handled(reply, now).1 matches ActionView::Done(
            Ok(_),
        ),
    ensures
        awaited(client.phase) + client.replayed(replies, clock).attempts == client.replayed(
            replies,
            clock,
        ).reauths + 1,
        client.replayed(replies, clock).reauths < pending_of(client.phase)->0.trials,
{
    lemma_attempts_are_counted(client, replies, clock);
}

/// A call that the server refuses is repeated after a new handshake while it
/// has attempts left, and fails as forbidden when it has none.
pub proof fn lemma_refusal(client: ClientView, pending: Pending, reply: ReplyView, now: u64)
    requires
        client.phase == Phase::Calling(pending),
        reply matches ReplyView::Answer(answer) && answer.status == STATUS_FORBIDDEN,
    ensures
        client.handled(reply, now).0.session == Session::Expired,
        pending.trials > 1 ==> client.handled(reply, now) == (ClientView {
            session: Session::Expired,
            ..client
        }).signing_in(
            Some(Pending { call: pending.call, trials: (pending.trials - 1) as u8 }),
            now,
        ),
        pending.trials <= 1 ==> client.handled(reply, now) == (ClientView {
            session: Session::Expired,
            ..client
        }).ending(Err(ErrorView::Api(ApiError::Forbidden))),
{
}

/// A call that is made twice and answered alike ends alike: whatever else
/// the client went through, and however many attempts the call has left, an
/// answer in the success range ends the call with what its body holds. Two
/// listings that are answered with the same body yield the same activities in
/// the same order.
pub proof fn lemma_same_answer_same_outcome(
    one: ClientView,
    other: ClientView,
    call: Call,
    reply: ReplyView,
    now: u64,
    later: u64,
)
    requires
        one.phase matches Phase::Calling(pending) && pending.call == call,
        other.phase matches Phase::Calling(pending) && pending.call == call,
        reply matches ReplyView::Answer(answer) && is_success(answer.status),
    ensures
        one.handled(reply, now).1 == ActionView::Done(outcome_of(call, reply->Answer_0.body)),
        other.handled(reply, later).1 == one.handled(reply, now).1,
{
}

/// Every request is governed by the rate limiter: where the caller sleeps for
/// the pauses, so that no reply is handled before the request it answers
/// started, a request starts no earlier than the interval after the request
/// before it, unless the clock ends before that.
pub proof fn lemma_requests_are_spaced(
    client: ClientView,
    phase: Phase,
    request: RequestView,
    now: u64,
)
    requires
        client.last_start matches Some(last) && last <= now,
    ensures
        ({
            let last = client.last_start->0;
            let next = client.sending(phase, request, now).0.last_start->0;
            next >= last + client.limit || next == u64::MAX
        }),
{
}

/// No reply and no new operation takes a client out of the states that
/// [`ClientView::wf`] describes.
pub proof fn lemma_wf_is_kept(client: ClientView, call: Call, reply: ReplyView, now: u64)
    requires
        client.wf(),
    ensures
        client.signing_in(None, now).0.wf(),
        client.started(call, now).0.wf(),
        client.handled(reply, now).0.wf(),
{
}

impl Client {
    #[verifier::type_invariant]
    spec fn inv(self) -> bool {
        self@.wf()
    }

    /// A client for the given credentials, which has not signed in yet.
    ///
    /// Refuses an empty user name and an empty password as `InvalidInput`.
    pub fn new(email: &str, password: &str) -> (made: Result<Client, Error>)
        ensures
            match made {
                Ok(client) => email@.len() > 0 && password@.len() > 0 && client@
                    == ClientView::fresh(email@, password@) && client@.wf(),
                Err(e) => if email@.len() == 0 {
                    e@ == ErrorView::InvalidInput(USERNAME_MISSING@)
                } else {
                    password@.len() == 0 && e@ == ErrorView::InvalidInput(PASSWORD_MISSING@)
                },
            },
    {
        if email.is_empty() {
            return Err(Error::InvalidInput(USERNAME_MISSING.to_owned()));
        }
        if password.is_empty() {
            return Err(Error::InvalidInput(PASSWORD_MISSING.to_owned()));
        }
        Ok(
            Client {
                email: email.to_owned(),
                password: password.to_owned(),
                limiter: RateLimiter::new(),
                session: Session::Unauthenticated,
                phase: Phase::Idle,
            },
        )
    }

    /// Whether the server takes the session for authenticated.
    pub fn session(&self) -> (session: Session)
        ensures
            session == self@.session,
    {
        self.session
    }

    /// What the client is busy with.
    pub fn phase(&self) -> (phase: Phase)
        ensures
            phase == self@.phase,
    {
        self.phase
    }

    fn send(&mut self, phase: Phase, request: Request, now: u64) -> (action: Action)
        requires
            phase_wf(phase),
        ensures
            (final(self)@, action@) == old(self)@.sending(phase, request@, now),
    {
        proof {
            use_type_invariant(&*self);
        }
        let mut limiter = self.limiter;
        let pause = limiter.wait(now);
        self.limiter = limiter;
        self.phase = phase;
        Action::Send { pause, request }
    }

    fn end(&mut self, outcome: Result<Payload, Error>) -> (action: Action)
        ensures
            final(self)@ == old(self)@.ending(action@->Done_0).0,
            action == Action::Done(outcome),
    {
        proof {
            use_type_invariant(&*self);
        }
        self.phase = Phase::Idle;
        Action::Done(outcome)
    }

    fn sign_in(&mut self, then: Option<Pending>, now: u64) -> (action: Action)
        requires
            then matches Some(pending) ==> 1 <= pending.trials <= MAX_ATTEMPTS,
        ensures
            (final(self)@, action@) == old(self)@.signing_in(then, now),
    {
        let (stage, request) = Handshake::begin(self.email.as_str(), self.password.as_str());
        self.send(Phase::SigningIn { stage, then }, request, now)
    }

    fn call(&mut self, pending: Pending, now: u64) -> (action: Action)
        requires
            1 <= pending.trials <= MAX_ATTEMPTS,
        ensures
            (final(self)@, action@) == old(self)@.calling(pending, now),
    {
        let request = match pending.call {
            Call::ListActivities { start, limit } => search_request(start, limit),
            Call::DownloadActivity { id } => download_request(id),
        };
        self.send(Phase::Calling(pending), request, now)
    }

    fn start(&mut self, call: Call, now: u64) -> (action: Action)
        ensures
            (final(self)@, action@) == old(self)@.started(call, now),
    {
        let pending = Pending { call, trials: MAX_ATTEMPTS };
        match self.session {
            Session::Authenticated => self.call(pending, now),
            _ => self.sign_in(Some(pending), now),
        }
    }

    /// Starts a handshake at clock reading `now`; an operation under way is
    /// abandoned. Ends in `SignedIn` once the session is established.
    pub fn login(&mut self, now: u64) -> (action: Action)
        ensures
            (final(self)@, action@) == old(self)@.signing_in(None, now),
            final(self)@.wf(),
    {
        let action = self.sign_in(None, now);
        proof {
            use_type_invariant(&*self);
        }
        action
    }

    /// Starts listing `limit` activities from index `start` on, at clock
    /// reading `now`; an operation under way is abandoned. Ends in the
    /// activities listed.
    pub fn list_activities(&mut self, start: u64, limit: u64, now: u64) -> (action: Action)
        ensures
            (final(self)@, action@) == old(self)@.started(
                Call::ListActivities { start, limit },
                now,
            ),
            final(self)@.wf(),
    {
        let action = self.start(Call::ListActivities { start, limit }, now);
        proof {
            use_type_invariant(&*self);
        }
        action
    }

    /// Starts downloading the activity `id`, at clock reading `now`; an
    /// operation under way is abandoned. Ends in the file of the activity.
    pub fn download_activity(&mut self, id: u64, now: u64) -> (action: Action)
        ensures
            (final(self)@, action@) == old(self)@.started(Call::DownloadActivity { id }, now),
            final(self)@.wf(),
    {
        let action = self.start(Call::DownloadActivity { id }, now);
        proof {
            use_type_invariant(&*self);
        }
        action
    }

    /// Takes the reply to the request that the last action asked to send,
    /// at clock reading `now`, and says what to do next.
    pub fn handle(&mut self, reply: Reply, now: u64) -> (action: Action)
        ensures
            (final(self)@, action@) == old(self)@.handled(reply@, now),
            final(self)@.wf(),
    {
        proof {
            use_type_invariant(&*self);
        }
        match self.phase {
            Phase::Idle => self.end(Err(Error::InvalidInput(NOTHING_PENDING.to_owned()))),
            Phase::SigningIn { stage, then } => match stage.advance(reply) {
                Step::Continue(next, request) => self.send(
                    Phase::SigningIn { stage: next, then },
                    request,
                    now,
                ),
                Step::Failed(e) => self.end(Err(e)),
                Step::Established => {
                    self.session = Session::Authenticated;
                    match then {
                        Some(pending) => self.call(pending, now),
                        None => self.end(Ok(Payload::SignedIn)),
                    }
                },
            },
            Phase::Calling(pending) => {
                let answer = match reply {
                    Reply::Failure(message) => {
                        return self.end(Err(Error::IOError(message)));
                    },
                    Reply::Answer(answer) => answer,
                };
                if success(answer.status) {
                    let outcome = finish(pending.call, answer.body);
                    return self.end(outcome);
                }
                let error = ApiError::from_status(answer.status);
                match error {
                    ApiError::Forbidden => {
                        self.session = Session::Expired;
                    },
                    _ => {},
                }
                match judge(pending.trials, error) {
                    Verdict::Reauthenticate { trials } => self.sign_in(
                        Some(Pending { call: pending.call, trials }),
                        now,
                    ),
                    Verdict::Return => self.end(Err(Error::Api(error))),
                }
            },
        }
    }
}

/// Reads the body of the answer to a call: the activities that it lists, or
/// the sole member of the archive that it is.
pub fn finish(call: Call, body: Vec<u8>) -> (outcome: Result<Payload, Error>)
    ensures
        match outcome {
            Ok(payload) => outcome_of(call, body@) == Ok::<PayloadView, ErrorView>(payload@),
            Err(e) => outcome_of(call, body@) == Err::<PayloadView, ErrorView>(e@),
        },
{
    match call {
        Call::ListActivities { .. } => match decode_activities(body.as_slice()) {
            Ok(list) => Ok(Payload::Activities(list)),
            Err(e) => Err(Error::Api(e)),
        },
        Call::DownloadActivity { .. } => match extract(body) {
            Ok(bytes) => Ok(Payload::File(bytes)),
            Err(e) => Err(Error::Archive(e)),
        },
    }
}

} // verus!
