//! The sign-on handshake, one reply at a time.
//!
//! The handshake posts the credentials to the sign-in endpoint, claims the
//! ticket that the returned page holds, and then follows the redirects from
//! the application's base URL until an answer in the success range arrives.
//! The endpoint that older deployments probed after the ticket claim is not
//! part of it.

use crate::error::{status_error, ApiError, AuthError, Error, ErrorView};
use crate::text::{text_of, utf8_text};
use crate::ticket::{extract_ticket_url, ticket_url};
use crate::wire::{
    get_request, is_redirect, is_success, plain_get, redirect, sign_in, sign_in_request, success,
    Reply, ReplyView, Request, RequestView, MODERN_URL,
};
use vstd::prelude::*;

verus! {

/// How many redirects the handshake follows from the application's base URL.
pub const MAX_REDIRECTS: u8 = 10;

/// Where a handshake stands: the reply it waits for.
#[derive(Debug, Clone, Copy, PartialEq, Eq, Structural)]
pub enum Handshake {
    /// The credentials were posted.
    SignIn,
    /// The ticket was claimed.
    Ticket,
    /// The base URL or a redirect from it was requested; `hops` redirects
    /// were followed so far.
    Redirect { hops: u8 },
}

/// What a reply makes of a handshake.
#[derive(Debug, Clone, PartialEq, Eq)]
pub enum Step {
    /// The handshake goes on with this request.
    Continue(Handshake, Request),
    /// The session is established.
    Established,
    /// The handshake failed.
    Failed(Error),
}

/// A [`Step`] over sequences of characters.
pub enum StepView {
    Continue(Handshake, RequestView),
    Established,
    Failed(ErrorView),
}

impl View for Step {
    type V = StepView;

    open spec fn view(&self) -> StepView {
        match *self {
            Step::Continue(next, request) => StepView::Continue(next, request@),
            Step::Established => StepView::Established,
            Step::Failed(e) => StepView::Failed(e@),
        }
    }
}

/// The ticket URL in the body of the sign-in endpoint's answer.
pub open spec fn page_ticket(body: Seq<u8>) -> Option<Seq<char>> {
    match text_of(body) {
        Some(page) => ticket_url(page),
        None => None,
    }
}

/// What a reply makes of a handshake that stands at `stage`.
///
/// - No answer: the handshake fails with the transport's message.
/// - After the sign-in: a status outside the success range fails as that
///   status; a page without ticket fails with `TicketNotFound`; else the
///   ticket is claimed.
/// - After the ticket claim: a status outside the success range fails with
///   `TicketRejected`; else the application's base URL is requested.
/// - While following redirects: a status in the success range establishes the
///   session; a redirect with a location is followed, unless `MAX_REDIRECTS`
///   were followed already, which fails with `TooManyRedirects`; any other
///   answer fails as its status.
pub open spec fn advanced(stage: Handshake, reply: ReplyView) -> StepView {
    match reply {
        ReplyView::Failure(message) => StepView::Failed(ErrorView::IOError(message)),
        ReplyView::Answer(answer) => match stage {
            Handshake::SignIn => if !is_success(answer.status) {
                StepView::Failed(ErrorView::Api(status_error(answer.status)))
            } else {
                match page_ticket(answer.body) {
                    Some(url) => StepView::Continue(Handshake::Ticket, plain_get(url)),
                    None => StepView::Failed(ErrorView::Auth(AuthError::TicketNotFound)),
                }
            },
            Handshake::Ticket => if !is_success(answer.status) {
                StepView::Failed(ErrorView::Auth(AuthError::TicketRejected))
            } else {
                StepView::Continue(Handshake::Redirect { hops: 0 }, plain_get(MODERN_URL@))
            },
            Handshake::Redirect { hops } => if is_success(answer.status) {
                StepView::Established
            } else if is_redirect(answer.status) && answer.location is Some {
                if hops >= MAX_REDIRECTS {
                    StepView::Failed(ErrorView::Auth(AuthError::TooManyRedirects))
                } else {
                    StepView::Continue(
                        Handshake::Redirect { hops: (hops + 1) as u8 },
                        plain_get(answer.location->0),
                    )
                }
            } else {
                StepView::Failed(ErrorView::Api(status_error(answer.status)))
            },
        },
    }
}

/// The most requests that a handshake at `stage` can still send.
pub open spec fn requests_left(stage: Handshake) -> nat {
    match stage {
        Handshake::SignIn => (MAX_REDIRECTS + 2) as nat,
        Handshake::Ticket => (MAX_REDIRECTS + 1) as nat,
        Handshake::Redirect { hops } => if hops <= MAX_REDIRECTS {
            (MAX_REDIRECTS - hops) as nat
        } else {
            0
        },
    }
}

/// Every request that a handshake sends uses up one of a bounded number:
/// a handshake sends the sign-in and at most `MAX_REDIRECTS + 2` more.
pub proof fn lemma_handshake_terminates(stage: Handshake, reply: ReplyView)
    ensures
        advanced(stage, reply) matches StepView::Continue(next, _) ==> requests_left(next)
            < requests_left(stage),
{
}

impl Handshake {
    /// Starts a handshake: returns its first stage and the sign-in request.
    pub fn begin(username: &str, password: &str) -> (start: (Handshake, Request))
        ensures
            start.0 == Handshake::SignIn,
            start.1@ == sign_in(username@, password@),
    {
        (Handshake::SignIn, sign_in_request(username, password))
    }

    /// Takes the reply to the request that the handshake sent last.
    pub fn advance(self, reply: Reply) -> (step: Step)
        ensures
            step@ == advanced(self, reply@),
    {
        let answer = match reply {
            Reply::Failure(message) => {
                return Step::Failed(Error::IOError(message));
            },
            Reply::Answer(answer) => answer,
        };
        match self {
            Handshake::SignIn => {
                if !success(answer.status) {
                    return Step::Failed(Error::Api(ApiError::from_status(answer.status)));
                }
                let page = match utf8_text(answer.body.as_slice()) {
                    Some(page) => page,
                    None => {
                        return Step::Failed(Error::Auth(AuthError::TicketNotFound));
                    },
                };
                match extract_ticket_url(page) {
                    Ok(url) => Step::Continue(Handshake::Ticket, get_request(url)),
                    Err(e) => Step::Failed(Error::Auth(e)),
                }
            },
            Handshake::Ticket => {
                if !success(answer.status) {
                    Step::Failed(Error::Auth(AuthError::TicketRejected))
                } else {
                    Step::Continue(
                        Handshake::Redirect { hops: 0 },
                        get_request(MODERN_URL.to_owned()),
                    )
                }
            },
            Handshake::Redirect { hops } => {
                if success(answer.status) {
                    return Step::Established;
                }
                if redirect(answer.status) {
                    match answer.location {
                        Some(url) => {
                            if hops >= MAX_REDIRECTS {
                                return Step::Failed(Error::Auth(AuthError::TooManyRedirects));
                            }
                            return Step::Continue(
                                Handshake::Redirect { hops: hops + 1 },
                                get_request(url),
                            );
                        },
                        None => {},
                    }
                }
                Step::Failed(Error::Api(ApiError::from_status(answer.status)))
            },
        }
    }
}

} // verus!
