//! Client-side logic for exporting activities from Garmin Connect.
//!
//! The library holds every decision the client makes and performs no I/O
//! itself: the caller sends the requests it is handed, reports what came
//! back, and sleeps for the pauses the rate limiter prescribes.
//!
//! - [`client`] is the client itself: a session and a rate limiter, and the
//!   operations to sign in, to list activities and to download one.
//! - [`auth`] is the sign-on handshake, and [`ticket`] finds the ticket URL
//!   in the page that the sign-in returns.
//! - [`retry`] says when a refused call is repeated.
//! - [`rate_limiter`] spaces the requests.
//! - [`archive`] unwraps a downloaded payload.
//! - [`activity`], [`datetime`] and [`json`] decode the list of activities.
//! - [`wire`] holds the requests and replies, [`error`] the errors,
//!   [`config`] the credentials of the command line, and [`text`] helpers.

pub mod activity;
pub mod archive;
pub mod auth;
pub mod client;
pub mod config;
pub mod datetime;
pub mod error;
pub mod json;
pub mod rate_limiter;
pub mod retry;
pub mod text;
pub mod ticket;
pub mod wire;
