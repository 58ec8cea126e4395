//! The OAuth 2.0 Authorization Code flow for the Spotify Web API.
//!
//! The crate builds the address that a user is sent to for consent, reads the
//! address that the provider redirects to afterwards, and turns the provider's
//! answer to the code exchange into a token. Sending the request itself is left to
//! the caller: [`SpotifyCallback::token_request`] says what to send, and
//! [`SpotifyToken::from_exchange`] takes what came back.
//!
//! The steps, in their order:
//!
//! 1. [`SpotifyAuth::new`] makes the request with a fresh state, and
//!    [`SpotifyAuth::authorize_url`] the address for the user's browser.
//! 2. [`SpotifyCallback::from_str`] reads the address of the redirect.
//! 3. [`SpotifyCallback::token_request`] makes the one request to the token
//!    endpoint, which the caller sends.
//! 4. [`SpotifyToken::from_exchange`] makes the token of the answer and stamps it
//!    with the second at which it expires.
//!
//! What `url`, `serde_json`, `chrono` and `rand` do for the library is believed and
//! not proved; the modules [`uri`], [`json`], [`clock`] and [`state`] say what is
//! believed of them.

pub mod auth;
pub mod callback;
pub mod clock;
pub mod error;
pub mod json;
pub mod scope;
pub mod state;
pub mod text;
pub mod token;
pub mod uri;

pub use crate::auth::SpotifyAuth;
pub use crate::callback::{SpotifyCallback, TokenRequest};
pub use crate::clock::{datetime_to_timestamp, timestamp_after};
pub use crate::error::{ErrorCause, ErrorKind, SpotifyError};
pub use crate::json::JsonMember;
pub use crate::scope::SpotifyScope;
pub use crate::state::generate_random_string;
pub use crate::token::{ExchangeOutcome, SpotifyToken};
