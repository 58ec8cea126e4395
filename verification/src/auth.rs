//! The request for authorization.

use vstd::prelude::*;

use crate::error::{outcome_is, CauseView, ErrorCause, ErrorKind, ErrorView, SpotifyError};
use crate::scope::{joined, SpotifyScope};
use crate::state::{generate_random_string, is_alphanumeric_text};
use crate::uri::{parsed_text, text_with_params, url_text, url_with_params};

verus! {

/// The address at which the provider asks the user for consent.
pub const SPOTIFY_AUTH_URL: &'static str = "https://accounts.spotify.com/authorize";

/// The number of characters of a generated state.
pub const STATE_LENGTH: usize = 20;

/// What an application asks of the provider: who it is, where the user is to be
/// sent back, and which permissions it wants.
pub struct SpotifyAuth {
    /// The id under which the application is registered.
    pub client_id: String,
    /// The secret that belongs to the id. It is not part of the authorize address.
    pub client_secret: String,
    /// The kind of answer that is asked for: `code`.
    pub response_type: String,
    /// Where the provider sends the user once consent is given or refused.
    pub redirect_uri: url::Url,
    /// A text that the provider echoes in its redirect, by which the application
    /// tells its own requests from forged ones.
    pub state: String,
    /// The scopes that are asked for.
    pub scope: Vec<SpotifyScope>,
    /// Whether the user is asked again although consent was given before.
    pub show_dialog: bool,
}

/// What a [`SpotifyAuth`] holds, as mathematical values. The redirect address
/// stands as its text.
pub struct AuthView {
    pub client_id: Seq<char>,
    pub client_secret: Seq<char>,
    pub response_type: Seq<char>,
    pub redirect_uri: Seq<char>,
    pub state: Seq<char>,
    pub scope: Seq<SpotifyScope>,
    pub show_dialog: bool,
}

impl View for SpotifyAuth {
    type V = AuthView;

    open spec fn view(&self) -> AuthView {
        AuthView {
            client_id: self.client_id@,
            client_secret: self.client_secret@,
            response_type: self.response_type@,
            redirect_uri: url_text(self.redirect_uri),
            state: self.state@,
            scope: self.scope@,
            show_dialog: self.show_dialog,
        }
    }
}

/// The request that the given values and state make up, or the error where the
/// redirect address is no absolute address.
pub open spec fn auth_of(
    client_id: Seq<char>,
    client_secret: Seq<char>,
    response_type: Seq<char>,
    redirect_uri: Seq<char>,
    state: Seq<char>,
    scope: Seq<SpotifyScope>,
    show_dialog: bool,
) -> Result<AuthView, ErrorView> {
    match parsed_text(redirect_uri) {
        Some(text) => Ok(
            AuthView {
                client_id,
                client_secret,
                response_type,
                redirect_uri: text,
                state,
                scope,
                show_dialog,
            },
        ),
        None => Err(
            ErrorView::caused(
                ErrorKind::ParsingFailed,
                "redirect URI failed to parse"@,
                CauseView::Url,
            ),
        ),
    }
}

/// The request of a configuration in which the client id and the redirect address
/// may be missing: `INVALID_ID` and `http://localhost:8000/callback` stand in for
/// them. The response type is `code`, no scope is asked for, and the dialog is not
/// forced.
pub open spec fn default_auth_of(
    client_id: Option<Seq<char>>,
    client_secret: Seq<char>,
    redirect_uri: Option<Seq<char>>,
    state: Seq<char>,
) -> Result<AuthView, ErrorView> {
    auth_of(
        match client_id {
            Some(id) => id,
            None => "INVALID_ID"@,
        },
        client_secret,
        "code"@,
        match redirect_uri {
            Some(uri) => uri,
            None => "http://localhost:8000/callback"@,
        },
        state,
        Seq::empty(),
        false,
    )
}

/// `"true"` or `"false"`.
pub open spec fn flag_text(flag: bool) -> Seq<char> {
    if flag {
        "true"@
    } else {
        "false"@
    }
}

/// The query parameters of the authorize address, in their fixed order.
pub open spec fn authorize_query(auth: AuthView) -> Seq<(Seq<char>, Seq<char>)> {
    seq![
        ("client_id"@, auth.client_id),
        ("response_type"@, auth.response_type),
        ("redirect_uri"@, auth.redirect_uri),
        ("state"@, auth.state),
        ("scope"@, joined(auth.scope)),
        ("show_dialog"@, flag_text(auth.show_dialog)),
    ]
}

/// The place of `state` among the query parameters of the authorize address.
pub open spec fn state_place() -> int {
    3
}

/// The address to which the user is sent: the authorize endpoint with the query
/// parameters of the request, as `url` writes it.
pub open spec fn authorize_address(auth: AuthView) -> Result<Seq<char>, ErrorView> {
    match text_with_params(SPOTIFY_AUTH_URL@, authorize_query(auth)) {
        Some(text) => Ok(text),
        None => Err(
            ErrorView::caused(
                ErrorKind::ParsingFailed,
                "authorize URL failed to parse"@,
                CauseView::Url,
            ),
        ),
    }
}

impl SpotifyAuth {
    /// A request with the given values and a fresh random state of
    /// [`STATE_LENGTH`] letters and digits.
    ///
    /// It fails where `redirect_uri` is no absolute address. Apart from the state,
    /// the request is that of [`SpotifyAuth::with_state`].
    pub fn new(
        client_id: String,
        client_secret: String,
        response_type: String,
        redirect_uri: String,
        scope: Vec<SpotifyScope>,
        show_dialog: bool,
    ) -> (auth: Result<SpotifyAuth, SpotifyError>)
        ensures
            exists|state: Seq<char>|
                is_alphanumeric_text(state, STATE_LENGTH as nat) && outcome_is(
                    auth,
                    #[trigger] auth_of(
                        client_id@,
                        client_secret@,
                        response_type@,
                        redirect_uri@,
                        state,
                        scope@,
                        show_dialog,
                    ),
                ),
    {
        let state = generate_random_string(STATE_LENGTH);
        SpotifyAuth::with_state(
            client_id,
            client_secret,
            response_type,
            redirect_uri,
            state,
            scope,
            show_dialog,
        )
    }

    /// A request with the given values and the given state.
    ///
    /// It fails where `redirect_uri` is no absolute address.
    pub fn with_state(
        client_id: String,
        client_secret: String,
        response_type: String,
        redirect_uri: String,
        state: String,
        scope: Vec<SpotifyScope>,
        show_dialog: bool,
    ) -> (auth: Result<SpotifyAuth, SpotifyError>)
        ensures
            outcome_is(
                auth,
                auth_of(
                    client_id@,
                    client_secret@,
                    response_type@,
                    redirect_uri@,
                    state@,
                    scope@,
                    show_dialog,
                ),
            ),
    {
        match url::Url::parse(redirect_uri.as_str()) {
            Ok(redirect_uri) => Ok(
                SpotifyAuth {
                    client_id,
                    client_secret,
                    response_type,
                    redirect_uri,
                    state,
                    scope,
                    show_dialog,
                },
            ),
            Err(cause) => Err(
                SpotifyError::caused(
                    ErrorKind::ParsingFailed,
                    "redirect URI failed to parse",
                    ErrorCause::Url(cause),
                ),
            ),
        }
    }

    /// The request of a configuration in which the client id and the redirect
    /// address may be missing, with a fresh random state: see [`default_auth_of`].
    pub fn with_defaults(
        client_id: Option<String>,
        client_secret: String,
        redirect_uri: Option<String>,
    ) -> (auth: Result<SpotifyAuth, SpotifyError>)
        ensures
            exists|state: Seq<char>|
                is_alphanumeric_text(state, STATE_LENGTH as nat) && outcome_is(
                    auth,
                    #[trigger] default_auth_of(
                        client_id.deep_view(),
                        client_secret@,
                        redirect_uri.deep_view(),
                        state,
                    ),
                ),
    {
        let ghost configured_id = client_id.deep_view();
        let ghost configured_uri = redirect_uri.deep_view();
        let ghost secret = client_secret@;
        let client_id = match client_id {
            Some(id) => id,
            None => "INVALID_ID".to_owned(),
        };
        let redirect_uri = match redirect_uri {
            Some(uri) => uri,
            None => "http://localhost:8000/callback".to_owned(),
        };
        let ghost id = client_id@;
        let ghost uri = redirect_uri@;
        let auth = SpotifyAuth::new(
            client_id,
            client_secret,
            "code".to_owned(),
            redirect_uri,
            Vec::new(),
            false,
        );
        proof {
            let state = choose|state: Seq<char>|
                is_alphanumeric_text(state, STATE_LENGTH as nat) && outcome_is(
                    auth,
                    #[trigger] auth_of(id, secret, "code"@, uri, state, Seq::empty(), false),
                );
            assert(default_auth_of(configured_id, secret, configured_uri, state) == auth_of(
                id,
                secret,
                "code"@,
                uri,
                state,
                Seq::empty(),
                false,
            ));
        }
        auth
    }

    /// The names of the scopes that are asked for, with one space between two
    /// neighbours.
    pub fn scope_into_string(&self) -> (text: String)
        ensures
            text@ == joined(self@.scope),
    {
        SpotifyScope::join(self.scope.as_slice())
    }

    /// The query parameters of the authorize address, in their fixed order:
    /// `client_id`, `response_type`, `redirect_uri`, `state`, `scope` and
    /// `show_dialog`.
    pub fn query_params(&self) -> (params: Vec<(String, String)>)
        ensures
            params.deep_view() == authorize_query(self@),
    {
        let mut params: Vec<(String, String)> = Vec::new();
        params.push(("client_id".to_owned(), self.client_id.clone()));
        params.push(("response_type".to_owned(), self.response_type.clone()));
        params.push(("redirect_uri".to_owned(), self.redirect_uri.as_str().to_owned()));
        params.push(("state".to_owned(), self.state.clone()));
        params.push(("scope".to_owned(), self.scope_into_string()));
        params.push(
            ("show_dialog".to_owned(), if self.show_dialog {
                "true".to_owned()
            } else {
                "false".to_owned()
            }),
        );
        assert(params.deep_view() =~= authorize_query(self@));
        params
    }

    /// The address to which the user is sent for consent: the authorize endpoint
    /// with [`SpotifyAuth::query_params`] as its query.
    ///
    /// It fails only where `url` refuses the authorize endpoint itself.
    pub fn authorize_url(&self) -> (address: Result<String, SpotifyError>)
        ensures
            outcome_is(address, authorize_address(self@)),
    {
        let params = self.query_params();
        match url_with_params(SPOTIFY_AUTH_URL, &params) {
            Ok(url) => Ok(url.as_str().to_owned()),
            Err(cause) => Err(
                SpotifyError::caused(
                    ErrorKind::ParsingFailed,
                    "authorize URL failed to parse",
                    ErrorCause::Url(cause),
                ),
            ),
        }
    }
}

/// Two requests that differ in nothing but their state ask with the same query
/// parameters, but for the one that carries the state.
pub proof fn lemma_query_differs_only_in_state(a: AuthView, b: AuthView)
    requires
        a == (AuthView { state: a.state, ..b }),
    ensures
        authorize_query(a).len() == authorize_query(b).len(),
        forall|i: int|
            0 <= i < authorize_query(a).len() && i != state_place() ==> authorize_query(a)[i]
                == authorize_query(b)[i],
        authorize_query(a)[state_place()] == ("state"@, a.state),
        authorize_query(b)[state_place()] == ("state"@, b.state),
{
}

/// Two requests made of the same values with two states differ in nothing but
/// their state.
pub proof fn lemma_auth_differs_only_in_state(
    client_id: Seq<char>,
    client_secret: Seq<char>,
    response_type: Seq<char>,
    redirect_uri: Seq<char>,
    scope: Seq<SpotifyScope>,
    show_dialog: bool,
    first: Seq<char>,
    second: Seq<char>,
)
    ensures
        ({
            let a = auth_of(client_id, client_secret, response_type, redirect_uri, first, scope, show_dialog);
            let b = auth_of(client_id, client_secret, response_type, redirect_uri, second, scope, show_dialog);
            match (a, b) {
                (Ok(a), Ok(b)) => a == (AuthView { state: first, ..b }) && b.state == second,
                (Err(a), Err(b)) => a == b,
                _ => false,
            }
        }),
{
}

} // verus!
