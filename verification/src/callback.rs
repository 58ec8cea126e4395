//! The provider's redirect, and the request that exchanges its code.

use vstd::prelude::*;

use crate::error::{outcome_is, CauseView, ErrorCause, ErrorKind, ErrorView, SpotifyError};
use crate::text::str_eq;
use crate::uri::{parsed_text, query_of_text, query_pairs, url_text};

verus! {

/// The address to which the authorization code is sent for a token.
pub const SPOTIFY_TOKEN_URL: &'static str = "https://accounts.spotify.com/api/token";

/// The value of the first pair named `key`, where there is such a pair.
pub open spec fn first_value(pairs: Seq<(Seq<char>, Seq<char>)>, key: Seq<char>) -> Option<
    Seq<char>,
>
    decreases pairs.len(),
{
    if pairs.len() == 0 {
        None
    } else if pairs[0].0 == key {
        Some(pairs[0].1)
    } else {
        first_value(pairs.drop_first(), key)
    }
}

/// What a [`SpotifyCallback`] holds, as mathematical values.
pub struct CallbackView {
    pub code: Option<Seq<char>>,
    pub error: Option<Seq<char>>,
    pub state: Seq<char>,
}

/// The callback that the query parameters of a redirect make up.
///
/// `state` must be there, and `code` or `error`; each is read from the first pair
/// of its name. With a code the redirect grants and `error` is not kept; without
/// one it denies.
pub open spec fn callback_of_pairs(pairs: Seq<(Seq<char>, Seq<char>)>) -> Result<
    CallbackView,
    ErrorView,
> {
    let state = first_value(pairs, "state"@);
    let code = first_value(pairs, "code"@);
    let error = first_value(pairs, "error"@);
    let has_response = code is Some || error is Some;
    if state is None && !has_response {
        Err(ErrorView::plain(ErrorKind::InvalidCallbackURL, "no state or response parameter"@))
    } else if state is None {
        Err(ErrorView::plain(ErrorKind::InvalidCallbackURL, "no state parameter"@))
    } else if !has_response {
        Err(ErrorView::plain(ErrorKind::InvalidCallbackURL, "no response parameter"@))
    } else if code is Some {
        Ok(CallbackView { code, error: None, state: state->0 })
    } else {
        Ok(CallbackView { code: None, error, state: state->0 })
    }
}

/// The callback that a redirect address makes up: that of its query parameters,
/// where the text is an address at all.
pub open spec fn callback_of_text(raw: Seq<char>) -> Result<CallbackView, ErrorView> {
    match parsed_text(raw) {
        Some(text) => callback_of_pairs(query_of_text(text)),
        None => Err(
            ErrorView::caused(
                ErrorKind::ParsingFailed,
                "callback URL failed to parse"@,
                CauseView::Url,
            ),
        ),
    }
}

/// What a [`TokenRequest`] holds, as mathematical values.
pub struct TokenRequestView {
    pub url: Seq<char>,
    pub username: Seq<char>,
    pub password: Seq<char>,
    pub form: Seq<(Seq<char>, Seq<char>)>,
}

/// The request that exchanges a callback's code, or the error where it has none.
pub open spec fn token_request_of(
    callback: CallbackView,
    client_id: Seq<char>,
    client_secret: Seq<char>,
    redirect_uri: Seq<char>,
) -> Result<TokenRequestView, ErrorView> {
    match callback.code {
        Some(code) => Ok(
            TokenRequestView {
                url: SPOTIFY_TOKEN_URL@,
                username: client_id,
                password: client_secret,
                form: seq![
                    ("grant_type"@, "authorization_code"@),
                    ("code"@, code),
                    ("redirect_uri"@, redirect_uri),
                ],
            },
        ),
        None => Err(ErrorView::plain(ErrorKind::ParsingFailed, "missing code"@)),
    }
}

/// The request to the token endpoint: one POST with HTTP Basic authentication and
/// a form as its body.
#[derive(Debug)]
pub struct TokenRequest {
    /// The address to post to.
    pub url: String,
    /// The user name of the Basic authentication: the client id.
    pub username: String,
    /// The password of the Basic authentication: the client secret.
    pub password: String,
    /// The fields of the form, in the order in which they are sent.
    pub form: Vec<(String, String)>,
}

impl View for TokenRequest {
    type V = TokenRequestView;

    open spec fn view(&self) -> TokenRequestView {
        TokenRequestView {
            url: self.url@,
            username: self.username@,
            password: self.password@,
            form: self.form.deep_view(),
        }
    }
}

/// What the provider's redirect carries: the code that it grants or the reason
/// for which it denies, and the state that it echoes.
#[derive(Debug, PartialEq)]
pub struct SpotifyCallback {
    /// The code that the token endpoint takes in exchange for a token.
    code: Option<String>,
    /// Why the provider did not grant.
    error: Option<String>,
    /// The state of the request, as the provider echoes it.
    state: String,
}

impl View for SpotifyCallback {
    type V = CallbackView;

    closed spec fn view(&self) -> CallbackView {
        CallbackView {
            code: self.code.deep_view(),
            error: self.error.deep_view(),
            state: self.state@,
        }
    }
}

/// The value of the first pair named `key`.
fn first_value_of(pairs: &[(String, String)], key: &str) -> (found: Option<String>)
    ensures
        found.deep_view() == first_value(pairs.deep_view(), key@),
{
    let ghost all = pairs.deep_view();
    let mut i: usize = 0;
    assert(all.skip(0) =~= all);
    while i < pairs.len()
        invariant
            i <= pairs.len(),
            all == pairs.deep_view(),
            first_value(all, key@) == first_value(all.skip(i as int), key@),
        decreases pairs.len() - i,
    {
        assert(all.skip(i as int).drop_first() =~= all.skip(i as int + 1));
        if str_eq(pairs[i].0.as_str(), key) {
            return Some(pairs[i].1.clone());
        }
        i += 1;
    }
    None
}

impl SpotifyCallback {
    /// A callback with the given values.
    pub fn new(code: Option<String>, error: Option<String>, state: String) -> (callback: Self)
        ensures
            callback@ == (CallbackView {
                code: code.deep_view(),
                error: error.deep_view(),
                state: state@,
            }),
    {
        SpotifyCallback { code, error, state }
    }

    /// The authorization code, where the redirect grants.
    pub fn code(&self) -> (code: Option<&str>)
        ensures
            code.deep_view() == self@.code,
    {
        match &self.code {
            Some(text) => Some(text.as_str()),
            None => None,
        }
    }

    /// The reason for which the redirect denies.
    pub fn error(&self) -> (error: Option<&str>)
        ensures
            error.deep_view() == self@.error,
    {
        match &self.error {
            Some(text) => Some(text.as_str()),
            None => None,
        }
    }

    /// The state that the redirect echoes.
    pub fn state(&self) -> (state: &str)
        ensures
            state@ == self@.state,
    {
        self.state.as_str()
    }

    /// Reads a callback from the query parameters of a redirect, given in their
    /// order.
    pub fn from_pairs(pairs: &[(String, String)]) -> (parsed: Result<
        SpotifyCallback,
        SpotifyError,
    >)
        ensures
            outcome_is(parsed, callback_of_pairs(pairs.deep_view())),
    {
        let state = first_value_of(pairs, "state");
        let code = first_value_of(pairs, "code");
        let error = first_value_of(pairs, "error");
        let invalid = ErrorKind::InvalidCallbackURL;
        match state {
            None => {
                if code.is_none() && error.is_none() {
                    Err(SpotifyError::plain(invalid, "no state or response parameter"))
                } else {
                    Err(SpotifyError::plain(invalid, "no state parameter"))
                }
            },
            Some(state) => match code {
                Some(code) => Ok(SpotifyCallback { code: Some(code), error: None, state }),
                None => match error {
                    Some(error) => Ok(SpotifyCallback { code: None, error: Some(error), state }),
                    None => Err(SpotifyError::plain(invalid, "no response parameter")),
                },
            },
        }
    }

    /// Reads a callback from the address that the provider redirected to.
    ///
    /// What `url` makes of the text decides whether it is an address and which
    /// parameters its query holds; [`SpotifyCallback::from_pairs`] decides the rest.
    pub fn from_str(s: &str) -> (parsed: Result<SpotifyCallback, SpotifyError>)
        ensures
            outcome_is(parsed, callback_of_text(s@)),
    {
        match url::Url::parse(s) {
            Ok(url) => {
                let pairs = query_pairs(&url);
                SpotifyCallback::from_pairs(pairs.as_slice())
            },
            Err(cause) => Err(
                SpotifyError::caused(
                    ErrorKind::ParsingFailed,
                    "callback URL failed to parse",
                    ErrorCause::Url(cause),
                ),
            ),
        }
    }

    /// The request that exchanges this callback's code for a token.
    ///
    /// It fails, before anything is sent, where the callback carries no code.
    pub fn token_request(
        self,
        client_id: String,
        client_secret: String,
        redirect_uri: url::Url,
    ) -> (request: Result<TokenRequest, SpotifyError>)
        ensures
            outcome_is(
                request,
                token_request_of(self@, client_id@, client_secret@, url_text(redirect_uri)),
            ),
    {
        match self.code {
            Some(code) => {
                let mut form: Vec<(String, String)> = Vec::new();
                form.push(("grant_type".to_owned(), "authorization_code".to_owned()));
                form.push(("code".to_owned(), code));
                form.push(("redirect_uri".to_owned(), redirect_uri.as_str().to_owned()));
                let request = TokenRequest {
                    url: SPOTIFY_TOKEN_URL.to_owned(),
                    username: client_id,
                    password: client_secret,
                    form,
                };
                assert(request@.form =~= token_request_of(
                    self@,
                    client_id@,
                    client_secret@,
                    url_text(redirect_uri),
                )->Ok_0.form);
                Ok(request)
            },
            None => Err(SpotifyError::plain(ErrorKind::ParsingFailed, "missing code")),
        }
    }
}

/// Whether the pair at `place` is the first one named `key`.
pub open spec fn is_first_named(pairs: Seq<(Seq<char>, Seq<char>)>, key: Seq<char>, place: int) -> bool {
    &&& 0 <= place < pairs.len()
    &&& pairs[place].0 == key
    &&& forall|earlier: int| 0 <= earlier < place ==> (#[trigger] pairs[earlier]).0 != key
}

/// Of several pairs with one name the first one counts: [`first_value`] is the
/// value of the pair before which no pair has that name, and nothing where no pair
/// has it.
pub proof fn lemma_first_occurrence_wins(pairs: Seq<(Seq<char>, Seq<char>)>, key: Seq<char>)
    ensures
        match first_value(pairs, key) {
            Some(value) => exists|place: int|
                #[trigger] is_first_named(pairs, key, place) && pairs[place].1 == value,
            None => forall|place: int| 0 <= place < pairs.len() ==> (#[trigger] pairs[place]).0 != key,
        },
    decreases pairs.len(),
{
    if pairs.len() == 0 {
    } else if pairs[0].0 == key {
        assert(is_first_named(pairs, key, 0));
    } else {
        let rest = pairs.drop_first();
        lemma_first_occurrence_wins(rest, key);
        match first_value(rest, key) {
            Some(value) => {
                let place = choose|place: int|
                    #[trigger] is_first_named(rest, key, place) && rest[place].1 == value;
                assert forall|earlier: int| 0 <= earlier < place + 1 implies (#[trigger] pairs[earlier]).0
                    != key by {
                    if earlier > 0 {
                        assert(rest[earlier - 1] == pairs[earlier]);
                    }
                }
                assert(is_first_named(pairs, key, place + 1));
            },
            None => {
                assert forall|place: int| 0 <= place < pairs.len() implies (#[trigger] pairs[place]).0
                    != key by {
                    if place > 0 {
                        assert(rest[place - 1] == pairs[place]);
                    }
                }
            },
        }
    }
}

/// The names of the three parameters that a redirect is searched for differ from
/// one another.
pub proof fn lemma_parameter_names_differ()
    ensures
        "state"@ != "code"@,
        "state"@ != "error"@,
        "code"@ != "error"@,
{
    reveal_strlit("state");
    reveal_strlit("code");
    reveal_strlit("error");
    assert("state"@[0] != "error"@[0]);
}

/// A callback that is read from a redirect holds a code or an error, never both
/// and never neither.
pub proof fn lemma_callback_grants_or_denies(pairs: Seq<(Seq<char>, Seq<char>)>)
    ensures
        callback_of_pairs(pairs) matches Ok(callback) ==> (callback.code is Some) != (callback.error
            is Some),
{
}

/// Without a `state` parameter, or without both `code` and `error`, the redirect
/// is refused as an invalid callback; otherwise it is read.
pub proof fn lemma_callback_needs_state_and_response(pairs: Seq<(Seq<char>, Seq<char>)>)
    ensures
        callback_of_pairs(pairs) is Ok <==> first_value(pairs, "state"@) is Some && (first_value(
            pairs,
            "code"@,
        ) is Some || first_value(pairs, "error"@) is Some),
        callback_of_pairs(pairs) matches Err(error) ==> error.kind == ErrorKind::InvalidCallbackURL,
{
}

} // verus!
