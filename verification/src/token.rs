//! The token that the provider hands out for a code.

use vstd::prelude::*;

use crate::clock::{datetime_to_timestamp, timestamp_after, CLOCK_END};
use crate::error::{outcome_is, CauseView, ErrorCause, ErrorKind, ErrorView, SpotifyError};
use crate::json::{json_document, json_member, parse_json, JsonMember, MemberView};
use crate::scope::{
    joined, lemma_parse_inverts_wire, lemma_wire_name_is_a_word, scope_named, SpotifyScope,
};
use crate::text::{is_space, lemma_words_with_one_more, split_words, words};

verus! {

/// The credentials that the provider hands out for an authorization code.
#[derive(Debug, PartialEq)]
pub struct SpotifyToken {
    /// The credential that calls to the Web API carry.
    pub access_token: String,
    /// How the access token is to be presented, such as `Bearer`.
    pub token_type: String,
    /// The scopes that the access token is good for.
    pub scope: Vec<SpotifyScope>,
    /// For how many seconds the access token is good.
    pub expires_in: u32,
    /// The second, counted from the Unix epoch, at which the token expires. It is
    /// not sent by the provider.
    pub expires_at: Option<i64>,
    /// The credential by which a new access token can be had without the user.
    pub refresh_token: String,
}

/// What a [`SpotifyToken`] holds, as mathematical values.
pub struct TokenView {
    pub access_token: Seq<char>,
    pub token_type: Seq<char>,
    pub scope: Seq<SpotifyScope>,
    pub expires_in: u32,
    pub expires_at: Option<i64>,
    pub refresh_token: Seq<char>,
}

impl View for SpotifyToken {
    type V = TokenView;

    open spec fn view(&self) -> TokenView {
        TokenView {
            access_token: self.access_token@,
            token_type: self.token_type@,
            scope: self.scope@,
            expires_in: self.expires_in,
            expires_at: self.expires_at,
            refresh_token: self.refresh_token@,
        }
    }
}

/// What came of the one request to the token endpoint.
#[derive(Debug)]
pub enum ExchangeOutcome {
    /// No response came: the message of the transport's error.
    SendFailed(String),
    /// A response came, but its body could not be read: the message of that error.
    ReadFailed(String),
    /// A response came: whether its status is one of success, and its whole body.
    Received { success: bool, body: String },
}

/// An [`ExchangeOutcome`] as a mathematical value.
pub enum OutcomeView {
    SendFailed(Seq<char>),
    ReadFailed(Seq<char>),
    Received { success: bool, body: Seq<char> },
}

impl View for ExchangeOutcome {
    type V = OutcomeView;

    open spec fn view(&self) -> OutcomeView {
        match *self {
            ExchangeOutcome::SendFailed(message) => OutcomeView::SendFailed(message@),
            ExchangeOutcome::ReadFailed(message) => OutcomeView::ReadFailed(message@),
            ExchangeOutcome::Received { success, body } => OutcomeView::Received {
                success,
                body: body@,
            },
        }
    }
}

/// The error for a response body that is no token.
pub open spec fn malformed_token() -> ErrorView {
    ErrorView::plain(ErrorKind::ParsingFailed, "token response failed to parse"@)
}

/// The scopes that a text names, word by word. One word that is no scope's name
/// makes the whole text an error.
pub open spec fn scopes_of_text(text: Seq<char>) -> Result<Seq<SpotifyScope>, ErrorView> {
    let names = words(text);
    if forall|i: int| 0 <= i < names.len() ==> scope_named(#[trigger] names[i]) is Some {
        Ok(Seq::new(names.len(), |i: int| scope_named(names[i])->0))
    } else {
        Err(ErrorView::plain(ErrorKind::ParsingFailed, "unknown scope"@))
    }
}

/// The scopes that the `scope` member of a response grants: those that its text
/// names, and none where the member is missing or no string.
pub open spec fn scopes_of_member(member: Option<MemberView>) -> Result<
    Seq<SpotifyScope>,
    ErrorView,
> {
    match member {
        Some(MemberView::Text(text)) => scopes_of_text(text),
        _ => Ok(Seq::empty()),
    }
}

/// The text of a member that must be a string.
pub open spec fn text_of_member(member: Option<MemberView>) -> Option<Seq<char>> {
    match member {
        Some(MemberView::Text(text)) => Some(text),
        _ => None,
    }
}

/// The value of a member that must be a number of seconds: an integer from 0 to
/// 2^32 - 1.
pub open spec fn seconds_of_member(member: Option<MemberView>) -> Option<u32> {
    match member {
        Some(MemberView::Number(Some(value))) if value <= u32::MAX => Some(value as u32),
        _ => None,
    }
}

/// The token that five members of a response make up, not yet stamped with the
/// second at which it expires.
///
/// `access_token`, `token_type` and `refresh_token` must be strings and
/// `expires_in` a number of seconds; then the scopes must read.
pub open spec fn token_of_members(
    access_token: Option<MemberView>,
    token_type: Option<MemberView>,
    scope: Option<MemberView>,
    expires_in: Option<MemberView>,
    refresh_token: Option<MemberView>,
) -> Result<TokenView, ErrorView> {
    if text_of_member(access_token) is None || text_of_member(token_type) is None
        || seconds_of_member(expires_in) is None || text_of_member(refresh_token) is None {
        Err(malformed_token())
    } else {
        match scopes_of_member(scope) {
            Ok(scopes) => Ok(
                TokenView {
                    access_token: text_of_member(access_token)->0,
                    token_type: text_of_member(token_type)->0,
                    scope: scopes,
                    expires_in: seconds_of_member(expires_in)->0,
                    expires_at: None,
                    refresh_token: text_of_member(refresh_token)->0,
                },
            ),
            Err(error) => Err(error),
        }
    }
}

/// The token that the members of a JSON object make up.
pub open spec fn token_of_document(members: Map<Seq<char>, MemberView>) -> Result<
    TokenView,
    ErrorView,
> {
    token_of_members(
        members.get("access_token"@),
        members.get("token_type"@),
        members.get("scope"@),
        members.get("expires_in"@),
        members.get("refresh_token"@),
    )
}

/// The token that a response body makes up.
pub open spec fn token_of_text(body: Seq<char>) -> Result<TokenView, ErrorView> {
    match json_document(body) {
        Some(members) => token_of_document(members),
        None => Err(
            ErrorView::caused(
                ErrorKind::ParsingFailed,
                "token response failed to parse"@,
                CauseView::Json,
            ),
        ),
    }
}

/// What the one request to the token endpoint comes to, before the token is
/// stamped: the token of a successful response's body, or an error.
pub open spec fn token_of_outcome(outcome: OutcomeView) -> Result<TokenView, ErrorView> {
    match outcome {
        OutcomeView::SendFailed(message) => Err(
            ErrorView::caused(
                ErrorKind::RequestFailed,
                "token request failed"@,
                CauseView::Other(message),
            ),
        ),
        OutcomeView::ReadFailed(message) => Err(
            ErrorView::caused(
                ErrorKind::ParsingFailed,
                "failed to read the token response"@,
                CauseView::Other(message),
            ),
        ),
        OutcomeView::Received { success: true, body } => token_of_text(body),
        OutcomeView::Received { success: false, body } => Err(
            ErrorView::plain(ErrorKind::ParsingFailed, "failed to convert callback into token"@),
        ),
    }
}

/// A token with the second at which it expires: `expires_in` seconds after `now`.
pub open spec fn stamped_at(token: TokenView, now: int) -> TokenView {
    TokenView { expires_at: Some((now + token.expires_in) as i64), ..token }
}

/// What the one request to the token endpoint comes to, where the answer is read
/// at the second `now`.
pub open spec fn token_of_outcome_at(outcome: OutcomeView, now: int) -> Result<
    TokenView,
    ErrorView,
> {
    match token_of_outcome(outcome) {
        Ok(token) => Ok(stamped_at(token, now)),
        Err(error) => Err(error),
    }
}

/// The words of the text that scopes are joined to are the scopes' names.
pub proof fn lemma_joined_scopes_are_words(scopes: Seq<SpotifyScope>)
    ensures
        words(joined(scopes)) == Seq::new(scopes.len(), |i: int| scopes[i].wire()),
        scopes.len() > 0 ==> joined(scopes).len() > 0 && !is_space(joined(scopes).last()),
    decreases scopes.len(),
{
    let names = Seq::new(scopes.len(), |i: int| scopes[i].wire());
    if scopes.len() == 0 {
        assert(words(joined(scopes)) =~= names);
    } else {
        let last = scopes.last().wire();
        lemma_wire_name_is_a_word(scopes.last());
        if scopes.len() == 1 {
            lemma_words_with_one_more(Seq::empty(), last);
            assert(Seq::<char>::empty() + last =~= last);
            assert(words(joined(scopes)) =~= names);
        } else {
            let before = joined(scopes.drop_last());
            lemma_joined_scopes_are_words(scopes.drop_last());
            assert((before + seq![' ']).drop_last() =~= before);
            assert(is_space((before + seq![' ']).last()));
            lemma_words_with_one_more(before + seq![' '], last);
            assert(words(joined(scopes)) =~= names);
        }
    }
}

/// The scopes that are asked for, joined as the authorize address carries them,
/// read back as the very same scopes where a token grants them in that text.
pub proof fn lemma_joined_scopes_read_back(scopes: Seq<SpotifyScope>)
    ensures
        scopes_of_text(joined(scopes)) == Ok::<Seq<SpotifyScope>, ErrorView>(scopes),
{
    lemma_joined_scopes_are_words(scopes);
    let names = words(joined(scopes));
    assert forall|i: int| 0 <= i < names.len() implies scope_named(#[trigger] names[i]) == Some(
        scopes[i],
    ) by {
        lemma_parse_inverts_wire(scopes[i]);
    }
    assert(Seq::new(names.len(), |i: int| scope_named(names[i])->0) =~= scopes);
}

/// A token that comes of an exchange is stamped: it expires `expires_in` seconds
/// after the second at which the answer was read. An exchange that fails never
/// does so as an invalid callback.
pub proof fn lemma_exchanged_token_is_stamped(outcome: OutcomeView, now: int)
    requires
        i64::MIN <= now,
        now + u32::MAX <= i64::MAX,
    ensures
        match token_of_outcome_at(outcome, now) {
            Ok(token) => token.expires_at == Some((now + token.expires_in) as i64) && now
                + token.expires_in == token.expires_at->0,
            Err(error) => error.kind != ErrorKind::InvalidCallbackURL,
        },
{
}

/// The text of a member that must be a string.
fn member_text(member: Option<JsonMember>) -> (text: Option<String>)
    ensures
        text.deep_view() == text_of_member(member.deep_view()),
{
    match member {
        Some(JsonMember::Text(text)) => Some(text),
        _ => None,
    }
}

/// The value of a member that must be a number of seconds.
fn member_seconds(member: &Option<JsonMember>) -> (seconds: Option<u32>)
    ensures
        seconds == seconds_of_member(member.deep_view()),
{
    match member {
        Some(JsonMember::Number(Some(value))) => {
            if *value <= u32::MAX as u64 {
                Some(*value as u32)
            } else {
                None
            }
        },
        _ => None,
    }
}

/// Reads the scopes that a text names, word by word.
pub fn scopes_from_text(text: &str) -> (scopes: Result<Vec<SpotifyScope>, SpotifyError>)
    ensures
        outcome_is(scopes, scopes_of_text(text@)),
{
    let names = split_words(text);
    let mut scopes: Vec<SpotifyScope> = Vec::new();
    let mut i: usize = 0;
    while i < names.len()
        invariant
            i <= names.len(),
            names.deep_view() == words(text@),
            scopes@.len() == i,
            forall|j: int|
                0 <= j < i ==> scope_named(#[trigger] words(text@)[j]) == Some(scopes@[j]),
        decreases names.len() - i,
    {
        assert(names.deep_view()[i as int] == names@[i as int]@);
        match SpotifyScope::from_str(names[i].as_str()) {
            Ok(scope) => scopes.push(scope),
            Err(error) => {
                return Err(error);
            },
        }
        i += 1;
    }
    assert(scopes@ =~= scopes_of_text(text@)->Ok_0);
    Ok(scopes)
}

/// Reads the scopes that the `scope` member of a response grants: those that its
/// text names, and none where the member is missing or no string.
pub fn scopes_from_member(member: Option<JsonMember>) -> (scopes: Result<
    Vec<SpotifyScope>,
    SpotifyError,
>)
    ensures
        outcome_is(scopes, scopes_of_member(member.deep_view())),
{
    match member {
        Some(JsonMember::Text(text)) => scopes_from_text(text.as_str()),
        _ => Ok(Vec::new()),
    }
}

impl SpotifyToken {
    /// Makes a token of five members of a response, each as it was found under its
    /// key. The token is not yet stamped: `expires_at` is `None`.
    ///
    /// A name in `scope` that is no scope's name is an error, as it is for
    /// [`SpotifyScope::from_str`]; a `scope` that is missing or no string grants
    /// nothing.
    pub fn from_members(
        access_token: Option<JsonMember>,
        token_type: Option<JsonMember>,
        scope: Option<JsonMember>,
        expires_in: Option<JsonMember>,
        refresh_token: Option<JsonMember>,
    ) -> (token: Result<SpotifyToken, SpotifyError>)
        ensures
            outcome_is(
                token,
                token_of_members(
                    access_token.deep_view(),
                    token_type.deep_view(),
                    scope.deep_view(),
                    expires_in.deep_view(),
                    refresh_token.deep_view(),
                ),
            ),
    {
        let seconds = member_seconds(&expires_in);
        let access_token = member_text(access_token);
        let token_type = member_text(token_type);
        let refresh_token = member_text(refresh_token);
        match (access_token, token_type, seconds, refresh_token) {
            (Some(access_token), Some(token_type), Some(expires_in), Some(refresh_token)) => {
                match scopes_from_member(scope) {
                    Ok(scope) => Ok(
                        SpotifyToken {
                            access_token,
                            token_type,
                            scope,
                            expires_in,
                            expires_at: None,
                            refresh_token,
                        },
                    ),
                    Err(error) => Err(error),
                }
            },
            _ => Err(SpotifyError::plain(ErrorKind::ParsingFailed, "token response failed to parse")),
        }
    }

    /// Reads a token from the body of a response. The token is not yet stamped:
    /// `expires_at` is `None`.
    ///
    /// What `serde_json` makes of the text decides whether it is a document and
    /// which members it holds; [`SpotifyToken::from_members`] decides the rest.
    pub fn from_json(body: &str) -> (token: Result<SpotifyToken, SpotifyError>)
        ensures
            outcome_is(token, token_of_text(body@)),
    {
        match parse_json(body) {
            Ok(document) => SpotifyToken::from_members(
                json_member(&document, "access_token"),
                json_member(&document, "token_type"),
                json_member(&document, "scope"),
                json_member(&document, "expires_in"),
                json_member(&document, "refresh_token"),
            ),
            Err(cause) => Err(
                SpotifyError::caused(
                    ErrorKind::ParsingFailed,
                    "token response failed to parse",
                    ErrorCause::Json(cause),
                ),
            ),
        }
    }

    /// The same token, expiring `expires_in` seconds after the second `now`.
    pub fn stamped(self, now: i64) -> (token: SpotifyToken)
        requires
            now + self.expires_in <= i64::MAX,
        ensures
            token@ == stamped_at(self@, now as int),
    {
        let expires_at = timestamp_after(now, self.expires_in);
        SpotifyToken {
            access_token: self.access_token,
            token_type: self.token_type,
            scope: self.scope,
            expires_in: self.expires_in,
            expires_at: Some(expires_at),
            refresh_token: self.refresh_token,
        }
    }

    /// Concludes the exchange at the second `now`: the token of a successful
    /// response, stamped, or the error that the outcome amounts to.
    pub fn from_exchange_at(outcome: ExchangeOutcome, now: i64) -> (token: Result<
        SpotifyToken,
        SpotifyError,
    >)
        requires
            now + u32::MAX <= i64::MAX,
        ensures
            outcome_is(token, token_of_outcome_at(outcome@, now as int)),
    {
        match unstamped(outcome) {
            Ok(token) => Ok(token.stamped(now)),
            Err(error) => Err(error),
        }
    }

    /// Concludes the exchange now: the token of a successful response, stamped by
    /// the system clock, or the error that the outcome amounts to.
    ///
    /// The clock is read only for a token. Which second it shows is not known
    /// here: the token is that of [`SpotifyToken::from_exchange_at`] for some
    /// second of the clock's range.
    pub fn from_exchange(outcome: ExchangeOutcome) -> (token: Result<SpotifyToken, SpotifyError>)
        ensures
            match token_of_outcome(outcome@) {
                Ok(read) => token is Ok && exists|now: int|
                    0 <= now < CLOCK_END && token->Ok_0@ == #[trigger] stamped_at(read, now),
                Err(error) => token is Err && token->Err_0@ == error,
            },
    {
        match unstamped(outcome) {
            Ok(token) => {
                let ghost read = token@;
                let expires_at = datetime_to_timestamp(token.expires_in);
                let token = SpotifyToken {
                    access_token: token.access_token,
                    token_type: token.token_type,
                    scope: token.scope,
                    expires_in: token.expires_in,
                    expires_at: Some(expires_at),
                    refresh_token: token.refresh_token,
                };
                assert(token@ == stamped_at(read, expires_at - read.expires_in));
                Ok(token)
            },
            Err(error) => Err(error),
        }
    }
}

/// What the request came to, before the token is stamped.
fn unstamped(outcome: ExchangeOutcome) -> (token: Result<SpotifyToken, SpotifyError>)
    ensures
        outcome_is(token, token_of_outcome(outcome@)),
{
    match outcome {
        ExchangeOutcome::SendFailed(message) => Err(
            SpotifyError::caused(
                ErrorKind::RequestFailed,
                "token request failed",
                ErrorCause::Other(message),
            ),
        ),
        ExchangeOutcome::ReadFailed(message) => Err(
            SpotifyError::caused(
                ErrorKind::ParsingFailed,
                "failed to read the token response",
                ErrorCause::Other(message),
            ),
        ),
        ExchangeOutcome::Received { success, body } => {
            if success {
                SpotifyToken::from_json(body.as_str())
            } else {
                Err(SpotifyError::plain(ErrorKind::ParsingFailed, "failed to convert callback into token"))
            }
        },
    }
}

} // verus!
